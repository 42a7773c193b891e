use vstd::prelude::*;

verus! {

/// The error kinds of the election core.
#[derive(Clone, Copy, Debug, PartialEq, Eq, Structural)]
pub enum ElectionError {
    /// Transport failure talking to the coordination service.
    ConnectionError,
    /// Server-side protocol failure.
    ProtocolError,
    /// The candidate was withdrawn from the campaign.
    CampaignError,
    /// The lease expired or the keep-alive channel closed.
    KeepAliveError,
    /// A delivered event lacked its required payload.
    WatchError,
    /// Key or value bytes were not valid text.
    DecodeError,
}

/// A startup configuration error: a required argument was absent.
#[derive(Clone, Copy, Debug, PartialEq, Eq, Structural)]
pub enum ConfigError {
    /// No node name was supplied.
    MissingNode,
    /// No coordination-service host was supplied.
    MissingHost,
    /// No coordination-service port was supplied.
    MissingPort,
}

} // verus!
