use vstd::prelude::*;

use crate::errors::ConfigError;

verus! {

/// Startup configuration: the node identity and the coordination service's
/// endpoint.
#[derive(Debug)]
pub struct Args {
    /// Node identity: the campaign's candidate value, unique per node.
    pub node: String,
    /// Coordination-service host.
    pub host: String,
    /// Coordination-service port.
    pub port: usize,
}

/// Step-by-step assembly of `Args`.
#[derive(Debug)]
pub struct ArgsBuilder {
    node: String,
    host: String,
    port: usize,
}

impl Args {
    /// A builder with empty fields.
    pub fn builder() -> (b: ArgsBuilder)
        ensures
            b.spec_node() == Seq::<char>::empty(),
            b.spec_host() == Seq::<char>::empty(),
            b.spec_port() == 0,
    {
        ArgsBuilder { node: String::new(), host: String::new(), port: 0 }
    }
}

impl ArgsBuilder {
    /// The node identity set so far.
    pub closed spec fn spec_node(&self) -> Seq<char> {
        self.node@
    }

    /// The host set so far.
    pub closed spec fn spec_host(&self) -> Seq<char> {
        self.host@
    }

    /// The port set so far.
    pub closed spec fn spec_port(&self) -> usize {
        self.port
    }

    /// Set the node identity.
    pub fn node(&mut self, node: String)
        ensures
            final(self).spec_node() == node@,
            final(self).spec_host() == old(self).spec_host(),
            final(self).spec_port() == old(self).spec_port(),
    {
        self.node = node;
    }

    /// Set the host.
    pub fn host(&mut self, host: String)
        ensures
            final(self).spec_host() == host@,
            final(self).spec_node() == old(self).spec_node(),
            final(self).spec_port() == old(self).spec_port(),
    {
        self.host = host;
    }

    /// Set the port.
    pub fn port(&mut self, port: usize)
        ensures
            final(self).spec_port() == port,
            final(self).spec_node() == old(self).spec_node(),
            final(self).spec_host() == old(self).spec_host(),
    {
        self.port = port;
    }

    /// Finish: the assembled configuration.
    pub fn build(self) -> (a: Args)
        ensures
            a.node@ == self.spec_node(),
            a.host@ == self.spec_host(),
            a.port == self.spec_port(),
    {
        let node = self.node;
        let host = self.host;
        let port = self.port;
        Args { node, host, port }
    }
}

/// Validate the raw argument values read at startup. All three are required;
/// the first absent one (node, then host, then port) is reported as a
/// configuration error instead of aborting.
pub fn get_args(node: Option<String>, host: Option<String>, port: Option<usize>) -> (r: Result<
    Args,
    ConfigError,
>)
    ensures
        r is Ok <==> node is Some && host is Some && port is Some,
        r matches Ok(a) ==> (node matches Some(n) && a.node@ == n@) && (host matches Some(h)
            && a.host@ == h@) && (port matches Some(p) && a.port == p),
        r == Err::<Args, ConfigError>(ConfigError::MissingNode) <==> node is None,
        r == Err::<Args, ConfigError>(ConfigError::MissingHost) <==> (node is Some
            && host is None),
        r == Err::<Args, ConfigError>(ConfigError::MissingPort) <==> (node is Some && host is Some
            && port is None),
{
    let mut builder = Args::builder();
    match node {
        Some(val) => builder.node(val),
        None => {
            return Err(ConfigError::MissingNode);
        },
    }
    match host {
        Some(val) => builder.host(val),
        None => {
            return Err(ConfigError::MissingHost);
        },
    }
    match port {
        Some(val) => builder.port(val),
        None => {
            return Err(ConfigError::MissingPort);
        },
    }
    Ok(builder.build())
}

} // verus!
