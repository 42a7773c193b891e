use vstd::prelude::*;

use crate::coordinator::{spec_conclude, CoordinatorReport, TaskResult};
use crate::errors::ElectionError;

verus! {

/// Time-to-live, in time-units, of every lease the participant requests.
pub const LEASE_TTL: i64 = 10;

/// Cadence, in time-units, of keep-alive renewals. Kept below the TTL so one
/// missed heartbeat does not cost the lease, while two consecutive misses do.
pub const KEEP_ALIVE_INTERVAL: u64 = 7;

/// Where the participant stands in its campaign-and-renew cycle.
#[derive(Clone, Copy, Debug, PartialEq, Eq, Structural)]
pub enum ParticipantState {
    /// A lease request is outstanding: the start of every cycle.
    AwaitingLease,
    /// Campaigning under the granted lease; suspended until leadership is won.
    Campaigning { lease_id: i64 },
    /// Leadership won; opening the keep-alive channel for the lease.
    OpeningKeepAlive { lease_id: i64 },
    /// A keep-alive send is outstanding on the open channel.
    Renewing { lease_id: i64 },
    /// The last keep-alive succeeded; waiting out the cadence interval.
    Waiting { lease_id: i64 },
    /// A fatal error ended the participant.
    Stopped { error: ElectionError },
}

/// What the coordination service (or the clock) reported back.
#[derive(Clone, Copy, Debug, PartialEq, Eq, Structural)]
pub enum ParticipantEvent {
    /// The lease request succeeded.
    LeaseGranted { lease_id: i64 },
    /// The lease request failed: fatal.
    LeaseGrantFailed { error: ElectionError },
    /// This node was granted leadership.
    CampaignWon,
    /// The campaign failed or the candidate was withdrawn: fatal.
    CampaignFailed { error: ElectionError },
    /// The keep-alive channel is open.
    KeepAliveOpened,
    /// The keep-alive channel could not be opened: recoverable.
    KeepAliveOpenFailed,
    /// The keep-alive send succeeded.
    KeepAliveOk,
    /// The keep-alive send failed: leadership lost, recoverable.
    KeepAliveFailed,
    /// The cadence interval has elapsed.
    SleepFinished,
}

/// The single outside operation the participant asks its driver to perform
/// next.
#[derive(Clone, Copy, Debug, PartialEq, Eq, Structural)]
pub enum ParticipantAction {
    /// Request a fresh lease with the given time-to-live.
    GrantLease { ttl: i64 },
    /// Campaign for the election under the lease, with the node identity as
    /// candidate value; suspends until leadership is won.
    Campaign { lease_id: i64 },
    /// Open a keep-alive channel for the lease.
    OpenKeepAlive { lease_id: i64 },
    /// Send one keep-alive request on the channel.
    SendKeepAlive { lease_id: i64 },
    /// Sleep for the given number of time-units.
    Sleep { units: u64 },
    /// Stop: surface the fatal error to the coordinator.
    Terminate { error: ElectionError },
}

/// The participant's transition function: from the current state and the
/// outcome of the pending operation to the next state and the next operation.
/// `None` where the event cannot answer the state's pending operation.
pub open spec fn spec_step(s: ParticipantState, e: ParticipantEvent) -> Option<
    (ParticipantState, ParticipantAction),
> {
    match (s, e) {
        (
            ParticipantState::AwaitingLease,
            ParticipantEvent::LeaseGranted { lease_id },
        ) => Some(
            (
                ParticipantState::Campaigning { lease_id },
                ParticipantAction::Campaign { lease_id },
            ),
        ),
        (
            ParticipantState::AwaitingLease,
            ParticipantEvent::LeaseGrantFailed { error },
        ) => Some(
            (ParticipantState::Stopped { error }, ParticipantAction::Terminate { error }),
        ),
        (ParticipantState::Campaigning { lease_id }, ParticipantEvent::CampaignWon) => Some(
            (
                ParticipantState::OpeningKeepAlive { lease_id },
                ParticipantAction::OpenKeepAlive { lease_id },
            ),
        ),
        (
            ParticipantState::Campaigning { .. },
            ParticipantEvent::CampaignFailed { error },
        ) => Some(
            (ParticipantState::Stopped { error }, ParticipantAction::Terminate { error }),
        ),
        (
            ParticipantState::OpeningKeepAlive { lease_id },
            ParticipantEvent::KeepAliveOpened,
        ) => Some(
            (
                ParticipantState::Renewing { lease_id },
                ParticipantAction::SendKeepAlive { lease_id },
            ),
        ),
        (
            ParticipantState::OpeningKeepAlive { .. },
            ParticipantEvent::KeepAliveOpenFailed,
        ) => Some(
            (ParticipantState::AwaitingLease, ParticipantAction::GrantLease { ttl: LEASE_TTL }),
        ),
        (ParticipantState::Renewing { lease_id }, ParticipantEvent::KeepAliveOk) => Some(
            (
                ParticipantState::Waiting { lease_id },
                ParticipantAction::Sleep { units: KEEP_ALIVE_INTERVAL },
            ),
        ),
        (ParticipantState::Renewing { .. }, ParticipantEvent::KeepAliveFailed) => Some(
            (ParticipantState::AwaitingLease, ParticipantAction::GrantLease { ttl: LEASE_TTL }),
        ),
        (ParticipantState::Waiting { lease_id }, ParticipantEvent::SleepFinished) => Some(
            (
                ParticipantState::Renewing { lease_id },
                ParticipantAction::SendKeepAlive { lease_id },
            ),
        ),
        _ => None,
    }
}

/// Can `e` answer the operation pending in `s`?
pub open spec fn event_permitted(s: ParticipantState, e: ParticipantEvent) -> bool {
    spec_step(s, e) is Some
}

/// Enter the cycle: the participant starts by requesting a lease with the
/// fixed TTL.
pub fn participant_init() -> (r: (ParticipantState, ParticipantAction))
    ensures
        r == (ParticipantState::AwaitingLease, ParticipantAction::GrantLease { ttl: LEASE_TTL }),
{
    (ParticipantState::AwaitingLease, ParticipantAction::GrantLease { ttl: LEASE_TTL })
}

/// Decide at run time whether `e` answers the operation pending in `s`.
pub fn permitted(s: &ParticipantState, e: &ParticipantEvent) -> (r: bool)
    ensures
        r == event_permitted(*s, *e),
{
    match (*s, *e) {
        (ParticipantState::AwaitingLease, ParticipantEvent::LeaseGranted { .. }) => true,
        (ParticipantState::AwaitingLease, ParticipantEvent::LeaseGrantFailed { .. }) => true,
        (ParticipantState::Campaigning { .. }, ParticipantEvent::CampaignWon) => true,
        (ParticipantState::Campaigning { .. }, ParticipantEvent::CampaignFailed { .. }) => true,
        (ParticipantState::OpeningKeepAlive { .. }, ParticipantEvent::KeepAliveOpened) => true,
        (ParticipantState::OpeningKeepAlive { .. }, ParticipantEvent::KeepAliveOpenFailed) => true,
        (ParticipantState::Renewing { .. }, ParticipantEvent::KeepAliveOk) => true,
        (ParticipantState::Renewing { .. }, ParticipantEvent::KeepAliveFailed) => true,
        (ParticipantState::Waiting { .. }, ParticipantEvent::SleepFinished) => true,
        _ => false,
    }
}

/// Take one step of the campaign-and-renew cycle.
pub fn step(s: &ParticipantState, e: &ParticipantEvent) -> (r: (
    ParticipantState,
    ParticipantAction,
))
    requires
        event_permitted(*s, *e),
    ensures
        Some(r) == spec_step(*s, *e),
{
    match (*s, *e) {
        (ParticipantState::AwaitingLease, ParticipantEvent::LeaseGranted { lease_id }) => (
            ParticipantState::Campaigning { lease_id },
            ParticipantAction::Campaign { lease_id },
        ),
        (ParticipantState::AwaitingLease, ParticipantEvent::LeaseGrantFailed { error }) => (
            ParticipantState::Stopped { error },
            ParticipantAction::Terminate { error },
        ),
        (ParticipantState::Campaigning { lease_id }, ParticipantEvent::CampaignWon) => (
            ParticipantState::OpeningKeepAlive { lease_id },
            ParticipantAction::OpenKeepAlive { lease_id },
        ),
        (ParticipantState::Campaigning { .. }, ParticipantEvent::CampaignFailed { error }) => (
            ParticipantState::Stopped { error },
            ParticipantAction::Terminate { error },
        ),
        (ParticipantState::OpeningKeepAlive { lease_id }, ParticipantEvent::KeepAliveOpened) => (
            ParticipantState::Renewing { lease_id },
            ParticipantAction::SendKeepAlive { lease_id },
        ),
        (ParticipantState::OpeningKeepAlive { .. }, ParticipantEvent::KeepAliveOpenFailed) => (
            ParticipantState::AwaitingLease,
            ParticipantAction::GrantLease { ttl: LEASE_TTL },
        ),
        (ParticipantState::Renewing { lease_id }, ParticipantEvent::KeepAliveOk) => (
            ParticipantState::Waiting { lease_id },
            ParticipantAction::Sleep { units: KEEP_ALIVE_INTERVAL },
        ),
        (ParticipantState::Renewing { .. }, ParticipantEvent::KeepAliveFailed) => (
            ParticipantState::AwaitingLease,
            ParticipantAction::GrantLease { ttl: LEASE_TTL },
        ),
        (ParticipantState::Waiting { lease_id }, ParticipantEvent::SleepFinished) => (
            ParticipantState::Renewing { lease_id },
            ParticipantAction::SendKeepAlive { lease_id },
        ),
        _ => vstd::pervasive::unreached(),
    }
}

/// A run of the cycle: `states[0]` is the initial state, and each event in
/// turn answers the pending operation, `states[i + 1]` and `actions[i]` being
/// what `spec_step` yields.
pub open spec fn run_ok(
    states: Seq<ParticipantState>,
    events: Seq<ParticipantEvent>,
    actions: Seq<ParticipantAction>,
) -> bool {
    &&& states.len() == events.len() + 1
    &&& actions.len() == events.len()
    &&& states[0] == ParticipantState::AwaitingLease
    &&& forall|i: int|
        0 <= i < events.len() ==> spec_step(states[i], events[i]) == Some(
            (states[i + 1], actions[i]),
        )
}

/// Keep-alive cadence: in any run, a keep-alive send is issued only as the
/// first send of a freshly opened channel, or right after a full sleep
/// interval — and that sleep was granted only because the previous send
/// succeeded. Hence at most one send per interval, and only after success.
pub proof fn lemma_keep_alive_cadence(
    states: Seq<ParticipantState>,
    events: Seq<ParticipantEvent>,
    actions: Seq<ParticipantAction>,
    i: int,
)
    requires
        run_ok(states, events, actions),
        0 <= i < actions.len(),
        actions[i] matches ParticipantAction::SendKeepAlive { .. },
    ensures
        (states[i] matches ParticipantState::OpeningKeepAlive { .. } && events[i]
            == ParticipantEvent::KeepAliveOpened) || (states[i] matches ParticipantState::Waiting {
            ..
        } && events[i] == ParticipantEvent::SleepFinished && i > 0 && events[i - 1]
            == ParticipantEvent::KeepAliveOk && actions[i - 1] == (ParticipantAction::Sleep {
            units: KEEP_ALIVE_INTERVAL,
        })),
{
    assert(spec_step(states[i], events[i]) == Some((states[i + 1], actions[i])));
    if states[i] matches ParticipantState::Waiting { .. } {
        assert(states[0] != states[i]);
        assert(i > 0);
        assert(spec_step(states[i - 1], events[i - 1]) == Some((states[i], actions[i - 1])));
    }
}

/// Recovery on keep-alive failure: a failed send re-enters the lease-grant
/// step at once (the one and only next step), and a newly granted lease leads
/// straight back to a campaign.
pub proof fn lemma_recovery_on_keep_alive_failure(lease_id: i64, next_lease: i64)
    ensures
        spec_step(
            ParticipantState::Renewing { lease_id },
            ParticipantEvent::KeepAliveFailed,
        ) == Some(
            (ParticipantState::AwaitingLease, ParticipantAction::GrantLease { ttl: LEASE_TTL }),
        ),
        spec_step(
            ParticipantState::AwaitingLease,
            ParticipantEvent::LeaseGranted { lease_id: next_lease },
        ) == Some(
            (
                ParticipantState::Campaigning { lease_id: next_lease },
                ParticipantAction::Campaign { lease_id: next_lease },
            ),
        ),
{
}

/// Fatal propagation: a failure in lease grant or campaign stops the
/// participant with that very error, a stopped participant takes no further
/// step, and the coordinator's conclusion for such a failure logs the error
/// and terminates without waiting on the other task.
pub proof fn lemma_fatal_propagation(lease_id: i64, error: ElectionError)
    ensures
        spec_step(
            ParticipantState::AwaitingLease,
            ParticipantEvent::LeaseGrantFailed { error },
        ) == Some((ParticipantState::Stopped { error }, ParticipantAction::Terminate { error })),
        spec_step(
            ParticipantState::Campaigning { lease_id },
            ParticipantEvent::CampaignFailed { error },
        ) == Some((ParticipantState::Stopped { error }, ParticipantAction::Terminate { error })),
        forall|e: ParticipantEvent|
            !event_permitted(ParticipantState::Stopped { error }, e),
        spec_conclude(TaskResult::Failed { error }) == (CoordinatorReport {
            failure: Some(error),
            terminate: true,
        }),
{
}

} // verus!
