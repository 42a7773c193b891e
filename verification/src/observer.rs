use vstd::prelude::*;

use crate::errors::ElectionError;
use crate::state::State;
use crate::text::{bytes_eq, is_utf8, validate_utf8};

verus! {

/// The key/value payload of a leadership change event, as the raw bytes the
/// subscription delivered.
#[derive(Debug)]
pub struct EventKv {
    /// The election key under which the leader's value is stored.
    pub key: Vec<u8>,
    /// The current leader's candidate value.
    pub value: Vec<u8>,
}

/// One change notification from the watch subscription. `kv` is absent when
/// the delivered event is malformed (carries no payload).
#[derive(Debug)]
pub struct ObservedEvent {
    pub kv: Option<EventKv>,
}

/// One outcome of waiting on the subscription stream.
#[derive(Debug)]
pub enum WatchItem {
    /// A delivered notification.
    Event(ObservedEvent),
    /// The stream ended: no more messages.
    Closed,
}

/// A well-formed event: it carries a payload whose key and value are valid text.
pub open spec fn event_ok(e: ObservedEvent) -> bool {
    e.kv matches Some(kv) && is_utf8(kv.key@) && is_utf8(kv.value@)
}

/// The error an ill-formed event is rejected with: a missing payload is a
/// watch error, undecodable text a decode error.
pub open spec fn event_error(e: ObservedEvent) -> ElectionError
    recommends
        !event_ok(e),
{
    if e.kv is None {
        ElectionError::WatchError
    } else {
        ElectionError::DecodeError
    }
}

/// Does the event name this node as leader, i.e. does its value equal the
/// node identity?
pub open spec fn event_names_leader(e: ObservedEvent, node: Seq<u8>) -> bool
    recommends
        event_ok(e),
{
    e.kv matches Some(kv) && kv.value@ == node
}

/// Apply one leadership change event to the shared state: set the flag to
/// whether the event's value equals the node identity. A malformed event
/// (no payload) or undecodable text is rejected with the corresponding error
/// and leaves the flag untouched.
pub fn apply_event(state: &mut State, event: &ObservedEvent, node: &Vec<u8>) -> (r: Result<
    (),
    ElectionError,
>)
    ensures
        r is Ok <==> event_ok(*event),
        r is Ok ==> final(state).leading() == event_names_leader(*event, node@),
        r matches Err(e) ==> e == event_error(*event) && final(state).leading() == old(
            state,
        ).leading(),
{
    match &event.kv {
        None => Err(ElectionError::WatchError),
        Some(kv) => {
            if !validate_utf8(&kv.key) || !validate_utf8(&kv.value) {
                Err(ElectionError::DecodeError)
            } else {
                let lead = bytes_eq(&kv.value, node);
                state.set_leader(lead);
                Ok(())
            }
        },
    }
}

/// One turn of the observer loop: apply a delivered event, or stop when the
/// stream has ended. `Ok(true)` means the loop goes on; `Ok(false)` reports
/// "no more messages" and stops the component; an error propagates to the
/// coordinator.
pub fn observe_step(state: &mut State, item: &WatchItem, node: &Vec<u8>) -> (r: Result<
    bool,
    ElectionError,
>)
    ensures
        r == Ok::<bool, ElectionError>(true) <==> (*item matches WatchItem::Event(e) && event_ok(
            e,
        )),
        r == Ok::<bool, ElectionError>(false) <==> *item is Closed,
        r matches Err(err) ==> (*item matches WatchItem::Event(e) && !event_ok(e) && err
            == event_error(e)),
        *item matches WatchItem::Event(e) ==> (if event_ok(e) {
            final(state).leading() == event_names_leader(e, node@)
        } else {
            final(state).leading() == old(state).leading()
        }),
        *item is Closed ==> final(state).leading() == old(state).leading(),
{
    match item {
        WatchItem::Event(event) => {
            match apply_event(state, event, node) {
                Ok(()) => Ok(true),
                Err(e) => Err(e),
            }
        },
        WatchItem::Closed => Ok(false),
    }
}

/// The flag's value before the event at position `i` is applied, starting
/// from `init`: events are folded strictly in delivery order, a well-formed
/// event overwriting the flag and an ill-formed one (never applied) leaving
/// it as it was.
pub open spec fn leading_after(events: Seq<ObservedEvent>, node: Seq<u8>, init: bool) -> bool
    decreases events.len(),
{
    if events.len() == 0 {
        init
    } else {
        let prev = leading_after(events.drop_last(), node, init);
        if event_ok(events.last()) {
            event_names_leader(events.last(), node)
        } else {
            prev
        }
    }
}

/// Are all events in the sequence well-formed?
pub open spec fn all_events_ok(events: Seq<ObservedEvent>) -> bool {
    forall|i: int| 0 <= i < events.len() ==> event_ok(events[i])
}

/// Position of the first ill-formed event, or the sequence's length when all
/// are well-formed.
pub open spec fn first_bad_index(events: Seq<ObservedEvent>) -> int
    decreases events.len(),
{
    if events.len() == 0 {
        0
    } else if !event_ok(events[0]) {
        0
    } else {
        1 + first_bad_index(events.drop_first())
    }
}

/// `first_bad_index` names the least ill-formed position.
proof fn lemma_first_bad_index(events: Seq<ObservedEvent>, i: int)
    requires
        0 <= i < events.len(),
        !event_ok(events[i]),
        forall|j: int| 0 <= j < i ==> event_ok(events[j]),
    ensures
        first_bad_index(events) == i,
    decreases i,
{
    if i > 0 {
        assert(event_ok(events[0]));
        assert(events.drop_first()[i - 1] == events[i]);
        assert(forall|j: int| 0 <= j < i - 1 ==> events.drop_first()[j] == events[j + 1]);
        lemma_first_bad_index(events.drop_first(), i - 1);
    }
}

/// Apply a sequence of events strictly in delivery order, stopping at the
/// first ill-formed one, whose error is returned and whose flag write is not
/// performed.
pub fn apply_events(state: &mut State, events: &Vec<ObservedEvent>, node: &Vec<u8>) -> (r: Result<
    (),
    ElectionError,
>)
    ensures
        r is Ok <==> all_events_ok(events@),
        r is Ok ==> final(state).leading() == leading_after(events@, node@, old(state).leading()),
        r matches Err(e) ==> ({
            let i = first_bad_index(events@);
            &&& 0 <= i < events@.len()
            &&& !event_ok(events@[i])
            &&& e == event_error(events@[i])
            &&& final(state).leading() == leading_after(events@.take(i), node@, old(state).leading())
        }),
{
    let ghost init: bool = old(state).leading();
    let n = events.len();
    let mut i: usize = 0;
    while i < n
        invariant
            i <= n,
            n == events@.len(),
            init == old(state).leading(),
            forall|j: int| 0 <= j < i ==> event_ok(events@[j]),
            state.leading() == leading_after(events@.take(i as int), node@, init),
        decreases n - i,
    {
        let r = apply_event(state, &events[i], node);
        proof {
            assert(events@.take(i + 1 as int).drop_last() =~= events@.take(i as int));
            assert(events@.take(i + 1 as int).last() == events@[i as int]);
        }
        match r {
            Ok(()) => {
            },
            Err(e) => {
                proof {
                    lemma_first_bad_index(events@, i as int);
                }
                return Err(e);
            },
        }
        i = i + 1;
    }
    proof {
        assert(events@.take(n as int) =~= events@);
    }
    Ok(())
}

/// In-order application means the last delivered event wins: after a
/// sequence of events whose last member is well-formed, the flag equals what
/// that last event dictates — a stale earlier event can never override it.
pub proof fn lemma_last_event_wins(events: Seq<ObservedEvent>, node: Seq<u8>, init: bool)
    requires
        events.len() > 0,
        event_ok(events.last()),
    ensures
        leading_after(events, node, init) == event_names_leader(events.last(), node),
{
}

} // verus!
