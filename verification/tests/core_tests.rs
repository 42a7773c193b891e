use election_agent::coordinator::{conclude, TaskResult};
use election_agent::errors::{ConfigError, ElectionError};
use election_agent::observer::{apply_event, apply_events, observe_step, EventKv, ObservedEvent, WatchItem};
use election_agent::participant::{
    participant_init, permitted, step, ParticipantAction, ParticipantEvent, ParticipantState,
};
use election_agent::state::State;
use election_agent::text::{bytes_eq, validate_utf8};

fn event(key: &str, value: &str) -> ObservedEvent {
    ObservedEvent {
        kv: Some(EventKv { key: key.as_bytes().to_vec(), value: value.as_bytes().to_vec() }),
    }
}

#[test]
fn leadership_correctness_own_value() {
    let mut st = State::new();
    let node = b"A".to_vec();
    let r = apply_event(&mut st, &event("leader_election/1", "A"), &node);
    assert!(r.is_ok());
    assert!(st.is_leader());
}

#[test]
fn leadership_correctness_other_value() {
    let mut st = State::new();
    let node = b"A".to_vec();
    let r = apply_event(&mut st, &event("leader_election/1", "B"), &node);
    assert!(r.is_ok());
    assert!(!st.is_leader());
}

#[test]
fn in_order_application_last_event_wins() {
    let mut st = State::new();
    let node = b"A".to_vec();
    let events = vec![
        event("k", "A"),
        event("k", "B"),
        event("k", "C"),
        event("k", "A"),
        event("k", "B"),
    ];
    let r = apply_events(&mut st, &events, &node);
    assert!(r.is_ok());
    assert!(!st.is_leader());

    let events = vec![event("k", "B"), event("k", "A")];
    let r = apply_events(&mut st, &events, &node);
    assert!(r.is_ok());
    assert!(st.is_leader());
}

#[test]
fn malformed_event_yields_watch_error_and_no_write() {
    let mut st = State::new();
    let node = b"A".to_vec();
    apply_event(&mut st, &event("k", "A"), &node).unwrap();
    assert!(st.is_leader());

    let r = apply_event(&mut st, &ObservedEvent { kv: None }, &node);
    assert_eq!(r, Err(ElectionError::WatchError));
    assert!(st.is_leader());
}

#[test]
fn undecodable_event_yields_decode_error_and_no_write() {
    let mut st = State::new();
    let node = b"A".to_vec();
    apply_event(&mut st, &event("k", "A"), &node).unwrap();

    let bad = ObservedEvent {
        kv: Some(EventKv { key: b"k".to_vec(), value: vec![0xC0, 0x80] }),
    };
    let r = apply_event(&mut st, &bad, &node);
    assert_eq!(r, Err(ElectionError::DecodeError));
    assert!(st.is_leader());
}

#[test]
fn apply_events_stops_at_first_malformed() {
    let mut st = State::new();
    let node = b"A".to_vec();
    let events = vec![event("k", "A"), ObservedEvent { kv: None }, event("k", "B")];
    let r = apply_events(&mut st, &events, &node);
    assert_eq!(r, Err(ElectionError::WatchError));
    // The event before the malformed one was applied; the one after was not.
    assert!(st.is_leader());
}

#[test]
fn observe_step_applies_and_continues() {
    let mut st = State::new();
    let node = b"A".to_vec();
    let r = observe_step(&mut st, &WatchItem::Event(event("k", "A")), &node);
    assert_eq!(r, Ok(true));
    assert!(st.is_leader());
}

#[test]
fn observe_step_stops_on_closed_stream() {
    let mut st = State::new();
    let node = b"A".to_vec();
    let r = observe_step(&mut st, &WatchItem::Closed, &node);
    assert_eq!(r, Ok(false));
    assert!(!st.is_leader());
}

#[test]
fn keep_alive_cadence() {
    // Once leadership is won, each send is separated from the next by one
    // full sleep interval, and a new send comes only after the previous one
    // succeeded.
    let (s, a) = participant_init();
    assert_eq!(a, ParticipantAction::GrantLease { ttl: 10 });
    let (s, a) = step(&s, &ParticipantEvent::LeaseGranted { lease_id: 7 });
    assert_eq!(a, ParticipantAction::Campaign { lease_id: 7 });
    let (s, a) = step(&s, &ParticipantEvent::CampaignWon);
    assert_eq!(a, ParticipantAction::OpenKeepAlive { lease_id: 7 });
    let (mut s, a) = step(&s, &ParticipantEvent::KeepAliveOpened);
    assert_eq!(a, ParticipantAction::SendKeepAlive { lease_id: 7 });

    let mut sends = 0;
    let mut sleeps = 0;
    for _ in 0..10 {
        let (s2, a) = step(&s, &ParticipantEvent::KeepAliveOk);
        assert_eq!(a, ParticipantAction::Sleep { units: 7 });
        sleeps += 1;
        let (s3, a) = step(&s2, &ParticipantEvent::SleepFinished);
        assert_eq!(a, ParticipantAction::SendKeepAlive { lease_id: 7 });
        sends += 1;
        s = s3;
    }
    // One send per elapsed interval, never more.
    assert_eq!(sends, sleeps);
}

#[test]
fn recovery_on_keep_alive_failure() {
    let (s, _) = participant_init();
    let (s, _) = step(&s, &ParticipantEvent::LeaseGranted { lease_id: 1 });
    let (s, _) = step(&s, &ParticipantEvent::CampaignWon);
    let (s, _) = step(&s, &ParticipantEvent::KeepAliveOpened);

    // A failed keep-alive re-enters the lease-grant step exactly once...
    let (s, a) = step(&s, &ParticipantEvent::KeepAliveFailed);
    assert_eq!(s, ParticipantState::AwaitingLease);
    assert_eq!(a, ParticipantAction::GrantLease { ttl: 10 });

    // ...and the next grant leads straight back to a campaign.
    let (s, a) = step(&s, &ParticipantEvent::LeaseGranted { lease_id: 2 });
    assert_eq!(s, ParticipantState::Campaigning { lease_id: 2 });
    assert_eq!(a, ParticipantAction::Campaign { lease_id: 2 });
}

#[test]
fn recovery_on_keep_alive_open_failure() {
    let (s, _) = participant_init();
    let (s, _) = step(&s, &ParticipantEvent::LeaseGranted { lease_id: 1 });
    let (s, _) = step(&s, &ParticipantEvent::CampaignWon);
    let (s, a) = step(&s, &ParticipantEvent::KeepAliveOpenFailed);
    assert_eq!(s, ParticipantState::AwaitingLease);
    assert_eq!(a, ParticipantAction::GrantLease { ttl: 10 });
}

#[test]
fn fatal_propagation_lease_grant() {
    let (s, _) = participant_init();
    let (s, a) = step(
        &s,
        &ParticipantEvent::LeaseGrantFailed { error: ElectionError::ConnectionError },
    );
    assert_eq!(s, ParticipantState::Stopped { error: ElectionError::ConnectionError });
    assert_eq!(a, ParticipantAction::Terminate { error: ElectionError::ConnectionError });

    let report = conclude(&TaskResult::Failed { error: ElectionError::ConnectionError });
    assert_eq!(report.failure, Some(ElectionError::ConnectionError));
    assert!(report.terminate);
}

#[test]
fn fatal_propagation_campaign() {
    let (s, _) = participant_init();
    let (s, _) = step(&s, &ParticipantEvent::LeaseGranted { lease_id: 3 });
    let (s, a) = step(
        &s,
        &ParticipantEvent::CampaignFailed { error: ElectionError::CampaignError },
    );
    assert_eq!(s, ParticipantState::Stopped { error: ElectionError::CampaignError });
    assert_eq!(a, ParticipantAction::Terminate { error: ElectionError::CampaignError });

    let report = conclude(&TaskResult::Failed { error: ElectionError::CampaignError });
    assert_eq!(report.failure, Some(ElectionError::CampaignError));
    assert!(report.terminate);
}

#[test]
fn coordinator_terminates_on_clean_finish() {
    let report = conclude(&TaskResult::Finished);
    assert_eq!(report.failure, None);
    assert!(report.terminate);
}

#[test]
fn end_to_end_scenario() {
    // Node "A" campaigns and wins.
    let node = b"A".to_vec();
    let mut st = State::new();
    let (s, a) = participant_init();
    assert_eq!(a, ParticipantAction::GrantLease { ttl: 10 });
    let (s, _) = step(&s, &ParticipantEvent::LeaseGranted { lease_id: 11 });
    let (s, _) = step(&s, &ParticipantEvent::CampaignWon);
    let (s, a) = step(&s, &ParticipantEvent::KeepAliveOpened);
    assert_eq!(a, ParticipantAction::SendKeepAlive { lease_id: 11 });

    // A's own observer receives (key, "A"): the flag goes up.
    let r = observe_step(&mut st, &WatchItem::Event(event("leader_election/11", "A")), &node);
    assert_eq!(r, Ok(true));
    assert!(st.is_leader());

    // No keep-alive completes within the TTL: the service expires the lease,
    // the send fails, and A re-enters the cycle.
    let (s, a) = step(&s, &ParticipantEvent::KeepAliveFailed);
    assert_eq!(s, ParticipantState::AwaitingLease);
    assert_eq!(a, ParticipantAction::GrantLease { ttl: 10 });

    // Node "B" wins the next term; A's observer sees (key, "B").
    let r = observe_step(&mut st, &WatchItem::Event(event("leader_election/12", "B")), &node);
    assert_eq!(r, Ok(true));
    assert!(!st.is_leader());
}

#[test]
fn state_starts_not_leader() {
    let st = State::new();
    assert!(!st.is_leader());
}

#[test]
fn validate_utf8_accepts_well_formed_text() {
    assert!(validate_utf8(&Vec::new()));
    assert!(validate_utf8(&b"leader_election".to_vec()));
    assert!(validate_utf8(&"héllo wörld".as_bytes().to_vec()));
    assert!(validate_utf8(&"日本語".as_bytes().to_vec()));
    assert!(validate_utf8(&"🦀".as_bytes().to_vec()));
}

#[test]
fn validate_utf8_rejects_ill_formed_bytes() {
    // Lone continuation byte.
    assert!(!validate_utf8(&vec![0x80]));
    // Overlong encoding of '/'.
    assert!(!validate_utf8(&vec![0xC0, 0xAF]));
    // Surrogate half.
    assert!(!validate_utf8(&vec![0xED, 0xA0, 0x80]));
    // Above U+10FFFF.
    assert!(!validate_utf8(&vec![0xF4, 0x90, 0x80, 0x80]));
    // Truncated multi-byte sequence.
    assert!(!validate_utf8(&vec![0xE2, 0x82]));
    // Stray leading byte.
    assert!(!validate_utf8(&vec![0xFF]));
    // str::from_utf8 agrees on each of these.
    for bytes in [
        vec![0x80],
        vec![0xC0, 0xAF],
        vec![0xED, 0xA0, 0x80],
        vec![0xF4, 0x90, 0x80, 0x80],
        vec![0xE2, 0x82],
        vec![0xFF],
    ] {
        assert!(std::str::from_utf8(&bytes).is_err());
    }
}

#[test]
fn bytes_eq_compares_contents() {
    assert!(bytes_eq(&b"A".to_vec(), &b"A".to_vec()));
    assert!(!bytes_eq(&b"A".to_vec(), &b"B".to_vec()));
    assert!(!bytes_eq(&b"A".to_vec(), &b"AB".to_vec()));
    assert!(bytes_eq(&Vec::new(), &Vec::new()));
}

#[test]
fn permitted_accepts_only_answers_to_the_pending_operation() {
    let s = ParticipantState::AwaitingLease;
    assert!(permitted(&s, &ParticipantEvent::LeaseGranted { lease_id: 1 }));
    assert!(!permitted(&s, &ParticipantEvent::KeepAliveOk));
    assert!(!permitted(&s, &ParticipantEvent::CampaignWon));
    let stopped = ParticipantState::Stopped { error: ElectionError::ProtocolError };
    assert!(!permitted(&stopped, &ParticipantEvent::LeaseGranted { lease_id: 1 }));
}
