use rpc_harness::convention::CallKind;
use rpc_harness::envelope::{Event, Fault, ReceiveError, ReplyEnvelope};
use rpc_harness::invocation::{Failure, Invocation, Outcome, Phase};

fn payload(value: &str) -> Event {
    Event::Reply(ReplyEnvelope::Payload(value.to_string()))
}

fn run(kind: CallKind, events: Vec<Event>) -> Invocation {
    let mut invocation = Invocation::new(kind);
    for event in events {
        invocation.step(event);
    }
    invocation
}

#[test]
fn conventions_know_their_shape_and_tag() {
    assert!(CallKind::Sync.is_single_reply());
    assert!(CallKind::Async.is_single_reply());
    assert!(!CallKind::Source.is_single_reply());
    assert_eq!(CallKind::Sync.wire_tag(), "sync");
    assert_eq!(CallKind::Async.wire_tag(), "async");
    assert_eq!(CallKind::Source.wire_tag(), "source");
}

#[test]
fn new_invocation_is_idle() {
    let invocation = Invocation::new(CallKind::Async);
    assert_eq!(invocation.kind(), CallKind::Async);
    assert_eq!(*invocation.phase(), Phase::Idle);
    assert!(invocation.delivered().is_empty());
    assert_eq!(invocation.outcome(), None);
    assert!(!invocation.phase().is_terminal());
    assert!(!invocation.phase().is_receiving());
}

#[test]
fn written_request_awaits_replies() {
    let invocation = run(CallKind::Sync, vec![Event::SendCompleted]);
    assert_eq!(*invocation.phase(), Phase::Sent);
    assert!(invocation.phase().is_receiving());
    assert_eq!(invocation.outcome(), None);
}

#[test]
fn sync_call_completes_with_its_one_reply() {
    let invocation = run(CallKind::Sync, vec![Event::SendCompleted, payload("42")]);
    assert_eq!(*invocation.phase(), Phase::Completed);
    assert_eq!(invocation.outcome(), Some(Outcome::Success));
    assert_eq!(*invocation.delivered(), vec!["42".to_string()]);
}

#[test]
fn async_call_completes_with_its_one_reply() {
    let invocation = run(CallKind::Async, vec![Event::SendCompleted, payload("[1,2]")]);
    assert_eq!(*invocation.phase(), Phase::Completed);
    assert_eq!(invocation.outcome(), Some(Outcome::Success));
    assert_eq!(*invocation.delivered(), vec!["[1,2]".to_string()]);
}

#[test]
fn second_reply_to_a_sync_call_is_dropped() {
    let invocation = run(
        CallKind::Sync,
        vec![Event::SendCompleted, payload("first"), payload("second"), Event::EndOfStream],
    );
    assert_eq!(*invocation.phase(), Phase::Completed);
    assert_eq!(*invocation.delivered(), vec!["first".to_string()]);
}

#[test]
fn failed_send_fails_the_invocation() {
    let invocation = run(CallKind::Sync, vec![Event::SendFailed("broken pipe".to_string())]);
    assert_eq!(*invocation.phase(), Phase::Failed(Failure::Send("broken pipe".to_string())));
    assert_eq!(
        invocation.outcome(),
        Some(Outcome::Failure(Failure::Send("broken pipe".to_string())))
    );
    assert!(invocation.phase().is_terminal());
}

#[test]
fn failed_send_fails_an_invocation_that_awaits_replies() {
    let invocation = run(
        CallKind::Source,
        vec![Event::SendCompleted, payload("a"), Event::SendFailed("reset".to_string())],
    );
    assert_eq!(*invocation.phase(), Phase::Failed(Failure::Send("reset".to_string())));
    assert_eq!(*invocation.delivered(), vec!["a".to_string()]);
}

#[test]
fn repeated_send_completion_changes_nothing() {
    let invocation = run(CallKind::Source, vec![Event::SendCompleted, Event::SendCompleted]);
    assert_eq!(*invocation.phase(), Phase::Sent);
    let invocation = run(
        CallKind::Source,
        vec![Event::SendCompleted, payload("a"), Event::SendCompleted],
    );
    assert_eq!(*invocation.phase(), Phase::Replying);
    assert_eq!(*invocation.delivered(), vec!["a".to_string()]);
}

#[test]
fn reply_before_the_request_is_written_fails() {
    let invocation = run(CallKind::Sync, vec![payload("early"), Event::SendCompleted]);
    assert_eq!(*invocation.phase(), Phase::Failed(Failure::EarlyReply));
    assert!(invocation.delivered().is_empty());
    let invocation = run(CallKind::Source, vec![Event::EndOfStream]);
    assert_eq!(*invocation.phase(), Phase::Failed(Failure::EarlyReply));
}

#[test]
fn close_without_reply_fails_a_single_reply_call() {
    for kind in [CallKind::Sync, CallKind::Async] {
        let invocation = run(kind, vec![Event::SendCompleted, Event::EndOfStream]);
        assert_eq!(*invocation.phase(), Phase::Failed(Failure::PrematureClose));
        assert_eq!(Failure::PrematureClose.class(), Fault::Transport);
        assert!(invocation.delivered().is_empty());
    }
}

#[test]
fn peer_error_ends_the_invocation_as_errored() {
    let invocation = run(
        CallKind::Async,
        vec![Event::SendCompleted, Event::Reply(ReplyEnvelope::ProtocolError("E1".to_string()))],
    );
    assert_eq!(*invocation.phase(), Phase::Errored("E1".to_string()));
    assert_eq!(invocation.outcome(), Some(Outcome::ProtocolError("E1".to_string())));
    assert!(invocation.delivered().is_empty());
}

#[test]
fn unreadable_reply_is_a_decode_failure() {
    let reply = ReplyEnvelope::Failure(Fault::Decode, "expected value".to_string());
    let invocation = run(CallKind::Sync, vec![Event::SendCompleted, Event::Reply(reply)]);
    let failure = Failure::Receive(Fault::Decode, "expected value".to_string());
    assert_eq!(failure.class(), Fault::Decode);
    assert_eq!(*invocation.phase(), Phase::Failed(failure));
}

#[test]
fn empty_source_completes() {
    let invocation = run(CallKind::Source, vec![Event::SendCompleted, Event::EndOfStream]);
    assert_eq!(*invocation.phase(), Phase::Completed);
    assert_eq!(invocation.outcome(), Some(Outcome::Success));
    assert!(invocation.delivered().is_empty());
}

#[test]
fn source_delivers_as_many_items_as_the_peer_sends() {
    for count in 0..6usize {
        let mut events = vec![Event::SendCompleted];
        let mut expected = Vec::new();
        for item in 0..count {
            events.push(payload(&format!("item {}", item)));
            expected.push(format!("item {}", item));
        }
        events.push(Event::EndOfStream);
        let invocation = run(CallKind::Source, events);
        assert_eq!(*invocation.phase(), Phase::Completed);
        assert_eq!(invocation.delivered().len(), count);
        assert_eq!(*invocation.delivered(), expected);
    }
}

#[test]
fn open_source_is_replying() {
    let invocation = run(CallKind::Source, vec![Event::SendCompleted, payload("a"), payload("b")]);
    assert_eq!(*invocation.phase(), Phase::Replying);
    assert!(invocation.phase().is_receiving());
    assert_eq!(invocation.outcome(), None);
    assert_eq!(*invocation.delivered(), vec!["a".to_string(), "b".to_string()]);
}

#[test]
fn error_in_a_source_discards_what_follows() {
    let invocation = run(
        CallKind::Source,
        vec![
            Event::SendCompleted,
            payload("a"),
            Event::Reply(ReplyEnvelope::ProtocolError("gone".to_string())),
            payload("b"),
            Event::EndOfStream,
        ],
    );
    assert_eq!(*invocation.phase(), Phase::Errored("gone".to_string()));
    assert_eq!(*invocation.delivered(), vec!["a".to_string()]);
}

#[test]
fn transport_fault_in_a_source_discards_what_follows() {
    let fault = ReplyEnvelope::Failure(Fault::Transport, "ConnectionError(Errored)".to_string());
    let invocation = run(
        CallKind::Source,
        vec![Event::SendCompleted, payload("a"), Event::Reply(fault), payload("b")],
    );
    let failure = Failure::Receive(Fault::Transport, "ConnectionError(Errored)".to_string());
    assert_eq!(failure.class(), Fault::Transport);
    assert_eq!(*invocation.phase(), Phase::Failed(failure));
    assert_eq!(*invocation.delivered(), vec!["a".to_string()]);
}

#[test]
fn ended_invocation_never_moves() {
    let later = vec![
        Event::SendCompleted,
        Event::SendFailed("late".to_string()),
        payload("late"),
        Event::Reply(ReplyEnvelope::ProtocolError("late".to_string())),
        Event::Reply(ReplyEnvelope::Failure(Fault::Decode, "late".to_string())),
        Event::EndOfStream,
    ];
    let endings = vec![
        vec![Event::SendCompleted, payload("done")],
        vec![Event::SendCompleted, Event::Reply(ReplyEnvelope::ProtocolError("E".to_string()))],
        vec![Event::SendFailed("no".to_string())],
    ];
    for ending in endings {
        let mut invocation = run(CallKind::Sync, ending);
        let phase = invocation.phase().clone();
        let delivered = invocation.delivered().clone();
        for event in later.clone() {
            invocation.step(event);
            assert_eq!(*invocation.phase(), phase);
            assert_eq!(*invocation.delivered(), delivered);
        }
    }
}

#[test]
fn send_failures_are_transport_faults() {
    assert_eq!(Failure::Send("x".to_string()).class(), Fault::Transport);
    assert_eq!(Failure::EarlyReply.class(), Fault::Transport);
}

#[test]
fn receive_errors_are_classified() {
    assert_eq!(
        ReceiveError::PeerError("E1".to_string()).into_envelope(),
        ReplyEnvelope::ProtocolError("E1".to_string())
    );
    assert_eq!(
        ReceiveError::ConnectionError("ConnectionError(Closed)".to_string()).into_envelope(),
        ReplyEnvelope::Failure(Fault::Transport, "ConnectionError(Closed)".to_string())
    );
    assert_eq!(
        ReceiveError::InvalidData("bad".to_string()).into_envelope(),
        ReplyEnvelope::Failure(Fault::Decode, "bad".to_string())
    );
    assert_eq!(
        ReceiveError::NotJson("NotJson".to_string()).into_envelope(),
        ReplyEnvelope::Failure(Fault::Decode, "NotJson".to_string())
    );
}

#[test]
fn leg_results_become_events() {
    assert_eq!(Event::from_send(Ok(())), Event::SendCompleted);
    assert_eq!(Event::from_send(Err("closed".to_string())), Event::SendFailed("closed".to_string()));
    assert_eq!(Event::from_reply(Ok("7".to_string())), payload("7"));
    assert_eq!(
        Event::from_reply(Err(ReceiveError::PeerError("E".to_string()))),
        Event::Reply(ReplyEnvelope::ProtocolError("E".to_string()))
    );
    assert_eq!(Event::from_item(Ok(Some("7".to_string()))), payload("7"));
    assert_eq!(Event::from_item(Ok(None)), Event::EndOfStream);
    assert_eq!(
        Event::from_item(Err(ReceiveError::NotJson("NotJson".to_string()))),
        Event::Reply(ReplyEnvelope::Failure(Fault::Decode, "NotJson".to_string()))
    );
}

#[test]
fn decoded_reply_is_never_a_decode_failure() {
    for value in ["null", "0", "\"text\"", "[1,2,3]", "{\"a\":true}"] {
        let mut invocation = Invocation::new(CallKind::Sync);
        invocation.step(Event::SendCompleted);
        invocation.step(Event::from_reply(Ok(value.to_string())));
        assert_eq!(invocation.outcome(), Some(Outcome::Success));
        let mut invocation = Invocation::new(CallKind::Sync);
        invocation.step(Event::SendCompleted);
        invocation.step(Event::from_reply(Err(ReceiveError::PeerError(value.to_string()))));
        assert_eq!(invocation.outcome(), Some(Outcome::ProtocolError(value.to_string())));
    }
}

#[test]
fn events_and_phases_clone_to_equal_values() {
    let events = vec![
        Event::SendCompleted,
        Event::SendFailed("d".to_string()),
        payload("p"),
        Event::Reply(ReplyEnvelope::ProtocolError("e".to_string())),
        Event::Reply(ReplyEnvelope::Failure(Fault::Transport, "t".to_string())),
        Event::EndOfStream,
    ];
    for event in events {
        assert_eq!(event.clone(), event);
    }
    let phases = vec![
        Phase::Idle,
        Phase::Sent,
        Phase::Replying,
        Phase::Completed,
        Phase::Errored("e".to_string()),
        Phase::Failed(Failure::Send("s".to_string())),
        Phase::Failed(Failure::EarlyReply),
        Phase::Failed(Failure::PrematureClose),
        Phase::Failed(Failure::Receive(Fault::Decode, "d".to_string())),
    ];
    for phase in phases {
        assert_eq!(phase.clone(), phase);
    }
}
