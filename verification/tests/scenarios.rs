use rpc_harness::dispatcher::Dispatcher;
use rpc_harness::envelope::{Event, ReceiveError, ReplyEnvelope};
use rpc_harness::harness::{test_source, test_sync, Directive};
use rpc_harness::invocation::{Outcome, Phase};
use rpc_harness::setup::{run_test, Attempt, SetupDirective, SetupFailure};

#[test]
fn sync_call_answered_with_an_error_aborts_the_verification() {
    let mut dispatcher = Dispatcher::new();
    let harness = test_sync(&mut dispatcher);
    let sent = harness.observe(&mut dispatcher, Event::from_send(Ok(()))).unwrap();
    assert_eq!(sent.next, Directive::AwaitReply);
    let answered = harness
        .observe(&mut dispatcher, Event::from_reply(Err(ReceiveError::PeerError("E1".to_string()))))
        .unwrap();
    let invocation = dispatcher.invocation(harness.handle).unwrap();
    assert_eq!(invocation.outcome(), Some(Outcome::ProtocolError("E1".to_string())));
    assert!(answered.printed.is_empty());
    match answered.next {
        Directive::Abort(message) => {
            assert!(message.contains("E1"));
            assert_eq!(message, "Got error receiving: PeerError(E1)");
        },
        other => panic!("expected an abort, got {:?}", other),
    }
}

#[test]
fn source_of_three_items_yields_three_and_completes() {
    let mut dispatcher = Dispatcher::new();
    let harness = test_source(&mut dispatcher);
    let mut exchange = vec![Event::from_send(Ok(()))];
    for item in ["one", "two", "three"] {
        exchange.push(Event::from_item(Ok(Some(item.to_string()))));
    }
    exchange.push(Event::from_item(Ok(None)));
    let report = harness.drive(&mut dispatcher, &exchange).unwrap();
    assert_eq!(report.next, Directive::Finished);
    assert!(report.printed.is_empty());
    let invocation = dispatcher.invocation(harness.handle).unwrap();
    assert_eq!(*invocation.phase(), Phase::Completed);
    assert_eq!(invocation.outcome(), Some(Outcome::Success));
    assert_eq!(invocation.delivered().len(), 3);
    assert_eq!(
        *invocation.delivered(),
        vec!["one".to_string(), "two".to_string(), "three".to_string()]
    );
    let late = Event::Reply(ReplyEnvelope::Payload("four".to_string()));
    assert_eq!(harness.observe(&mut dispatcher, late).unwrap().next, Directive::Finished);
    assert_eq!(dispatcher.invocation(harness.handle).unwrap().delivered().len(), 3);
}

#[test]
fn no_listening_peer_is_a_handshake_failure_before_any_rpc() {
    let refused = Attempt::Failed("Os { code: 111, kind: ConnectionRefused }".to_string());
    let report = run_test(8008, &Attempt::Succeeded, &refused);
    assert_eq!(report.failure, Some(SetupFailure::Handshake));
    assert_ne!(report.next, SetupDirective::Proceed);
    assert_eq!(report.next, SetupDirective::Abort("\nAbort test".to_string()));
    assert_eq!(report.printed.len(), 2);
    assert!(report.printed[0].contains("default port over localhost"));
    assert!(report.printed[1].contains("ConnectionRefused"));
}
