use marketplace::events::EventDraft;
use marketplace::request::ProvingRequest;
use marketplace::sessions::{
    callback_listener_step, is_event_for_subscription, prover_listener_step, ListenerStep,
    Notification, ProverAction, ProvingSession, SessionAction, SessionOutcome, SessionStage,
};

fn event(sub: &str, content: &str) -> Notification {
    Notification::Event { subscription_id: sub.to_string(), content: content.to_string() }
}

fn draft(kind: u16, content: &str) -> EventDraft {
    EventDraft { kind, content: content.to_string(), tags: Vec::new() }
}

fn sent(a: SessionAction) -> EventDraft {
    match a {
        SessionAction::Send(d) => d,
        other => panic!("expected a send, got {:?}", other),
    }
}

#[test]
fn events_are_matched_by_subscription() {
    let sub = "resp".to_string();
    assert!(is_event_for_subscription(&event("resp", "x"), &sub));
    assert!(!is_event_for_subscription(&event("other", "x"), &sub));
    assert!(!is_event_for_subscription(&Notification::Other, &sub));
}

#[test]
fn callback_listener_delivers_own_events_and_never_stops() {
    let sub = "s".to_string();
    assert_eq!(callback_listener_step(&event("s", "c"), &sub), ListenerStep { deliver: true, stop: false });
    assert_eq!(callback_listener_step(&event("t", "c"), &sub), ListenerStep { deliver: false, stop: false });
    assert_eq!(callback_listener_step(&Notification::Other, &sub), ListenerStep { deliver: false, stop: false });
}

#[test]
fn prover_proves_only_readable_requests_of_its_subscription() {
    let sub = "req".to_string();
    let r = ProvingRequest::sample("x".to_string());
    match prover_listener_step(&event("req", "{}"), &sub, Some(r.clone())) {
        ProverAction::Prove(p) => assert_eq!(p, r),
        ProverAction::Ignore => panic!("expected a proof"),
    }
    assert!(matches!(prover_listener_step(&event("req", "junk"), &sub, None), ProverAction::Ignore));
    assert!(matches!(prover_listener_step(&event("zzz", "{}"), &sub, Some(r.clone())), ProverAction::Ignore));
    assert!(matches!(prover_listener_step(&Notification::Other, &sub, Some(r)), ProverAction::Ignore));
}

fn announced_session() -> ProvingSession {
    let (mut s, a) = ProvingSession::start(
        "REQ".to_string(),
        "HANDLER".to_string(),
        "sub".to_string(),
        "ab12".to_string(),
    );
    assert!(matches!(a, SessionAction::Connect));
    assert_eq!(s.stage, SessionStage::Connecting);
    assert_eq!(sent(s.advance(SessionOutcome::Done)), draft(5000, "REQ"));
    assert_eq!(sent(s.advance(SessionOutcome::Done)), draft(31989, "HANDLER"));
    assert_eq!(sent(s.advance(SessionOutcome::Done)), draft(5000, ""));
    assert_eq!(sent(s.advance(SessionOutcome::Done)), draft(1, "REQ"));
    match s.advance(SessionOutcome::Done) {
        SessionAction::Subscribe { subscription_id, kind, author } => {
            assert_eq!(subscription_id, "sub");
            assert_eq!(kind, 1);
            assert_eq!(author, "ab12");
        }
        other => panic!("expected a subscription, got {:?}", other),
    }
    assert_eq!(s.stage, SessionStage::Subscribing);
    assert!(matches!(s.advance(SessionOutcome::Failed), SessionAction::AwaitNotification));
    assert_eq!(s.stage, SessionStage::Listening);
    s
}

#[test]
fn session_announces_in_order_then_listens() {
    let s = announced_session();
    assert_eq!(s.request_json, "REQ");
    assert_eq!(s.handler_json, "HANDLER");
    assert_eq!(s.subscription_id, "sub");
    assert_eq!(s.response_author, "ab12");
}

#[test]
fn session_ignores_other_notifications_and_verifies_its_response() {
    let mut s = announced_session();
    let a = s.advance(SessionOutcome::Notified { notification: event("other", "R"), response_parsed: true });
    assert!(matches!(a, SessionAction::AwaitNotification));
    let a = s.advance(SessionOutcome::Notified { notification: event("sub", "junk"), response_parsed: false });
    assert!(matches!(a, SessionAction::AwaitNotification));
    let a = s.advance(SessionOutcome::Notified { notification: Notification::Other, response_parsed: false });
    assert!(matches!(a, SessionAction::AwaitNotification));
    assert_eq!(s.stage, SessionStage::Listening);
    match s.advance(SessionOutcome::Notified { notification: event("sub", "RESPONSE"), response_parsed: true }) {
        SessionAction::VerifyResponse { content } => assert_eq!(content, "RESPONSE"),
        other => panic!("expected a verification, got {:?}", other),
    }
    assert_eq!(s.stage, SessionStage::Verifying);
    assert!(matches!(s.advance(SessionOutcome::Failed), SessionAction::Finish { success: true }));
    assert_eq!(s.stage, SessionStage::Finished);
    assert!(matches!(s.advance(SessionOutcome::Failed), SessionAction::Finish { success: true }));
    assert_eq!(s.stage, SessionStage::Finished);
}

#[test]
fn failed_send_ends_the_session() {
    let (mut s, _) =
        ProvingSession::start("a".to_string(), "b".to_string(), "c".to_string(), "d".to_string());
    s.advance(SessionOutcome::Done);
    s.advance(SessionOutcome::Done);
    assert!(matches!(s.advance(SessionOutcome::Failed), SessionAction::Finish { success: false }));
    assert_eq!(s.stage, SessionStage::Failed);
    assert!(matches!(s.advance(SessionOutcome::Done), SessionAction::Finish { success: false }));
    assert_eq!(s.stage, SessionStage::Failed);
}

#[test]
fn end_of_notifications_ends_the_session_without_failure() {
    let mut s = announced_session();
    assert!(matches!(s.advance(SessionOutcome::Ended), SessionAction::Finish { success: true }));
    assert_eq!(s.stage, SessionStage::Finished);
}

#[test]
fn shutdown_ends_the_session_without_failure() {
    let mut s = announced_session();
    let a = s.advance(SessionOutcome::Notified { notification: Notification::Shutdown, response_parsed: false });
    assert!(matches!(a, SessionAction::Finish { success: true }));
    assert_eq!(s.stage, SessionStage::Finished);
}

#[test]
fn shutdown_is_not_delivered() {
    let sub = "s".to_string();
    assert!(!is_event_for_subscription(&Notification::Shutdown, &sub));
    assert_eq!(callback_listener_step(&Notification::Shutdown, &sub), ListenerStep { deliver: false, stop: false });
}
