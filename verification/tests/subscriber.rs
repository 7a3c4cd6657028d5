use sonor::subscriber::{
    classify_unsubscribe, shutdown_result, Subscriber, SubscriptionState, UnsubscribeOutcome,
    RENEW_SEC, TIMEOUT_SEC,
};
use sonor::types::{Event, ServiceKind};
use sonor::Error;

#[test]
fn test_unsubscribe_already_expired_is_success() {
    // An "already expired" answer is reported as success, not surfaced as
    // a subscription error.
    assert!(classify_unsubscribe(UnsubscribeOutcome::AlreadyExpired).is_ok());
    assert!(classify_unsubscribe(UnsubscribeOutcome::Completed).is_ok());
    assert_eq!(
        classify_unsubscribe(UnsubscribeOutcome::Failed),
        Err(Error::SubscriptionError)
    );
}

#[test]
fn test_shutdown_combines_both_halves() {
    assert!(shutdown_result(Ok(()), UnsubscribeOutcome::AlreadyExpired).is_ok());
    assert!(shutdown_result(Ok(()), UnsubscribeOutcome::Completed).is_ok());
    assert!(shutdown_result(Ok(()), UnsubscribeOutcome::Failed).is_err());
    assert!(shutdown_result(Err(Error::SubscriptionError), UnsubscribeOutcome::Completed).is_err());
}

#[test]
fn test_subscription_lifecycle() {
    let mut s = Subscriber::new();
    assert_eq!(s.state, SubscriptionState::Unsubscribed);

    s.begin_subscribe(ServiceKind::AVTransport, Some("U1".to_string()));
    assert_eq!(s.state, SubscriptionState::Subscribing);

    s.complete_subscribe("uuid:sub-1".to_string());
    assert_eq!(s.state, SubscriptionState::Active);
    assert!(s.listener_running);
    assert!(s.timer_running);

    assert!(s.terminate_tasks().is_ok());
    assert!(!s.listener_running);
    assert!(!s.timer_running);
    // Cancelling again finds no handles and says so.
    assert_eq!(s.terminate_tasks(), Err(Error::SubscriptionError));

    s.record_unsubscribed();
    assert_eq!(s.state, SubscriptionState::Unsubscribed);
    assert!(s.sid.is_none());
}

#[test]
fn test_failed_subscribe_leaves_no_tasks() {
    let mut s = Subscriber::new();
    s.begin_subscribe(ServiceKind::ZoneGroupTopology, None);
    s.fail_subscribe();
    assert_eq!(s.state, SubscriptionState::Failed);
    assert!(!s.listener_running);
    assert!(!s.timer_running);
}

#[test]
fn test_failure_event_carries_tag_and_service() {
    let mut s = Subscriber::new();
    s.begin_subscribe(ServiceKind::AVTransport, Some("U7".to_string()));
    s.complete_subscribe("uuid:sub-2".to_string());
    match s.failure_event() {
        Event::SubscriptionFailure(Some(tag), ServiceKind::AVTransport) => {
            assert_eq!(tag, "U7");
        }
        other => panic!("expected a tagged transport failure, got {:?}", other),
    }
}

#[test]
fn test_transport_event_is_tagged() {
    let mut s = Subscriber::new();
    s.begin_subscribe(ServiceKind::AVTransport, Some("U7".to_string()));
    s.complete_subscribe("uuid:sub-3".to_string());
    let fields = vec![("CurrentTrack".to_string(), "2".to_string())];
    match s.transport_event(fields) {
        Event::TransportUpdate(Some(tag), data) => {
            assert_eq!(tag, "U7");
            assert_eq!(data[0].1, "2");
        }
        other => panic!("expected a tagged transport update, got {:?}", other),
    }
}

#[test]
fn test_renewal_interval_beats_timeout() {
    assert!(RENEW_SEC < TIMEOUT_SEC);
}
