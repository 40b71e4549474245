use std::sync::Arc;

use ro_messaging::config::NatsConfig;
use ro_messaging::connection::{
    handler_outcome, reconnect_delay_ms, request_outcome, ConnectionCore, Registration, ReplyEvent,
};
use ro_messaging::error::MessagingError;
use ro_messaging::message::Attrs;
use ro_messaging::registry::{drain_step, DrainAction, DrainEvent, SubscriptionRegistry, SubscriptionState};

fn open_core(base: &str) -> ConnectionCore<u32> {
    let mut cfg = NatsConfig::default();
    cfg.base_path = base.to_string();
    ConnectionCore::open("svc".to_string(), Arc::new(cfg)).unwrap()
}

#[test]
fn unsubscribe_unknown_subject_is_ok() {
    let mut c = open_core("app");
    assert!(matches!(c.unsubscribe("nothing"), Ok(None)));
    assert!(matches!(c.unsubscribe("nothing"), Ok(None)));
}

#[test]
fn unsubscribe_returns_handle_once() {
    let mut c = open_core("app");
    let subject = c.subscription_subject("orders").unwrap();
    assert_eq!(subject, "app.orders");
    assert!(matches!(c.register(subject, 7), Registration::Added));
    assert!(c.is_subscribed("app.orders"));
    assert!(matches!(c.unsubscribe("orders"), Ok(Some(7))));
    assert!(!c.is_subscribed("app.orders"));
    assert!(matches!(c.unsubscribe("orders"), Ok(None)));
}

#[test]
fn duplicate_subscribe_replaces_and_returns_old_handle() {
    let mut c = open_core("");
    assert!(matches!(c.register("s".to_string(), 1), Registration::Added));
    assert!(matches!(c.register("s".to_string(), 2), Registration::Replaced(1)));
    assert!(matches!(c.unsubscribe("s"), Ok(Some(2))));
}

#[test]
fn close_hands_back_every_subscription_once() {
    let mut c = open_core("");
    c.register("a".to_string(), 1);
    c.register("b".to_string(), 2);
    let mut taken: Vec<u32> = c.close().into_iter().map(|(_, h)| h).collect();
    taken.sort();
    assert_eq!(taken, vec![1, 2]);
    assert!(c.is_closed());
    assert!(c.close().is_empty());
}

#[test]
fn closed_connection_refuses_work() {
    let mut c = open_core("");
    c.close();
    assert!(matches!(c.subscription_subject("x"), Err(MessagingError::Closed)));
    assert!(matches!(c.unsubscribe("x"), Err(MessagingError::Closed)));
    assert!(matches!(c.register("x".to_string(), 5), Registration::Refused(5)));
    let r = c.outbound("x", vec![], &Attrs::new(), &Attrs::new());
    assert!(matches!(r, Err(MessagingError::Closed)));
}

#[test]
fn disabled_configuration_is_refused() {
    let mut cfg = NatsConfig::default();
    cfg.enabled = false;
    let r = ConnectionCore::<u32>::open("svc".to_string(), Arc::new(cfg));
    assert!(matches!(r, Err(MessagingError::Closed)));
}

#[test]
fn outbound_is_written_for_the_system_actor() {
    let c = open_core("app");
    let m = c.outbound("t", vec![5], &Attrs::new(), &Attrs::new()).unwrap();
    assert_eq!(m.subject, "app.t");
    assert_eq!(m.headers.get("user_id").map(|s| s.as_str()), Some("system"));
}

#[test]
fn no_dispatch_after_close() {
    let mut state = SubscriptionState::Registered;
    let (s, a) = drain_step(state, DrainEvent::Started);
    assert_eq!(a, DrainAction::Continue);
    state = s;
    let (s, a) = drain_step(state, DrainEvent::Delivered);
    assert_eq!(a, DrainAction::Dispatch);
    state = s;
    let (s, a) = drain_step(state, DrainEvent::Cancel);
    assert_eq!(a, DrainAction::Stop);
    state = s;
    let mut dispatched = 0;
    for _ in 0..5 {
        let (s, a) = drain_step(state, DrainEvent::Delivered);
        state = s;
        if a == DrainAction::Dispatch {
            dispatched += 1;
        }
    }
    assert_eq!(dispatched, 0);
    assert_eq!(state, SubscriptionState::Cancelled);
}

#[test]
fn stream_end_is_terminal() {
    let (s, a) = drain_step(SubscriptionState::Draining, DrainEvent::StreamClosed);
    assert_eq!(s, SubscriptionState::StreamEnded);
    assert_eq!(a, DrainAction::Stop);
    let (s, a) = drain_step(s, DrainEvent::Delivered);
    assert_eq!(s, SubscriptionState::StreamEnded);
    assert_eq!(a, DrainAction::Stop);
}

#[test]
fn registry_close_all_empties() {
    let mut r: SubscriptionRegistry<u8> = SubscriptionRegistry::new();
    assert!(r.register("x".to_string(), 1).is_none());
    assert_eq!(r.len(), 1);
    assert_eq!(r.close_all().len(), 1);
    assert_eq!(r.len(), 0);
    assert!(r.unsubscribe("x").is_none());
}

#[test]
fn request_timeout_is_distinct() {
    let r = request_outcome(ReplyEvent::TimedOut);
    match r {
        Err(e) => {
            assert!(e.is_timeout());
            assert_eq!(e.message(), "Request failed: request timed out");
        }
        Ok(_) => panic!("expected a timeout"),
    }
    let r = request_outcome(ReplyEvent::Failed("no responders".to_string()));
    match r {
        Err(e) => {
            assert!(!e.is_timeout());
            assert!(matches!(e, MessagingError::Request(ref s) if s == "no responders"));
        }
        Ok(_) => panic!("expected a failure"),
    }
    assert_eq!(request_outcome(ReplyEvent::Reply(vec![1, 2])).ok(), Some(vec![1, 2]));
}

#[test]
fn handler_errors_become_handler_errors() {
    let r = handler_outcome(Err(MessagingError::Deserialization("bad json".to_string())));
    assert!(matches!(r, Err(MessagingError::Handler(ref s)) if s == "Deserialization failed: bad json"));
    assert!(handler_outcome(Ok(Some(vec![1]))).is_ok());
    assert!(handler_outcome(Ok(None)).is_ok());
}

#[test]
fn error_messages() {
    assert_eq!(MessagingError::Publish("x".to_string()).message(), "Publish failed: x");
    assert_eq!(MessagingError::Subscribe("x".to_string()).message(), "Subscribe failed: x");
    assert_eq!(MessagingError::Unsubscribe("x".to_string()).message(), "Unsubscribe failed: x");
    assert_eq!(MessagingError::Request("x".to_string()).message(), "Request failed: x");
    assert_eq!(MessagingError::Serialization("x".to_string()).message(), "Serialization failed: x");
    assert_eq!(MessagingError::Handler("x".to_string()).message(), "Handler error: x");
    assert_eq!(MessagingError::Closed.message(), "Connection closed");
}

#[test]
fn reconnect_delay_grows_then_caps() {
    assert_eq!(reconnect_delay_ms(0), 0);
    assert_eq!(reconnect_delay_ms(3), 300);
    assert_eq!(reconnect_delay_ms(80), 8000);
    assert_eq!(reconnect_delay_ms(81), 8000);
    assert_eq!(reconnect_delay_ms(usize::MAX), 8000);
}
