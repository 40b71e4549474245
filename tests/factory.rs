use std::sync::Arc;

use ro_messaging::config::NatsConfig;
use ro_messaging::error::MessagingError;
use ro_messaging::factory::MessageFactory;
use ro_messaging::message::{Attrs, Message, TransportMessage};

fn factory(name: &str, base_path: &str) -> MessageFactory {
    let mut cfg = NatsConfig::default();
    cfg.base_path = base_path.to_string();
    MessageFactory::new(name.to_string(), Arc::new(cfg))
}

fn attrs(pairs: &[(&str, &str)]) -> Attrs {
    let mut a = Attrs::new();
    for (k, v) in pairs {
        a.insert(k.to_string(), v.to_string());
    }
    a
}

fn header<'a>(m: &'a TransportMessage, key: &str) -> Option<&'a str> {
    m.headers.get(key).map(|s| s.as_str())
}

#[test]
fn subject_with_prefix() {
    let f = factory("svc", "orders");
    assert_eq!(f.subject("created"), "orders.created");
}

#[test]
fn subject_without_prefix() {
    let f = factory("svc", "");
    assert_eq!(f.subject("created"), "created");
}

#[test]
fn subject_keeps_dotted_pattern() {
    let f = factory("svc", "myapp");
    assert_eq!(f.subject("user.created"), "myapp.user.created");
}

#[test]
fn outbound_defaults_user_to_system() {
    let f = factory("billing", "");
    let m = f
        .build_msg_at("t", None, vec![1, 2], &Attrs::new(), &Attrs::new(), "2024-01-01T00:00:00.000000000Z")
        .unwrap();
    assert_eq!(header(&m, "user_id"), Some("system"));
    assert_eq!(header(&m, "from"), Some("billing"));
    assert_eq!(header(&m, "start_time"), Some("2024-01-01T00:00:00.000000000Z"));
    assert_eq!(m.headers.len(), 3);
}

#[test]
fn outbound_names_actor() {
    let f = factory("billing", "");
    let m = f
        .build_msg_at("t", Some("alice"), vec![], &Attrs::new(), &Attrs::new(), "now")
        .unwrap();
    assert_eq!(header(&m, "user_id"), Some("alice"));
    assert_eq!(header(&m, "from"), Some("billing"));
}

#[test]
fn caller_attrs_cannot_replace_standard_headers() {
    let f = factory("billing", "");
    let extra = attrs(&[("user_id", "mallory"), ("from", "elsewhere"), ("k", "v")]);
    let m = f.build_msg_at("t", None, vec![], &extra, &Attrs::new(), "now").unwrap();
    assert_eq!(header(&m, "user_id"), Some("system"));
    assert_eq!(header(&m, "from"), Some("billing"));
    assert_eq!(header(&m, "k"), Some("v"));
}

#[test]
fn invalid_custom_headers_are_skipped() {
    let f = factory("svc", "");
    let extra = attrs(&[("bad key", "v"), ("a:b", "v"), ("good", "line\nbreak"), ("ok", "fine")]);
    let m = f.build_msg_at("t", None, vec![], &extra, &Attrs::new(), "now").unwrap();
    assert!(!m.headers.contains_key("bad key"));
    assert!(!m.headers.contains_key("a:b"));
    assert!(!m.headers.contains_key("good"));
    assert_eq!(header(&m, "ok"), Some("fine"));
    assert_eq!(m.headers.len(), 4);
}

#[test]
fn caller_attrs_override_trace_headers() {
    let f = factory("svc", "");
    let trace = attrs(&[("traceparent", "00-abc-def-01"), ("tracestate", "x=1")]);
    let extra = attrs(&[("tracestate", "y=2")]);
    let m = f.build_msg_at("t", None, vec![], &extra, &trace, "now").unwrap();
    assert_eq!(header(&m, "traceparent"), Some("00-abc-def-01"));
    assert_eq!(header(&m, "tracestate"), Some("y=2"));
}

#[test]
fn line_break_in_actor_is_a_serialization_error() {
    let f = factory("svc", "");
    let r = f.build_msg_at("t", Some("a\r\nb"), vec![], &Attrs::new(), &Attrs::new(), "now");
    assert!(matches!(r, Err(MessagingError::Serialization(_))));
}

#[test]
fn outbound_applies_prefix_and_keeps_payload() {
    let f = factory("svc", "orders");
    let m = f.build_msg("created", None, vec![9, 8, 7], &Attrs::new(), &Attrs::new()).unwrap();
    assert_eq!(m.subject, "orders.created");
    assert_eq!(m.payload, vec![9, 8, 7]);
}

#[test]
fn start_time_does_not_go_backwards() {
    let f = factory("svc", "");
    let a = f.build_msg("t", None, vec![], &Attrs::new(), &Attrs::new()).unwrap();
    let b = f.build_msg("t", None, vec![], &Attrs::new(), &Attrs::new()).unwrap();
    let ta = header(&a, "start_time").unwrap().to_string();
    let tb = header(&b, "start_time").unwrap().to_string();
    assert!(ta.ends_with('Z'));
    assert!(ta <= tb);
}

#[test]
fn round_trip_keeps_data_and_attrs() {
    let f = factory("svc", "app");
    let extra = attrs(&[("a", "1"), ("b", "2")]);
    let data = vec![0u8, 255, 10, 13];
    let sent = f
        .build_msg("p", Some("bob"), data.clone(), &extra, &Attrs::new())
        .unwrap();
    let got = f.read_message(sent);
    assert_eq!(got.topic, "app.p");
    assert_eq!(got.data, data);
    assert_eq!(got.attr("a"), Some("1"));
    assert_eq!(got.attr("b"), Some("2"));
    assert_eq!(got.attr("user_id"), Some("bob"));
    assert_eq!(got.attr("from"), Some("svc"));
    assert!(got.attr("start_time").is_some());
}

#[test]
fn read_message_takes_subject_verbatim() {
    let f = factory("svc", "prefix");
    let t = TransportMessage {
        subject: "prefix.x".to_string(),
        payload: vec![1],
        headers: attrs(&[("h", "v")]),
    };
    let m = f.read_message(t);
    assert_eq!(m.topic, "prefix.x");
    assert_eq!(m.attr("h"), Some("v"));
}

#[test]
fn message_builder_sets_attrs() {
    let m = Message::new("t".to_string(), vec![1])
        .with_attr("k".to_string(), "v".to_string())
        .with_attr("k".to_string(), "w".to_string());
    assert_eq!(m.attr("k"), Some("w"));
    assert_eq!(m.attr("missing"), None);
    assert_eq!(m.attrs.len(), 1);
}
