use ro_messaging::middleware::{apply_middleware, span_fields, Composed, Operation};

fn run(c: &Composed<&str>, names: &[&str], log: &mut Vec<String>) {
    match c {
        Composed::Handler(h) => log.push(h.to_string()),
        Composed::Layer(i, _, inner) => {
            log.push(format!("{}:pre", names[*i]));
            run(inner, names, log);
            log.push(format!("{}:post", names[*i]));
        }
    }
}

#[test]
fn first_middleware_is_outermost() {
    let names = ["A", "B"];
    let c = apply_middleware(Operation::Subscribe, "H", &names);
    let mut log = Vec::new();
    run(&c, &names, &mut log);
    assert_eq!(log, vec!["A:pre", "B:pre", "H", "B:post", "A:post"]);
}

#[test]
fn no_middleware_leaves_handler() {
    let names: [&str; 0] = [];
    let c = apply_middleware(Operation::Publish, "H", &names);
    assert!(matches!(c, Composed::Handler("H")));
}

#[test]
fn layers_carry_operation() {
    let names = ["A", "B", "C"];
    let c = apply_middleware(Operation::QueueSubscribe, "H", &names);
    let mut cur = &c;
    let mut seen = Vec::new();
    while let Composed::Layer(i, op, inner) = cur {
        assert_eq!(*op, Operation::QueueSubscribe);
        seen.push(*i);
        cur = inner;
    }
    assert_eq!(seen, vec![0, 1, 2]);
}

#[test]
fn operation_labels() {
    assert_eq!(Operation::Publish.label(), "publish");
    assert_eq!(Operation::Subscribe.label(), "subscribe");
    assert_eq!(Operation::QueueSubscribe.label(), "queue_subscribe");
    assert_eq!(Operation::Request.label(), "request");
}

#[test]
fn tracing_span_fields() {
    let f = span_fields(Operation::Request, "orders.get");
    assert_eq!(f.name, "request orders.get");
    assert_eq!(f.system, "nats");
    assert_eq!(f.operation, "request");
    assert_eq!(f.destination, "orders.get");
}
