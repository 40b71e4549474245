use vstd::prelude::*;

verus! {

/// The logical operation a handler serves.
#[derive(Clone, Copy, Debug, PartialEq, Eq, Structural)]
pub enum Operation {
    Publish,
    Subscribe,
    QueueSubscribe,
    Request,
}

/// The label of an operation, as middlewares see it.
pub open spec fn operation_label(op: Operation) -> Seq<char> {
    match op {
        Operation::Publish => "publish"@,
        Operation::Subscribe => "subscribe"@,
        Operation::QueueSubscribe => "queue_subscribe"@,
        Operation::Request => "request"@,
    }
}

impl Operation {
    pub fn label(&self) -> (r: &'static str)
        ensures
            r@ == operation_label(*self),
    {
        match self {
            Operation::Publish => "publish",
            Operation::Subscribe => "subscribe",
            Operation::QueueSubscribe => "queue_subscribe",
            Operation::Request => "request",
        }
    }
}

/// A handler wrapped in middleware layers. Each layer names a middleware by its
/// position in the configured list and the operation it wraps for; the first
/// layer is the outermost.
pub enum Composed<H> {
    Handler(H),
    Layer(usize, Operation, Box<Composed<H>>),
}

impl<H> Composed<H> {
    /// Middleware positions, outermost first.
    pub open spec fn layers(self) -> Seq<usize>
        decreases self,
    {
        match self {
            Composed::Handler(_) => Seq::empty(),
            Composed::Layer(i, _, inner) => seq![i] + inner.layers(),
        }
    }

    /// The handler at the centre.
    pub open spec fn base(self) -> H
        decreases self,
    {
        match self {
            Composed::Handler(h) => h,
            Composed::Layer(_, _, inner) => inner.base(),
        }
    }

    /// Every layer wraps for `op`.
    pub open spec fn serves(self, op: Operation) -> bool
        decreases self,
    {
        match self {
            Composed::Handler(_) => true,
            Composed::Layer(_, o, inner) => o == op && inner.serves(op),
        }
    }
}

/// One step of running a composed handler: a middleware's logic before its
/// inner handler, the handler itself, or a middleware's logic after it.
pub enum Step {
    Before(usize),
    Call,
    After(usize),
}

/// The steps of running a handler wrapped in `layers` (outermost first): each
/// layer runs its before-logic, then everything inside it, then its after-logic.
pub open spec fn invocation(layers: Seq<usize>) -> Seq<Step>
    decreases layers.len(),
{
    if layers.len() == 0 {
        seq![Step::Call]
    } else {
        seq![Step::Before(layers[0])] + invocation(layers.drop_first()) + seq![
            Step::After(layers[0]),
        ]
    }
}

/// Positions `0 .. n` in order.
pub open spec fn positions(n: nat) -> Seq<usize> {
    Seq::new(n, |i: int| i as usize)
}

/// Wraps `handler` in `middlewares` for `operation`, folding from the last so
/// that the first middleware is the outermost layer.
pub fn apply_middleware<M, H>(operation: Operation, handler: H, middlewares: &[M]) -> (r: Composed<H>)
    ensures
        r.layers() == positions(middlewares@.len()),
        r.base() == handler,
        r.serves(operation),
{
    let n = middlewares.len();
    let mut h = Composed::Handler(handler);
    let mut i: usize = n;
    proof {
        assert(h.layers() =~= Seq::new((n - i) as nat, |j: int| (j + i) as usize));
    }
    while i > 0
        invariant
            i <= n,
            n == middlewares@.len(),
            h.layers() == Seq::new((n - i) as nat, |j: int| (j + i) as usize),
            h.base() == handler,
            h.serves(operation),
        decreases i,
    {
        i = i - 1;
        h = Composed::Layer(i, operation, Box::new(h));
        proof {
            assert(h.layers() =~= Seq::new((n - i) as nat, |j: int| (j + i) as usize));
        }
    }
    proof {
        assert(h.layers() =~= positions(n as nat));
    }
    h
}

/// Running a handler wrapped in `layers` runs every before-logic from the
/// outermost inwards, then the handler, then every after-logic from the
/// innermost outwards.
pub proof fn lemma_invocation_nests(layers: Seq<usize>)
    ensures
        invocation(layers) == layers.map_values(|i: usize| Step::Before(i)) + seq![Step::Call]
            + layers.reverse().map_values(|i: usize| Step::After(i)),
    decreases layers.len(),
{
    if layers.len() == 0 {
        assert(invocation(layers) =~= layers.map_values(|i: usize| Step::Before(i)) + seq![
            Step::Call,
        ] + layers.reverse().map_values(|i: usize| Step::After(i)));
    } else {
        let rest = layers.drop_first();
        lemma_invocation_nests(rest);
        assert(layers.reverse() =~= rest.reverse().push(layers[0]));
        assert(layers.map_values(|i: usize| Step::Before(i)) =~= seq![Step::Before(layers[0])]
            + rest.map_values(|i: usize| Step::Before(i)));
        assert(layers.reverse().map_values(|i: usize| Step::After(i)) =~= rest.reverse().map_values(
            |i: usize| Step::After(i),
        ).push(Step::After(layers[0])));
        assert(invocation(layers) =~= layers.map_values(|i: usize| Step::Before(i)) + seq![
            Step::Call,
        ] + layers.reverse().map_values(|i: usize| Step::After(i)));
    }
}

/// With middlewares `[A, B]` around a handler `H`, a call runs A's
/// before-logic, then B's, then `H`, then B's after-logic, then A's.
pub proof fn lemma_two_middlewares_order<H>(composed: Composed<H>)
    requires
        composed.layers() == positions(2),
    ensures
        invocation(composed.layers()) == seq![
            Step::Before(0),
            Step::Before(1),
            Step::Call,
            Step::After(1),
            Step::After(0),
        ],
{
    let l = composed.layers();
    assert(l[0] == 0usize && l[1] == 1usize);
    assert(l.drop_first().drop_first().len() == 0);
    assert(invocation(l.drop_first().drop_first()) == seq![Step::Call]);
    assert(invocation(l.drop_first()) =~= seq![Step::Before(1), Step::Call, Step::After(1)]);
    assert(invocation(l) =~= seq![
        Step::Before(0),
        Step::Before(1),
        Step::Call,
        Step::After(1),
        Step::After(0),
    ]);
}

/// The fields of the span that the tracing middleware opens around a handler.
pub struct SpanFields {
    /// Span name: `"{operation} {subject}"`
    pub name: String,
    pub system: String,
    pub operation: String,
    pub destination: String,
}

/// Name of the messaging system in span fields.
pub const MESSAGING_SYSTEM: &'static str = "nats";

/// The span fields for a handler serving `op` on `subject`.
pub fn span_fields(op: Operation, subject: &str) -> (r: SpanFields)
    ensures
        r.name@ == operation_label(op) + " "@ + subject@,
        r.system@ == MESSAGING_SYSTEM@,
        r.operation@ == operation_label(op),
        r.destination@ == subject@,
{
    let label = op.label();
    let mut name = label.to_owned();
    name.append(" ");
    name.append(subject);
    SpanFields {
        name,
        system: MESSAGING_SYSTEM.to_owned(),
        operation: label.to_owned(),
        destination: subject.to_owned(),
    }
}

} // verus!
