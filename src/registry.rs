use vstd::prelude::*;

use crate::strmap::{entries_match, StrMap};

verus! {

/// The active subscriptions: one cancellation handle per subject.
///
/// Registering a subject that is already registered replaces its entry and
/// hands the earlier handle back, so that the caller cancels it: a subject
/// never has two live drain tasks.
pub struct SubscriptionRegistry<H> {
    handles: StrMap<H>,
}

impl<H> View for SubscriptionRegistry<H> {
    type V = Map<Seq<char>, H>;

    closed spec fn view(&self) -> Map<Seq<char>, H> {
        self.handles@
    }
}

impl<H> SubscriptionRegistry<H> {
    pub fn new() -> (r: Self)
        ensures
            r@ == Map::<Seq<char>, H>::empty(),
    {
        SubscriptionRegistry { handles: StrMap::new() }
    }

    /// Number of active subscriptions.
    pub fn len(&self) -> (r: usize)
        ensures
            r == self@.len(),
    {
        self.handles.len()
    }

    /// Whether `subject` has an active subscription.
    pub fn contains(&self, subject: &str) -> (r: bool)
        ensures
            r == self@.contains_key(subject@),
    {
        self.handles.contains_key(subject)
    }

    /// Records `handle` for `subject`, returning the handle it replaces.
    pub fn register(&mut self, subject: String, handle: H) -> (replaced: Option<H>)
        ensures
            final(self)@ == old(self)@.insert(subject@, handle),
            match replaced {
                Some(h) => old(self)@.contains_key(subject@) && h == old(self)@[subject@],
                None => !old(self)@.contains_key(subject@),
            },
    {
        self.handles.insert(subject, handle)
    }

    /// Forgets `subject`, returning its handle for cancellation; a subject
    /// with no subscription leaves the registry as it is.
    pub fn unsubscribe(&mut self, subject: &str) -> (r: Option<H>)
        ensures
            final(self)@ == old(self)@.remove(subject@),
            match r {
                Some(h) => old(self)@.contains_key(subject@) && h == old(self)@[subject@],
                None => !old(self)@.contains_key(subject@) && final(self)@ == old(self)@,
            },
    {
        let r = self.handles.remove(subject);
        proof {
            if r is None {
                assert(old(self)@.remove(subject@) =~= old(self)@);
            }
        }
        r
    }

    /// Empties the registry, returning every subject with its handle.
    pub fn close_all(&mut self) -> (r: Vec<(String, H)>)
        ensures
            final(self)@ == Map::<Seq<char>, H>::empty(),
            entries_match(r@, old(self)@),
            r@.len() == old(self)@.len(),
    {
        self.handles.take_all()
    }
}

/// Unsubscribing twice is the same as unsubscribing once, and unsubscribing a
/// subject with no subscription changes nothing.
pub proof fn lemma_unsubscribe_idempotent<H>(
    before: Map<Seq<char>, H>,
    subject: Seq<char>,
    after: Map<Seq<char>, H>,
)
    requires
        after == before.remove(subject),
    ensures
        after.remove(subject) == after,
        !before.contains_key(subject) ==> after == before,
{
    assert(after.remove(subject) =~= after);
    if !before.contains_key(subject) {
        assert(after =~= before);
    }
}

/// Where a subscription's drain task stands.
#[derive(Clone, Copy, Debug, PartialEq, Eq, Structural)]
pub enum SubscriptionState {
    Registered,
    Draining,
    Cancelled,
    StreamEnded,
}

/// What the drain task observes.
#[derive(Clone, Copy, Debug, PartialEq, Eq, Structural)]
pub enum DrainEvent {
    /// The task began reading its stream.
    Started,
    /// The stream yielded a message.
    Delivered,
    /// The stream ended.
    StreamClosed,
    /// The subscription was cancelled by unsubscribe or close.
    Cancel,
}

/// What the drain task does next.
#[derive(Clone, Copy, Debug, PartialEq, Eq, Structural)]
pub enum DrainAction {
    /// Hand the message to the handler in its own unit of execution.
    Dispatch,
    /// Keep reading.
    Continue,
    /// Stop reading; the subscription is over.
    Stop,
}

/// Cancelled and ended subscriptions never come back.
pub open spec fn is_terminal(s: SubscriptionState) -> bool {
    s is Cancelled || s is StreamEnded
}

/// The lifecycle of one subscription.
pub open spec fn drain_next(s: SubscriptionState, e: DrainEvent) -> (SubscriptionState, DrainAction) {
    if is_terminal(s) {
        (s, DrainAction::Stop)
    } else {
        match e {
            DrainEvent::Started => (SubscriptionState::Draining, DrainAction::Continue),
            DrainEvent::Delivered => (SubscriptionState::Draining, DrainAction::Dispatch),
            DrainEvent::StreamClosed => (SubscriptionState::StreamEnded, DrainAction::Stop),
            DrainEvent::Cancel => (SubscriptionState::Cancelled, DrainAction::Stop),
        }
    }
}

/// Takes one step of the subscription lifecycle.
pub fn drain_step(s: SubscriptionState, e: DrainEvent) -> (r: (SubscriptionState, DrainAction))
    ensures
        r == drain_next(s, e),
{
    match s {
        SubscriptionState::Cancelled | SubscriptionState::StreamEnded => (s, DrainAction::Stop),
        _ => match e {
            DrainEvent::Started => (SubscriptionState::Draining, DrainAction::Continue),
            DrainEvent::Delivered => (SubscriptionState::Draining, DrainAction::Dispatch),
            DrainEvent::StreamClosed => (SubscriptionState::StreamEnded, DrainAction::Stop),
            DrainEvent::Cancel => (SubscriptionState::Cancelled, DrainAction::Stop),
        },
    }
}

/// The state after observing `events` from `s`.
pub open spec fn state_after(s: SubscriptionState, events: Seq<DrainEvent>) -> SubscriptionState
    decreases events.len(),
{
    if events.len() == 0 {
        s
    } else {
        drain_next(state_after(s, events.drop_last()), events.last()).0
    }
}

/// The action taken on the `i`-th of `events`, starting from `s`.
pub open spec fn action_at(s: SubscriptionState, events: Seq<DrainEvent>, i: int) -> DrainAction {
    drain_next(state_after(s, events.take(i)), events[i]).1
}

proof fn lemma_terminal_stays(s: SubscriptionState, events: Seq<DrainEvent>, j: int, i: int)
    requires
        0 <= j < i <= events.len(),
        events[j] == DrainEvent::Cancel,
    ensures
        state_after(s, events.take(i)) == SubscriptionState::Cancelled
            || state_after(s, events.take(i)) == SubscriptionState::StreamEnded,
    decreases i,
{
    let prefix = events.take(i);
    assert(prefix.drop_last() =~= events.take(i - 1));
    assert(prefix.last() == events[i - 1]);
    if i - 1 > j {
        lemma_terminal_stays(s, events, j, i - 1);
    }
}

/// Once a subscription is cancelled, no later message is dispatched to its
/// handler, however many the stream still delivers.
pub proof fn lemma_no_dispatch_after_cancel(
    s: SubscriptionState,
    events: Seq<DrainEvent>,
    j: int,
    i: int,
)
    requires
        0 <= j < i < events.len(),
        events[j] == DrainEvent::Cancel,
    ensures
        action_at(s, events, i) != DrainAction::Dispatch,
{
    lemma_terminal_stays(s, events, j, i);
}

} // verus!
