use std::sync::Arc;
use vstd::prelude::*;

use crate::config::NatsConfig;
use crate::error::{error_text, MessagingError};
use crate::factory::{built, subject_of, MessageFactory};
use crate::header::{valid_header_value, SYSTEM_ACTOR};
use crate::message::{attr_text, Attrs, TransportMessage};
use crate::registry::SubscriptionRegistry;
use crate::strmap::entries_match;

verus! {

/// Longest pause between reconnect attempts, in milliseconds.
pub const MAX_RECONNECT_DELAY_MS: u64 = 8000;

/// Growth of the pause per attempt, in milliseconds.
pub const RECONNECT_DELAY_STEP_MS: u64 = 100;

/// The pause before reconnect attempt `attempts`: 100 ms per attempt, at most 8 s.
pub fn reconnect_delay_ms(attempts: usize) -> (r: u64)
    ensures
        r == if attempts * RECONNECT_DELAY_STEP_MS <= MAX_RECONNECT_DELAY_MS {
            attempts * RECONNECT_DELAY_STEP_MS
        } else {
            MAX_RECONNECT_DELAY_MS as int
        },
{
    if attempts as u64 >= MAX_RECONNECT_DELAY_MS / RECONNECT_DELAY_STEP_MS {
        MAX_RECONNECT_DELAY_MS
    } else {
        attempts as u64 * RECONNECT_DELAY_STEP_MS
    }
}

/// How a request ended at the driver.
pub enum ReplyEvent {
    /// A reply arrived, with this payload.
    Reply(Vec<u8>),
    /// The timeout elapsed first.
    TimedOut,
    /// The driver reported a failure.
    Failed(String),
}

/// The result of a request for each way it can end: the reply payload, a
/// timeout error, or a request error with the driver's words.
pub fn request_outcome(event: ReplyEvent) -> (r: Result<Vec<u8>, MessagingError>)
    ensures
        match event {
            ReplyEvent::Reply(p) => r matches Ok(q) && q@ == p@,
            ReplyEvent::TimedOut => r matches Err(MessagingError::RequestTimeout),
            ReplyEvent::Failed(s) => r matches Err(MessagingError::Request(t)) && t@ == s@,
        },
{
    match event {
        ReplyEvent::Reply(p) => Ok(p),
        ReplyEvent::TimedOut => Err(MessagingError::RequestTimeout),
        ReplyEvent::Failed(s) => Err(MessagingError::Request(s)),
    }
}

/// What the transport sees of a domain handler's result: success, with any
/// reply dropped, or a `Handler` error carrying the text of the handler's error.
pub fn handler_outcome(r: Result<Option<Vec<u8>>, MessagingError>) -> (o: Result<(), MessagingError>)
    ensures
        match r {
            Ok(_) => o is Ok,
            Err(e) => o matches Err(MessagingError::Handler(s)) && s@ == error_text(e),
        },
{
    match r {
        Ok(_) => Ok(()),
        Err(e) => Err(MessagingError::Handler(e.message())),
    }
}

/// The outcome of recording a new subscription.
pub enum Registration<H> {
    /// The subject had no subscription.
    Added,
    /// The subject's earlier handle, which the caller must cancel.
    Replaced(H),
    /// The connection is closed; the caller must cancel this handle.
    Refused(H),
}

/// The decisions of a connection: subjects, outbound messages and the
/// subscription registry, shared by every capability bound to it. `H` is the
/// cancellation handle of a drain task.
pub struct ConnectionCore<H> {
    factory: Arc<MessageFactory>,
    registry: SubscriptionRegistry<H>,
    closed: bool,
}

impl<H> ConnectionCore<H> {
    pub closed spec fn is_closed_spec(&self) -> bool {
        self.closed
    }

    /// The active subscriptions, by subject.
    pub closed spec fn subscriptions(&self) -> Map<Seq<char>, H> {
        self.registry@
    }

    pub closed spec fn factory_spec(&self) -> MessageFactory {
        *self.factory
    }

    /// A closed connection holds no subscription.
    pub closed spec fn wf(&self) -> bool {
        self.closed ==> self.registry@ == Map::<Seq<char>, H>::empty()
    }

    /// Opens the core of a connection for service `name`; a disabled
    /// configuration is refused with `Closed`.
    pub fn open(name: String, cfg: Arc<NatsConfig>) -> (r: Result<Self, MessagingError>)
        ensures
            match r {
                Ok(c) => {
                    &&& cfg.enabled
                    &&& c.wf()
                    &&& !c.is_closed_spec()
                    &&& c.subscriptions() == Map::<Seq<char>, H>::empty()
                    &&& c.factory_spec().service_name() == name@
                    &&& c.factory_spec().base_path() == cfg.base_path@
                },
                Err(e) => !cfg.enabled && e is Closed,
            },
    {
        if !cfg.enabled {
            return Err(MessagingError::Closed);
        }
        Ok(ConnectionCore {
            factory: Arc::new(MessageFactory::new(name, cfg)),
            registry: SubscriptionRegistry::new(),
            closed: false,
        })
    }

    pub fn is_closed(&self) -> (r: bool)
        ensures
            r == self.is_closed_spec(),
    {
        self.closed
    }

    /// The factory, shared with whoever reads delivered messages.
    pub fn factory(&self) -> (r: &Arc<MessageFactory>)
        ensures
            **r == self.factory_spec(),
    {
        &self.factory
    }

    /// Whether `subject` has an active subscription.
    pub fn is_subscribed(&self, subject: &str) -> (r: bool)
        ensures
            r == self.subscriptions().contains_key(subject@),
    {
        self.registry.contains(subject)
    }

    /// The message to send for a publish or a request on `topic`, written on
    /// behalf of the system actor; `Closed` once the connection is closed.
    pub fn outbound(&self, topic: &str, data: Vec<u8>, attrs: &Attrs, trace: &Attrs) -> (r: Result<
        TransportMessage,
        MessagingError,
    >)
        ensures
            self.is_closed_spec() ==> r matches Err(MessagingError::Closed),
            !self.is_closed_spec() ==> exists|start: Seq<char>|
                valid_header_value(start) && built(
                    self.factory_spec(),
                    topic@,
                    SYSTEM_ACTOR@,
                    data@,
                    attr_text(attrs@),
                    attr_text(trace@),
                    start,
                    r,
                ),
            !self.is_closed_spec() && valid_header_value(self.factory_spec().service_name())
                ==> r is Ok,
    {
        if self.closed {
            return Err(MessagingError::Closed);
        }
        proof {
            reveal_strlit("system");
            assert(valid_header_value(crate::factory::actor_text(None)));
        }
        let ghost d = data@;
        let r = self.factory.build_msg(topic, None, data, attrs, trace);
        proof {
            let start = choose|start: Seq<char>|
                valid_header_value(start) && built(
                    *self.factory,
                    topic@,
                    crate::factory::actor_text(None),
                    d,
                    attr_text(attrs@),
                    attr_text(trace@),
                    start,
                    r,
                );
            assert(valid_header_value(start) && built(
                self.factory_spec(),
                topic@,
                SYSTEM_ACTOR@,
                d,
                attr_text(attrs@),
                attr_text(trace@),
                start,
                r,
            ));
        }
        r
    }

    /// The subject a subscription on `topic` listens to; `Closed` once the
    /// connection is closed.
    pub fn subscription_subject(&self, topic: &str) -> (r: Result<String, MessagingError>)
        ensures
            self.is_closed_spec() ==> r matches Err(MessagingError::Closed),
            !self.is_closed_spec() ==> (r matches Ok(s) && s@ == subject_of(
                self.factory_spec().base_path(),
                topic@,
            )),
    {
        if self.closed {
            return Err(MessagingError::Closed);
        }
        Ok(self.factory.subject(topic))
    }

    /// Records the drain task of a new subscription on `subject`.
    pub fn register(&mut self, subject: String, handle: H) -> (r: Registration<H>)
        requires
            old(self).wf(),
        ensures
            final(self).wf(),
            final(self).is_closed_spec() == old(self).is_closed_spec(),
            final(self).factory_spec() == old(self).factory_spec(),
            old(self).is_closed_spec() ==> (r matches Registration::Refused(h) && h == handle),
            old(self).is_closed_spec() ==> final(self).subscriptions() == old(self).subscriptions(),
            !old(self).is_closed_spec() ==> final(self).subscriptions() == old(
                self,
            ).subscriptions().insert(subject@, handle),
            !old(self).is_closed_spec() ==> match r {
                Registration::Added => !old(self).subscriptions().contains_key(subject@),
                Registration::Replaced(h) => old(self).subscriptions().contains_key(subject@) && h
                    == old(self).subscriptions()[subject@],
                Registration::Refused(_) => false,
            },
    {
        if self.closed {
            return Registration::Refused(handle);
        }
        match self.registry.register(subject, handle) {
            Some(h) => Registration::Replaced(h),
            None => Registration::Added,
        }
    }

    /// Ends the subscription on `topic`, returning its handle for
    /// cancellation; a topic with no subscription is no error.
    pub fn unsubscribe(&mut self, topic: &str) -> (r: Result<Option<H>, MessagingError>)
        requires
            old(self).wf(),
        ensures
            final(self).wf(),
            final(self).is_closed_spec() == old(self).is_closed_spec(),
            final(self).factory_spec() == old(self).factory_spec(),
            old(self).is_closed_spec() ==> r matches Err(MessagingError::Closed),
            old(self).is_closed_spec() ==> final(self).subscriptions() == old(self).subscriptions(),
            !old(self).is_closed_spec() ==> {
                let subject = subject_of(old(self).factory_spec().base_path(), topic@);
                &&& final(self).subscriptions() == old(self).subscriptions().remove(subject)
                &&& r matches Ok(o)
                &&& match o {
                    Some(h) => old(self).subscriptions().contains_key(subject) && h == old(
                        self,
                    ).subscriptions()[subject],
                    None => !old(self).subscriptions().contains_key(subject),
                }
            },
    {
        if self.closed {
            return Err(MessagingError::Closed);
        }
        let subject = self.factory.subject(topic);
        Ok(self.registry.unsubscribe(subject.as_str()))
    }

    /// Closes the connection, returning every active subscription for
    /// cancellation; closing again returns nothing.
    pub fn close(&mut self) -> (r: Vec<(String, H)>)
        requires
            old(self).wf(),
        ensures
            final(self).wf(),
            final(self).is_closed_spec(),
            final(self).subscriptions() == Map::<Seq<char>, H>::empty(),
            final(self).factory_spec() == old(self).factory_spec(),
            entries_match(r@, old(self).subscriptions()),
            r@.len() == old(self).subscriptions().len(),
            old(self).is_closed_spec() ==> r@.len() == 0,
    {
        self.closed = true;
        self.registry.close_all()
    }
}

/// On an open connection, unsubscribing a topic twice answers `Ok` both times
/// and the second call changes nothing; a topic with no subscription is left
/// as it was from the first call.
pub proof fn lemma_connection_unsubscribe_twice<H>(
    c0: ConnectionCore<H>,
    c1: ConnectionCore<H>,
    c2: ConnectionCore<H>,
    topic: Seq<char>,
)
    requires
        !c0.is_closed_spec(),
        c1.is_closed_spec() == c0.is_closed_spec(),
        c1.factory_spec() == c0.factory_spec(),
        c1.subscriptions() == c0.subscriptions().remove(
            subject_of(c0.factory_spec().base_path(), topic),
        ),
        !c1.is_closed_spec() ==> c2.subscriptions() == c1.subscriptions().remove(
            subject_of(c1.factory_spec().base_path(), topic),
        ),
    ensures
        !c1.is_closed_spec(),
        c2.subscriptions() == c1.subscriptions(),
        !c0.subscriptions().contains_key(subject_of(c0.factory_spec().base_path(), topic))
            ==> c1.subscriptions() == c0.subscriptions(),
{
    let s = subject_of(c0.factory_spec().base_path(), topic);
    crate::registry::lemma_unsubscribe_idempotent(c0.subscriptions(), s, c1.subscriptions());
}

} // verus!
