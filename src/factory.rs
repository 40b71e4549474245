use std::sync::Arc;
use vstd::prelude::*;

use crate::config::NatsConfig;
use crate::error::MessagingError;
use crate::header::{
    header_name_ok, header_value_ok, is_reserved_header, reserved_header, valid_header_name,
    valid_header_value, HEADER_FROM, HEADER_START_TIME, HEADER_USER_ID, SYSTEM_ACTOR,
};
use crate::message::{attr_text, Attrs, Message, TransportMessage};
use crate::strmap::{entries_match, StrMap};

verus! {

/// The subject for `pattern` under prefix `base`.
pub open spec fn subject_of(base: Seq<char>, pattern: Seq<char>) -> Seq<char> {
    if base.len() == 0 {
        pattern
    } else {
        base + "."@ + pattern
    }
}

/// The user id written for an optional actor.
pub open spec fn actor_text(actor: Option<&str>) -> Seq<char> {
    match actor {
        Some(a) => a@,
        None => SYSTEM_ACTOR@,
    }
}

/// The standard headers: acting user, sending service and send time.
pub open spec fn standard_headers(user: Seq<char>, service: Seq<char>, start: Seq<char>) -> Map<
    Seq<char>,
    Seq<char>,
> {
    Map::empty().insert(HEADER_USER_ID@, user).insert(HEADER_FROM@, service).insert(
        HEADER_START_TIME@,
        start,
    )
}

/// Whether the standard header values can be written.
pub open spec fn standard_values_valid(user: Seq<char>, service: Seq<char>, start: Seq<char>) -> bool {
    valid_header_value(user) && valid_header_value(service) && valid_header_value(start)
}

/// An extra header is written when it is well formed and not a standard one.
pub open spec fn admissible(k: Seq<char>, v: Seq<char>) -> bool {
    valid_header_name(k) && valid_header_value(v) && !reserved_header(k)
}

/// `base` with every admissible entry of `extra` written over it.
pub open spec fn overlay(base: Map<Seq<char>, Seq<char>>, extra: Map<Seq<char>, Seq<char>>) -> Map<
    Seq<char>,
    Seq<char>,
> {
    Map::new(
        |k: Seq<char>| base.contains_key(k) || (extra.contains_key(k) && admissible(k, extra[k])),
        |k: Seq<char>|
            if extra.contains_key(k) && admissible(k, extra[k]) {
                extra[k]
            } else {
                base[k]
            },
    )
}

/// The headers of an outbound message: the standard ones, then the trace
/// context, then the caller's attributes.
pub open spec fn outbound_headers(
    user: Seq<char>,
    service: Seq<char>,
    start: Seq<char>,
    trace: Map<Seq<char>, Seq<char>>,
    attrs: Map<Seq<char>, Seq<char>>,
) -> Map<Seq<char>, Seq<char>> {
    overlay(overlay(standard_headers(user, service, start), trace), attrs)
}

/// Builds and parses driver messages and owns the subject prefix policy.
pub struct MessageFactory {
    name: String,
    cfg: Arc<NatsConfig>,
}

/// What building an outbound message yields, given the send time `start`.
pub open spec fn built(
    f: MessageFactory,
    pattern: Seq<char>,
    user: Seq<char>,
    data: Seq<u8>,
    attrs: Map<Seq<char>, Seq<char>>,
    trace: Map<Seq<char>, Seq<char>>,
    start: Seq<char>,
    r: Result<TransportMessage, MessagingError>,
) -> bool {
    match r {
        Ok(m) => {
            &&& standard_values_valid(user, f.service_name(), start)
            &&& m.subject@ == subject_of(f.base_path(), pattern)
            &&& m.payload@ == data
            &&& attr_text(m.headers@) == outbound_headers(
                user,
                f.service_name(),
                start,
                trace,
                attrs,
            )
        },
        Err(e) => !standard_values_valid(user, f.service_name(), start) && e is Serialization,
    }
}

/// `m` is the envelope read from driver message `t`.
pub open spec fn parsed_from(t: TransportMessage, m: Message) -> bool {
    &&& m.topic@ == t.subject@
    &&& m.data@ == t.payload@
    &&& m.attrs@ == t.headers@
}

/// Keys among the first `i` entries.
spec fn seen<V>(s: Seq<(String, V)>, i: int) -> Set<Seq<char>> {
    Set::new(|k: Seq<char>| exists|j: int| 0 <= j < i && (#[trigger] s[j]).0@ == k)
}

/// Relies on chrono's `From<SystemTime> for DateTime<Utc>`, which also takes
/// times before 1970 (it fails only past chrono's range of some 262,000 years,
/// which a kernel clock kept in 64-bit nanoseconds cannot reach), and on
/// `DateTime::to_rfc3339_opts`, whose RFC 3339 text is digits, `-`, `:`, `T`,
/// `.`, a sign and `Z`: never a line break. Nothing is promised of the time.
#[verifier::external_body]
fn utc_now_rfc3339() -> (r: String)
    ensures
        valid_header_value(r@),
{
    chrono::DateTime::<chrono::Utc>::from(std::time::SystemTime::now()).to_rfc3339_opts(
        chrono::SecondsFormat::Nanos,
        true,
    )
}

/// Writes every admissible entry of `extra` over `base`.
fn overlay_into(base: &mut Attrs, extra: &Attrs)
    ensures
        attr_text(final(base)@) == overlay(attr_text(old(base)@), attr_text(extra@)),
{
    let entries = extra.entries();
    let ghost b0 = attr_text(base@);
    let ghost ex = attr_text(extra@);
    let mut i: usize = 0;
    proof {
        assert(ex.restrict(seen(entries@, 0)) =~= Map::empty());
        assert(overlay(b0, Map::empty()) =~= b0);
    }
    while i < entries.len()
        invariant
            entries_match(entries@, extra@),
            ex == attr_text(extra@),
            i <= entries@.len(),
            attr_text(base@) == overlay(b0, ex.restrict(seen(entries@, i as int))),
        decreases entries@.len() - i,
    {
        let k = &entries[i].0;
        let v = &entries[i].1;
        let ghost before = base@;
        let ghost s0 = seen(entries@, i as int);
        let ghost s1 = seen(entries@, i + 1);
        proof {
            assert(s1 =~= s0.insert(k@)) by {
                assert(entries@[i as int].0@ == k@);
            }
            assert(!s0.contains(k@)) by {
                if s0.contains(k@) {
                    let j = choose|j: int| 0 <= j < i && (#[trigger] entries@[j]).0@ == k@;
                    assert(entries@[j].0@ != entries@[i as int].0@);
                }
            }
            assert(ex.contains_key(k@) && ex[k@] == v@);
            assert(ex.restrict(s1) =~= ex.restrict(s0).insert(k@, v@));
        }
        if header_name_ok(k.as_str()) && header_value_ok(v.as_str()) && !is_reserved_header(
            k.as_str(),
        ) {
            base.insert(k.clone(), v.clone());
            proof {
                assert(attr_text(base@) =~= attr_text(before).insert(k@, v@));
                assert(overlay(b0, ex.restrict(s1)) =~= overlay(b0, ex.restrict(s0)).insert(
                    k@,
                    v@,
                ));
            }
        } else {
            proof {
                assert(!admissible(k@, v@));
                assert(overlay(b0, ex.restrict(s1)) =~= overlay(b0, ex.restrict(s0)));
            }
        }
        i = i + 1;
    }
    proof {
        assert(ex.restrict(seen(entries@, i as int)) =~= ex) by {
            assert forall|k: Seq<char>| ex.contains_key(k) implies seen(
                entries@,
                i as int,
            ).contains(k) by {
                let j = choose|j: int| 0 <= j < entries@.len() && (#[trigger] entries@[j]).0@ == k;
                assert(entries@[j].0@ == k);
            }
        }
    }
}

impl MessageFactory {
    /// The service name written into the `from` header.
    pub closed spec fn service_name(&self) -> Seq<char> {
        self.name@
    }

    /// The configured subject prefix.
    pub closed spec fn base_path(&self) -> Seq<char> {
        self.cfg.base_path@
    }

    pub fn new(name: String, config: Arc<NatsConfig>) -> (r: Self)
        ensures
            r.service_name() == name@,
            r.base_path() == config.base_path@,
    {
        MessageFactory { name, cfg: config }
    }

    /// The subject for `pattern`: unchanged when the prefix is empty, else
    /// `"{prefix}.{pattern}"`.
    pub fn subject(&self, pattern: &str) -> (r: String)
        ensures
            r@ == subject_of(self.base_path(), pattern@),
    {
        if self.cfg.base_path.as_str().is_empty() {
            pattern.to_owned()
        } else {
            let mut s = self.cfg.base_path.clone();
            s.append(".");
            s.append(pattern);
            s
        }
    }

    /// Builds an outbound message sent at `start_time`. It fails, with a
    /// `Serialization` error, only when a standard header value holds a line break;
    /// extra headers that are malformed or name a standard header are skipped.
    pub fn build_msg_at(
        &self,
        pattern: &str,
        actor_id: Option<&str>,
        data: Vec<u8>,
        attrs: &Attrs,
        trace: &Attrs,
        start_time: &str,
    ) -> (r: Result<TransportMessage, MessagingError>)
        ensures
            built(
                *self,
                pattern@,
                actor_text(actor_id),
                data@,
                attr_text(attrs@),
                attr_text(trace@),
                start_time@,
                r,
            ),
    {
        let user = match actor_id {
            Some(a) => a,
            None => SYSTEM_ACTOR,
        };
        if !(header_value_ok(user) && header_value_ok(self.name.as_str()) && header_value_ok(
            start_time,
        )) {
            return Err(MessagingError::Serialization("invalid standard header value".to_owned()));
        }
        let subject = self.subject(pattern);
        let mut headers: Attrs = StrMap::new();
        headers.insert(HEADER_USER_ID.to_owned(), user.to_owned());
        headers.insert(HEADER_FROM.to_owned(), self.name.clone());
        headers.insert(HEADER_START_TIME.to_owned(), start_time.to_owned());
        proof {
            assert(attr_text(headers@) =~= standard_headers(user@, self.name@, start_time@));
        }
        overlay_into(&mut headers, trace);
        overlay_into(&mut headers, attrs);
        Ok(TransportMessage { subject, payload: data, headers })
    }

    /// Builds an outbound message stamped with the current time, as
    /// `build_msg_at` does for whatever time the clock gave.
    pub fn build_msg(
        &self,
        pattern: &str,
        actor_id: Option<&str>,
        data: Vec<u8>,
        attrs: &Attrs,
        trace: &Attrs,
    ) -> (r: Result<TransportMessage, MessagingError>)
        ensures
            exists|start: Seq<char>|
                valid_header_value(start) && built(
                    *self,
                    pattern@,
                    actor_text(actor_id),
                    data@,
                    attr_text(attrs@),
                    attr_text(trace@),
                    start,
                    r,
                ),
            valid_header_value(actor_text(actor_id)) && valid_header_value(self.service_name())
                ==> r is Ok,
    {
        let now = utc_now_rfc3339();
        let r = self.build_msg_at(pattern, actor_id, data, attrs, trace, now.as_str());
        proof {
            assert(valid_header_value(now@) && built(
                *self,
                pattern@,
                actor_text(actor_id),
                data@,
                attr_text(attrs@),
                attr_text(trace@),
                now@,
                r,
            ));
        }
        r
    }

    /// Turns a delivered driver message into an envelope: the subject becomes
    /// the topic as it is, every header an attribute, the payload the data.
    pub fn read_message(&self, msg: TransportMessage) -> (r: Message)
        ensures
            parsed_from(msg, r),
    {
        Message { topic: msg.subject, data: msg.payload, attrs: msg.headers }
    }
}

proof fn lemma_standard_names_distinct()
    ensures
        HEADER_USER_ID@ != HEADER_FROM@,
        HEADER_USER_ID@ != HEADER_START_TIME@,
        HEADER_FROM@ != HEADER_START_TIME@,
{
    reveal_strlit("user_id");
    reveal_strlit("from");
    reveal_strlit("start_time");
    assert(HEADER_USER_ID@.len() == 7);
    assert(HEADER_FROM@.len() == 4);
    assert(HEADER_START_TIME@.len() == 10);
}

/// Whatever the trace context and the caller's attributes hold, an outbound
/// message names the acting user (`"system"` when there is none) in `user_id`,
/// the service in `from`, and its send time in `start_time`.
pub proof fn lemma_standard_headers_kept(
    actor: Option<&str>,
    service: Seq<char>,
    start: Seq<char>,
    trace: Map<Seq<char>, Seq<char>>,
    attrs: Map<Seq<char>, Seq<char>>,
)
    ensures
        ({
            let h = outbound_headers(actor_text(actor), service, start, trace, attrs);
            &&& h.contains_key(HEADER_USER_ID@)
            &&& h[HEADER_USER_ID@] == (match actor {
                Some(a) => a@,
                None => SYSTEM_ACTOR@,
            })
            &&& h.contains_key(HEADER_FROM@)
            &&& h[HEADER_FROM@] == service
            &&& h.contains_key(HEADER_START_TIME@)
            &&& h[HEADER_START_TIME@] == start
        }),
{
    let user = actor_text(actor);
    let std = standard_headers(user, service, start);
    let h1 = overlay(std, trace);
    let h = overlay(h1, attrs);
    assert(reserved_header(HEADER_USER_ID@));
    assert(reserved_header(HEADER_FROM@));
    assert(reserved_header(HEADER_START_TIME@));
    lemma_standard_names_distinct();
    assert(h1.contains_key(HEADER_USER_ID@) && h1[HEADER_USER_ID@] == user);
    assert(h1.contains_key(HEADER_FROM@) && h1[HEADER_FROM@] == service);
    assert(h1.contains_key(HEADER_START_TIME@) && h1[HEADER_START_TIME@] == start);
}

/// A message that was built carries the acting user (`"system"` when there is
/// none) in `user_id` and the service in `from`, whatever attributes the caller
/// passed.
pub proof fn lemma_built_names_sender(
    f: MessageFactory,
    pattern: Seq<char>,
    actor: Option<&str>,
    data: Seq<u8>,
    attrs: Map<Seq<char>, Seq<char>>,
    trace: Map<Seq<char>, Seq<char>>,
    start: Seq<char>,
    sent: TransportMessage,
)
    requires
        built(f, pattern, actor_text(actor), data, attrs, trace, start, Ok(sent)),
    ensures
        sent.headers@.contains_key(HEADER_USER_ID@),
        sent.headers@[HEADER_USER_ID@]@ == actor_text(actor),
        sent.headers@.contains_key(HEADER_FROM@),
        sent.headers@[HEADER_FROM@]@ == f.service_name(),
{
    lemma_standard_headers_kept(actor, f.service_name(), start, trace, attrs);
    assert(attr_text(sent.headers@).contains_key(HEADER_USER_ID@));
    assert(attr_text(sent.headers@).contains_key(HEADER_FROM@));
}

/// Reading back a message that was built reproduces its payload exactly, and
/// its attributes hold every key passed in (with its value, unless it names a
/// standard header) besides the standard headers. Keys and values that are not
/// well-formed headers are skipped when building and so are left out here.
pub proof fn lemma_round_trip(
    f: MessageFactory,
    pattern: Seq<char>,
    actor: Option<&str>,
    data: Seq<u8>,
    attrs: Map<Seq<char>, Seq<char>>,
    trace: Map<Seq<char>, Seq<char>>,
    start: Seq<char>,
    sent: TransportMessage,
    received: Message,
)
    requires
        forall|k: Seq<char>|
            #[trigger] attrs.contains_key(k) ==> valid_header_name(k) && valid_header_value(
                attrs[k],
            ),
        built(f, pattern, actor_text(actor), data, attrs, trace, start, Ok(sent)),
        parsed_from(sent, received),
    ensures
        received.data@ == data,
        received.topic@ == subject_of(f.base_path(), pattern),
        forall|k: Seq<char>|
            #[trigger] attrs.contains_key(k) ==> received.attrs@.contains_key(k) && (
            !reserved_header(k) ==> received.attrs@[k]@ == attrs[k]),
        received.attrs@.contains_key(HEADER_USER_ID@),
        received.attrs@.contains_key(HEADER_FROM@),
        received.attrs@.contains_key(HEADER_START_TIME@),
{
    lemma_standard_headers_kept(actor, f.service_name(), start, trace, attrs);
    let h = outbound_headers(actor_text(actor), f.service_name(), start, trace, attrs);
    assert(attr_text(received.attrs@) == h);
    assert forall|k: Seq<char>| #[trigger] attrs.contains_key(k) implies received.attrs@.contains_key(
        k,
    ) && (!reserved_header(k) ==> received.attrs@[k]@ == attrs[k]) by {
        if reserved_header(k) {
            assert(h.contains_key(k));
        } else {
            assert(h.contains_key(k) && h[k] == attrs[k]);
        }
        assert(attr_text(received.attrs@).contains_key(k));
    }
    assert(attr_text(received.attrs@).contains_key(HEADER_USER_ID@));
    assert(attr_text(received.attrs@).contains_key(HEADER_FROM@));
    assert(attr_text(received.attrs@).contains_key(HEADER_START_TIME@));
}

} // verus!
