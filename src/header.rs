use std::str::FromStr;
use vstd::prelude::*;

verus! {

/// Header naming the acting user.
pub const HEADER_USER_ID: &'static str = "user_id";

/// Header naming the sending service.
pub const HEADER_FROM: &'static str = "from";

/// Header holding the send time.
pub const HEADER_START_TIME: &'static str = "start_time";

/// Actor written when none is given.
pub const SYSTEM_ACTOR: &'static str = "system";

/// A header name holds visible ASCII characters only, and no colon.
pub open spec fn valid_header_name(k: Seq<char>) -> bool {
    forall|i: int| 0 <= i < k.len() ==> 0x21 <= (#[trigger] k[i]) as u32 <= 0x7e && k[i] != ':'
}

/// A header value holds no line break.
pub open spec fn valid_header_value(v: Seq<char>) -> bool {
    forall|i: int| 0 <= i < v.len() ==> (#[trigger] v[i]) != '\r' && v[i] != '\n'
}

/// The standard headers, which caller attributes cannot replace.
pub open spec fn reserved_header(k: Seq<char>) -> bool {
    k == HEADER_USER_ID@ || k == HEADER_FROM@ || k == HEADER_START_TIME@
}

/// Relies on async_nats's `HeaderName::from_str`, which accepts exactly the
/// names made of visible ASCII characters other than ':'.
#[verifier::external_body]
pub(crate) fn header_name_ok(k: &str) -> (r: bool)
    ensures
        r == valid_header_name(k@),
{
    async_nats::header::HeaderName::from_str(k).is_ok()
}

/// Relies on async_nats's `HeaderValue::from_str`, which accepts exactly the
/// values holding neither '\r' nor '\n'.
#[verifier::external_body]
pub(crate) fn header_value_ok(v: &str) -> (r: bool)
    ensures
        r == valid_header_value(v@),
{
    async_nats::header::HeaderValue::from_str(v).is_ok()
}

/// Whether `k` is one of the standard header names.
pub fn is_reserved_header(k: &str) -> (r: bool)
    ensures
        r == reserved_header(k@),
{
    crate::text::str_eq(k, HEADER_USER_ID) || crate::text::str_eq(k, HEADER_FROM)
        || crate::text::str_eq(k, HEADER_START_TIME)
}

} // verus!
