use crate::strmap::StrMap;
use vstd::prelude::*;

verus! {

/// String attributes of a message, one value per key.
pub type Attrs = StrMap<String>;

/// The text of each attribute.
pub open spec fn attr_text(m: Map<Seq<char>, String>) -> Map<Seq<char>, Seq<char>> {
    m.map_values(|v: String| v@)
}

/// A transport-agnostic message envelope.
///
/// On outbound, `attrs` are written as transport headers; on inbound they
/// are filled from the transport headers.
pub struct Message {
    /// Resolved subject (any prefix already applied on inbound)
    pub topic: String,
    /// Raw payload bytes
    pub data: Vec<u8>,
    /// Key/value metadata (headers, trace ids, user id, ...)
    pub attrs: Attrs,
}

/// A message in the shape the broker driver sends and delivers: subject,
/// payload and headers.
pub struct TransportMessage {
    pub subject: String,
    pub payload: Vec<u8>,
    pub headers: Attrs,
}

impl Message {
    /// A message with no attributes.
    pub fn new(topic: String, data: Vec<u8>) -> (r: Self)
        ensures
            r.topic@ == topic@,
            r.data@ == data@,
            r.attrs@ == Map::<Seq<char>, String>::empty(),
    {
        Message { topic, data, attrs: StrMap::new() }
    }

    /// The same message with `key` set to `value`.
    pub fn with_attr(self, key: String, value: String) -> (r: Self)
        ensures
            r.topic@ == self.topic@,
            r.data@ == self.data@,
            r.attrs@ == self.attrs@.insert(key@, value),
    {
        let mut m = self;
        m.attrs.insert(key, value);
        m
    }

    /// The value of attribute `key`, if set.
    pub fn attr(&self, key: &str) -> (r: Option<&str>)
        ensures
            match r {
                Some(v) => self.attrs@.contains_key(key@) && v@ == self.attrs@[key@]@,
                None => !self.attrs@.contains_key(key@),
            },
    {
        match self.attrs.get(key) {
            Some(v) => Some(v.as_str()),
            None => None,
        }
    }
}

} // verus!
