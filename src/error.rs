use vstd::prelude::*;

verus! {

/// What can go wrong in the messaging layer.
#[derive(Debug)]
pub enum MessagingError {
    /// Failure during message publish
    Publish(String),
    /// Failure creating/maintaining a subscriber
    Subscribe(String),
    /// Failure removing a subscription
    Unsubscribe(String),
    /// Request/reply failure reported by the driver
    Request(String),
    /// Request/reply failure because no reply came within the timeout
    RequestTimeout,
    /// Could not serialize an outbound payload or header
    Serialization(String),
    /// Could not deserialize an inbound payload
    Deserialization(String),
    /// A handler returned an error
    Handler(String),
    /// The connection has been closed or drained
    Closed,
}

/// The human-readable rendering of an error.
pub open spec fn error_text(e: MessagingError) -> Seq<char> {
    match e {
        MessagingError::Publish(s) => "Publish failed: "@ + s@,
        MessagingError::Subscribe(s) => "Subscribe failed: "@ + s@,
        MessagingError::Unsubscribe(s) => "Unsubscribe failed: "@ + s@,
        MessagingError::Request(s) => "Request failed: "@ + s@,
        MessagingError::Serialization(s) => "Serialization failed: "@ + s@,
        MessagingError::Deserialization(s) => "Deserialization failed: "@ + s@,
        MessagingError::Handler(s) => "Handler error: "@ + s@,
        MessagingError::RequestTimeout => "Request failed: request timed out"@,
        MessagingError::Closed => "Connection closed"@,
    }
}

/// A request error that reports a timeout rather than a driver failure.
pub open spec fn is_timeout_error(e: MessagingError) -> bool {
    e is RequestTimeout
}

/// A failure of the request/reply path, timed out or reported by the driver.
pub open spec fn is_request_error(e: MessagingError) -> bool {
    e is Request || e is RequestTimeout
}

impl MessagingError {
    /// Whether this is the timeout case of `Request`.
    pub fn is_timeout(&self) -> (r: bool)
        ensures
            r == is_timeout_error(*self),
    {
        match self {
            MessagingError::RequestTimeout => true,
            _ => false,
        }
    }

    /// Renders the error as text.
    pub fn message(&self) -> (r: String)
        ensures
            r@ == error_text(*self),
    {
        let (prefix, detail) = match self {
            MessagingError::Publish(s) => ("Publish failed: ", s.as_str()),
            MessagingError::Subscribe(s) => ("Subscribe failed: ", s.as_str()),
            MessagingError::Unsubscribe(s) => ("Unsubscribe failed: ", s.as_str()),
            MessagingError::Request(s) => ("Request failed: ", s.as_str()),
            MessagingError::Serialization(s) => ("Serialization failed: ", s.as_str()),
            MessagingError::Deserialization(s) => ("Deserialization failed: ", s.as_str()),
            MessagingError::Handler(s) => ("Handler error: ", s.as_str()),
            MessagingError::RequestTimeout => ("Request failed: request timed out", ""),
            MessagingError::Closed => ("Connection closed", ""),
        };
        let mut out = prefix.to_owned();
        out.append(detail);
        proof {
            reveal_strlit("");
            if let MessagingError::Closed = *self {
                assert(out@ =~= "Connection closed"@);
            }
            if let MessagingError::RequestTimeout = *self {
                assert(out@ =~= "Request failed: request timed out"@);
            }
        }
        out
    }
}

/// Failure of a domain-level publisher.
#[derive(Debug)]
pub enum MessageError {
    PublishError(String),
}

/// Failure of a user repository.
#[derive(Debug)]
pub enum UserError {
    NotFound,
    System(String),
}

/// Failure while loading configuration.
#[derive(Debug)]
pub enum ConfigError {
    FileError(String),
    ParseError(String),
}

} // verus!
