//! A transport-agnostic messaging client core: message envelopes, the header
//! and subject factory, the middleware pipeline, the subscription registry
//! with its lifecycle, and the decisions of a connection. The broker driver,
//! the telemetry SDK and the clock stay outside; the core takes what they
//! produce as plain values.

pub mod config;
pub mod connection;
pub mod domain;
pub mod error;
pub mod factory;
pub mod header;
pub mod message;
pub mod middleware;
pub mod registry;
pub mod strmap;
pub mod text;

pub use error::MessagingError;
pub use message::Message;
