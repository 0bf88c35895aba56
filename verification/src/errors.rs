//! The closed error taxonomy of the dispatch core. Every failure of a call
//! is returned to the immediate caller as one of these values; nothing is
//! retried or swallowed, and no failure corrupts the client for later calls.

use vstd::prelude::*;

verus! {

/// Every way a dispatched call can fail.
#[derive(Debug, Clone, PartialEq, Eq)]
pub enum SdkError {
    /// The supplied credentials are malformed. With HMAC-SHA256 every key
    /// length is usable as a MAC key, so signing itself never raises this;
    /// the kind is part of the taxonomy all the same.
    ConfigurationError,
    /// The API key holds a byte that cannot stand in an HTTP header value.
    InvalidHeaderValue,
    /// A connection or I/O failure reported by the underlying HTTP layer,
    /// carried as the transport's own message.
    TransportError(String),
    /// The service answered 500, with the fixed message it stands for.
    ServerError(String),
    /// The service answered 503.
    ServerUnavailable,
    /// The service answered 401: the key pair was not accepted.
    Unauthorized,
    /// The service answered 400 with a structured error body: its numeric
    /// code and its message.
    PlatformError(i64, String),
    /// A body could not be decoded as expected: the raw body, then the
    /// decoder's own message.
    DeserializationError(String, String),
    /// Any status the taxonomy does not map: the status, then the raw body.
    UnexpectedStatus(u16, String),
}

} // verus!
