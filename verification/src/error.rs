//! The ways in which serving a request, or handing a task to the pool, can
//! fail.

use vstd::prelude::*;

verus! {

/// Why a request could not be answered, or a task not accepted.
#[derive(Clone, Copy, Debug, PartialEq, Eq, Structural)]
pub enum ServerError {
    /// The buffer holds no request line with a method, a path and a protocol.
    MalformedRequest,
    /// A handler needs a body and the request has no blank line before one.
    NoBody,
    /// A handler needs the `Content-Type` header and the request has none.
    MissingContentType,
    /// The query string is not of the shape `key=value&...`, or `id` is not
    /// a number.
    InvalidQuery,
    /// A backing file that the answer depends on is absent.
    NotFound,
    /// The pool no longer accepts tasks.
    PoolClosed,
    /// A pattern was rejected by the regular-expression engine.
    BadPattern,
    /// The record store is not a JSON array.
    BadStore,
    /// The matching records could not be written as JSON.
    Unserializable,
    /// The proxy address is not of the shape `http://host[:port]`.
    InvalidProxy,
    /// The port of the proxy address does not fit sixteen bits.
    InvalidPort,
}

impl ServerError {
    /// A sentence for the log.
    pub open spec fn message_text(self) -> Seq<char> {
        match self {
            ServerError::MalformedRequest => "Malformed request line"@,
            ServerError::NoBody => "No body found in the request"@,
            ServerError::MissingContentType => "No Content-Type header found"@,
            ServerError::InvalidQuery => "Invalid query parameter format"@,
            ServerError::NotFound => "Backing file not found"@,
            ServerError::PoolClosed => "The pool is closed"@,
            ServerError::BadPattern => "Pattern rejected"@,
            ServerError::BadStore => "JSON data is not an array"@,
            ServerError::Unserializable => "Records could not be serialized"@,
            ServerError::InvalidProxy => "Invalid proxy address format"@,
            ServerError::InvalidPort => "Failed to parse port"@,
        }
    }

    /// A sentence for the log.
    pub fn message(&self) -> (out: &'static str)
        ensures
            out@ == self.message_text(),
    {
        match self {
            ServerError::MalformedRequest => "Malformed request line",
            ServerError::NoBody => "No body found in the request",
            ServerError::MissingContentType => "No Content-Type header found",
            ServerError::InvalidQuery => "Invalid query parameter format",
            ServerError::NotFound => "Backing file not found",
            ServerError::PoolClosed => "The pool is closed",
            ServerError::BadPattern => "Pattern rejected",
            ServerError::BadStore => "JSON data is not an array",
            ServerError::Unserializable => "Records could not be serialized",
            ServerError::InvalidProxy => "Invalid proxy address format",
            ServerError::InvalidPort => "Failed to parse port",
        }
    }
}

} // verus!
