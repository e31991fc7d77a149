//! The closed error taxonomy: transport, async-execution, HTTP-spec,
//! filesystem, URL-parsing and ad-hoc caller-input failures, each a
//! distinct kind carrying its cause.
use vstd::prelude::*;

verus! {

/// A value that cannot be represented as valid HTTP.
#[derive(Debug)]
pub enum HttpViolation {
    /// A numeric status code outside the legal range.
    InvalidStatusCode(u16),
    /// A header value whose bytes no header may carry.
    InvalidHeaderValue(Vec<u8>),
}

/// Error type returned by failed HTTP requests.
#[derive(Debug)]
pub enum Error {
    /// Failure reported by the transport engine.
    Curl(curl::Error),
    /// A value that cannot be represented as valid HTTP.
    Http(HttpViolation),
    /// Failure of the asynchronous execution path, rendered as text by the
    /// driver that ran it.
    AsyncCurl(String),
    /// Filesystem failure opening or writing the destination file.
    IOError(std::io::Error),
    /// Malformed address supplied by the caller.
    ParseError(url::ParseError),
    /// Other caller-input violation, carrying a human-readable message.
    Other(String),
}

} // verus!
