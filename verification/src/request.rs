//! The outgoing request model: a parsed target address, a method, a header
//! collection and body bytes.
use vstd::prelude::*;

use crate::errors::Error;
use crate::headers::HeaderField;
use crate::transport::url_rendering;

verus! {

/// A request method. Only GET and POST are carried by this core.
#[derive(Clone, Copy, Debug, PartialEq, Eq, Structural)]
pub enum Method {
    Get,
    Post,
}

/// A target address that is known to parse: it can only be built by
/// [`ParsedUrl::parse`], and holds the parser's normalized rendering.
#[derive(Clone, Debug)]
pub struct ParsedUrl {
    text: String,
}

impl View for ParsedUrl {
    type V = Seq<char>;

    closed spec fn view(&self) -> Seq<char> {
        self.text@
    }
}

impl ParsedUrl {
    /// Parses a target address. A malformed address is rejected with a
    /// URL-parse error before any transport interaction begins.
    pub fn parse(text: &str) -> (r: Result<ParsedUrl, Error>)
        ensures
            match r {
                Ok(u) => url_rendering(text@) == Some(u@),
                Err(e) => url_rendering(text@) is None && e is ParseError,
            },
    {
        match crate::transport::parse_url(text) {
            Ok(rendered) => Ok(ParsedUrl { text: rendered }),
            Err(cause) => Err(Error::ParseError(cause)),
        }
    }

    /// The normalized text of the address.
    pub fn as_str(&self) -> (r: &str)
        ensures
            r@ == self@,
    {
        self.text.as_str()
    }
}

/// An outgoing request: target address, method, headers and body bytes.
#[derive(Clone, Debug)]
pub struct HttpRequest {
    pub url: ParsedUrl,
    pub method: Method,
    pub headers: Vec<HeaderField>,
    pub body: Vec<u8>,
}

} // verus!
