//! The incoming response model, and its assembly from what the transport
//! reports after an exchange: a numeric status code and, where the server
//! sent one, a content-type.
use vstd::prelude::*;
use vstd::string::StringExecFns;

use crate::errors::Error;
use crate::errors::HttpViolation;
use crate::headers::HeaderField;

verus! {

/// An incoming response: validated status code, the header collection
/// reconstructed from transport metadata, and body bytes. The payload is
/// streamed to the sink's file, so the in-memory body is left empty.
#[derive(Clone, Debug)]
pub struct HttpResponse {
    pub status_code: u16,
    pub headers: Vec<HeaderField>,
    pub body: Vec<u8>,
}

/// A legal HTTP status code.
pub open spec fn valid_status_code(code: u16) -> bool {
    100 <= code <= 999
}

/// A byte a header value may carry at all: anything but a control
/// character other than horizontal tab.
pub open spec fn byte_is_constructible(b: u8) -> bool {
    (b >= 32 && b != 127) || b == 9
}

/// A header value every header may carry.
pub open spec fn value_constructible(v: Seq<u8>) -> bool {
    forall|i: int| 0 <= i < v.len() ==> byte_is_constructible(#[trigger] v[i])
}

/// The header collection reconstructed from transport metadata: empty, or
/// exactly one content-type entry with a carriable value.
pub open spec fn metadata_headers(hs: Seq<HeaderField>, content_type: Option<Vec<u8>>) -> bool {
    match content_type {
        Some(ct) => hs.len() == 1 && hs[0].name@ == "content-type"@ && hs[0].value@ == ct@,
        None => hs.len() == 0,
    }
}

/// Whether every byte of the value may be carried by a header.
pub fn value_is_constructible(v: &Vec<u8>) -> (b: bool)
    ensures
        b == value_constructible(v@),
{
    let mut i: usize = 0;
    while i < v.len()
        invariant
            i <= v@.len(),
            forall|j: int| 0 <= j < i ==> byte_is_constructible(#[trigger] v@[j]),
        decreases v@.len() - i,
    {
        let b = v[i];
        if !((b >= 32 && b != 127) || b == 9) {
            return false;
        }
        i += 1;
    }
    true
}

/// Assembles a response from what the transport reports: the raw numeric
/// code (read back as the transport hands it over, so reduced modulo 2^16
/// exactly as the readback does) and the content-type, if any. The
/// content-type is vetted first, then the status code, and each failure is
/// its own HTTP-spec violation.
pub fn response_from_parts(code: u32, content_type: Option<Vec<u8>>) -> (r: Result<
    HttpResponse,
    Error,
>)
    ensures
        match r {
            Ok(resp) => {
                &&& valid_status_code(code as u16)
                &&& resp.status_code == code as u16
                &&& resp.body@ == Seq::<u8>::empty()
                &&& metadata_headers(resp.headers@, content_type)
                &&& (content_type matches Some(ct) ==> value_constructible(ct@))
            },
            Err(e) => match e {
                Error::Http(HttpViolation::InvalidHeaderValue(v)) => {
                    &&& content_type matches Some(ct) && ct@ == v@
                    &&& !value_constructible(v@)
                },
                Error::Http(HttpViolation::InvalidStatusCode(c)) => {
                    &&& c == code as u16
                    &&& !valid_status_code(code as u16)
                    &&& (content_type matches Some(ct) ==> value_constructible(ct@))
                },
                _ => false,
            },
        },
        r is Err <==> !valid_status_code(code as u16) || (content_type matches Some(ct)
            && !value_constructible(ct@)),
{
    let headers: Vec<HeaderField> = match content_type {
        Some(ct) => {
            if !value_is_constructible(&ct) {
                return Err(Error::Http(HttpViolation::InvalidHeaderValue(ct)));
            }
            let mut hs: Vec<HeaderField> = Vec::new();
            hs.push(HeaderField { name: String::from_str("content-type"), value: ct });
            hs
        },
        None => Vec::new(),
    };
    let code16 = code as u16;
    if !(100 <= code16 && code16 <= 999) {
        return Err(Error::Http(HttpViolation::InvalidStatusCode(code16)));
    }
    Ok(HttpResponse { status_code: code16, headers, body: Vec::new() })
}

/// Reads the status code and content-type back from the transport handle
/// after an exchange and assembles the response. Every failure of the two
/// readbacks surfaces as a transport error; the assembly itself fails only
/// with an HTTP-spec violation.
pub fn collect_response<H: curl::easy::Handler>(easy: &curl::easy::Easy2<H>) -> (r: Result<
    HttpResponse,
    Error,
>)
    ensures
        match r {
            Ok(resp) => {
                &&& valid_status_code(resp.status_code)
                &&& resp.body@ == Seq::<u8>::empty()
                &&& (resp.headers@.len() == 0 || (resp.headers@.len() == 1
                    && resp.headers@[0].name@ == "content-type"@ && value_constructible(
                    resp.headers@[0].value@,
                )))
            },
            Err(e) => match e {
                Error::Curl(_) => true,
                Error::Http(HttpViolation::InvalidStatusCode(c)) => !valid_status_code(c),
                Error::Http(HttpViolation::InvalidHeaderValue(v)) => !value_constructible(v@),
                _ => false,
            },
        },
{
    let code = match crate::transport::easy_response_code(easy) {
        Ok(c) => c,
        Err(e) => {
            return Err(Error::Curl(e));
        },
    };
    let content_type = match crate::transport::easy_content_type(easy) {
        Ok(ct) => ct,
        Err(e) => {
            return Err(Error::Curl(e));
        },
    };
    response_from_parts(code, content_type)
}

} // verus!
