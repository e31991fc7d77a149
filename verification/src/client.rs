//! The typed client state machine.
//!
//! A client handle exists in one of two phases, carried by its type: in
//! `Build` it may be configured from a request, and the only way out is
//! [`HttpClient::request`], which consumes the handle and yields a
//! `Perform`-phase handle on success. A `Perform`-phase handle is frozen;
//! it can only be surrendered to the transport engine, which the driver
//! does by taking the configured transport handle out of it.
use vstd::prelude::*;

use crate::errors::Error;
use crate::headers::HeaderField;
use crate::headers::header_line_chars;
use crate::headers::invalid_value_msg_chars;
use crate::headers::make_header_line;
use crate::headers::make_invalid_value_msg;
use crate::headers::value_is_representable;
use crate::headers::value_representable;
use crate::request::HttpRequest;
use crate::request::Method;

verus! {

/// Phase tag of a handle still being configured.
pub struct Build;

/// Phase tag of a handle frozen for execution.
pub struct Perform;

/// The record of what has been installed on the transport handle: the
/// target address, the translated header lines, and the body marking.
pub struct TransportConfig {
    /// The address text installed on the handle.
    pub url: String,
    /// The `Name: Value` lines installed as the handle's header list.
    pub header_lines: Vec<String>,
    /// Whether the handle was marked for a body-bearing request.
    pub post: bool,
    /// The body length declared on the handle, where one was declared.
    pub body_len: Option<u64>,
    /// The body bytes a copy of which was attached to the handle.
    pub body: Option<Vec<u8>>,
}

/// A configuration on which nothing has been installed yet.
pub open spec fn unconfigured(cfg: TransportConfig) -> bool {
    &&& cfg.url@ == Seq::<char>::empty()
    &&& cfg.header_lines@ == Seq::<String>::empty()
    &&& !cfg.post
    &&& cfg.body_len is None
    &&& cfg.body is None
}

/// The texts of a sequence of header lines.
pub open spec fn line_views(lines: Seq<String>) -> Seq<Seq<char>> {
    lines.map_values(|s: String| s@)
}

/// Every header value of the collection can stand on the wire.
pub open spec fn headers_representable(hs: Seq<HeaderField>) -> bool {
    forall|i: int| 0 <= i < hs.len() ==> value_representable(#[trigger] hs[i].value@)
}

/// The configuration a request translates to: its address text, one line
/// per header in order, and for POST the exact body length and an attached
/// copy of the body; for GET no body marking at all.
pub open spec fn config_matches_request(cfg: TransportConfig, req: HttpRequest) -> bool {
    &&& cfg.url@ == req.url@
    &&& cfg.header_lines@.len() == req.headers@.len()
    &&& (forall|i: int|
        0 <= i < req.headers@.len() ==> (#[trigger] cfg.header_lines@[i])@ == header_line_chars(
            req.headers@[i].name@,
            req.headers@[i].value@,
        ))
    &&& cfg.post == (req.method is Post)
    &&& match req.method {
        Method::Post => {
            &&& cfg.body_len == Some(req.body@.len() as u64)
            &&& cfg.body matches Some(b) && b@ == req.body@
        },
        Method::Get => cfg.body_len is None && cfg.body is None,
    }
}

/// A client handle: the transport engine's request handle, the record of
/// what has been installed on it, and the phase tag.
#[verifier::reject_recursive_types(H)]
pub struct HttpClient<S, H> {
    easy: curl::easy::Easy2<H>,
    cfg: TransportConfig,
    _state: S,
}

impl<S, H> HttpClient<S, H> {
    /// The record of what has been installed on the transport handle.
    pub closed spec fn spec_config(&self) -> TransportConfig {
        self.cfg
    }

    /// Reads the record of what has been installed on the transport handle.
    pub fn config(&self) -> (c: &TransportConfig)
        ensures
            *c == self.spec_config(),
    {
        &self.cfg
    }
}

impl<H> HttpClient<Build, H> {
    /// Wraps a fresh transport handle in a Build-phase client on which
    /// nothing has been installed yet.
    pub fn new(easy: curl::easy::Easy2<H>) -> (r: HttpClient<Build, H>)
        ensures
            unconfigured(r.spec_config()),
    {
        HttpClient {
            easy,
            cfg: TransportConfig {
                url: String::new(),
                header_lines: Vec::new(),
                post: false,
                body_len: None,
                body: None,
            },
            _state: Build,
        }
    }
}

impl<H: curl::easy::Handler> HttpClient<Build, H> {
    /// Translates the request onto the transport handle and freezes it.
    ///
    /// The address goes on first; then every header pair becomes one
    /// `Name: Value` line — a value that cannot stand on the wire fails
    /// the whole translation with a message naming that header, and the
    /// handle's header list is only installed once every line was built —
    /// and finally a POST is marked as body-bearing with its exact length
    /// and a copy of its bytes. On success the Build-phase handle becomes
    /// a Perform-phase one; on any failure it is destroyed. A GET with a
    /// non-empty body is a programming-contract violation, ruled out here
    /// rather than reported at run time.
    pub fn request(self, request: HttpRequest) -> (r: Result<HttpClient<Perform, H>, Error>)
        requires
            request.method is Get ==> request.body@.len() == 0,
        ensures
            match r {
                Ok(client) => {
                    &&& headers_representable(request.headers@)
                    &&& config_matches_request(client.spec_config(), request)
                },
                Err(e) => match e {
                    Error::Curl(_) => true,
                    Error::Other(m) => exists|i: int|
                        {
                            &&& 0 <= i < request.headers@.len()
                            &&& !value_representable(#[trigger] request.headers@[i].value@)
                            &&& (forall|j: int|
                                0 <= j < i ==> value_representable(
                                    #[trigger] request.headers@[j].value@,
                                ))
                            &&& m@ == invalid_value_msg_chars(
                                request.headers@[i].name@,
                                request.headers@[i].value@,
                            )
                        },
                    _ => false,
                },
            },
            !headers_representable(request.headers@) ==> r is Err,
            headers_representable(request.headers@) ==> r is Ok || r matches Err(
                Error::Curl(_),
            ),
    {
        let HttpClient { easy: mut easy, cfg: _, _state: _ } = self;

        let url_string: String = request.url.as_str().to_owned();
        match crate::transport::easy_set_url(&mut easy, url_string.as_str()) {
            Ok(_) => {},
            Err(e) => {
                return Err(Error::Curl(e));
            },
        }

        let mut list = crate::transport::list_new();
        let mut lines: Vec<String> = Vec::new();
        proof {
            assert(crate::transport::list_lines(list) =~= line_views(lines@));
        }
        let mut i: usize = 0;
        while i < request.headers.len()
            invariant
                i <= request.headers@.len(),
                forall|j: int|
                    0 <= j < i ==> value_representable(#[trigger] request.headers@[j].value@),
                lines@.len() == i,
                forall|j: int|
                    0 <= j < i ==> (#[trigger] lines@[j])@ == header_line_chars(
                        request.headers@[j].name@,
                        request.headers@[j].value@,
                    ),
                crate::transport::list_lines(list) == line_views(lines@),
            decreases request.headers@.len() - i,
        {
            let field = &request.headers[i];
            if !value_is_representable(&field.value) {
                let msg = make_invalid_value_msg(&field.name, &field.value);
                proof {
                    assert(!value_representable(request.headers@[i as int].value@));
                }
                return Err(Error::Other(msg));
            }
            let line = make_header_line(&field.name, &field.value);
            match crate::transport::list_append(&mut list, line.as_str()) {
                Ok(_) => {},
                Err(e) => {
                    return Err(Error::Curl(e));
                },
            }
            lines.push(line);
            proof {
                assert(crate::transport::list_lines(list) =~= line_views(lines@));
            }
            i += 1;
        }
        // The list installed on the handle holds exactly the translated
        // lines: no partial entry can reach it, since any unrepresentable
        // value has already failed the whole translation.
        proof {
            assert(crate::transport::list_lines(list) == line_views(lines@));
        }
        match crate::transport::easy_http_headers(&mut easy, list) {
            Ok(_) => {},
            Err(e) => {
                return Err(Error::Curl(e));
            },
        }

        let post: bool;
        let body_len: Option<u64>;
        let body: Option<Vec<u8>>;
        match request.method {
            Method::Post => {
                match crate::transport::easy_post(&mut easy, true) {
                    Ok(_) => {},
                    Err(e) => {
                        return Err(Error::Curl(e));
                    },
                }
                let declared_len: u64 = request.body.len() as u64;
                match crate::transport::easy_post_field_size(&mut easy, declared_len) {
                    Ok(_) => {},
                    Err(e) => {
                        return Err(Error::Curl(e));
                    },
                }
                match crate::transport::easy_post_fields_copy(&mut easy, request.body.as_slice()) {
                    Ok(_) => {},
                    Err(e) => {
                        return Err(Error::Curl(e));
                    },
                }
                post = true;
                body_len = Some(declared_len);
                body = Some(request.body);
            },
            Method::Get => {
                post = false;
                body_len = None;
                body = None;
            },
        }

        Ok(
            HttpClient {
                easy,
                cfg: TransportConfig { url: url_string, header_lines: lines, post, body_len, body },
                _state: Perform,
            },
        )
    }
}

impl<H> HttpClient<Perform, H> {
    /// Surrenders the configured transport handle for execution; the
    /// Perform-phase client is consumed and cannot be reused.
    pub fn into_handle(self) -> curl::easy::Easy2<H> {
        self.easy
    }
}

} // verus!
