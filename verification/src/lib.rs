//! A small HTTP request/response pipeline over a pluggable transport engine.
//!
//! A request is described by a plain [`request::HttpRequest`] value, translated
//! onto a transport handle during the `Build` phase, and executed by handing
//! the configured handle to the transport engine; the response body is
//! streamed to a file by a sink the handle owns, while the returned
//! [`response::HttpResponse`] carries the status and reconstructed metadata.
pub mod client;
pub mod errors;
pub mod headers;
pub mod request;
pub mod response;
pub mod sink;
pub mod transport;

pub use client::Build;
pub use client::HttpClient;
pub use client::Perform;
pub use client::TransportConfig;
pub use errors::Error;
pub use errors::HttpViolation;
pub use headers::HeaderField;
pub use request::HttpRequest;
pub use request::Method;
pub use request::ParsedUrl;
pub use response::HttpResponse;
