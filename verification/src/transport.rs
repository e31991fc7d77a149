//! Trusted boundary to the transport engine (the `curl` crate) and to the
//! URL parser (the `url` crate). Everything the verified code knows about
//! those crates is stated here.
use curl::Error as CurlError;
use vstd::prelude::*;

verus! {

// ---------------------------------------------------------------------------
// Outside types that appear in signatures and fields.
// ---------------------------------------------------------------------------

/// The transport engine's configurable request handle.
#[verifier::external_type_specification]
#[verifier::external_body]
#[verifier::reject_recursive_types(H)]
pub struct ExEasy2<H>(curl::easy::Easy2<H>);

/// The transport engine's list of header lines.
#[verifier::external_type_specification]
#[verifier::external_body]
pub struct ExList(curl::easy::List);

/// The transport engine's error value.
#[verifier::external_type_specification]
#[verifier::external_body]
pub struct ExCurlError(CurlError);

/// The URL parser's error value.
#[verifier::external_type_specification]
#[verifier::external_body]
pub struct ExUrlParseError(url::ParseError);

/// The filesystem error value carried by the error taxonomy.
#[verifier::external_type_specification]
#[verifier::external_body]
pub struct ExIoError(std::io::Error);

// ---------------------------------------------------------------------------
// Names for what the outside calls return.
// ---------------------------------------------------------------------------

/// The lines a header list holds, in the order they were appended.
pub uninterp spec fn list_lines(list: curl::easy::List) -> Seq<Seq<char>>;

/// What the URL parser makes of a piece of text: `None` where the text is
/// malformed, otherwise the parsed URL rendered back as its normalized text.
pub uninterp spec fn url_rendering(text: Seq<char>) -> Option<Seq<char>>;

// ---------------------------------------------------------------------------
// Wrappers around the outside calls.
// ---------------------------------------------------------------------------

/// Relies on `url::Url::parse` and the `Display` impl of `url::Url`: parsing
/// depends on the input text alone, and a parsed URL renders back as its
/// normalized serialization.
#[verifier::external_body]
pub(crate) fn parse_url(text: &str) -> (r: Result<String, url::ParseError>)
    ensures
        match r {
            Ok(rendered) => url_rendering(text@) == Some(rendered@),
            Err(_) => url_rendering(text@) is None,
        },
{
    url::Url::parse(text).map(|u| u.to_string())
}

/// Relies on `curl::easy::List::new`: a fresh list holds no lines.
#[verifier::external_body]
pub(crate) fn list_new() -> (r: curl::easy::List)
    ensures
        list_lines(r) == Seq::<Seq<char>>::empty(),
{
    curl::easy::List::new()
}

/// Relies on `curl::easy::List::append`: it appends exactly one line, and
/// fails only when the line holds an interior NUL character.
#[verifier::external_body]
pub(crate) fn list_append(list: &mut curl::easy::List, line: &str) -> (r: Result<
    (),
    curl::Error,
>)
    ensures
        r is Ok <==> (forall|i: int| 0 <= i < line@.len() ==> line@[i] != '\0'),
        r is Ok ==> list_lines(*final(list)) == list_lines(*old(list)).push(line@),
{
    list.append(line)
}

/// Relies on `curl::easy::Easy2::url`: it installs the given text as the
/// target address (`CURLOPT_URL`) without validating it.
#[verifier::external_body]
pub(crate) fn easy_set_url<H: curl::easy::Handler>(
    easy: &mut curl::easy::Easy2<H>,
    url: &str,
) -> (r: Result<(), curl::Error>) {
    easy.url(url)
}

/// Relies on `curl::easy::Easy2::http_headers`: it installs the list as the
/// handle's header list (`CURLOPT_HTTPHEADER`), consuming the list.
#[verifier::external_body]
pub(crate) fn easy_http_headers<H: curl::easy::Handler>(
    easy: &mut curl::easy::Easy2<H>,
    list: curl::easy::List,
) -> (r: Result<(), curl::Error>) {
    easy.http_headers(list)
}

/// Relies on `curl::easy::Easy2::post`: it marks the handle for a
/// body-bearing request (`CURLOPT_POST`).
#[verifier::external_body]
pub(crate) fn easy_post<H: curl::easy::Handler>(
    easy: &mut curl::easy::Easy2<H>,
    enable: bool,
) -> (r: Result<(), curl::Error>) {
    easy.post(enable)
}

/// Relies on `curl::easy::Easy2::post_field_size`: it declares the exact
/// length of the body to be uploaded (`CURLOPT_POSTFIELDSIZE_LARGE`).
#[verifier::external_body]
pub(crate) fn easy_post_field_size<H: curl::easy::Handler>(
    easy: &mut curl::easy::Easy2<H>,
    size: u64,
) -> (r: Result<(), curl::Error>) {
    easy.post_field_size(size)
}

/// Relies on `curl::easy::Easy2::post_fields_copy`: it attaches its own copy
/// of the given body bytes (`CURLOPT_COPYPOSTFIELDS`).
#[verifier::external_body]
pub(crate) fn easy_post_fields_copy<H: curl::easy::Handler>(
    easy: &mut curl::easy::Easy2<H>,
    data: &[u8],
) -> (r: Result<(), curl::Error>) {
    easy.post_fields_copy(data)
}

/// Relies on `curl::easy::Easy2::response_code`: it reads back the last
/// numeric response code the transport saw, zero when none was received.
#[verifier::external_body]
pub(crate) fn easy_response_code<H: curl::easy::Handler>(
    easy: &curl::easy::Easy2<H>,
) -> (r: Result<u32, curl::Error>) {
    easy.response_code()
}

/// Relies on `curl::easy::Easy2::content_type`: it reads back the
/// content-type the transport saw, `None` where the server sent none.
#[verifier::external_body]
pub(crate) fn easy_content_type<H: curl::easy::Handler>(
    easy: &curl::easy::Easy2<H>,
) -> (r: Result<Option<Vec<u8>>, curl::Error>) {
    easy.content_type().map(|o| o.map(|s| s.as_bytes().to_vec()))
}

} // verus!
