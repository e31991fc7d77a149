use curl::easy::{Easy2, Handler, WriteError};
use http_client::response::response_from_parts;
use http_client::sink::accept_report;
use http_client::{HttpClient, HttpRequest, Method, ParsedUrl};

#[derive(Debug)]
struct DiscardHandler;

impl Handler for DiscardHandler {
    fn write(&mut self, data: &[u8]) -> Result<usize, WriteError> {
        Ok(data.len())
    }
}

#[test]
fn download_scenario_assembles_status_and_metadata() {
    // Build phase: a GET for a binary object, no headers, no body.
    let request = HttpRequest {
        url: ParsedUrl::parse("https://example.test/a.bin").unwrap(),
        method: Method::Get,
        headers: Vec::new(),
        body: Vec::new(),
    };
    let client = HttpClient::new(Easy2::new(DiscardHandler))
        .request(request)
        .unwrap();
    let cfg = client.config();
    assert_eq!(cfg.url, "https://example.test/a.bin");
    assert!(!cfg.post);

    // The transport streams two chunks; the sink accepts each in full, so
    // the destination file receives their concatenation in arrival order.
    let chunks: [&[u8]; 2] = [&[0x41, 0x42], &[0x43]];
    let mut written = Vec::new();
    for chunk in chunks {
        let accepted = accept_report(chunk.len(), true).unwrap();
        assert_eq!(accepted, chunk.len());
        written.extend_from_slice(chunk);
    }
    assert_eq!(written, vec![0x41, 0x42, 0x43]);

    // The exchange ends with status 200 and a content-type; the response
    // carries the status and the reconstructed metadata, not the payload.
    let response = response_from_parts(200, Some(b"application/octet-stream".to_vec())).unwrap();
    assert_eq!(response.status_code, 200);
    assert_eq!(response.headers.len(), 1);
    assert_eq!(response.headers[0].name, "content-type");
    assert_eq!(response.headers[0].value, b"application/octet-stream".to_vec());
    assert!(response.body.is_empty());
}
