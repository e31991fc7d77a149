use curl::easy::{Easy2, Handler, WriteError};
use http_client::{Error, HeaderField, HttpClient, HttpRequest, Method, ParsedUrl};

#[derive(Debug)]
struct DiscardHandler;

impl Handler for DiscardHandler {
    fn write(&mut self, data: &[u8]) -> Result<usize, WriteError> {
        Ok(data.len())
    }
}

fn build_client() -> HttpClient<http_client::Build, DiscardHandler> {
    HttpClient::new(Easy2::new(DiscardHandler))
}

#[test]
fn get_request_yields_perform_handle() {
    let request = HttpRequest {
        url: ParsedUrl::parse("https://example.test/a.bin").unwrap(),
        method: Method::Get,
        headers: Vec::new(),
        body: Vec::new(),
    };
    let client = build_client().request(request).unwrap();
    let cfg = client.config();
    assert_eq!(cfg.url, "https://example.test/a.bin");
    assert!(cfg.header_lines.is_empty());
    assert!(!cfg.post);
    assert_eq!(cfg.body_len, None);
    assert!(cfg.body.is_none());
}

#[test]
fn post_declares_exact_body_length() {
    let body = vec![10u8, 20, 30, 40, 50];
    let request = HttpRequest {
        url: ParsedUrl::parse("https://example.test/upload").unwrap(),
        method: Method::Post,
        headers: Vec::new(),
        body: body.clone(),
    };
    let client = build_client().request(request).unwrap();
    let cfg = client.config();
    assert!(cfg.post);
    assert_eq!(cfg.body_len, Some(body.len() as u64));
    assert_eq!(cfg.body.as_deref(), Some(body.as_slice()));
}

#[test]
fn headers_become_one_line_each_in_order() {
    let request = HttpRequest {
        url: ParsedUrl::parse("https://example.test/").unwrap(),
        method: Method::Get,
        headers: vec![
            HeaderField {
                name: String::from("accept"),
                value: b"*/*".to_vec(),
            },
            HeaderField {
                name: String::from("x-trace"),
                value: b"abc 123".to_vec(),
            },
        ],
        body: Vec::new(),
    };
    let client = build_client().request(request).unwrap();
    let cfg = client.config();
    let expected: Vec<String> = vec!["accept: */*".to_string(), "x-trace: abc 123".to_string()];
    assert_eq!(cfg.header_lines, expected);
}

#[test]
fn unrepresentable_header_value_is_rejected_with_its_name() {
    let request = HttpRequest {
        url: ParsedUrl::parse("https://example.test/").unwrap(),
        method: Method::Get,
        headers: vec![HeaderField {
            name: String::from("x-token"),
            value: vec![255u8, 10u8],
        }],
        body: Vec::new(),
    };
    match build_client().request(request) {
        Err(Error::Other(message)) => {
            assert_eq!(message, "invalid x-token header value [255, 10]");
        }
        _ => panic!("expected the invalid-header error"),
    }
}

#[test]
fn first_unrepresentable_header_wins() {
    let request = HttpRequest {
        url: ParsedUrl::parse("https://example.test/").unwrap(),
        method: Method::Get,
        headers: vec![
            HeaderField {
                name: String::from("fine"),
                value: b"ok".to_vec(),
            },
            HeaderField {
                name: String::from("bad-one"),
                value: vec![0u8],
            },
            HeaderField {
                name: String::from("bad-two"),
                value: vec![1u8],
            },
        ],
        body: Vec::new(),
    };
    match build_client().request(request) {
        Err(Error::Other(message)) => {
            assert_eq!(message, "invalid bad-one header value [0]");
        }
        _ => panic!("expected the invalid-header error"),
    }
}

#[test]
fn representability_agrees_with_header_value_to_str() {
    for b in 0u8..=255 {
        let ours = http_client::headers::value_is_representable(&vec![b]);
        let theirs = match http::HeaderValue::from_bytes(&[b]) {
            Ok(v) => v.to_str().is_ok(),
            Err(_) => false,
        };
        assert_eq!(ours, theirs, "byte {}", b);
    }
}
