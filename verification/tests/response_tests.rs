use curl::easy::{Easy2, Handler, WriteError};
use http_client::response::{collect_response, response_from_parts};
use http_client::{Error, HttpViolation};

#[derive(Debug)]
struct DiscardHandler;

impl Handler for DiscardHandler {
    fn write(&mut self, data: &[u8]) -> Result<usize, WriteError> {
        Ok(data.len())
    }
}

#[test]
fn ok_response_carries_status_and_content_type() {
    let resp = response_from_parts(200, Some(b"application/octet-stream".to_vec())).unwrap();
    assert_eq!(resp.status_code, 200);
    assert_eq!(resp.headers.len(), 1);
    assert_eq!(resp.headers[0].name, "content-type");
    assert_eq!(resp.headers[0].value, b"application/octet-stream".to_vec());
    assert!(resp.body.is_empty());
}

#[test]
fn missing_content_type_leaves_headers_empty() {
    let resp = response_from_parts(204, None).unwrap();
    assert_eq!(resp.status_code, 204);
    assert!(resp.headers.is_empty());
}

#[test]
fn out_of_range_status_is_an_http_violation() {
    match response_from_parts(99, None) {
        Err(Error::Http(HttpViolation::InvalidStatusCode(code))) => assert_eq!(code, 99),
        _ => panic!("expected the invalid-status error"),
    }
    match response_from_parts(1000, None) {
        Err(Error::Http(HttpViolation::InvalidStatusCode(code))) => assert_eq!(code, 1000),
        _ => panic!("expected the invalid-status error"),
    }
}

#[test]
fn status_readback_is_reduced_to_sixteen_bits() {
    let resp = response_from_parts(65536 + 200, None).unwrap();
    assert_eq!(resp.status_code, 200);
}

#[test]
fn control_byte_in_content_type_is_an_http_violation() {
    match response_from_parts(200, Some(vec![127u8])) {
        Err(Error::Http(HttpViolation::InvalidHeaderValue(value))) => {
            assert_eq!(value, vec![127u8]);
        }
        _ => panic!("expected the invalid-header-value error"),
    }
}

#[test]
fn bad_content_type_is_reported_before_bad_status() {
    match response_from_parts(99, Some(vec![0u8])) {
        Err(Error::Http(HttpViolation::InvalidHeaderValue(_))) => {}
        _ => panic!("expected the invalid-header-value error"),
    }
}

#[test]
fn high_bytes_in_content_type_are_carried_through() {
    let resp = response_from_parts(200, Some(vec![0x80u8, 0xffu8])).unwrap();
    assert_eq!(resp.headers[0].value, vec![0x80u8, 0xffu8]);
}

#[test]
fn handle_that_never_performed_reports_status_zero() {
    let easy = Easy2::new(DiscardHandler);
    match collect_response(&easy) {
        Err(Error::Http(HttpViolation::InvalidStatusCode(code))) => assert_eq!(code, 0),
        _ => panic!("expected the invalid-status error for code 0"),
    }
}

#[test]
fn status_validity_agrees_with_the_http_crate() {
    for code in [0u16, 99, 100, 200, 599, 999, 1000, u16::MAX] {
        let ours = response_from_parts(code as u32, None).is_ok();
        let theirs = http::StatusCode::from_u16(code).is_ok();
        assert_eq!(ours, theirs, "code {}", code);
    }
}

#[test]
fn constructibility_agrees_with_header_value_from_bytes() {
    for b in 0u8..=255 {
        let ours = response_from_parts(200, Some(vec![b])).is_ok();
        let theirs = http::HeaderValue::from_bytes(&[b]).is_ok();
        assert_eq!(ours, theirs, "byte {}", b);
    }
}
