use http_client::{Error, ParsedUrl};

#[test]
fn malformed_url_is_a_parse_error() {
    match ParsedUrl::parse("http://[not-a-host") {
        Err(Error::ParseError(_)) => {}
        _ => panic!("expected a URL-parse error"),
    }
}

#[test]
fn relative_url_is_a_parse_error() {
    match ParsedUrl::parse("no-scheme/path") {
        Err(Error::ParseError(_)) => {}
        _ => panic!("expected a URL-parse error"),
    }
}

#[test]
fn parsed_url_is_normalized() {
    let url = ParsedUrl::parse("HTTPS://EXample.test").unwrap();
    assert_eq!(url.as_str(), "https://example.test/");
}

#[test]
fn parsed_url_agrees_with_the_url_crate() {
    for text in [
        "https://example.test/a.bin",
        "http://example.test:8080/x?q=1",
        "HTTPS://EXample.test/Path",
    ] {
        let ours = ParsedUrl::parse(text).unwrap();
        let theirs = url::Url::parse(text).unwrap().to_string();
        assert_eq!(ours.as_str(), theirs);
    }
}
