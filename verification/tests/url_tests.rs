use loadramp::url::{parse_into_https, TargetEndpoint};

#[test]
fn address_with_a_scheme_is_kept() {
    assert_eq!(parse_into_https("http://example.com"), "http://example.com");
    assert_eq!(parse_into_https("https://example.com/a?b=c"), "https://example.com/a?b=c");
    assert_eq!(parse_into_https("http://localhost:3000"), "http://localhost:3000");
}

#[test]
fn address_that_begins_with_http_is_kept() {
    assert_eq!(parse_into_https("httpbin.org/get"), "httpbin.org/get");
    assert_eq!(parse_into_https("http"), "http");
}

#[test]
fn local_address_gets_plain_http() {
    assert_eq!(parse_into_https("localhost:8080"), "http://localhost:8080");
    assert_eq!(parse_into_https("localhost"), "http://localhost");
    assert_eq!(parse_into_https("api.localhost/x"), "http://api.localhost/x");
}

#[test]
fn other_address_gets_https() {
    assert_eq!(parse_into_https("example.com"), "https://example.com");
    assert_eq!(parse_into_https("example.com/local"), "https://example.com/local");
    assert_eq!(parse_into_https("Localhost:80"), "https://Localhost:80");
    assert_eq!(parse_into_https("HTTP://example.com"), "https://HTTP://example.com");
    assert_eq!(parse_into_https("htt"), "https://htt");
    assert_eq!(parse_into_https(""), "https://");
}

#[test]
fn address_beyond_ascii() {
    assert_eq!(parse_into_https("b\u{fc}cher.example"), "https://b\u{fc}cher.example");
    assert_eq!(parse_into_https("\u{e9}.localhost"), "http://\u{e9}.localhost");
}

#[test]
fn target_holds_its_url() {
    let target = TargetEndpoint::new(String::from("example.com"));
    assert_eq!(target.as_str(), "example.com");
}

#[test]
fn target_from_an_address_infers_the_scheme() {
    assert_eq!(TargetEndpoint::from_address("example.com").as_str(), "https://example.com");
    assert_eq!(TargetEndpoint::from_address("localhost:1").as_str(), "http://localhost:1");
    assert_eq!(TargetEndpoint::from_address("http://a").as_str(), "http://a");
}
