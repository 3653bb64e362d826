use rust_grammar::reqwest_client::{
    AuthMiddleware, HttpClientError, HttpRequest, HttpResponse, RetryMiddleware,
    TimeoutMiddleware,
};
use rust_grammar::string_map::StringMap;
use std::time::Duration;

#[test]
fn request_parses_url() {
    let r = HttpRequest::new(reqwest::Method::GET, "https://httpbin.org/get").unwrap();
    assert_eq!(r.url.as_str(), "https://httpbin.org/get");
    assert_eq!(r.method, reqwest::Method::GET);
    assert!(r.body.is_none());
    match HttpRequest::new(reqwest::Method::GET, "not a url") {
        Err(HttpClientError::UrlParseError(m)) => assert!(!m.is_empty()),
        other => panic!("unexpected {:?}", other),
    }
}

#[test]
fn request_builders() {
    let r = HttpRequest::new(reqwest::Method::POST, "https://httpbin.org/post")
        .unwrap()
        .header("User-Agent", "Custom-HTTP-Client/1.0")
        .json_body(b"{}".to_vec())
        .timeout(Duration::from_secs(5));
    assert_eq!(r.headers.get("User-Agent").unwrap(), "Custom-HTTP-Client/1.0");
    assert_eq!(r.headers.get("Content-Type").unwrap(), "application/json");
    assert_eq!(r.body.as_deref(), Some(&b"{}"[..]));
    assert_eq!(r.timeout, Some(Duration::from_secs(5)));
}

#[test]
fn response_text_and_status() {
    let r = HttpResponse { status: 204, headers: StringMap::new(), body: b"caf\xc3\xa9".to_vec() };
    assert_eq!(r.text(), "caf\u{e9}");
    assert!(r.is_success());
    let r = HttpResponse { status: 500, headers: StringMap::new(), body: vec![0x61, 0xff] };
    assert_eq!(r.text(), "a\u{fffd}");
    assert!(!r.is_success());
}

#[test]
fn middlewares() {
    let retry = RetryMiddleware::new(3, Duration::from_millis(500));
    assert!(retry.should_retry(0, false));
    assert!(retry.should_retry(2, false));
    assert!(!retry.should_retry(3, false));
    assert!(!retry.should_retry(0, true));
    let timeout = TimeoutMiddleware::new(Duration::from_secs(10));
    let r = HttpRequest::new(reqwest::Method::GET, "https://a.example").unwrap();
    assert_eq!(timeout.effective_timeout(&r), Duration::from_secs(10));
    let r = r.timeout(Duration::from_secs(2));
    assert_eq!(timeout.effective_timeout(&r), Duration::from_secs(2));
    let mut r = r;
    AuthMiddleware::bearer("tok").authorize(&mut r);
    assert_eq!(r.headers.get("Authorization").unwrap(), "Bearer tok");
}
