use rust_grammar::http::{
    send_step, simulated_response, AuthMiddleware, AuthType, ConnectionPool, HttpClientError,
    HttpMethod, HttpRequest, HttpResponse, LoggingMiddleware, RetryConfig, SendStep,
    GET_OK_BODY, POST_OK_BODY, URL_SCHEME_MESSAGE,
};
use std::time::Duration;

#[test]
fn test_http_request_creation() {
    let request = HttpRequest::new(HttpMethod::GET, "https://example.com").unwrap();
    assert_eq!(request.method.to_string(), "GET");
    assert_eq!(request.url, "https://example.com");
}

#[test]
fn test_invalid_url() {
    let result = HttpRequest::new(HttpMethod::GET, "invalid-url");
    assert!(result.is_err());
}

#[test]
fn test_request_builder() {
    let request = HttpRequest::new(HttpMethod::POST, "https://example.com")
        .unwrap()
        .header("Content-Type", "application/json")
        .body("test body".to_string());
    assert_eq!(request.headers.get("Content-Type").unwrap(), "application/json");
    assert_eq!(request.body.unwrap(), "test body");
}

#[test]
fn test_middleware() {
    let mut request = HttpRequest::new(HttpMethod::GET, "https://example.com").unwrap();
    let auth_middleware = AuthMiddleware::bearer("test-token".to_string());
    auth_middleware.process_request(&mut request).unwrap();
    assert_eq!(request.headers.get("Authorization").unwrap(), "Bearer test-token");
}

#[test]
fn invalid_url_error_carries_message() {
    match HttpRequest::new(HttpMethod::GET, "ftp://example.com") {
        Err(HttpClientError::UrlParseError(m)) => assert_eq!(m, URL_SCHEME_MESSAGE),
        other => panic!("unexpected {:?}", other),
    }
    assert!(HttpRequest::new(HttpMethod::GET, "http://x").is_ok());
    assert!(HttpRequest::new(HttpMethod::GET, "").is_err());
    assert!(HttpRequest::new(HttpMethod::GET, "http:/").is_err());
}

#[test]
fn method_names() {
    assert_eq!(HttpMethod::POST.to_string(), "POST");
    assert_eq!(HttpMethod::DELETE.to_string(), "DELETE");
    assert_eq!(HttpMethod::OPTIONS.to_string(), "OPTIONS");
}

#[test]
fn header_replaces_earlier_value() {
    let request = HttpRequest::new(HttpMethod::GET, "http://a.b")
        .unwrap()
        .header("X", "1")
        .header("Y", "2")
        .header("X", "3");
    assert_eq!(request.headers.get("X").unwrap(), "3");
    assert_eq!(request.headers.get("Y").unwrap(), "2");
    assert_eq!(request.headers.len(), 2);
    assert!(request.headers.get("Z").is_none());
}

#[test]
fn json_body_sets_content_type() {
    let request = HttpRequest::new(HttpMethod::POST, "https://example.com")
        .unwrap()
        .json_body("{\"id\":1}".to_string());
    assert_eq!(request.body.as_deref(), Some("{\"id\":1}"));
    assert_eq!(request.headers.get("Content-Type").unwrap(), "application/json");
}

#[test]
fn default_timeout_only_when_missing() {
    let mut request = HttpRequest::new(HttpMethod::GET, "https://example.com").unwrap();
    request.apply_default_timeout(Duration::from_secs(30));
    assert_eq!(request.timeout, Some(Duration::from_secs(30)));
    let mut request = request.timeout(Duration::from_secs(5));
    request.apply_default_timeout(Duration::from_secs(30));
    assert_eq!(request.timeout, Some(Duration::from_secs(5)));
}

#[test]
fn auth_kinds() {
    let mut request = HttpRequest::new(HttpMethod::GET, "https://example.com").unwrap();
    AuthMiddleware::basic("abc".to_string()).process_request(&mut request).unwrap();
    assert_eq!(request.headers.get("Authorization").unwrap(), "Basic abc");
    AuthMiddleware::api_key("X-API-Key".to_string(), "k".to_string())
        .process_request(&mut request)
        .unwrap();
    assert_eq!(request.headers.get("X-API-Key").unwrap(), "k");
    assert_eq!(request.headers.get("Authorization").unwrap(), "Basic abc");
    let m = AuthMiddleware::api_key("H".to_string(), "t".to_string());
    assert_eq!(m.auth_type, AuthType::ApiKey("H".to_string()));
}

#[test]
fn response_success_range() {
    assert!(HttpResponse::new(200, String::new()).is_success());
    assert!(HttpResponse::new(299, String::new()).is_success());
    assert!(!HttpResponse::new(300, String::new()).is_success());
    assert!(!HttpResponse::new(199, String::new()).is_success());
    let r = HttpResponse::new(404, "x".to_string());
    assert_eq!(r.status, 404);
    assert_eq!(r.body, "x");
    assert_eq!(r.headers.len(), 0);
}

#[test]
fn simulated_answers() {
    let get = |url: &str| simulated_response(&HttpRequest::new(HttpMethod::GET, url).unwrap());
    let r = get("https://api.example.com/error");
    assert_eq!((r.status, r.body.as_str()), (500, "Internal Server Error"));
    let r = get("https://api.example.com/notfound");
    assert_eq!((r.status, r.body.as_str()), (404, "Not Found"));
    let r = get("https://api.example.com/users");
    assert_eq!((r.status, r.body.as_str()), (200, GET_OK_BODY));
    assert_eq!(r.headers.get("Content-Type").unwrap(), "application/json");
    let post = HttpRequest::new(HttpMethod::POST, "https://api.example.com/error").unwrap();
    let r = simulated_response(&post);
    assert_eq!((r.status, r.body.as_str()), (201, POST_OK_BODY));
    let put = HttpRequest::new(HttpMethod::PUT, "https://api.example.com").unwrap();
    let r = simulated_response(&put);
    assert_eq!((r.status, r.body.as_str()), (200, "Request successful"));
    assert!(r.headers.get("Content-Type").is_none());
}

#[test]
fn send_steps() {
    assert_eq!(send_step(0, 3, true), SendStep::Deliver);
    assert_eq!(send_step(3, 3, true), SendStep::Deliver);
    assert_eq!(send_step(0, 3, false), SendStep::Retry);
    assert_eq!(send_step(2, 3, false), SendStep::Retry);
    assert_eq!(send_step(3, 3, false), SendStep::Fail);
    assert_eq!(send_step(0, 0, false), SendStep::Fail);
}

#[test]
fn pool_starts_full() {
    let pool = ConnectionPool::new(2);
    assert_eq!(pool.available_connections(), 2);
    assert_eq!(pool.max_connections(), 2);
}

#[test]
fn retry_config_default() {
    let c = RetryConfig::default();
    assert_eq!(c.max_retries, 3);
    assert_eq!(c.retry_delay, Duration::from_millis(1000));
    assert_eq!(c.retry_on_status, vec![500, 502, 503, 504]);
}

#[test]
fn logging_middleware_defaults() {
    let m = LoggingMiddleware::new();
    assert!(m.log_requests && m.log_responses);
}

#[test]
fn response_middleware_keeps_response() {
    let mut r = HttpResponse::new(201, "b".to_string());
    AuthMiddleware::bearer("t".to_string()).process_response(&mut r).unwrap();
    assert_eq!((r.status, r.body.as_str()), (201, "b"));
}

#[test]
fn test_connection_pool() {
    let runtime = tokio::runtime::Runtime::new().unwrap();
    runtime.block_on(async {
        let pool = ConnectionPool::new(2);
        assert_eq!(pool.available_connections(), 2);
        let _guard1 = pool.semaphore().clone().acquire_owned().await.unwrap();
        assert_eq!(pool.available_connections(), 1);
        let _guard2 = pool.semaphore().clone().acquire_owned().await.unwrap();
        assert_eq!(pool.available_connections(), 0);
    });
}
