use vstd::prelude::*;
use vstd::string::StringExecFns;
use std::time::Duration;
use reqwest::{Method, Url};
use crate::string_map::StringMap;

verus! {

#[verifier::external_type_specification]
#[verifier::external_body]
pub struct ExUrl(reqwest::Url);

#[verifier::external_type_specification]
#[verifier::external_body]
pub struct ExMethod(reqwest::Method);

#[verifier::external_type_specification]
#[verifier::external_body]
pub struct ExReqwestError(reqwest::Error);

#[verifier::external_type_specification]
#[verifier::external_body]
pub struct ExJsonError(serde_json::Error);

/// Relies on `Method`'s derived `Clone`, which copies the value.
pub assume_specification[ <reqwest::Method as Clone>::clone ](m: &Method) -> (r: Method)
    ensures
        r == *m,
;

/// Relies on `Url`'s derived `Clone`, which copies the value.
pub assume_specification[ <reqwest::Url as Clone>::clone ](u: &Url) -> (r: Url)
    ensures
        r == *u,
;

/// Whether `Url::parse` accepts a text; it depends on the text alone.
pub uninterp spec fn url_parses(s: Seq<char>) -> bool;

/// The text that `String::from_utf8_lossy` makes of some bytes.
pub uninterp spec fn utf8_lossy(b: Seq<u8>) -> Seq<char>;

/// Relies on `Url::parse` (url crate, reached through reqwest): it returns a URL
/// exactly when the text parses; the error is turned into its message.
#[verifier::external_body]
fn parse_url(s: &str) -> (r: Result<Url, String>)
    ensures
        r is Ok <==> url_parses(s@),
{
    match Url::parse(s) {
        Ok(u) => Ok(u),
        Err(e) => Err(e.to_string()),
    }
}

/// Relies on `String::from_utf8_lossy`: valid UTF-8 is decoded, each invalid
/// sequence becomes U+FFFD; no bytes give the empty text.
#[verifier::external_body]
fn decode_lossy(b: &[u8]) -> (r: String)
    ensures
        r@ == utf8_lossy(b@),
        b@.len() == 0 ==> r@.len() == 0,
{
    String::from_utf8_lossy(b).to_string()
}

/// Errors of the client.
#[derive(Debug)]
pub enum HttpClientError {
    RequestFailed(reqwest::Error),
    Timeout,
    PoolExhausted,
    SerializationError(serde_json::Error),
    UrlParseError(String),
    MiddlewareError(String),
}

/// A request to be sent.
#[derive(Debug, Clone)]
pub struct HttpRequest {
    pub method: Method,
    pub url: Url,
    pub headers: StringMap,
    pub body: Option<Vec<u8>>,
    pub timeout: Option<Duration>,
}

impl HttpRequest {
    /// A request with no headers, body or timeout, or a `UrlParseError` carrying
    /// the parser's message when the URL does not parse.
    pub fn new(method: Method, url: &str) -> (r: Result<HttpRequest, HttpClientError>)
        ensures
            r is Ok <==> url_parses(url@),
            r matches Ok(req) ==> {
                &&& req.method == method
                &&& req.headers.wf()
                &&& req.headers@ == Map::<Seq<char>, Seq<char>>::empty()
                &&& req.body is None
                &&& req.timeout is None
            },
            r matches Err(e) ==> e is UrlParseError,
    {
        match parse_url(url) {
            Ok(parsed_url) => Ok(
                HttpRequest {
                    method,
                    url: parsed_url,
                    headers: StringMap::new(),
                    body: None,
                    timeout: None,
                },
            ),
            Err(message) => Err(HttpClientError::UrlParseError(message)),
        }
    }

    /// The same request with header `key` set to `value`.
    pub fn header(self, key: &str, value: &str) -> (r: HttpRequest)
        requires
            self.headers.wf(),
        ensures
            r.headers.wf(),
            r.headers@ == self.headers@.insert(key@, value@),
            r.method == self.method,
            r.url == self.url,
            r.body == self.body,
            r.timeout == self.timeout,
    {
        let mut r = self;
        r.headers.insert(key.to_owned(), value.to_owned());
        r
    }

    /// The same request with an encoded JSON document as its body and the header
    /// `Content-Type: application/json`.
    pub fn json_body(self, json: Vec<u8>) -> (r: HttpRequest)
        requires
            self.headers.wf(),
        ensures
            r.body == Some(json),
            r.headers.wf(),
            r.headers@ == self.headers@.insert("Content-Type"@, "application/json"@),
            r.method == self.method,
            r.url == self.url,
            r.timeout == self.timeout,
    {
        let mut r = self;
        r.body = Some(json);
        r.headers.insert("Content-Type".to_owned(), "application/json".to_owned());
        r
    }

    /// The same request with this timeout.
    pub fn timeout(self, timeout: Duration) -> (r: HttpRequest)
        ensures
            r.timeout == Some(timeout),
            r.method == self.method,
            r.url == self.url,
            r.headers == self.headers,
            r.body == self.body,
    {
        let mut r = self;
        r.timeout = Some(timeout);
        r
    }
}

/// A response received.
#[derive(Debug, Clone)]
pub struct HttpResponse {
    pub status: u16,
    pub headers: StringMap,
    pub body: Vec<u8>,
}

impl HttpResponse {
    /// The body read as UTF-8, with invalid sequences replaced.
    pub fn text(&self) -> (r: String)
        ensures
            r@ == utf8_lossy(self.body@),
    {
        decode_lossy(self.body.as_slice())
    }

    /// Whether the status is in the 2xx range.
    pub fn is_success(&self) -> (r: bool)
        ensures
            r == (200 <= self.status < 300),
    {
        self.status >= 200 && self.status < 300
    }
}

/// A middleware that logs each exchange.
#[derive(Debug, Clone, Copy)]
pub struct LoggingMiddleware;

/// A middleware that sends a request again after a failure.
#[derive(Debug, Clone)]
pub struct RetryMiddleware {
    pub max_retries: usize,
    pub retry_delay: Duration,
}

impl RetryMiddleware {
    /// Retries up to `max_retries` times, `retry_delay` apart.
    pub fn new(max_retries: usize, retry_delay: Duration) -> (r: RetryMiddleware)
        ensures
            r.max_retries == max_retries,
            r.retry_delay == retry_delay,
    {
        RetryMiddleware { max_retries, retry_delay }
    }

    /// After `attempts` retries, whether the outcome just received calls for
    /// another one: anything but a successful response is retried while retries
    /// are left.
    pub fn should_retry(&self, attempts: usize, succeeded: bool) -> (r: bool)
        ensures
            r == (!succeeded && attempts < self.max_retries),
    {
        !succeeded && attempts < self.max_retries
    }
}

/// A middleware that bounds how long a request may take.
#[derive(Debug, Clone)]
pub struct TimeoutMiddleware {
    pub timeout: Duration,
}

impl TimeoutMiddleware {
    /// Bounds requests by `timeout` unless they carry their own.
    pub fn new(timeout: Duration) -> (r: TimeoutMiddleware)
        ensures
            r.timeout == timeout,
    {
        TimeoutMiddleware { timeout }
    }

    /// The request's own timeout if it has one, the middleware's otherwise.
    pub fn effective_timeout(&self, request: &HttpRequest) -> (r: Duration)
        ensures
            r == match request.timeout {
                Some(t) => t,
                None => self.timeout,
            },
    {
        match request.timeout {
            Some(t) => t,
            None => self.timeout,
        }
    }
}

/// A middleware that adds a bearer token to each request.
#[derive(Debug, Clone)]
pub struct AuthMiddleware {
    pub token: String,
}

impl AuthMiddleware {
    /// Sends `Authorization: Bearer <token>`.
    pub fn bearer(token: &str) -> (r: AuthMiddleware)
        ensures
            r.token@ == token@,
    {
        AuthMiddleware { token: token.to_owned() }
    }

    /// Adds `Authorization: Bearer <token>` to the request.
    pub fn authorize(&self, request: &mut HttpRequest)
        requires
            old(request).headers.wf(),
        ensures
            final(request).headers.wf(),
            final(request).headers@ == old(request).headers@.insert(
                "Authorization"@,
                "Bearer "@ + self.token@,
            ),
            final(request).method == old(request).method,
            final(request).url == old(request).url,
            final(request).body == old(request).body,
            final(request).timeout == old(request).timeout,
    {
        let mut v = "Bearer ".to_owned();
        v.append(self.token.as_str());
        request.headers.insert("Authorization".to_owned(), v);
    }
}

} // verus!
