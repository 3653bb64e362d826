use vstd::prelude::*;
use vstd::string::StringExecFns;
use std::sync::Arc;
use std::time::Duration;
use tokio::sync::Semaphore;
use crate::string_map::StringMap;
use crate::text::{contains, has_prefix, has_substring, starts_with};

verus! {

#[verifier::external_type_specification]
#[verifier::external_body]
pub struct ExSemaphore(tokio::sync::Semaphore);

/// Relies on tokio's `Semaphore::new`, which panics above `MAX_PERMITS` (`usize::MAX >> 3`).
pub assume_specification[ tokio::sync::Semaphore::new ](permits: usize) -> Semaphore
    requires
        permits <= usize::MAX / 8,
;

/// Relies on tokio's `Semaphore::available_permits`; the count depends on the permits
/// held elsewhere, so nothing is promised about it.
pub assume_specification[ tokio::sync::Semaphore::available_permits ](s: &Semaphore) -> usize;

/// Relies on `Duration::from_millis`, which cannot fail.
pub assume_specification[ core::time::Duration::from_millis ](millis: u64) -> Duration;

/// Relies on `Duration`'s `Clone`, which copies the value (`Duration` is `Copy`).
pub assume_specification[ <core::time::Duration as Clone>::clone ](d: &Duration) -> (r: Duration)
    ensures
        r == *d,
;

/// Errors of the client.
#[derive(Debug, Clone, PartialEq, Eq)]
pub enum HttpClientError {
    RequestFailed(String),
    PoolExhausted,
    Timeout(String),
    AuthenticationFailed,
    UrlParseError(String),
    SerializationError(String),
}

/// Message of the error for a URL without an `http://` or `https://` scheme.
pub const URL_SCHEME_MESSAGE: &'static str = "URL must start with http:// or https://";

/// HTTP request methods.
#[derive(Debug, Clone, Copy, PartialEq, Eq, Structural)]
pub enum HttpMethod {
    GET,
    POST,
    PUT,
    DELETE,
    PATCH,
    HEAD,
    OPTIONS,
}

/// The name of a method as it is written on the wire.
pub open spec fn method_name(m: HttpMethod) -> Seq<char> {
    match m {
        HttpMethod::GET => "GET"@,
        HttpMethod::POST => "POST"@,
        HttpMethod::PUT => "PUT"@,
        HttpMethod::DELETE => "DELETE"@,
        HttpMethod::PATCH => "PATCH"@,
        HttpMethod::HEAD => "HEAD"@,
        HttpMethod::OPTIONS => "OPTIONS"@,
    }
}

impl HttpMethod {
    /// The method's name, such as `GET`.
    pub fn to_string(&self) -> (r: String)
        ensures
            r@ == method_name(*self),
    {
        match self {
            HttpMethod::GET => "GET".to_owned(),
            HttpMethod::POST => "POST".to_owned(),
            HttpMethod::PUT => "PUT".to_owned(),
            HttpMethod::DELETE => "DELETE".to_owned(),
            HttpMethod::PATCH => "PATCH".to_owned(),
            HttpMethod::HEAD => "HEAD".to_owned(),
            HttpMethod::OPTIONS => "OPTIONS".to_owned(),
        }
    }
}

/// Whether a URL names a scheme that the client accepts.
pub open spec fn url_accepted(url: Seq<char>) -> bool {
    has_prefix(url, "http://"@) || has_prefix(url, "https://"@)
}

/// A request to be sent.
#[derive(Debug, Clone)]
pub struct HttpRequest {
    pub method: HttpMethod,
    pub url: String,
    pub headers: StringMap,
    pub body: Option<String>,
    pub timeout: Option<Duration>,
}

impl HttpRequest {
    /// A request with no headers, body or timeout. Fails with a `UrlParseError` when
    /// the URL starts with neither `http://` nor `https://`.
    pub fn new(method: HttpMethod, url: &str) -> (r: Result<HttpRequest, HttpClientError>)
        ensures
            r is Ok <==> url_accepted(url@),
            r matches Ok(req) ==> {
                &&& req.method == method
                &&& req.url@ == url@
                &&& req.headers.wf()
                &&& req.headers@ == Map::<Seq<char>, Seq<char>>::empty()
                &&& req.body is None
                &&& req.timeout is None
            },
            r matches Err(e) ==> e matches HttpClientError::UrlParseError(m) && m@
                == URL_SCHEME_MESSAGE@,
    {
        if !starts_with(url, "http://") && !starts_with(url, "https://") {
            return Err(HttpClientError::UrlParseError(URL_SCHEME_MESSAGE.to_owned()));
        }
        Ok(HttpRequest {
            method,
            url: url.to_owned(),
            headers: StringMap::new(),
            body: None,
            timeout: None,
        })
    }

    /// The same request with header `key` set to `value`.
    pub fn header(self, key: &str, value: &str) -> (r: HttpRequest)
        requires
            self.headers.wf(),
        ensures
            r.headers.wf(),
            r.headers@ == self.headers@.insert(key@, value@),
            r.method == self.method,
            r.url == self.url,
            r.body == self.body,
            r.timeout == self.timeout,
    {
        let mut r = self;
        r.headers.insert(key.to_owned(), value.to_owned());
        r
    }

    /// The same request with this body.
    pub fn body(self, body: String) -> (r: HttpRequest)
        ensures
            r.body == Some(body),
            r.method == self.method,
            r.url == self.url,
            r.headers == self.headers,
            r.timeout == self.timeout,
    {
        let mut r = self;
        r.body = Some(body);
        r
    }

    /// The same request with a JSON document as its body and the header
    /// `Content-Type: application/json`.
    pub fn json_body(self, json: String) -> (r: HttpRequest)
        requires
            self.headers.wf(),
        ensures
            r.body == Some(json),
            r.headers.wf(),
            r.headers@ == self.headers@.insert("Content-Type"@, "application/json"@),
            r.method == self.method,
            r.url == self.url,
            r.timeout == self.timeout,
    {
        let mut r = self;
        r.body = Some(json);
        r.headers.insert("Content-Type".to_owned(), "application/json".to_owned());
        r
    }

    /// The same request with this timeout.
    pub fn timeout(self, timeout: Duration) -> (r: HttpRequest)
        ensures
            r.timeout == Some(timeout),
            r.method == self.method,
            r.url == self.url,
            r.headers == self.headers,
            r.body == self.body,
    {
        let mut r = self;
        r.timeout = Some(timeout);
        r
    }

    /// Gives the request `default` as its timeout when it has none.
    pub fn apply_default_timeout(&mut self, default: Duration)
        ensures
            final(self).timeout == if old(self).timeout is None {
                Some(default)
            } else {
                old(self).timeout
            },
            final(self).method == old(self).method,
            final(self).url == old(self).url,
            final(self).headers == old(self).headers,
            final(self).body == old(self).body,
    {
        if self.timeout.is_none() {
            self.timeout = Some(default);
        }
    }
}

/// A response received.
#[derive(Debug, Clone)]
pub struct HttpResponse {
    pub status: u16,
    pub headers: StringMap,
    pub body: String,
}

/// Statuses from 200 to 299 are successes.
pub open spec fn status_success(status: u16) -> bool {
    200 <= status < 300
}

impl HttpResponse {
    /// A response with no headers.
    pub fn new(status: u16, body: String) -> (r: HttpResponse)
        ensures
            r.status == status,
            r.body == body,
            r.headers.wf(),
            r.headers@ == Map::<Seq<char>, Seq<char>>::empty(),
    {
        HttpResponse { status, headers: StringMap::new(), body }
    }

    /// Whether the status is in the 2xx range.
    pub fn is_success(&self) -> (r: bool)
        ensures
            r == status_success(self.status),
    {
        self.status >= 200 && self.status < 300
    }
}

/// Body of the simulated answer to a successful GET.
pub const GET_OK_BODY: &'static str = "{\"message\": \"GET request successful\", \"data\": {\"id\": 1, \"name\": \"test\"}}";

/// Body of the simulated answer to a POST.
pub const POST_OK_BODY: &'static str = "{\"message\": \"POST request successful\", \"id\": 123}";

/// The headers of a JSON answer.
pub open spec fn json_headers() -> Map<Seq<char>, Seq<char>> {
    Map::<Seq<char>, Seq<char>>::empty().insert("Content-Type"@, "application/json"@)
}

/// The simulated server's answer to a request, as `(status, body, headers)`: a GET
/// whose URL mentions `error` fails with 500, one that mentions `notfound` gets 404,
/// other GETs get a JSON document; a POST gets 201 with a JSON document; every other
/// method gets a plain 200.
pub open spec fn simulated(method: HttpMethod, url: Seq<char>) -> (u16, Seq<char>, Map<Seq<char>, Seq<char>>) {
    match method {
        HttpMethod::GET => if has_substring(url, "error"@) {
            (500u16, "Internal Server Error"@, Map::empty())
        } else if has_substring(url, "notfound"@) {
            (404u16, "Not Found"@, Map::empty())
        } else {
            (200u16, GET_OK_BODY@, json_headers())
        },
        HttpMethod::POST => (201u16, POST_OK_BODY@, json_headers()),
        _ => (200u16, "Request successful"@, Map::empty()),
    }
}

/// The response that the simulated server gives to `request`.
pub fn simulated_response(request: &HttpRequest) -> (r: HttpResponse)
    ensures
        r.headers.wf(),
        (r.status, r.body@, r.headers@) == simulated(request.method, request.url@),
{
    match request.method {
        HttpMethod::GET => {
            if contains(request.url.as_str(), "error") {
                HttpResponse::new(500, "Internal Server Error".to_owned())
            } else if contains(request.url.as_str(), "notfound") {
                HttpResponse::new(404, "Not Found".to_owned())
            } else {
                let mut resp = HttpResponse::new(200, GET_OK_BODY.to_owned());
                resp.headers.insert("Content-Type".to_owned(), "application/json".to_owned());
                resp
            }
        },
        HttpMethod::POST => {
            let mut resp = HttpResponse::new(201, POST_OK_BODY.to_owned());
            resp.headers.insert("Content-Type".to_owned(), "application/json".to_owned());
            resp
        },
        _ => HttpResponse::new(200, "Request successful".to_owned()),
    }
}

/// What the client does after an attempt to send a request.
#[derive(Debug, Clone, Copy, PartialEq, Eq, Structural)]
pub enum SendStep {
    /// Hand the response to the caller.
    Deliver,
    /// Wait the retry delay and try again.
    Retry,
    /// Give the last error to the caller.
    Fail,
}

/// The decision after attempt number `attempt` (counted from 0) out of
/// `max_retries + 1`: a response is delivered; a failure is retried until the
/// last attempt, whose failure is final.
pub fn send_step(attempt: usize, max_retries: usize, succeeded: bool) -> (r: SendStep)
    requires
        attempt <= max_retries,
    ensures
        succeeded ==> r == SendStep::Deliver,
        !succeeded && attempt < max_retries ==> r == SendStep::Retry,
        !succeeded && attempt == max_retries ==> r == SendStep::Fail,
{
    if succeeded {
        SendStep::Deliver
    } else if attempt == max_retries {
        SendStep::Fail
    } else {
        SendStep::Retry
    }
}

/// A limit on the number of requests in flight.
pub struct ConnectionPool {
    semaphore: Arc<Semaphore>,
    max_connections: usize,
}

impl ConnectionPool {
    pub closed spec fn spec_max_connections(&self) -> usize {
        self.max_connections
    }

    /// A pool that lets `max_connections` requests run at once.
    pub fn new(max_connections: usize) -> (r: ConnectionPool)
        requires
            max_connections <= usize::MAX / 8,
        ensures
            r.spec_max_connections() == max_connections,
    {
        ConnectionPool { semaphore: Arc::new(Semaphore::new(max_connections)), max_connections }
    }

    /// The number of requests that may start now.
    pub fn available_connections(&self) -> usize {
        self.semaphore.available_permits()
    }

    /// The limit the pool was made with.
    pub fn max_connections(&self) -> (r: usize)
        ensures
            r == self.spec_max_connections(),
    {
        self.max_connections
    }

    /// The semaphore whose permits stand for connections.
    pub fn semaphore(&self) -> &Arc<Semaphore> {
        &self.semaphore
    }
}

/// A middleware that logs requests and responses.
#[derive(Debug, Clone, Copy, PartialEq, Eq, Structural)]
pub struct LoggingMiddleware {
    pub log_requests: bool,
    pub log_responses: bool,
}

impl LoggingMiddleware {
    /// Logs both requests and responses.
    pub fn new() -> (r: LoggingMiddleware)
        ensures
            r.log_requests && r.log_responses,
    {
        LoggingMiddleware { log_requests: true, log_responses: true }
    }
}

/// How a token is presented to the server.
#[derive(Debug, Clone, PartialEq, Eq)]
pub enum AuthType {
    Bearer,
    Basic,
    /// The token is sent under this header name.
    ApiKey(String),
}

/// A middleware that adds credentials to each request.
#[derive(Debug, Clone)]
pub struct AuthMiddleware {
    pub token: String,
    pub auth_type: AuthType,
}

/// The header that carries the credentials, as `(name, value)`.
pub open spec fn auth_header(auth_type: AuthType, token: Seq<char>) -> (Seq<char>, Seq<char>) {
    match auth_type {
        AuthType::Bearer => ("Authorization"@, "Bearer "@ + token),
        AuthType::Basic => ("Authorization"@, "Basic "@ + token),
        AuthType::ApiKey(name) => (name@, token),
    }
}

impl AuthMiddleware {
    /// Sends `Authorization: Bearer <token>`.
    pub fn bearer(token: String) -> (r: AuthMiddleware)
        ensures
            r.token == token,
            r.auth_type == AuthType::Bearer,
    {
        AuthMiddleware { token, auth_type: AuthType::Bearer }
    }

    /// Sends `Authorization: Basic <token>`.
    pub fn basic(token: String) -> (r: AuthMiddleware)
        ensures
            r.token == token,
            r.auth_type == AuthType::Basic,
    {
        AuthMiddleware { token, auth_type: AuthType::Basic }
    }

    /// Sends the token itself under the header `header_name`.
    pub fn api_key(header_name: String, token: String) -> (r: AuthMiddleware)
        ensures
            r.token == token,
            r.auth_type == AuthType::ApiKey(header_name),
    {
        AuthMiddleware { token, auth_type: AuthType::ApiKey(header_name) }
    }

    /// Adds the credentials header to the request; never fails.
    pub fn process_request(&self, request: &mut HttpRequest) -> (r: Result<(), HttpClientError>)
        requires
            old(request).headers.wf(),
        ensures
            r is Ok,
            final(request).headers.wf(),
            final(request).headers@ == old(request).headers@.insert(
                auth_header(self.auth_type, self.token@).0,
                auth_header(self.auth_type, self.token@).1,
            ),
            final(request).method == old(request).method,
            final(request).url == old(request).url,
            final(request).body == old(request).body,
            final(request).timeout == old(request).timeout,
    {
        match &self.auth_type {
            AuthType::Bearer => {
                let mut v = "Bearer ".to_owned();
                v.append(self.token.as_str());
                request.headers.insert("Authorization".to_owned(), v);
            },
            AuthType::Basic => {
                let mut v = "Basic ".to_owned();
                v.append(self.token.as_str());
                request.headers.insert("Authorization".to_owned(), v);
            },
            AuthType::ApiKey(header_name) => {
                request.headers.insert(header_name.clone(), self.token.clone());
            },
        }
        Ok(())
    }

    /// Responses pass unchanged.
    pub fn process_response(&self, response: &mut HttpResponse) -> (r: Result<(), HttpClientError>)
        ensures
            r is Ok,
            *final(response) == *old(response),
    {
        Ok(())
    }
}

/// When and how often a failed request is sent again.
#[derive(Debug, Clone)]
pub struct RetryConfig {
    pub max_retries: usize,
    pub retry_delay: Duration,
    pub retry_on_status: Vec<u16>,
}

impl Default for RetryConfig {
    /// Three retries one second apart, on statuses 500, 502, 503 and 504.
    fn default() -> (r: RetryConfig)
        ensures
            r.max_retries == 3,
            r.retry_on_status@ == seq![500u16, 502u16, 503u16, 504u16],
    {
        RetryConfig {
            max_retries: 3,
            retry_delay: Duration::from_millis(1000),
            retry_on_status: vec![500u16, 502u16, 503u16, 504u16],
        }
    }
}

} // verus!
