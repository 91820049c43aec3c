//! HTTP helpers of the ESP32 sensor: the user agents and headers it sends, the mapping of
//! request methods, the check of response status codes and the assembly of a response
//! body that is read from a stream in chunks.
use vstd::prelude::*;
use crate::text::{decimal_digits, u64_to_decimal};

verus! {

/// The user agent of the ESP32 main application.
pub const USER_AGENT_MAIN: &'static str = "sensor/main";
/// The user agent of the command fetcher.
pub const USER_AGENT_COMMAND_FETCHER: &'static str = "sensor/command-fetcher";
/// The user agent of the LoRaWAN REST client.
pub const USER_AGENT_LORAWAN_REST_CLIENT: &'static str = "sensor/lorawan-rest-client";

/// The header key that carries the user agent.
pub const USER_AGENT_KEY: &'static str = "user-agent";

/// The capacity of one chunk when a response body is read from a stream.
pub const READ_STREAM_SUB_BUFFER_CAPACITY_SIZE: usize = 256;

/// The parts of the sensor that send HTTP requests.
#[derive(PartialEq, Eq, Structural, Clone, Copy, Debug)]
pub enum UserAgentName {
    Main,
    CommandFetcher,
    LoraWanRestClient,
}

/// The user agent text of a part of the sensor.
pub open spec fn user_agent_text(u: UserAgentName) -> Seq<char> {
    match u {
        UserAgentName::Main => USER_AGENT_MAIN@,
        UserAgentName::CommandFetcher => USER_AGENT_COMMAND_FETCHER@,
        UserAgentName::LoraWanRestClient => USER_AGENT_LORAWAN_REST_CLIENT@,
    }
}

impl UserAgentName {
    /// The user agent text sent in the `user-agent` header.
    pub fn value(&self) -> (r: &'static str)
        ensures
            r@ == user_agent_text(*self),
    {
        match self {
            UserAgentName::Main => USER_AGENT_MAIN,
            UserAgentName::CommandFetcher => USER_AGENT_COMMAND_FETCHER,
            UserAgentName::LoraWanRestClient => USER_AGENT_LORAWAN_REST_CLIENT,
        }
    }
}

/// The request methods that the ESP32 HTTP client knows; every method other than GET and
/// POST is `Unbind`.
#[derive(PartialEq, Eq, Structural, Clone, Copy, Debug)]
pub enum SvcHttpMethod {
    Get,
    Post,
    Unbind,
}

/// Builds the headers of the requests of the ESP32 HTTP client.
pub struct Esp32HttpHeaderTool {}

impl Esp32HttpHeaderTool {
    /// The value of the `content-length` header: the length of the body for POST, zero
    /// otherwise.
    pub fn get_content_len_string(method: &SvcHttpMethod, content_len: usize) -> (r: String)
        ensures
            r@ == (if *method == SvcHttpMethod::Post {
                decimal_digits(content_len as nat)
            } else {
                "0"@
            }),
    {
        if *method == SvcHttpMethod::Post {
            u64_to_decimal(content_len as u64)
        } else {
            String::from_str("0")
        }
    }

    /// The four headers of a request: user agent, content type, content length and a closed
    /// connection.
    pub fn create_esp32_http_headers<'a>(user_agent_name: &UserAgentName, content_len_str: &'a str) -> (r: Vec<(&'a str, &'a str)>)
        ensures
            r@.len() == 4,
            r@[0].0@ == USER_AGENT_KEY@,
            r@[0].1@ == user_agent_text(*user_agent_name),
            r@[1].0@ == "content-type"@,
            r@[1].1@ == "application/octet-stream"@,
            r@[2].0@ == "content-length"@,
            r@[2].1@ == content_len_str@,
            r@[3].0@ == "connection"@,
            r@[3].1@ == "close"@,
    {
        let mut headers: Vec<(&'a str, &'a str)> = Vec::new();
        headers.push((USER_AGENT_KEY, user_agent_name.value()));
        headers.push(("content-type", "application/octet-stream"));
        headers.push(("content-length", content_len_str));
        headers.push(("connection", "close"));
        headers
    }
}

/// The ESP32 HTTP method for the name of a request method.
pub open spec fn svc_method_for(name: Seq<char>) -> SvcHttpMethod {
    if name == "POST"@ {
        SvcHttpMethod::Post
    } else if name == "GET"@ {
        SvcHttpMethod::Get
    } else {
        SvcHttpMethod::Unbind
    }
}

/// The ESP32 HTTP method for the request method named `method_name`.
pub fn get_svc_http_method(method_name: &str) -> (r: SvcHttpMethod)
    ensures
        r == svc_method_for(method_name@),
{
    let name = method_name.to_string();
    let post = String::from_str("POST");
    let get = String::from_str("GET");
    if name == post {
        SvcHttpMethod::Post
    } else if name == get {
        SvcHttpMethod::Get
    } else {
        SvcHttpMethod::Unbind
    }
}

/// Why an HTTP exchange of the ESP32 client failed.
#[derive(PartialEq, Eq, Structural, Clone, Copy, Debug)]
pub enum HttpToolError {
    /// The request method is neither GET nor POST.
    UnsupportedMethod,
    /// The response carries a number that is no HTTP status code.
    InvalidStatusCode,
}

/// Whether the body of a request has to be written before it is submitted: it is for POST,
/// it is not for GET, and other methods are not supported.
pub fn body_must_be_written(method: SvcHttpMethod) -> (r: Result<bool, HttpToolError>)
    ensures
        r == (match method {
            SvcHttpMethod::Post => Ok::<bool, HttpToolError>(true),
            SvcHttpMethod::Get => Ok::<bool, HttpToolError>(false),
            SvcHttpMethod::Unbind => Err::<bool, HttpToolError>(HttpToolError::UnsupportedMethod),
        }),
{
    match method {
        SvcHttpMethod::Post => Ok(true),
        SvcHttpMethod::Get => Ok(false),
        SvcHttpMethod::Unbind => Err(HttpToolError::UnsupportedMethod),
    }
}

/// Whether a status code is one of success (2xx).
pub fn is_http_status_success(status: u16) -> (r: bool)
    ensures
        r == (200 <= status < 300),
{
    300 > status && status >= 200
}

/// The error of `http::StatusCode::from_u16`, carried as an opaque value.
#[verifier::external_type_specification]
#[verifier::external_body]
pub struct ExInvalidStatusCode(hyper::http::status::InvalidStatusCode);

/// `http::StatusCode::from_u16`: the status code for `code`, which exists exactly for the
/// numbers from 100 to 999; it is given back by its number.
#[verifier::external_body]
fn status_code_from_u16(code: u16) -> (r: Result<u16, hyper::http::status::InvalidStatusCode>)
    ensures
        (r is Ok) == (100 <= code < 1000),
        r matches Ok(c) ==> c == code,
{
    match hyper::http::StatusCode::from_u16(code) {
        Ok(status) => Ok(status.as_u16()),
        Err(e) => Err(e),
    }
}

/// A response of the ESP32 HTTP client: its status code and its body.
pub struct SimpleHttpResponse {
    pub status: u16,
    pub body: Vec<u8>,
}

/// The response for a received status number and body; the number must be a status code.
pub fn simple_http_response(status: u16, body: Vec<u8>) -> (r: Result<SimpleHttpResponse, HttpToolError>)
    ensures
        (r is Ok) == (100 <= status < 1000),
        r matches Ok(resp) ==> resp.status == status && resp.body@ == body@,
        r matches Err(e) ==> e == HttpToolError::InvalidStatusCode,
{
    match status_code_from_u16(status) {
        Ok(code) => Ok(SimpleHttpResponse { status: code, body }),
        Err(_) => Err(HttpToolError::InvalidStatusCode),
    }
}

/// Why a message could not be received over HTTP.
#[derive(PartialEq, Eq, Structural, Clone, Copy, Debug)]
pub enum RecvMessageError {
    /// The iota-bridge answered with this status code, or with status 200 but no length.
    HttpStatus(u16),
    /// The response carries a number that is no HTTP status code.
    InvalidStatusCode,
}

/// The number of body bytes to read for a response of a receive request: the content length
/// of a response with status 200; any other response is an error that carries its status.
pub fn recv_message_body_length(status: u16, content_len: Option<usize>) -> (r: Result<usize, RecvMessageError>)
    ensures
        (status == 200 && content_len is Some) ==> r == Ok::<usize, RecvMessageError>(content_len->0),
        !(status == 200 && content_len is Some) ==> r == (if 100 <= status < 1000 {
            Err::<usize, RecvMessageError>(RecvMessageError::HttpStatus(status))
        } else {
            Err::<usize, RecvMessageError>(RecvMessageError::InvalidStatusCode)
        }),
{
    if status == 200 {
        if let Some(len) = content_len {
            return Ok(len);
        }
    }
    match status_code_from_u16(status) {
        Ok(code) => Err(RecvMessageError::HttpStatus(code)),
        Err(_) => Err(RecvMessageError::InvalidStatusCode),
    }
}

/// The body of a response while it is read from a stream: the bytes read so far and
/// whether the stream is exhausted.
pub struct StreamBuffer {
    buf: Vec<u8>,
    finished: bool,
}

impl View for StreamBuffer {
    type V = (Seq<u8>, bool);

    closed spec fn view(&self) -> (Seq<u8>, bool) {
        (self.buf@, self.finished)
    }
}

impl StreamBuffer {
    /// An empty body, not yet finished.
    pub fn new() -> (r: StreamBuffer)
        ensures
            r@ == (Seq::<u8>::empty(), false),
    {
        StreamBuffer { buf: Vec::new(), finished: false }
    }

    /// Takes the bytes of one read of at most one chunk. A read shorter than a chunk ends
    /// the body. Returns whether another read is needed.
    pub fn push_chunk(&mut self, chunk: &[u8]) -> (r: bool)
        requires
            !old(self)@.1,
            chunk@.len() <= READ_STREAM_SUB_BUFFER_CAPACITY_SIZE,
        ensures
            final(self)@.0 == old(self)@.0 + chunk@,
            r == (chunk@.len() == READ_STREAM_SUB_BUFFER_CAPACITY_SIZE),
            final(self)@.1 == !r,
    {
        let mut i: usize = 0;
        let ghost start = self.buf@;
        while i < chunk.len()
            invariant
                i <= chunk@.len(),
                self.buf@ == start + chunk@.subrange(0, i as int),
            decreases chunk@.len() - i,
        {
            self.buf.push(chunk[i]);
            i = i + 1;
            assert(self.buf@ =~= start + chunk@.subrange(0, i as int));
        }
        assert(chunk@.subrange(0, chunk@.len() as int) =~= chunk@);
        let more = chunk.len() == READ_STREAM_SUB_BUFFER_CAPACITY_SIZE;
        self.finished = !more;
        more
    }

    /// Whether the stream is exhausted.
    pub fn is_finished(&self) -> (r: bool)
        ensures
            r == self@.1,
    {
        self.finished
    }

    /// The whole body and its size.
    pub fn into_body(self) -> (r: (Vec<u8>, usize))
        ensures
            r.0@ == self@.0,
            r.1 == self@.0.len(),
    {
        let n = self.buf.len();
        (self.buf, n)
    }
}

/// The options of the socket transport of the ESP32 sensor: the URL of the iota-bridge.
pub struct StreamsTransportSocketEspRsOptions {
    pub http_url: String,
}

impl StreamsTransportSocketEspRsOptions {
    /// Options for the iota-bridge at `http_url`.
    pub fn new(http_url: &str) -> (r: StreamsTransportSocketEspRsOptions)
        ensures
            r.http_url@ == http_url@,
    {
        StreamsTransportSocketEspRsOptions { http_url: http_url.to_string() }
    }

    /// How the options are displayed.
    pub fn to_text(&self) -> (r: String)
        ensures
            r@ == "HttpClientOptions: http_url: "@ + self.http_url@,
    {
        "HttpClientOptions: http_url: ".to_string().concat(self.http_url.as_str())
    }
}

} // verus!
