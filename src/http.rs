use vstd::prelude::*;

verus! {

/// The HTTP method of a request.
#[derive(Clone, Copy, Debug, PartialEq, Eq, Structural)]
pub enum Method {
    Get,
    Post,
    Patch,
    Delete,
}

/// What a request carries in its body.
#[derive(Debug)]
pub enum RequestBody {
    /// No body.
    Empty,
    /// The caller's record, sent as JSON.
    Record,
    /// The caller's multipart form.
    Multipart,
    /// The JSON object `{identity, password}`.
    Credentials { identity: String, password: String },
    /// The JSON object `{email}`.
    Verification { email: String },
    /// A multipart form with the single text field `duration`.
    DurationForm { duration: String },
}

/// A request to the server, fully composed: the transport only has to send it.
#[derive(Debug)]
pub struct HttpRequest {
    pub method: Method,
    pub url: String,
    /// Query parameters, in the order in which they are appended to the URL.
    pub query: Vec<(String, String)>,
    /// Whether an `Accept: application/json` header is sent.
    pub accept_json: bool,
    /// The token sent as `Authorization: Bearer <token>`, if any.
    pub bearer: Option<String>,
    pub body: RequestBody,
}

/// Why a request got no HTTP response.
#[derive(Debug)]
pub struct TransportFailure {
    /// The status that the transport error carries, if any.
    pub status: Option<u16>,
    /// The request timed out.
    pub is_timeout: bool,
    /// The connection could not be established.
    pub is_connect: bool,
    /// A description of the failure.
    pub message: String,
}

/// The status line of an HTTP response.
#[derive(Debug)]
pub struct HttpStatus {
    pub code: u16,
    /// The status as text, such as `404 Not Found`.
    pub text: String,
}

/// The outcome of sending a request: a response status, or a transport failure.
pub type Exchange = Result<HttpStatus, TransportFailure>;

/// The values of a sequence of string pairs.
pub open spec fn pairs_view(q: Seq<(String, String)>) -> Seq<(Seq<char>, Seq<char>)> {
    q.map_values(|p: (String, String)| (p.0@, p.1@))
}

/// The text of an optional string.
pub open spec fn opt_view(s: Option<String>) -> Option<Seq<char>> {
    match s {
        Some(t) => Some(t@),
        None => None,
    }
}

/// A 2xx status.
pub open spec fn is_success(code: u16) -> bool {
    200 <= code < 300
}

} // verus!
