use vstd::prelude::*;
use vstd::string::StringExecFns;

use crate::http::{Exchange, TransportFailure, is_success};
use crate::text::str_eq;

verus! {

/// One of the fields named in a 400 error body: its error code and a message.
#[derive(Debug)]
pub struct BadRequestField {
    /// Error code, such as `validation_required`.
    pub code: String,
    /// A readable explanation of the error.
    pub message: String,
}

/// The error body that the server returns with a 400 status.
#[derive(Debug)]
pub struct BadRequestResponse {
    /// HTTP status code.
    pub status: u16,
    /// The server's description of why the error happened.
    pub message: String,
    /// The fields that caused the error, each under its name.
    pub data: Vec<(String, BadRequestField)>,
}

/// No two fields have the same name.
pub open spec fn names_distinct(data: Seq<(String, BadRequestField)>) -> bool {
    forall|i: int, j: int|
        0 <= i < data.len() && 0 <= j < data.len() && i != j ==> (#[trigger] data[i]).0@
            != (#[trigger] data[j]).0@
}

impl BadRequestResponse {
    /// A well-formed error body names each field once, as the JSON object it comes from
    /// does.
    pub open spec fn wf(&self) -> bool {
        names_distinct(self.data@)
    }

    /// Whether the body names each field once.
    pub fn is_well_formed(&self) -> (r: bool)
        ensures
            r == self.wf(),
    {
        let n = self.data.len();
        let mut i: usize = 0;
        while i < n
            invariant
                n == self.data@.len(),
                i <= n,
                forall|a: int, b: int|
                    0 <= a < i && 0 <= b < n && a != b ==> (#[trigger] self.data@[a]).0@
                        != (#[trigger] self.data@[b]).0@,
            decreases n - i,
        {
            let mut j: usize = 0;
            while j < n
                invariant
                    n == self.data@.len(),
                    i < n,
                    j <= n,
                    forall|a: int, b: int|
                        0 <= a < i && 0 <= b < n && a != b ==> (#[trigger] self.data@[a]).0@
                            != (#[trigger] self.data@[b]).0@,
                    forall|b: int|
                        0 <= b < j && b != i ==> self.data@[i as int].0@ != (#[trigger] self.data@[b]).0@,
                decreases n - j,
            {
                if j != i && str_eq(self.data[i].0.as_str(), self.data[j].0.as_str()) {
                    assert(!names_distinct(self.data@)) by {
                        assert(self.data@[i as int].0@ == self.data@[j as int].0@);
                    }
                    return false;
                }
                j += 1;
            }
            i += 1;
        }
        true
    }
}

/// One validation error of a bad request: the field's name, the code and the message.
#[derive(Debug)]
pub struct BadRequestError {
    /// Name of the field.
    pub name: String,
    /// Error code.
    pub code: String,
    /// More details about the error.
    pub message: String,
}

/// The text `name: code message`.
pub open spec fn bad_request_error_text(e: BadRequestError) -> Seq<char> {
    e.name@ + ": "@ + e.code@ + " "@ + e.message@
}

impl BadRequestError {
    /// The error as text: `name: code message`.
    pub fn to_string(&self) -> (r: String)
        ensures
            r@ == bad_request_error_text(*self),
    {
        let mut r = self.name.clone();
        r.append(": ");
        r.append(self.code.as_str());
        r.append(" ");
        r.append(self.message.as_str());
        r
    }
}

/// `errors` lists the fields of `data`, in order, each with its name, code and message.
pub open spec fn errors_of(errors: Seq<BadRequestError>, data: Seq<(String, BadRequestField)>) -> bool {
    &&& errors.len() == data.len()
    &&& forall|i: int|
        0 <= i < data.len() ==> (#[trigger] errors[i]).name == data[i].0 && errors[i].code
            == data[i].1.code && errors[i].message == data[i].1.message
}

/// The validation errors of a 400 error body, one for each field it names.
pub fn bad_request_errors(response: &BadRequestResponse) -> (r: Vec<BadRequestError>)
    ensures
        errors_of(r@, response.data@),
        response.wf() ==> forall|i: int, j: int|
            0 <= i < r@.len() && 0 <= j < r@.len() && i != j ==> (#[trigger] r@[i]).name@
                != (#[trigger] r@[j]).name@,
{
    let mut errors: Vec<BadRequestError> = Vec::new();
    let mut i: usize = 0;
    while i < response.data.len()
        invariant
            i <= response.data@.len(),
            errors_of(errors@, response.data@.subrange(0, i as int)),
        decreases response.data@.len() - i,
    {
        let (name, field) = &response.data[i];
        errors.push(
            BadRequestError {
                name: name.clone(),
                code: field.code.clone(),
                message: field.message.clone(),
            },
        );
        i += 1;
    }
    assert(response.data@.subrange(0, i as int) =~= response.data@);
    errors
}

/// The errors of a request to the server.
#[derive(Debug)]
pub enum RequestError {
    /// The server answered 400 Bad Request.
    BadRequest(String),
    /// The server answered 401 Unauthorized: the request may need a token.
    Unauthorized,
    /// The server answered 403 Forbidden: the user may lack the permission.
    Forbidden,
    /// The server answered 404 Not Found.
    NotFound,
    /// The response does not have the expected shape.
    ParseError(String),
    /// The server could not be reached, or did not answer in time.
    Unreachable,
    /// The server answered 429 Too Many Requests.
    TooManyRequests,
    /// Anything else.
    Unhandled,
}

/// Which of the optional error kinds an operation reports; the others fall to `Unhandled`.
/// Forbidden (403) and not found (404) are reported by every operation.
#[derive(Clone, Copy)]
pub struct ErrorKinds {
    /// 401 gives `Unauthorized`.
    pub unauthorized: bool,
    /// 429 gives `TooManyRequests`.
    pub too_many_requests: bool,
    /// A request that got no response gives `Unreachable`; without this kind, the status
    /// that the transport failure carries decides.
    pub unreachable: bool,
}

/// The error for an error status, under the operation's kinds.
pub open spec fn status_error(code: u16, kinds: ErrorKinds) -> RequestError {
    if code == 401 && kinds.unauthorized {
        RequestError::Unauthorized
    } else if code == 403 {
        RequestError::Forbidden
    } else if code == 404 {
        RequestError::NotFound
    } else if code == 429 && kinds.too_many_requests {
        RequestError::TooManyRequests
    } else {
        RequestError::Unhandled
    }
}

/// The error for a request that got no response, under the operation's kinds.
pub open spec fn transport_error(failure: TransportFailure, kinds: ErrorKinds) -> RequestError {
    if kinds.unreachable {
        RequestError::Unreachable
    } else {
        match failure.status {
            Some(code) => status_error(code, kinds),
            None => RequestError::Unhandled,
        }
    }
}

/// The outcome of a read: the decoded body on a 2xx answer, or the parse error where the
/// body did not decode; the error of the status or of the transport failure otherwise.
pub open spec fn read_result<T>(
    exchange: Exchange,
    decoded: Result<T, String>,
    kinds: ErrorKinds,
) -> Result<T, RequestError> {
    match exchange {
        Err(failure) => Err(transport_error(failure, kinds)),
        Ok(status) => if is_success(status.code) {
            match decoded {
                Ok(v) => Ok(v),
                Err(m) => Err(RequestError::ParseError(m)),
            }
        } else {
            Err(status_error(status.code, kinds))
        },
    }
}

/// The error for an error status.
pub fn classify_status(code: u16, kinds: ErrorKinds) -> (r: RequestError)
    ensures
        r == status_error(code, kinds),
{
    if code == 401 && kinds.unauthorized {
        RequestError::Unauthorized
    } else if code == 403 {
        RequestError::Forbidden
    } else if code == 404 {
        RequestError::NotFound
    } else if code == 429 && kinds.too_many_requests {
        RequestError::TooManyRequests
    } else {
        RequestError::Unhandled
    }
}

/// The error for a request that got no response.
pub fn classify_failure(failure: &TransportFailure, kinds: ErrorKinds) -> (r: RequestError)
    ensures
        r == transport_error(*failure, kinds),
{
    if kinds.unreachable {
        RequestError::Unreachable
    } else {
        match failure.status {
            Some(code) => classify_status(code, kinds),
            None => RequestError::Unhandled,
        }
    }
}

/// Classifies the outcome of a read and hands back the decoded body where it succeeded.
pub fn read_outcome<T>(exchange: Exchange, decoded: Result<T, String>, kinds: ErrorKinds) -> (r:
    Result<T, RequestError>)
    ensures
        r == read_result(exchange, decoded, kinds),
{
    match exchange {
        Err(failure) => Err(classify_failure(&failure, kinds)),
        Ok(status) => if 200 <= status.code && status.code < 300 {
            match decoded {
                Ok(v) => Ok(v),
                Err(m) => Err(RequestError::ParseError(m)),
            }
        } else {
            Err(classify_status(status.code, kinds))
        },
    }
}

} // verus!
