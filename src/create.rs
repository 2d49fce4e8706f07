use vstd::prelude::*;

use crate::client::{Collection, collection_path, is_request};
use crate::error::{BadRequestError, BadRequestResponse, bad_request_errors, errors_of};
use crate::http::{Exchange, HttpRequest, Method, RequestBody, is_success};

verus! {

/// The errors of creating a record.
#[derive(Debug)]
pub enum CreateError {
    /// The server answered 400; these are the fields it rejected.
    BadRequest(Vec<BadRequestError>),
    /// The server answered 403: the request is not allowed.
    Forbidden,
    /// The server answered 404: the collection was not found.
    NotFound,
    /// The server could not be reached.
    Unreachable(String),
    /// The answer does not have the expected shape.
    ParseError(String),
    /// The server answered with an unexpected status.
    UnexpectedResponse(String),
}

/// What the server returns about a record it created.
#[derive(Debug)]
pub struct CreateResponse {
    pub collection_name: String,
    pub collection_id: String,
    pub id: String,
    pub updated: String,
    pub created: String,
}

/// The outcome of a creation: the record's metadata on a 2xx answer, the rejected fields
/// on a 400 answer.
pub open spec fn create_result(
    exchange: Exchange,
    created: Result<CreateResponse, String>,
    bad: Result<BadRequestResponse, String>,
    r: Result<CreateResponse, CreateError>,
) -> bool {
    match exchange {
        Err(failure) => r matches Err(CreateError::Unreachable(m)) && m == failure.message,
        Ok(status) => if is_success(status.code) {
            match created {
                Ok(c) => r matches Ok(x) && x == c,
                Err(m) => r matches Err(CreateError::ParseError(x)) && x == m,
            }
        } else if status.code == 400 {
            match bad {
                Ok(b) => r matches Err(CreateError::BadRequest(errors)) && errors_of(errors@, b.data@),
                Err(m) => r matches Err(CreateError::ParseError(x)) && x == m,
            }
        } else if status.code == 403 {
            r matches Err(CreateError::Forbidden)
        } else if status.code == 404 {
            r matches Err(CreateError::NotFound)
        } else {
            r matches Err(CreateError::UnexpectedResponse(m)) && m == status.text
        },
    }
}

/// Completes a creation from the server's answer: the status, the body read as the
/// created record's metadata, and the body read as a 400 error body.
pub fn create_processing(
    exchange: Exchange,
    created: Result<CreateResponse, String>,
    bad: Result<BadRequestResponse, String>,
) -> (r: Result<CreateResponse, CreateError>)
    ensures
        create_result(exchange, created, bad, r),
{
    match exchange {
        Err(failure) => Err(CreateError::Unreachable(failure.message)),
        Ok(status) => if 200 <= status.code && status.code < 300 {
            match created {
                Ok(c) => Ok(c),
                Err(m) => Err(CreateError::ParseError(m)),
            }
        } else if status.code == 400 {
            match bad {
                Ok(b) => Err(CreateError::BadRequest(bad_request_errors(&b))),
                Err(m) => Err(CreateError::ParseError(m)),
            }
        } else if status.code == 403 {
            Err(CreateError::Forbidden)
        } else if status.code == 404 {
            Err(CreateError::NotFound)
        } else {
            Err(CreateError::UnexpectedResponse(status.text))
        },
    }
}

impl<'a> Collection<'a> {
    /// The request that creates a record from the caller's record, sent as JSON.
    pub fn create_request(&self) -> (r: HttpRequest)
        ensures
            is_request(
                r,
                Method::Post,
                collection_path(self.spec_client().base_url, self.spec_name(), "/records"@),
                seq![],
                self.spec_client(),
            ),
            r.body == RequestBody::Record,
    {
        let url = self.url("/records");
        self.client().request_post(url, RequestBody::Record)
    }

    /// The request that creates a record from the caller's multipart form.
    pub fn create_multipart_request(&self) -> (r: HttpRequest)
        ensures
            is_request(
                r,
                Method::Post,
                collection_path(self.spec_client().base_url, self.spec_name(), "/records"@),
                seq![],
                self.spec_client(),
            ),
            r.body == RequestBody::Multipart,
    {
        let url = self.url("/records");
        self.client().request_post(url, RequestBody::Multipart)
    }
}

} // verus!
