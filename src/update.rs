use vstd::prelude::*;
use vstd::string::StringExecFns;

use crate::client::{Collection, collection_path, is_request};
use crate::error::{BadRequestError, BadRequestResponse, bad_request_errors, errors_of};
use crate::http::{Exchange, HttpRequest, Method, RequestBody, is_success};

verus! {

/// The errors of updating a record.
#[derive(Debug)]
pub enum UpdateError {
    /// The server answered 400; these are the fields it rejected.
    BadRequest(Vec<BadRequestError>),
    /// The server answered 403: the request is not allowed.
    Forbidden,
    /// The server answered 404: the collection was not found.
    NotFound,
    /// The server could not be reached.
    Unreachable(String),
    /// The answer does not have the expected shape.
    ParseError(String),
    /// The server answered with an unexpected status.
    UnexpectedResponse(String),
}

/// What the server returns about a record it updated.
#[derive(Debug)]
pub struct UpdateResponse {
    pub collection_name: String,
    pub collection_id: String,
    pub id: String,
    pub updated: String,
    pub created: String,
}

/// The outcome of an update: the record's metadata on a 2xx answer, the rejected fields
/// on a 400 answer.
pub open spec fn update_result(
    exchange: Exchange,
    updated: Result<UpdateResponse, String>,
    bad: Result<BadRequestResponse, String>,
    r: Result<UpdateResponse, UpdateError>,
) -> bool {
    match exchange {
        Err(failure) => r matches Err(UpdateError::Unreachable(m)) && m == failure.message,
        Ok(status) => if is_success(status.code) {
            match updated {
                Ok(c) => r matches Ok(x) && x == c,
                Err(m) => r matches Err(UpdateError::ParseError(x)) && x == m,
            }
        } else if status.code == 400 {
            match bad {
                Ok(b) => r matches Err(UpdateError::BadRequest(errors)) && errors_of(errors@, b.data@),
                Err(m) => r matches Err(UpdateError::ParseError(x)) && x == m,
            }
        } else if status.code == 403 {
            r matches Err(UpdateError::Forbidden)
        } else if status.code == 404 {
            r matches Err(UpdateError::NotFound)
        } else {
            r matches Err(UpdateError::UnexpectedResponse(m)) && m == status.text
        },
    }
}

/// Completes an update from the server's answer: the status, the body read as the
/// updated record's metadata, and the body read as a 400 error body.
pub fn update_processing(
    exchange: Exchange,
    updated: Result<UpdateResponse, String>,
    bad: Result<BadRequestResponse, String>,
) -> (r: Result<UpdateResponse, UpdateError>)
    ensures
        update_result(exchange, updated, bad, r),
{
    match exchange {
        Err(failure) => Err(UpdateError::Unreachable(failure.message)),
        Ok(status) => if 200 <= status.code && status.code < 300 {
            match updated {
                Ok(c) => Ok(c),
                Err(m) => Err(UpdateError::ParseError(m)),
            }
        } else if status.code == 400 {
            match bad {
                Ok(b) => Err(UpdateError::BadRequest(bad_request_errors(&b))),
                Err(m) => Err(UpdateError::ParseError(m)),
            }
        } else if status.code == 403 {
            Err(UpdateError::Forbidden)
        } else if status.code == 404 {
            Err(UpdateError::NotFound)
        } else {
            Err(UpdateError::UnexpectedResponse(status.text))
        },
    }
}

impl<'a> Collection<'a> {
    /// The request that updates the record `record_id` from the caller's record, sent
    /// as JSON.
    pub fn update_request(&self, record_id: &str) -> (r: HttpRequest)
        ensures
            is_request(
                r,
                Method::Patch,
                collection_path(self.spec_client().base_url, self.spec_name(), "/records/"@)
                    + record_id@,
                seq![],
                self.spec_client(),
            ),
            r.body == RequestBody::Record,
    {
        let mut url = self.url("/records/");
        url.append(record_id);
        self.client().request_patch(url, RequestBody::Record)
    }
}

} // verus!
