use vstd::prelude::*;
use vstd::string::{StrSliceExecFns, StringExecFns};

use crate::client::{Collection, collection_path, is_request};
use crate::http::{Exchange, HttpRequest, Method, RequestBody};

verus! {

/// The errors of deleting a record.
#[derive(Debug)]
pub enum DeleteError {
    /// The record id is empty, or the server answered 400: the record may be part of a
    /// required relation.
    BadRequest,
    /// The server answered 403: the request is not allowed.
    Forbidden,
    /// The server answered 404: the record was not found.
    NotFound,
    /// The server could not be reached.
    Unreachable(String),
    /// The server answered with an unexpected status.
    UnexpectedResponse(String),
}

/// The description of an unexpected answer to a deletion.
pub open spec fn unexpected_delete_text(status: Seq<char>, name: Seq<char>, id: Seq<char>) -> Seq<
    char,
> {
    "Status: "@ + status + ", Collection: "@ + name + ", Record: "@ + id
}

/// The outcome of deleting the record `id` of the collection `name`.
pub open spec fn delete_result(
    exchange: Exchange,
    name: Seq<char>,
    id: Seq<char>,
    r: Result<(), DeleteError>,
) -> bool {
    match exchange {
        Ok(status) => if status.code == 204 || status.code == 200 {
            r is Ok
        } else if status.code == 400 {
            r matches Err(DeleteError::BadRequest)
        } else if status.code == 403 {
            r matches Err(DeleteError::Forbidden)
        } else if status.code == 404 {
            r matches Err(DeleteError::NotFound)
        } else {
            r matches Err(DeleteError::UnexpectedResponse(m)) && m@ == unexpected_delete_text(
                status.text@,
                name,
                id,
            )
        },
        Err(failure) => if failure.is_timeout {
            r matches Err(DeleteError::Unreachable(m)) && m@ == "Request timed out"@
        } else if failure.is_connect {
            r matches Err(DeleteError::Unreachable(m)) && m@ == "Failed to connect to server"@
        } else {
            r matches Err(DeleteError::Unreachable(m)) && m == failure.message
        },
    }
}

impl<'a> Collection<'a> {
    /// The request that deletes the record `record_id`; an empty id is refused before
    /// any request is made.
    pub fn delete_request(&self, record_id: &str) -> (r: Result<HttpRequest, DeleteError>)
        ensures
            r is Err <==> record_id@.len() == 0,
            r matches Err(e) ==> e == DeleteError::BadRequest,
            r matches Ok(req) ==> is_request(
                req,
                Method::Delete,
                collection_path(self.spec_client().base_url, self.spec_name(), "/records/"@)
                    + record_id@,
                seq![],
                self.spec_client(),
            ) && req.body == RequestBody::Empty,
    {
        if record_id.unicode_len() == 0 {
            return Err(DeleteError::BadRequest);
        }
        let mut url = self.url("/records/");
        url.append(record_id);
        Ok(self.client().request_delete(url))
    }

    /// Completes the deletion of the record `record_id` from the server's answer.
    pub fn delete_outcome(&self, record_id: &str, exchange: Exchange) -> (r: Result<(), DeleteError>)
        ensures
            delete_result(exchange, self.spec_name(), record_id@, r),
    {
        match exchange {
            Ok(status) => if status.code == 204 || status.code == 200 {
                Ok(())
            } else if status.code == 400 {
                Err(DeleteError::BadRequest)
            } else if status.code == 403 {
                Err(DeleteError::Forbidden)
            } else if status.code == 404 {
                Err(DeleteError::NotFound)
            } else {
                let mut m = String::from_str("Status: ");
                m.append(status.text.as_str());
                m.append(", Collection: ");
                m.append(self.name());
                m.append(", Record: ");
                m.append(record_id);
                Err(DeleteError::UnexpectedResponse(m))
            },
            Err(failure) => if failure.is_timeout {
                Err(DeleteError::Unreachable(String::from_str("Request timed out")))
            } else if failure.is_connect {
                Err(DeleteError::Unreachable(String::from_str("Failed to connect to server")))
            } else {
                Err(DeleteError::Unreachable(failure.message))
            },
        }
    }
}

} // verus!
