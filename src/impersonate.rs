use vstd::prelude::*;
use vstd::string::StringExecFns;

use crate::client::{Collection, PocketBase, PocketBaseView, collection_path, is_request};
use crate::decimal::{decimal, decimal_string};
use crate::http::{Exchange, HttpRequest, Method, RequestBody, is_success};
use crate::session::AuthStore;

verus! {

/// The errors of an impersonation.
#[derive(Debug)]
pub enum ImpersonateError {
    /// The server answered 400: the request needs a valid authorization token.
    BadRequest,
    /// The server answered 401: the request needs a valid authorization token.
    Unauthorized,
    /// The server answered 403: only superusers may impersonate.
    Forbidden,
    /// The server answered 404: the user id is probably wrong.
    NotFound,
    /// The server could not be reached.
    Unreachable(String),
    /// The server answered with an unexpected status, or a body that is not a session.
    UnexpectedResponse(String),
}

/// The outcome of an impersonation made through client `c`: a new client for the same
/// server whose session is the one received, on a 2xx answer.
pub open spec fn impersonate_result(
    exchange: Exchange,
    auth_store: Result<AuthStore, String>,
    c: PocketBaseView,
    r: Result<PocketBase, ImpersonateError>,
) -> bool {
    match exchange {
        Err(failure) => r matches Err(ImpersonateError::Unreachable(m)) && m == failure.message,
        Ok(status) => if is_success(status.code) {
            match auth_store {
                Ok(s) => r matches Ok(p) && p@ == (PocketBaseView {
                    base_url: c.base_url,
                    auth_store: Some(s),
                }),
                Err(_) => r matches Err(ImpersonateError::UnexpectedResponse(m)) && m@
                    == "Couldn't parse API response into Auth Data"@,
            }
        } else if status.code == 400 {
            r == Err::<PocketBase, ImpersonateError>(ImpersonateError::BadRequest)
        } else if status.code == 401 {
            r == Err::<PocketBase, ImpersonateError>(ImpersonateError::Unauthorized)
        } else if status.code == 403 {
            r == Err::<PocketBase, ImpersonateError>(ImpersonateError::Forbidden)
        } else if status.code == 404 {
            r == Err::<PocketBase, ImpersonateError>(ImpersonateError::NotFound)
        } else {
            r matches Err(ImpersonateError::UnexpectedResponse(m)) && m == status.text
        },
    }
}

/// An impersonation of one user, being configured.
pub struct CollectionImpersonateBuilder<'a> {
    client: &'a PocketBase,
    collection_name: &'a str,
    user_id: &'a str,
    duration: Option<String>,
}

impl<'a> Collection<'a> {
    /// Starts an impersonation of the user `user_id`, with the collection's default
    /// token duration.
    pub fn impersonate(self, user_id: &'a str) -> (r: CollectionImpersonateBuilder<'a>)
        ensures
            r.spec_client() == self.spec_client(),
            r.spec_name() == self.spec_name(),
            r.spec_user_id() == user_id@,
            *final(self.client) == *old(self.client),
            r.spec_duration() is None,
    {
        let (client, collection_name) = self.into_parts();
        CollectionImpersonateBuilder { client, collection_name, user_id, duration: None }
    }
}

impl<'a> CollectionImpersonateBuilder<'a> {
    /// The client that impersonates.
    pub closed spec fn spec_client(&self) -> PocketBaseView {
        self.client@
    }

    /// The collection of the impersonated user.
    pub closed spec fn spec_name(&self) -> Seq<char> {
        self.collection_name@
    }

    /// The id of the impersonated user.
    pub closed spec fn spec_user_id(&self) -> Seq<char> {
        self.user_id@
    }

    /// The token duration to ask for, in decimal seconds, if one was set.
    pub closed spec fn spec_duration(&self) -> Option<Seq<char>> {
        match self.duration {
            Some(d) => Some(d@),
            None => None,
        }
    }

    /// Asks for a token that lasts `duration` seconds.
    pub fn duration(self, duration: u128) -> (r: Self)
        ensures
            r.spec_client() == self.spec_client(),
            r.spec_name() == self.spec_name(),
            r.spec_user_id() == self.spec_user_id(),
            r.spec_duration() == Some(decimal(duration as nat)),
    {
        CollectionImpersonateBuilder { duration: Some(decimal_string(duration)), ..self }
    }

    /// The impersonation request: a `POST` that carries the duration as a form field
    /// where one was set.
    pub fn request(&self) -> (r: HttpRequest)
        ensures
            is_request(
                r,
                Method::Post,
                collection_path(self.spec_client().base_url, self.spec_name(), "/impersonate/"@)
                    + self.spec_user_id(),
                seq![],
                self.spec_client(),
            ),
            match self.spec_duration() {
                Some(d) => r.body matches RequestBody::DurationForm { duration } && duration@ == d,
                None => r.body == RequestBody::Empty,
            },
    {
        let mut url = crate::client::collection_url(self.client, self.collection_name, "/impersonate/");
        url.append(self.user_id);
        match &self.duration {
            Some(d) => self.client.request_post(url, RequestBody::DurationForm { duration: d.clone() }),
            None => self.client.request_post(url, RequestBody::Empty),
        }
    }

    /// Completes the impersonation from the server's answer: the status and the body read
    /// as a session. The impersonating client is left as it is.
    pub fn outcome(&self, exchange: Exchange, auth_store: Result<AuthStore, String>) -> (r: Result<
        PocketBase,
        ImpersonateError,
    >)
        ensures
            impersonate_result(exchange, auth_store, self.spec_client(), r),
    {
        match exchange {
            Err(failure) => Err(ImpersonateError::Unreachable(failure.message)),
            Ok(status) => if 200 <= status.code && status.code < 300 {
                match auth_store {
                    Ok(s) => Ok(self.client.with_session(s)),
                    Err(_) => Err(
                        ImpersonateError::UnexpectedResponse(
                            String::from_str("Couldn't parse API response into Auth Data"),
                        ),
                    ),
                }
            } else if status.code == 400 {
                Err(ImpersonateError::BadRequest)
            } else if status.code == 401 {
                Err(ImpersonateError::Unauthorized)
            } else if status.code == 403 {
                Err(ImpersonateError::Forbidden)
            } else if status.code == 404 {
                Err(ImpersonateError::NotFound)
            } else {
                Err(ImpersonateError::UnexpectedResponse(status.text))
            },
        }
    }
}

} // verus!
