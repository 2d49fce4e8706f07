use vstd::prelude::*;

use crate::client::{Collection, PocketBaseView, collection_path, is_request};
use crate::error::{
    ErrorKinds, RequestError, classify_failure, classify_status, status_error, transport_error,
};
use crate::http::{Exchange, HttpRequest, Method, RequestBody, is_success, opt_view};
use crate::json::{ErrorResponse, JsonValue, json_as_str, json_get};
use crate::session::AuthStore;
use crate::text::str_eq;

verus! {

/// The errors of authenticating with a password.
#[derive(Debug)]
pub enum AuthenticationError {
    /// The server answered 400 without naming a field: the credentials are wrong.
    InvalidCredentials,
    /// The identity and/or the password is blank.
    EmptyField {
        /// The identity is blank.
        identity: bool,
        /// The password is blank.
        password: bool,
    },
    /// The identity has to be an email address.
    IdentityMustBeEmail,
    /// The server could not be reached, or its answer could not be read.
    HttpError(String),
    /// The server answered with a status that authentication does not expect.
    UnexpectedResponse,
    /// No collection was named.
    MissingCollection,
}

/// The `code` text of the field `key` of an error's data.
pub open spec fn field_code(data: JsonValue, key: Seq<char>) -> Option<Seq<char>> {
    match json_get(data, key) {
        Some(field) => match json_get(field, "code"@) {
            Some(code) => json_as_str(code),
            None => None,
        },
        None => None,
    }
}

/// The field `key` of an error's data has the code `validation_required`: it is blank.
pub open spec fn is_required(data: JsonValue, key: Seq<char>) -> bool {
    field_code(data, key) == Some("validation_required"@)
}

/// The error that a 400 answer's data gives: an identity that must be an email has its
/// own error; blank fields (code `validation_required`) give the empty-field error with a
/// flag for each blank field; anything else, no data or no field named included, means
/// wrong credentials.
pub open spec fn auth_data_error(data: Option<JsonValue>) -> AuthenticationError {
    match data {
        None => AuthenticationError::InvalidCredentials,
        Some(d) => if field_code(d, "identity"@) == Some("validation_is_email"@) {
            AuthenticationError::IdentityMustBeEmail
        } else if is_required(d, "identity"@) || is_required(d, "password"@) {
            AuthenticationError::EmptyField {
                identity: is_required(d, "identity"@),
                password: is_required(d, "password"@),
            }
        } else {
            AuthenticationError::InvalidCredentials
        },
    }
}

/// The error of a 400 answer; a body that is not an error body counts as one without data.
pub open spec fn auth_bad_request_error(body: Option<ErrorResponse>) -> AuthenticationError {
    match body {
        Some(e) => auth_data_error(e.data),
        None => AuthenticationError::InvalidCredentials,
    }
}

/// The outcome of authenticating with a password: the session on a 2xx answer, the
/// error of the body on a 400 answer.
pub open spec fn auth_result(
    exchange: Exchange,
    auth_store: Result<AuthStore, String>,
    error_body: Option<ErrorResponse>,
) -> Result<AuthStore, AuthenticationError> {
    match exchange {
        Err(failure) => Err(AuthenticationError::HttpError(failure.message)),
        Ok(status) => if is_success(status.code) {
            match auth_store {
                Ok(s) => Ok(s),
                Err(m) => Err(AuthenticationError::HttpError(m)),
            }
        } else if status.code == 400 {
            Err(auth_bad_request_error(error_body))
        } else {
            Err(AuthenticationError::UnexpectedResponse)
        },
    }
}

/// The kinds of error that refreshing a session, or asking for a verification email,
/// reports.
pub open spec fn refresh_kinds() -> ErrorKinds {
    ErrorKinds { unauthorized: true, too_many_requests: false, unreachable: true }
}

/// The outcome of refreshing a session: the new session on a 2xx answer.
pub open spec fn refresh_result(exchange: Exchange, auth_store: Result<AuthStore, String>) -> Result<
    AuthStore,
    RequestError,
> {
    match exchange {
        Err(failure) => Err(transport_error(failure, refresh_kinds())),
        Ok(status) => if is_success(status.code) {
            match auth_store {
                Ok(s) => Ok(s),
                Err(_) => Err(RequestError::Unhandled),
            }
        } else {
            Err(status_error(status.code, refresh_kinds()))
        },
    }
}

/// The client after an authentication: the new session where it succeeded, unchanged
/// where it failed.
pub open spec fn after_auth<E>(c: PocketBaseView, r: Result<AuthStore, E>) -> PocketBaseView {
    match r {
        Ok(s) => PocketBaseView { base_url: c.base_url, auth_store: Some(s) },
        Err(_) => c,
    }
}

/// The outcome of a verification request.
pub open spec fn verification_result(exchange: Exchange, r: Result<(), RequestError>) -> bool {
    match exchange {
        Ok(status) => if status.code == 204 {
            r == Ok::<(), RequestError>(())
        } else if status.code == 400 {
            r matches Err(RequestError::BadRequest(m)) && m@.len() == 0
        } else if status.code == 404 {
            r == Err::<(), RequestError>(RequestError::NotFound)
        } else {
            r == Err::<(), RequestError>(RequestError::Unhandled)
        },
        Err(failure) => r == Err::<(), RequestError>(transport_error(failure, refresh_kinds())),
    }
}

fn field_code_of<'b>(data: &'b JsonValue, key: &str) -> (r: Option<&'b str>)
    ensures
        r matches Some(c) ==> field_code(*data, key@) == Some(c@),
        r is None ==> field_code(*data, key@) is None,
{
    match data.get(key) {
        Some(field) => match field.get("code") {
            Some(c) => c.as_str(),
            None => None,
        },
        None => None,
    }
}

fn has_code(code: Option<&str>, expected: &str) -> (r: bool)
    ensures
        r == (match code {
            Some(c) => c@ == expected@,
            None => false,
        }),
{
    match code {
        Some(c) => str_eq(c, expected),
        None => false,
    }
}

fn auth_data_error_of(data: &Option<JsonValue>) -> (r: AuthenticationError)
    ensures
        r == auth_data_error(*data),
{
    match data {
        None => AuthenticationError::InvalidCredentials,
        Some(d) => {
            let identity = field_code_of(d, "identity");
            let password = field_code_of(d, "password");
            if has_code(identity, "validation_is_email") {
                return AuthenticationError::IdentityMustBeEmail;
            }
            let identity_required = has_code(identity, "validation_required");
            let password_required = has_code(password, "validation_required");
            if identity_required || password_required {
                AuthenticationError::EmptyField {
                    identity: identity_required,
                    password: password_required,
                }
            } else {
                AuthenticationError::InvalidCredentials
            }
        },
    }
}

/// The error of a 400 answer to an authentication with a password.
pub fn auth_bad_request(error_body: &Option<ErrorResponse>) -> (r: AuthenticationError)
    ensures
        r == auth_bad_request_error(*error_body),
{
    match error_body {
        Some(e) => auth_data_error_of(&e.data),
        None => AuthenticationError::InvalidCredentials,
    }
}

fn refresh_outcome(exchange: Exchange, auth_store: Result<AuthStore, String>) -> (r: Result<
    AuthStore,
    RequestError,
>)
    ensures
        r == refresh_result(exchange, auth_store),
{
    let kinds = ErrorKinds { unauthorized: true, too_many_requests: false, unreachable: true };
    match exchange {
        Err(failure) => Err(classify_failure(&failure, kinds)),
        Ok(status) => if 200 <= status.code && status.code < 300 {
            match auth_store {
                Ok(s) => Ok(s),
                Err(_) => Err(RequestError::Unhandled),
            }
        } else {
            Err(classify_status(status.code, kinds))
        },
    }
}

impl<'a> Collection<'a> {
    /// The request that authenticates with `identity` and `password`.
    pub fn auth_with_password_request(&self, identity: &str, password: &str) -> (r: HttpRequest)
        ensures
            is_request(
                r,
                Method::Post,
                collection_path(self.spec_client().base_url, self.spec_name(), "/auth-with-password"@),
                seq![],
                self.spec_client(),
            ),
            r.body matches RequestBody::Credentials { identity: i, password: p } && i@ == identity@
                && p@ == password@,
    {
        let url = self.url("/auth-with-password");
        let body = RequestBody::Credentials {
            identity: identity.to_owned(),
            password: password.to_owned(),
        };
        self.client().request_post(url, body)
    }

    /// Completes an authentication with a password from the server's answer: the status,
    /// the body read as a session, and the body read as an error body. On success the
    /// session replaces the client's.
    pub fn auth_with_password_outcome(
        &mut self,
        exchange: Exchange,
        auth_store: Result<AuthStore, String>,
        error_body: Option<ErrorResponse>,
    ) -> (r: Result<AuthStore, AuthenticationError>)
        ensures
            r == auth_result(exchange, auth_store, error_body),
            final(self).spec_name() == old(self).spec_name(),
            final(self).spec_client() == after_auth(old(self).spec_client(), r),
            *final(final(self).client) == *final(old(self).client),
    {
        match exchange {
            Err(failure) => Err(AuthenticationError::HttpError(failure.message)),
            Ok(status) => if 200 <= status.code && status.code < 300 {
                match auth_store {
                    Ok(s) => {
                        self.store_session(s.clone());
                        Ok(s)
                    },
                    Err(m) => Err(AuthenticationError::HttpError(m)),
                }
            } else if status.code == 400 {
                Err(auth_bad_request(&error_body))
            } else {
                Err(AuthenticationError::UnexpectedResponse)
            },
        }
    }

    /// The request that refreshes the client's session; it carries the session's token.
    pub fn auth_refresh_request(&self) -> (r: HttpRequest)
        ensures
            is_request(
                r,
                Method::Post,
                collection_path(self.spec_client().base_url, self.spec_name(), "/auth-refresh"@),
                seq![],
                self.spec_client(),
            ),
            r.body == RequestBody::Empty,
    {
        let url = self.url("/auth-refresh");
        self.client().request_post(url, RequestBody::Empty)
    }

    /// Completes a refresh of the client's session from the server's answer. On success
    /// the new session replaces the client's.
    pub fn auth_refresh_outcome(&mut self, exchange: Exchange, auth_store: Result<AuthStore, String>) -> (r:
        Result<AuthStore, RequestError>)
        ensures
            r == refresh_result(exchange, auth_store),
            final(self).spec_name() == old(self).spec_name(),
            final(self).spec_client() == after_auth(old(self).spec_client(), r),
            *final(final(self).client) == *final(old(self).client),
    {
        let r = refresh_outcome(exchange, auth_store);
        match &r {
            Ok(s) => self.store_session(s.clone()),
            Err(_) => {},
        }
        r
    }

    /// The request that refreshes the session of the user whose token is `user_token`;
    /// it carries that token, not the client's.
    pub fn auth_refresh_for_user_request(&self, user_token: &str) -> (r: HttpRequest)
        ensures
            r.method == Method::Post,
            r.url@ == collection_path(self.spec_client().base_url, self.spec_name(), "/auth-refresh"@),
            r.query@.len() == 0,
            !r.accept_json,
            opt_view(r.bearer) == Some(user_token@),
            r.body == RequestBody::Empty,
    {
        let url = self.url("/auth-refresh");
        HttpRequest {
            method: Method::Post,
            url,
            query: Vec::new(),
            accept_json: false,
            bearer: Some(user_token.to_owned()),
            body: RequestBody::Empty,
        }
    }

    /// Completes a refresh for another user from the server's answer. The client's own
    /// session is left as it is.
    pub fn auth_refresh_for_user_outcome(
        &self,
        exchange: Exchange,
        auth_store: Result<AuthStore, String>,
    ) -> (r: Result<AuthStore, RequestError>)
        ensures
            r == refresh_result(exchange, auth_store),
    {
        refresh_outcome(exchange, auth_store)
    }

    /// The request that asks the server to send a verification email to `email`.
    pub fn request_verification_request(&self, email: &str) -> (r: HttpRequest)
        ensures
            is_request(
                r,
                Method::Post,
                collection_path(
                    self.spec_client().base_url,
                    self.spec_name(),
                    "/request-verification"@,
                ),
                seq![],
                self.spec_client(),
            ),
            r.body matches RequestBody::Verification { email: e } && e@ == email@,
    {
        let url = self.url("/request-verification");
        self.client().request_post(url, RequestBody::Verification { email: email.to_owned() })
    }

    /// Completes a verification request from the server's answer; 204 is success.
    pub fn request_verification_outcome(&self, exchange: Exchange) -> (r: Result<(), RequestError>)
        ensures
            verification_result(exchange, r),
    {
        match exchange {
            Ok(status) => if status.code == 204 {
                Ok(())
            } else if status.code == 400 {
                Err(RequestError::BadRequest(String::new()))
            } else if status.code == 404 {
                Err(RequestError::NotFound)
            } else {
                Err(RequestError::Unhandled)
            },
            Err(failure) => Err(
                classify_failure(
                    &failure,
                    ErrorKinds { unauthorized: true, too_many_requests: false, unreachable: true },
                ),
            ),
        }
    }
}

} // verus!
