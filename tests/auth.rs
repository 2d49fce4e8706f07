use pocketbase_rs::{
    AuthStore, AuthStoreRecord, AuthenticationError, ErrorResponse, HttpStatus, JsonValue,
    Method, PocketBase, RequestBody, RequestError, TransportFailure,
};

fn status(code: u16, text: &str) -> Result<HttpStatus, TransportFailure> {
    Ok(HttpStatus { code, text: text.to_string() })
}

fn failure(message: &str) -> Result<HttpStatus, TransportFailure> {
    Err(TransportFailure {
        status: None,
        is_timeout: false,
        is_connect: true,
        message: message.to_string(),
    })
}

fn store(token: &str) -> AuthStore {
    AuthStore {
        record: AuthStoreRecord {
            id: "u1".to_string(),
            collection_id: "_pb_users_auth_".to_string(),
            collection_name: "users".to_string(),
            created: "2024-01-01 00:00:00.000Z".to_string(),
            updated: "2024-01-01 00:00:00.000Z".to_string(),
            email: "a@example.com".to_string(),
            email_visibility: false,
            verified: true,
        },
        token: token.to_string(),
    }
}

fn field(code: &str) -> JsonValue {
    JsonValue::Object(vec![
        ("code".to_string(), JsonValue::Str(code.to_string())),
        ("message".to_string(), JsonValue::Str("Cannot be blank.".to_string())),
    ])
}

fn error_body(data: Option<JsonValue>) -> Option<ErrorResponse> {
    Some(ErrorResponse { code: Some(400), message: Some("Failed to authenticate.".to_string()), data })
}

fn login_error(body: Option<ErrorResponse>) -> AuthenticationError {
    let mut pb = PocketBase::new("http://localhost:8090");
    let mut users = pb.collection("users");
    users
        .auth_with_password_outcome(status(400, "400 Bad Request"), Err("no session".to_string()), body)
        .unwrap_err()
}

#[test]
fn empty_error_data_means_invalid_credentials() {
    let e = login_error(error_body(Some(JsonValue::Object(vec![]))));
    assert!(matches!(e, AuthenticationError::InvalidCredentials));
}

#[test]
fn identity_must_be_email() {
    let data = JsonValue::Object(vec![("identity".to_string(), field("validation_is_email"))]);
    let e = login_error(error_body(Some(data)));
    assert!(matches!(e, AuthenticationError::IdentityMustBeEmail));
}

#[test]
fn both_fields_required() {
    let data = JsonValue::Object(vec![
        ("identity".to_string(), field("validation_required")),
        ("password".to_string(), field("validation_required")),
    ]);
    let e = login_error(error_body(Some(data)));
    assert!(matches!(e, AuthenticationError::EmptyField { identity: true, password: true }));
}

#[test]
fn identity_must_be_email_from_data_only() {
    let data = JsonValue::Object(vec![("identity".to_string(), field("validation_is_email"))]);
    let body = Some(ErrorResponse { code: None, message: None, data: Some(data) });
    assert!(matches!(login_error(body), AuthenticationError::IdentityMustBeEmail));
}

#[test]
fn both_fields_required_from_data_only() {
    let data = JsonValue::Object(vec![
        ("identity".to_string(), field("validation_required")),
        ("password".to_string(), field("validation_required")),
    ]);
    let body = Some(ErrorResponse { code: None, message: None, data: Some(data) });
    assert!(matches!(login_error(body), AuthenticationError::EmptyField { identity: true, password: true }));
}

#[test]
fn other_codes_mean_invalid_credentials() {
    let data = JsonValue::Object(vec![("password".to_string(), field("validation_length_out_of_range"))]);
    assert!(matches!(login_error(error_body(Some(data))), AuthenticationError::InvalidCredentials));
    let data = JsonValue::Object(vec![("token".to_string(), field("validation_required"))]);
    assert!(matches!(login_error(error_body(Some(data))), AuthenticationError::InvalidCredentials));
    assert!(matches!(login_error(error_body(Some(JsonValue::Null))), AuthenticationError::InvalidCredentials));
}

#[test]
fn only_password_required() {
    let data = JsonValue::Object(vec![("password".to_string(), field("validation_required"))]);
    let e = login_error(error_body(Some(data)));
    assert!(matches!(e, AuthenticationError::EmptyField { identity: false, password: true }));
}

#[test]
fn identity_required_without_password() {
    let data = JsonValue::Object(vec![("identity".to_string(), field("validation_required"))]);
    let e = login_error(error_body(Some(data)));
    assert!(matches!(e, AuthenticationError::EmptyField { identity: true, password: false }));
}

#[test]
fn unknown_identity_code_means_invalid_credentials() {
    let data = JsonValue::Object(vec![("identity".to_string(), field("validation_length_out_of_range"))]);
    let e = login_error(error_body(Some(data)));
    assert!(matches!(e, AuthenticationError::InvalidCredentials));
}

#[test]
fn unreadable_error_body_means_invalid_credentials() {
    assert!(matches!(login_error(None), AuthenticationError::InvalidCredentials));
    assert!(matches!(login_error(error_body(None)), AuthenticationError::InvalidCredentials));
}

#[test]
fn login_stores_session_and_later_requests_carry_token() {
    let mut pb = PocketBase::new("http://localhost:8090");
    {
        let mut users = pb.collection("users");
        let r = users.auth_with_password_outcome(status(200, "200 OK"), Ok(store("tok-1")), None);
        assert_eq!(r.unwrap().token, "tok-1");
    }
    assert_eq!(pb.token(), Some("tok-1".to_string()));
    assert_eq!(pb.auth_store().unwrap().record.email, "a@example.com");
    let articles = pb.collection("articles");
    let request = articles.create_request();
    assert_eq!(request.bearer, Some("tok-1".to_string()));
}

#[test]
fn login_request_shape() {
    let mut pb = PocketBase::new("https://pb.example.com/");
    let users = pb.collection("users");
    let request = users.auth_with_password_request("me@example.com", "secret");
    assert_eq!(request.method, Method::Post);
    assert_eq!(request.url, "https://pb.example.com/api/collections/users/auth-with-password");
    assert!(request.bearer.is_none());
    match request.body {
        RequestBody::Credentials { identity, password } => {
            assert_eq!(identity, "me@example.com");
            assert_eq!(password, "secret");
        }
        other => panic!("unexpected body {other:?}"),
    }
}

#[test]
fn login_failures_leave_session() {
    let mut pb = PocketBase::new("http://localhost:8090");
    {
        let mut users = pb.collection("users");
        let e = users.auth_with_password_outcome(failure("connection refused"), Ok(store("x")), None);
        assert!(matches!(e, Err(AuthenticationError::HttpError(ref m)) if m == "connection refused"));
        let e = users.auth_with_password_outcome(status(500, "500 Internal Server Error"), Ok(store("x")), None);
        assert!(matches!(e, Err(AuthenticationError::UnexpectedResponse)));
        let e = users.auth_with_password_outcome(status(200, "200 OK"), Err("missing field `token`".to_string()), None);
        assert!(matches!(e, Err(AuthenticationError::HttpError(ref m)) if m == "missing field `token`"));
    }
    assert!(pb.token().is_none());
}

#[test]
fn refresh_replaces_session() {
    let mut pb = PocketBase::new("http://localhost:8090");
    pb.update_auth_store(store("old"));
    {
        let mut users = pb.collection("users");
        let request = users.auth_refresh_request();
        assert_eq!(request.bearer, Some("old".to_string()));
        assert_eq!(request.url, "http://localhost:8090/api/collections/users/auth-refresh");
        let r = users.auth_refresh_outcome(status(200, "200 OK"), Ok(store("new")));
        assert_eq!(r.unwrap().token, "new");
        let r = users.auth_refresh_outcome(status(201, "201 Created"), Ok(store("newer")));
        assert_eq!(r.unwrap().token, "newer");
    }
    assert_eq!(pb.token(), Some("newer".to_string()));
}

#[test]
fn refresh_errors() {
    let mut pb = PocketBase::new("http://localhost:8090");
    pb.update_auth_store(store("old"));
    {
        let mut users = pb.collection("users");
        let cases = [(401, "Unauthorized"), (403, "Forbidden"), (404, "NotFound"), (429, "Unhandled"), (500, "Unhandled")];
        for (code, expected) in cases {
            let e = users.auth_refresh_outcome(status(code, ""), Ok(store("new"))).unwrap_err();
            assert_eq!(format!("{e:?}"), expected);
        }
        let e = users.auth_refresh_outcome(status(200, "200 OK"), Err("bad".to_string()));
        assert!(matches!(e, Err(RequestError::Unhandled)));
        let e = users.auth_refresh_outcome(failure("down"), Ok(store("new")));
        assert!(matches!(e, Err(RequestError::Unreachable)));
        let other = Err(TransportFailure { status: None, is_timeout: false, is_connect: false, message: String::new() });
        let e = users.auth_refresh_outcome(other, Ok(store("new")));
        assert!(matches!(e, Err(RequestError::Unreachable)));
    }
    assert_eq!(pb.token(), Some("old".to_string()));
}

#[test]
fn refresh_for_user_uses_its_token_and_keeps_session() {
    let mut pb = PocketBase::new("http://localhost:8090");
    pb.update_auth_store(store("admin"));
    {
        let users = pb.collection("users");
        let request = users.auth_refresh_for_user_request("user-token");
        assert_eq!(request.bearer, Some("user-token".to_string()));
        let r = users.auth_refresh_for_user_outcome(status(200, "200 OK"), Ok(store("fresh")));
        assert_eq!(r.unwrap().token, "fresh");
    }
    assert_eq!(pb.token(), Some("admin".to_string()));
}

#[test]
fn verification_outcomes() {
    let mut pb = PocketBase::new("http://localhost:8090");
    let users = pb.collection("users");
    let request = users.request_verification_request("a@example.com");
    assert_eq!(request.url, "http://localhost:8090/api/collections/users/request-verification");
    assert!(matches!(request.body, RequestBody::Verification { ref email } if email == "a@example.com"));
    assert!(users.request_verification_outcome(status(204, "204 No Content")).is_ok());
    assert!(matches!(users.request_verification_outcome(status(400, "")), Err(RequestError::BadRequest(ref m)) if m.is_empty()));
    assert!(matches!(users.request_verification_outcome(status(404, "")), Err(RequestError::NotFound)));
    assert!(matches!(users.request_verification_outcome(status(401, "")), Err(RequestError::Unhandled)));
    assert!(matches!(users.request_verification_outcome(status(200, "")), Err(RequestError::Unhandled)));
    let forbidden = Err(TransportFailure { status: Some(403), is_timeout: false, is_connect: false, message: String::new() });
    assert!(matches!(users.request_verification_outcome(forbidden), Err(RequestError::Unreachable)));
    assert!(matches!(users.request_verification_outcome(failure("down")), Err(RequestError::Unreachable)));
    let other = Err(TransportFailure { status: None, is_timeout: false, is_connect: false, message: String::new() });
    assert!(matches!(users.request_verification_outcome(other), Err(RequestError::Unreachable)));
}
