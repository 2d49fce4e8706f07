use pocketbase_rs::{
    AuthStore, AuthStoreRecord, HttpStatus, ImpersonateError, PocketBase, RequestBody,
    TransportFailure,
};

fn store(token: &str) -> AuthStore {
    AuthStore {
        record: AuthStoreRecord {
            id: "u2".to_string(),
            collection_id: "c1".to_string(),
            collection_name: "users".to_string(),
            created: "c".to_string(),
            updated: "u".to_string(),
            email: "b@example.com".to_string(),
            email_visibility: false,
            verified: true,
        },
        token: token.to_string(),
    }
}

fn status(code: u16, text: &str) -> Result<HttpStatus, TransportFailure> {
    Ok(HttpStatus { code, text: text.to_string() })
}

#[test]
fn impersonation_returns_new_client() {
    let mut pb = PocketBase::new("http://localhost:8090");
    pb.update_auth_store(store("superuser"));
    let other = {
        let b = pb.collection("users").impersonate("u2");
        let request = b.request();
        assert_eq!(request.url, "http://localhost:8090/api/collections/users/impersonate/u2");
        assert_eq!(request.bearer, Some("superuser".to_string()));
        assert!(matches!(request.body, RequestBody::Empty));
        b.outcome(status(200, "200 OK"), Ok(store("impersonated"))).unwrap()
    };
    assert_eq!(other.token(), Some("impersonated".to_string()));
    assert_eq!(other.base_url(), "http://localhost:8090");
    assert_eq!(pb.token(), Some("superuser".to_string()));
}

#[test]
fn impersonation_duration_is_a_form_field() {
    let mut pb = PocketBase::new("http://localhost:8090");
    let request = pb.collection("users").impersonate("u2").duration(3600).request();
    assert!(matches!(request.body, RequestBody::DurationForm { ref duration } if duration == "3600"));
}

#[test]
fn impersonation_errors() {
    let mut pb = PocketBase::new("http://localhost:8090");
    let b = pb.collection("users").impersonate("u2");
    assert!(matches!(b.outcome(status(400, ""), Ok(store("x"))), Err(ImpersonateError::BadRequest)));
    assert_eq!(b.outcome(status(201, "201 Created"), Ok(store("y"))).unwrap().token(), Some("y".to_string()));
    assert!(matches!(b.outcome(status(401, ""), Ok(store("x"))), Err(ImpersonateError::Unauthorized)));
    assert!(matches!(b.outcome(status(403, ""), Ok(store("x"))), Err(ImpersonateError::Forbidden)));
    assert!(matches!(b.outcome(status(404, ""), Ok(store("x"))), Err(ImpersonateError::NotFound)));
    let r = b.outcome(status(500, "500 Internal Server Error"), Ok(store("x")));
    assert!(matches!(r, Err(ImpersonateError::UnexpectedResponse(ref m)) if m == "500 Internal Server Error"));
    let r = b.outcome(status(200, "200 OK"), Err("missing field".to_string()));
    assert!(matches!(r, Err(ImpersonateError::UnexpectedResponse(ref m)) if m == "Couldn't parse API response into Auth Data"));
    let down = Err(TransportFailure { status: None, is_timeout: false, is_connect: true, message: "refused".to_string() });
    assert!(matches!(b.outcome(down, Ok(store("x"))), Err(ImpersonateError::Unreachable(ref m)) if m == "refused"));
}
