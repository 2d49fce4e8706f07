use pocketbase_rs::create::create_processing;
use pocketbase_rs::update::update_processing;
use pocketbase_rs::{
    BadRequestError, BadRequestField, BadRequestResponse, CreateError, CreateResponse,
    DeleteError, HttpStatus, Method, PocketBase, RecordList, RequestBody, RequestError,
    TransportFailure, UpdateError, UpdateResponse,
};

fn status(code: u16, text: &str) -> Result<HttpStatus, TransportFailure> {
    Ok(HttpStatus { code, text: text.to_string() })
}

fn transport(status: Option<u16>, is_timeout: bool, is_connect: bool, message: &str) -> Result<HttpStatus, TransportFailure> {
    Err(TransportFailure { status, is_timeout, is_connect, message: message.to_string() })
}

fn pairs(q: &[(String, String)]) -> Vec<(&str, &str)> {
    q.iter().map(|(k, v)| (k.as_str(), v.as_str())).collect()
}

fn page(items: Vec<u32>) -> RecordList<u32> {
    RecordList { page: 1, per_page: 30, total_items: -1, total_pages: -1, items }
}

fn created() -> CreateResponse {
    CreateResponse {
        collection_name: "posts".to_string(),
        collection_id: "pbc_1".to_string(),
        id: "r1".to_string(),
        updated: "u".to_string(),
        created: "c".to_string(),
    }
}

fn bad_body() -> BadRequestResponse {
    BadRequestResponse {
        status: 400,
        message: "Failed to create record.".to_string(),
        data: vec![
            ("title".to_string(), BadRequestField { code: "validation_required".to_string(), message: "Cannot be blank.".to_string() }),
            ("views".to_string(), BadRequestField { code: "validation_min_number".to_string(), message: "Must be no less than 0.".to_string() }),
        ],
    }
}

#[test]
fn get_one_request_and_outcomes() {
    let mut pb = PocketBase::new("http://localhost:8090");
    let c = pb.collection("posts");
    let b = c.get_one::<u32>("abc").expand("author");
    let request = b.request();
    assert_eq!(request.url, "http://localhost:8090/api/collections/posts/records/abc");
    assert_eq!(pairs(&request.query), vec![("expand", "author")]);
    assert_eq!(b.outcome(status(200, ""), Ok(5)).unwrap(), 5);
    assert!(matches!(b.outcome(status(302, ""), Ok(6)), Err(RequestError::Unhandled)));
    assert!(matches!(b.outcome(status(101, ""), Ok(6)), Err(RequestError::Unhandled)));
    assert_eq!(b.outcome(status(201, ""), Ok(7)).unwrap(), 7);
    assert!(matches!(b.outcome(status(200, ""), Err("eof".to_string())), Err(RequestError::ParseError(ref m)) if m == "eof"));
    assert!(matches!(b.outcome(status(403, ""), Ok(5)), Err(RequestError::Forbidden)));
    assert!(matches!(b.outcome(status(404, ""), Ok(5)), Err(RequestError::NotFound)));
    assert!(matches!(b.outcome(status(429, ""), Ok(5)), Err(RequestError::TooManyRequests)));
    assert!(matches!(b.outcome(status(401, ""), Ok(5)), Err(RequestError::Unhandled)));
    assert!(matches!(b.outcome(status(503, ""), Ok(5)), Err(RequestError::Unhandled)));
    assert!(matches!(b.outcome(transport(Some(404), false, false, ""), Ok(5)), Err(RequestError::Unreachable)));
    assert!(matches!(b.outcome(transport(None, true, false, ""), Ok(5)), Err(RequestError::Unreachable)));
    assert!(matches!(b.outcome(transport(None, false, true, ""), Ok(5)), Err(RequestError::Unreachable)));
    assert!(matches!(b.outcome(transport(None, false, false, ""), Ok(5)), Err(RequestError::Unreachable)));
}

#[test]
fn get_one_without_expand_has_no_query() {
    let mut pb = PocketBase::new("http://localhost:8090");
    let request = pb.collection("posts").get_one::<u32>("abc").request();
    assert!(request.query.is_empty());
}

#[test]
fn get_list_query_order() {
    let mut pb = PocketBase::new("http://localhost:8090");
    let b = pb
        .collection("posts")
        .get_list::<u32>()
        .expand("author")
        .filter("views>10")
        .sort("-created,id")
        .per_page(50)
        .page(2)
        .skip_total(true);
    let request = b.request();
    assert_eq!(request.method, Method::Get);
    assert_eq!(request.url, "http://localhost:8090/api/collections/posts/records");
    assert_eq!(
        pairs(&request.query),
        vec![("page", "2"), ("perPage", "50"), ("skipTotal", "true"), ("sort", "-created,id"), ("filter", "views>10"), ("expand", "author")]
    );
    let list = b.outcome(status(200, ""), Ok(page(vec![1, 2]))).unwrap();
    assert_eq!(list.items, vec![1, 2]);
    assert!(matches!(b.outcome(status(429, ""), Ok(page(vec![]))), Err(RequestError::TooManyRequests)));
    assert!(matches!(b.outcome(status(401, ""), Ok(page(vec![]))), Err(RequestError::Unauthorized)));
    assert!(matches!(b.outcome(status(304, ""), Ok(page(vec![1]))), Err(RequestError::Unhandled)));
    assert!(matches!(b.outcome(transport(None, true, false, ""), Ok(page(vec![]))), Err(RequestError::Unreachable)));
}

#[test]
fn get_list_default_query_is_empty() {
    let mut pb = PocketBase::new("http://localhost:8090");
    let request = pb.collection("posts").get_list::<u32>().request();
    assert!(request.query.is_empty());
}

#[test]
fn first_list_item_forces_first_page_of_one() {
    let mut pb = PocketBase::new("http://localhost:8090");
    let b = pb.collection("posts").get_first_list_item::<u32>().sort("-created").filter("a=1");
    let request = b.request();
    assert_eq!(
        pairs(&request.query),
        vec![("page", "1"), ("perPage", "1"), ("skipTotal", "true"), ("sort", "-created"), ("filter", "a=1")]
    );
    assert_eq!(b.outcome(status(200, ""), Ok(page(vec![9, 8]))).unwrap(), 9);
    assert!(matches!(b.outcome(status(200, ""), Ok(page(vec![]))), Err(RequestError::ParseError(ref m)) if m == "No record found."));
    assert!(matches!(b.outcome(status(429, ""), Ok(page(vec![1]))), Err(RequestError::TooManyRequests)));
    assert!(matches!(b.outcome(status(401, ""), Ok(page(vec![1]))), Err(RequestError::Unauthorized)));
    assert!(matches!(b.outcome(status(500, ""), Ok(page(vec![1]))), Err(RequestError::Unhandled)));
    assert!(matches!(b.outcome(transport(None, false, true, ""), Ok(page(vec![1]))), Err(RequestError::Unreachable)));
    assert!(matches!(b.outcome(status(403, ""), Ok(page(vec![1]))), Err(RequestError::Forbidden)));
}

#[test]
fn create_outcomes() {
    let r = create_processing(status(200, "200 OK"), Ok(created()), Err("x".to_string()));
    assert_eq!(r.unwrap().id, "r1");
    let r = create_processing(status(201, "201 Created"), Ok(created()), Err("x".to_string()));
    assert_eq!(r.unwrap().id, "r1");
    let r = create_processing(status(302, "302 Found"), Ok(created()), Err("x".to_string()));
    assert!(matches!(r, Err(CreateError::UnexpectedResponse(ref m)) if m == "302 Found"));
    let r = create_processing(status(200, "200 OK"), Err("missing field `id`".to_string()), Ok(bad_body()));
    assert!(matches!(r, Err(CreateError::ParseError(ref m)) if m == "missing field `id`"));
    match create_processing(status(400, "400 Bad Request"), Err("x".to_string()), Ok(bad_body())) {
        Err(CreateError::BadRequest(errors)) => {
            assert_eq!(errors.len(), 2);
            assert_eq!(errors[0].name, "title");
            assert_eq!(errors[0].code, "validation_required");
            assert_eq!(errors[1].name, "views");
            assert_eq!(errors[1].message, "Must be no less than 0.");
        }
        other => panic!("unexpected {other:?}"),
    }
    let r = create_processing(status(400, ""), Ok(created()), Err("not an error body".to_string()));
    assert!(matches!(r, Err(CreateError::ParseError(ref m)) if m == "not an error body"));
    assert!(matches!(create_processing(status(403, ""), Ok(created()), Ok(bad_body())), Err(CreateError::Forbidden)));
    assert!(matches!(create_processing(status(404, ""), Ok(created()), Ok(bad_body())), Err(CreateError::NotFound)));
    let r = create_processing(status(500, "500 Internal Server Error"), Ok(created()), Ok(bad_body()));
    assert!(matches!(r, Err(CreateError::UnexpectedResponse(ref m)) if m == "500 Internal Server Error"));
    let r = create_processing(transport(None, false, true, "refused"), Ok(created()), Ok(bad_body()));
    assert!(matches!(r, Err(CreateError::Unreachable(ref m)) if m == "refused"));
}

#[test]
fn update_request_and_outcomes() {
    let mut pb = PocketBase::new("http://localhost:8090");
    let request = pb.collection("posts").update_request("r1");
    assert_eq!(request.method, Method::Patch);
    assert_eq!(request.url, "http://localhost:8090/api/collections/posts/records/r1");
    assert!(matches!(request.body, RequestBody::Record));
    let updated = UpdateResponse {
        collection_name: "posts".to_string(),
        collection_id: "pbc_1".to_string(),
        id: "r1".to_string(),
        updated: "u2".to_string(),
        created: "c".to_string(),
    };
    assert_eq!(update_processing(status(200, ""), Ok(updated), Err(String::new())).unwrap().updated, "u2");
    match update_processing(status(400, ""), Err(String::new()), Ok(bad_body())) {
        Err(UpdateError::BadRequest(errors)) => assert_eq!(errors[1].code, "validation_min_number"),
        other => panic!("unexpected {other:?}"),
    }
    let r = update_processing(status(418, "418 I'm a teapot"), Err(String::new()), Err(String::new()));
    assert!(matches!(r, Err(UpdateError::UnexpectedResponse(ref m)) if m == "418 I'm a teapot"));
    assert!(matches!(update_processing(status(403, ""), Err(String::new()), Err(String::new())), Err(UpdateError::Forbidden)));
    assert!(matches!(update_processing(status(404, ""), Err(String::new()), Err(String::new())), Err(UpdateError::NotFound)));
}

#[test]
fn delete_with_empty_id_makes_no_request() {
    let mut pb = PocketBase::new("http://localhost:8090");
    let c = pb.collection("posts");
    assert!(matches!(c.delete_request(""), Err(DeleteError::BadRequest)));
    let request = c.delete_request("r1").unwrap();
    assert_eq!(request.method, Method::Delete);
    assert_eq!(request.url, "http://localhost:8090/api/collections/posts/records/r1");
}

#[test]
fn delete_outcomes() {
    let mut pb = PocketBase::new("http://localhost:8090");
    let c = pb.collection("posts");
    assert!(c.delete_outcome("r1", status(204, "")).is_ok());
    assert!(c.delete_outcome("r1", status(200, "")).is_ok());
    assert!(matches!(c.delete_outcome("r1", status(400, "")), Err(DeleteError::BadRequest)));
    assert!(matches!(c.delete_outcome("r1", status(403, "")), Err(DeleteError::Forbidden)));
    assert!(matches!(c.delete_outcome("r1", status(404, "")), Err(DeleteError::NotFound)));
    let r = c.delete_outcome("r1", status(500, "500 Internal Server Error"));
    assert!(matches!(r, Err(DeleteError::UnexpectedResponse(ref m)) if m == "Status: 500 Internal Server Error, Collection: posts, Record: r1"));
    let r = c.delete_outcome("r1", transport(None, true, false, "t"));
    assert!(matches!(r, Err(DeleteError::Unreachable(ref m)) if m == "Request timed out"));
    let r = c.delete_outcome("r1", transport(None, false, true, "c"));
    assert!(matches!(r, Err(DeleteError::Unreachable(ref m)) if m == "Failed to connect to server"));
    let r = c.delete_outcome("r1", transport(None, false, false, "builder error"));
    assert!(matches!(r, Err(DeleteError::Unreachable(ref m)) if m == "builder error"));
}

#[test]
fn bad_request_body_names_each_field_once() {
    assert!(bad_body().is_well_formed());
    let mut twice = bad_body();
    twice.data.push(("title".to_string(), BadRequestField { code: "x".to_string(), message: "y".to_string() }));
    assert!(!twice.is_well_formed());
}

#[test]
fn bad_request_error_text() {
    let e = BadRequestError {
        name: "title".to_string(),
        code: "validation_required".to_string(),
        message: "Cannot be blank.".to_string(),
    };
    assert_eq!(e.to_string(), "title: validation_required Cannot be blank.");
}
