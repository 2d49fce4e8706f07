//! A client library for a PocketBase server's REST API: record reads and writes,
//! authentication, impersonation and pagination.
//!
//! The library composes each request (method, URL, query, body, bearer token) and turns
//! the server's answer into a typed result; sending the request and reading the body are
//! left to the caller's HTTP transport.
pub mod auth;
pub mod client;
pub mod create;
pub mod decimal;
pub mod delete;
pub mod error;
pub mod get_first_list_item;
pub mod get_full_list;
pub mod get_list;
pub mod get_one;
pub mod http;
pub mod impersonate;
pub mod json;
pub mod laws;
pub mod query;
pub mod session;
pub mod text;
pub mod update;

pub use crate::auth::AuthenticationError;
pub use crate::client::{Collection, PocketBase};
pub use crate::create::{CreateError, CreateResponse};
pub use crate::delete::DeleteError;
pub use crate::error::{BadRequestError, BadRequestField, BadRequestResponse, RequestError};
pub use crate::get_first_list_item::CollectionGetFirstListItemBuilder;
pub use crate::get_full_list::{CollectionGetFullListBuilder, FullListRun, FullListStep};
pub use crate::get_list::{CollectionGetListBuilder, RecordList};
pub use crate::get_one::CollectionGetOneBuilder;
pub use crate::http::{Exchange, HttpRequest, HttpStatus, Method, RequestBody, TransportFailure};
pub use crate::impersonate::{CollectionImpersonateBuilder, ImpersonateError};
pub use crate::json::{ErrorResponse, JsonValue};
pub use crate::session::{AuthStore, AuthStoreRecord};
pub use crate::update::{UpdateError, UpdateResponse};
