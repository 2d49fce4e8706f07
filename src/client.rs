use vstd::prelude::*;
use vstd::string::{StrSliceExecFns, StringExecFns};

use crate::http::{HttpRequest, Method, RequestBody, opt_view, pairs_view};
use crate::session::AuthStore;
use crate::text::{has_prefix, starts_with, trim_end_slashes, trim_trailing_slashes};

verus! {

/// What a client holds: its base URL and its session, if any.
pub ghost struct PocketBaseView {
    pub base_url: Seq<char>,
    pub auth_store: Option<AuthStore>,
}

/// The token of the client's session, if it has one.
pub open spec fn session_token(c: PocketBaseView) -> Option<Seq<char>> {
    match c.auth_store {
        Some(a) => Some(a.token@),
        None => None,
    }
}

/// The request carries the client's session token as its bearer token, and no token
/// when the client has no session.
pub open spec fn carries_session(req: HttpRequest, c: PocketBaseView) -> bool {
    opt_view(req.bearer) == session_token(c)
}

/// `req` is the request with these parts that client `c` composes.
pub open spec fn is_request(
    req: HttpRequest,
    method: Method,
    url: Seq<char>,
    query: Seq<(Seq<char>, Seq<char>)>,
    c: PocketBaseView,
) -> bool {
    &&& req.method == method
    &&& req.url@ == url
    &&& pairs_view(req.query@) == query
    &&& req.accept_json == (method == Method::Get)
    &&& carries_session(req, c)
}

/// The URL of `tail` under the collection `name` of the server at `base`.
pub open spec fn collection_path(base: Seq<char>, name: Seq<char>, tail: Seq<char>) -> Seq<char> {
    base + "/api/collections/"@ + name + tail
}

/// A base URL that the client accepts: once its trailing slashes are gone, it starts
/// with `http://` or `https://`.
pub open spec fn valid_base_url(s: Seq<char>) -> bool {
    has_prefix(trim_trailing_slashes(s), "http://"@) || has_prefix(
        trim_trailing_slashes(s),
        "https://"@,
    )
}

/// Whether `c` is alphabetic or numeric, as Unicode defines it.
pub uninterp spec fn is_alphanumeric(c: char) -> bool;

/// Relies on `char::is_alphanumeric`: whether the character is alphabetic or numeric.
#[verifier::external_body]
fn char_is_alphanumeric(c: char) -> (r: bool)
    ensures
        r == is_alphanumeric(c),
{
    c.is_alphanumeric()
}

/// A collection name: not empty, and only alphanumeric characters and underscores.
pub open spec fn valid_collection_name(s: Seq<char>) -> bool {
    s.len() > 0 && forall|i: int| 0 <= i < s.len() ==> (is_alphanumeric(#[trigger] s[i]) || s[i] == '_')
}

/// Whether `name` can name a collection.
pub fn is_valid_collection_name(name: &str) -> (r: bool)
    ensures
        r == valid_collection_name(name@),
{
    let n = name.unicode_len();
    if n == 0 {
        return false;
    }
    let mut i: usize = 0;
    while i < n
        invariant
            i <= n,
            n == name@.len(),
            forall|j: int| 0 <= j < i ==> (is_alphanumeric(#[trigger] name@[j]) || name@[j] == '_'),
        decreases n - i,
    {
        let c = name.get_char(i);
        if !(char_is_alphanumeric(c) || c == '_') {
            return false;
        }
        i += 1;
    }
    true
}

/// Whether the client accepts `base_url`.
pub fn is_valid_base_url(base_url: &str) -> (r: bool)
    ensures
        r == valid_base_url(base_url@),
{
    let trimmed = trim_end_slashes(base_url);
    starts_with(trimmed.as_str(), "http://") || starts_with(trimmed.as_str(), "https://")
}

/// The URL of `tail` under the collection `name` of `client`'s server.
pub fn collection_url(client: &PocketBase, name: &str, tail: &str) -> (r: String)
    ensures
        r@ == collection_path(client@.base_url, name@, tail@),
{
    let mut url = client.base_url.clone();
    url.append("/api/collections/");
    url.append(name);
    url.append(tail);
    url
}

/// A client of one server: its base URL and its session.
///
/// The HTTP transport is kept beside it by the caller; every request the client
/// composes carries its session token, if it has one.
pub struct PocketBase {
    base_url: String,
    auth_store: Option<AuthStore>,
}

impl View for PocketBase {
    type V = PocketBaseView;

    closed spec fn view(&self) -> PocketBaseView {
        PocketBaseView { base_url: self.base_url@, auth_store: self.auth_store }
    }
}

impl Clone for PocketBase {
    fn clone(&self) -> (r: Self)
        ensures
            r@ == self@,
    {
        let auth_store = match &self.auth_store {
            Some(a) => Some(a.clone()),
            None => None,
        };
        PocketBase { base_url: self.base_url.clone(), auth_store }
    }
}

impl PocketBase {
    /// A client without a session for the server at `base_url`, trailing slashes removed.
    pub fn new(base_url: &str) -> (r: Self)
        requires
            valid_base_url(base_url@),
        ensures
            r@.base_url == trim_trailing_slashes(base_url@),
            r@.auth_store is None,
    {
        PocketBase { base_url: trim_end_slashes(base_url), auth_store: None }
    }

    /// A handle on the collection `collection_name` of this client.
    pub fn collection(&mut self, collection_name: &'static str) -> (r: Collection)
        requires
            valid_collection_name(collection_name@),
        ensures
            r.spec_name() == collection_name@,
            r.spec_client() == old(self)@,
            *final(self) == *final(r.client),
    {
        Collection { client: self, name: collection_name }
    }

    /// A handle on the collection `collection_name`, or `None` where the name is not valid.
    pub fn try_collection(&mut self, collection_name: &'static str) -> (r: Option<Collection>)
        ensures
            r is Some <==> valid_collection_name(collection_name@),
            r matches Some(c) ==> c.spec_name() == collection_name@ && c.spec_client() == old(
                self,
            )@,
    {
        if is_valid_collection_name(collection_name) {
            Some(self.collection(collection_name))
        } else {
            None
        }
    }

    /// The current session, if any.
    pub fn auth_store(&self) -> (r: Option<AuthStore>)
        ensures
            r == self@.auth_store,
    {
        match &self.auth_store {
            Some(a) => Some(a.clone()),
            None => None,
        }
    }

    /// The token of the current session, if any.
    pub fn token(&self) -> (r: Option<String>)
        ensures
            opt_view(r) == session_token(self@),
    {
        match &self.auth_store {
            Some(a) => Some(a.token.clone()),
            None => None,
        }
    }

    /// The base URL of the server.
    pub fn base_url(&self) -> (r: String)
        ensures
            r@ == self@.base_url,
    {
        self.base_url.clone()
    }

    /// Replaces the session, whole.
    pub fn update_auth_store(&mut self, new_auth_store: AuthStore)
        ensures
            final(self)@ == (PocketBaseView {
                base_url: old(self)@.base_url,
                auth_store: Some(new_auth_store),
            }),
    {
        self.auth_store = Some(new_auth_store);
    }

    /// A client for the same server whose session is `auth_store`.
    pub fn with_session(&self, auth_store: AuthStore) -> (r: PocketBase)
        ensures
            r@ == (PocketBaseView { base_url: self@.base_url, auth_store: Some(auth_store) }),
    {
        PocketBase { base_url: self.base_url.clone(), auth_store: Some(auth_store) }
    }

    /// Completes `request_builder` with the session's bearer token, if there is a session.
    pub fn with_authorization_token(&self, request_builder: HttpRequest) -> (r: HttpRequest)
        ensures
            r.method == request_builder.method,
            r.url == request_builder.url,
            r.query == request_builder.query,
            r.accept_json == request_builder.accept_json,
            r.body == request_builder.body,
            carries_session(r, self@),
    {
        let bearer = self.token();
        HttpRequest { bearer, ..request_builder }
    }

    /// A `POST` to `endpoint` with `body`.
    pub fn request_post(&self, endpoint: String, body: RequestBody) -> (r: HttpRequest)
        ensures
            is_request(r, Method::Post, endpoint@, seq![], self@),
            r.body == body,
    {
        let request = HttpRequest {
            method: Method::Post,
            url: endpoint,
            query: Vec::new(),
            accept_json: false,
            bearer: None,
            body,
        };
        let r = self.with_authorization_token(request);
        assert(pairs_view(r.query@) =~= seq![]);
        r
    }

    /// A `PATCH` to `endpoint` with `body`.
    pub fn request_patch(&self, endpoint: String, body: RequestBody) -> (r: HttpRequest)
        ensures
            is_request(r, Method::Patch, endpoint@, seq![], self@),
            r.body == body,
    {
        let request = HttpRequest {
            method: Method::Patch,
            url: endpoint,
            query: Vec::new(),
            accept_json: false,
            bearer: None,
            body,
        };
        let r = self.with_authorization_token(request);
        assert(pairs_view(r.query@) =~= seq![]);
        r
    }

    /// A `GET` of `endpoint` that asks for JSON, with the query parameters `params`.
    pub fn request_get(&self, endpoint: String, params: Vec<(String, String)>) -> (r: HttpRequest)
        ensures
            is_request(r, Method::Get, endpoint@, pairs_view(params@), self@),
            r.body == RequestBody::Empty,
    {
        let request = HttpRequest {
            method: Method::Get,
            url: endpoint,
            query: params,
            accept_json: true,
            bearer: None,
            body: RequestBody::Empty,
        };
        self.with_authorization_token(request)
    }

    /// A `DELETE` of `endpoint`.
    pub fn request_delete(&self, endpoint: String) -> (r: HttpRequest)
        ensures
            is_request(r, Method::Delete, endpoint@, seq![], self@),
            r.body == RequestBody::Empty,
    {
        let request = HttpRequest {
            method: Method::Delete,
            url: endpoint,
            query: Vec::new(),
            accept_json: false,
            bearer: None,
            body: RequestBody::Empty,
        };
        let r = self.with_authorization_token(request);
        assert(pairs_view(r.query@) =~= seq![]);
        r
    }
}

/// One collection of the server, reached through a client.
///
/// The client is borrowed for as long as the handle lives; once it is gone, the client
/// stands as the handle left it.
pub struct Collection<'a> {
    pub client: &'a mut PocketBase,
    pub name: &'a str,
}

impl<'a> Collection<'a> {
    /// The collection's name.
    pub open spec fn spec_name(&self) -> Seq<char> {
        self.name@
    }

    /// The client, as it stands.
    pub open spec fn spec_client(&self) -> PocketBaseView {
        (*self.client)@
    }

    /// The collection's name.
    pub fn name(&self) -> (r: &'a str)
        ensures
            r@ == self.spec_name(),
    {
        self.name
    }

    /// The client that this collection is reached through.
    pub fn client(&self) -> (r: &PocketBase)
        ensures
            r@ == self.spec_client(),
    {
        self.client
    }

    /// The client, shared, and the collection's name, for a builder that holds them.
    pub fn into_parts(self) -> (r: (&'a PocketBase, &'a str))
        ensures
            r.0@ == self.spec_client(),
            r.1@ == self.spec_name(),
            *final(self.client) == *old(self.client),
    {
        (self.client, self.name)
    }

    /// The URL of `tail` under this collection.
    pub fn url(&self, tail: &str) -> (r: String)
        ensures
            r@ == collection_path(self.spec_client().base_url, self.spec_name(), tail@),
    {
        collection_url(self.client, self.name, tail)
    }

    /// Replaces the client's session, whole.
    pub fn store_session(&mut self, auth_store: AuthStore)
        ensures
            final(self).spec_name() == old(self).spec_name(),
            *final(final(self).client) == *final(old(self).client),
            final(self).spec_client() == (PocketBaseView {
                base_url: old(self).spec_client().base_url,
                auth_store: Some(auth_store),
            }),
    {
        self.client.update_auth_store(auth_store);
    }
}

} // verus!
