use vstd::prelude::*;
use vstd::string::StringExecFns;

use crate::client::{Collection, PocketBase, PocketBaseView, collection_path, collection_url, is_request};
use crate::error::{ErrorKinds, RequestError, read_outcome, read_result};
use crate::http::{Exchange, HttpRequest, Method, RequestBody};
use crate::query::{opt_str, param, push_param};

verus! {

/// The kinds of error that fetching one record reports.
pub open spec fn get_kinds() -> ErrorKinds {
    ErrorKinds { unauthorized: false, too_many_requests: true, unreachable: true }
}

/// A fetch of one record, being configured.
pub struct CollectionGetOneBuilder<'a, T> {
    client: &'a PocketBase,
    collection_name: &'a str,
    record_id: &'a str,
    expand: Option<&'a str>,
    _marker: std::marker::PhantomData<T>,
}

impl<'a> Collection<'a> {
    /// Starts a fetch of the record `record_id`.
    pub fn get_one<T>(self, record_id: &'a str) -> (r: CollectionGetOneBuilder<'a, T>)
        ensures
            r.spec_client() == self.spec_client(),
            r.spec_name() == self.spec_name(),
            r.spec_record_id() == record_id@,
            *final(self.client) == *old(self.client),
            r.spec_expand() is None,
    {
        let (client, collection_name) = self.into_parts();
        CollectionGetOneBuilder {
            client,
            collection_name,
            record_id,
            expand: None,
            _marker: std::marker::PhantomData,
        }
    }
}

impl<'a, T> CollectionGetOneBuilder<'a, T> {
    /// The client that fetches.
    pub closed spec fn spec_client(&self) -> PocketBaseView {
        self.client@
    }

    /// The collection.
    pub closed spec fn spec_name(&self) -> Seq<char> {
        self.collection_name@
    }

    /// The id of the record.
    pub closed spec fn spec_record_id(&self) -> Seq<char> {
        self.record_id@
    }

    /// The relations to expand, if set.
    pub closed spec fn spec_expand(&self) -> Option<Seq<char>> {
        opt_str(self.expand)
    }

    /// Expands the relations `expand` of the record.
    pub fn expand(self, expand: &'a str) -> (r: Self)
        ensures
            r.spec_client() == self.spec_client(),
            r.spec_name() == self.spec_name(),
            r.spec_record_id() == self.spec_record_id(),
            r.spec_expand() == Some(expand@),
    {
        CollectionGetOneBuilder { expand: Some(expand), ..self }
    }

    /// The request: a `GET` of the record, with `expand` where it was set.
    pub fn request(&self) -> (r: HttpRequest)
        ensures
            is_request(
                r,
                Method::Get,
                collection_path(self.spec_client().base_url, self.spec_name(), "/records/"@)
                    + self.spec_record_id(),
                param("expand"@, self.spec_expand()),
                self.spec_client(),
            ),
            r.body == RequestBody::Empty,
    {
        let mut url = collection_url(self.client, self.collection_name, "/records/");
        url.append(self.record_id);
        let mut query: Vec<(String, String)> = Vec::new();
        assert(crate::http::pairs_view(query@) =~= seq![]);
        push_param(&mut query, "expand", self.expand);
        assert(crate::http::pairs_view(query@) =~= param("expand"@, self.spec_expand()));
        self.client.request_get(url, query)
    }

    /// Completes the fetch from the server's answer: the status and the body read as
    /// the record.
    pub fn outcome(&self, exchange: Exchange, decoded: Result<T, String>) -> (r: Result<
        T,
        RequestError,
    >)
        ensures
            r == read_result(exchange, decoded, get_kinds()),
    {
        read_outcome(
            exchange,
            decoded,
            ErrorKinds { unauthorized: false, too_many_requests: true, unreachable: true },
        )
    }
}

} // verus!
