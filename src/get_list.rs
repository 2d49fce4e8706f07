use vstd::prelude::*;

use crate::client::{Collection, PocketBase, PocketBaseView, collection_path, collection_url, is_request};
use crate::decimal::{decimal, decimal_string};
use crate::error::{ErrorKinds, RequestError, read_outcome, read_result};
use crate::http::{Exchange, HttpRequest, Method, RequestBody, opt_view};
use crate::query::{list_query, list_query_params, opt_str};

verus! {

/// One page of the records of a collection.
#[derive(Debug)]
pub struct RecordList<T> {
    /// The page, counted from 1.
    pub page: i32,
    /// The most records a page holds.
    pub per_page: i32,
    /// The number of matching records, or -1 where totals were skipped.
    pub total_items: i32,
    /// The number of pages, or -1 where totals were skipped.
    pub total_pages: i32,
    /// The records of this page.
    pub items: Vec<T>,
}

/// The kinds of error that the list operations report: all of them.
pub open spec fn list_kinds() -> ErrorKinds {
    ErrorKinds { unauthorized: true, too_many_requests: true, unreachable: true }
}

/// A fetch of one page of records, being configured.
pub struct CollectionGetListBuilder<'a, T> {
    client: &'a PocketBase,
    collection_name: &'a str,
    page: Option<String>,
    per_page: Option<String>,
    sort: Option<&'a str>,
    expand: Option<&'a str>,
    filter: Option<&'a str>,
    skip_total: bool,
    _marker: std::marker::PhantomData<T>,
}

impl<'a> Collection<'a> {
    /// Starts a fetch of one page of records.
    pub fn get_list<T>(self) -> (r: CollectionGetListBuilder<'a, T>)
        ensures
            r.spec_client() == self.spec_client(),
            r.spec_name() == self.spec_name(),
            *final(self.client) == *old(self.client),
            r.spec_settings() == (
                None::<Seq<char>>,
                None::<Seq<char>>,
                false,
                None::<Seq<char>>,
                None::<Seq<char>>,
                None::<Seq<char>>,
            ),
    {
        let (client, collection_name) = self.into_parts();
        CollectionGetListBuilder {
            client,
            collection_name,
            page: None,
            per_page: None,
            sort: None,
            expand: None,
            filter: None,
            skip_total: false,
            _marker: std::marker::PhantomData,
        }
    }
}

impl<'a, T> CollectionGetListBuilder<'a, T> {
    /// The client that fetches.
    pub closed spec fn spec_client(&self) -> PocketBaseView {
        self.client@
    }

    /// The collection.
    pub closed spec fn spec_name(&self) -> Seq<char> {
        self.collection_name@
    }

    /// The settings, in the order of the query: the page, the page size, whether totals
    /// are skipped, the sort, the filter and the relations to expand.
    pub closed spec fn spec_settings(&self) -> (
        Option<Seq<char>>,
        Option<Seq<char>>,
        bool,
        Option<Seq<char>>,
        Option<Seq<char>>,
        Option<Seq<char>>,
    ) {
        (
            opt_view(self.page),
            opt_view(self.per_page),
            self.skip_total,
            opt_str(self.sort),
            opt_str(self.filter),
            opt_str(self.expand),
        )
    }

    /// The page to fetch, counted from 1 (the server's default is 1).
    pub fn page(self, page: u16) -> (r: Self)
        ensures
            r.spec_client() == self.spec_client(),
            r.spec_name() == self.spec_name(),
            r.spec_settings() == (
                Some(decimal(page as nat)),
                self.spec_settings().1,
                self.spec_settings().2,
                self.spec_settings().3,
                self.spec_settings().4,
                self.spec_settings().5,
            ),
    {
        CollectionGetListBuilder { page: Some(decimal_string(page as u128)), ..self }
    }

    /// The most records per page (the server's default is 30, its maximum 500).
    pub fn per_page(self, per_page: u16) -> (r: Self)
        ensures
            r.spec_client() == self.spec_client(),
            r.spec_name() == self.spec_name(),
            r.spec_settings() == (
                self.spec_settings().0,
                Some(decimal(per_page as nat)),
                self.spec_settings().2,
                self.spec_settings().3,
                self.spec_settings().4,
                self.spec_settings().5,
            ),
    {
        CollectionGetListBuilder { per_page: Some(decimal_string(per_page as u128)), ..self }
    }

    /// The order of the records, such as `-created,id`.
    pub fn sort(self, sort: &'a str) -> (r: Self)
        ensures
            r.spec_client() == self.spec_client(),
            r.spec_name() == self.spec_name(),
            r.spec_settings() == (
                self.spec_settings().0,
                self.spec_settings().1,
                self.spec_settings().2,
                Some(sort@),
                self.spec_settings().4,
                self.spec_settings().5,
            ),
    {
        CollectionGetListBuilder { sort: Some(sort), ..self }
    }

    /// The filter that the records must match, such as `language='en'`.
    pub fn filter(self, filter: &'a str) -> (r: Self)
        ensures
            r.spec_client() == self.spec_client(),
            r.spec_name() == self.spec_name(),
            r.spec_settings() == (
                self.spec_settings().0,
                self.spec_settings().1,
                self.spec_settings().2,
                self.spec_settings().3,
                Some(filter@),
                self.spec_settings().5,
            ),
    {
        CollectionGetListBuilder { filter: Some(filter), ..self }
    }

    /// The relations to expand, such as `author`.
    pub fn expand(self, expand: &'a str) -> (r: Self)
        ensures
            r.spec_client() == self.spec_client(),
            r.spec_name() == self.spec_name(),
            r.spec_settings() == (
                self.spec_settings().0,
                self.spec_settings().1,
                self.spec_settings().2,
                self.spec_settings().3,
                self.spec_settings().4,
                Some(expand@),
            ),
    {
        CollectionGetListBuilder { expand: Some(expand), ..self }
    }

    /// Whether the server skips counting the totals, which then read -1.
    pub fn skip_total(self, skip_total: bool) -> (r: Self)
        ensures
            r.spec_client() == self.spec_client(),
            r.spec_name() == self.spec_name(),
            r.spec_settings() == (
                self.spec_settings().0,
                self.spec_settings().1,
                skip_total,
                self.spec_settings().3,
                self.spec_settings().4,
                self.spec_settings().5,
            ),
    {
        CollectionGetListBuilder { skip_total, ..self }
    }

    /// The request: a `GET` of the collection's records with the configured query.
    pub fn request(&self) -> (r: HttpRequest)
        ensures
            is_request(
                r,
                Method::Get,
                collection_path(self.spec_client().base_url, self.spec_name(), "/records"@),
                list_query(
                    self.spec_settings().0,
                    self.spec_settings().1,
                    self.spec_settings().2,
                    self.spec_settings().3,
                    self.spec_settings().4,
                    self.spec_settings().5,
                ),
                self.spec_client(),
            ),
            r.body == RequestBody::Empty,
    {
        let url = collection_url(self.client, self.collection_name, "/records");
        let page = match &self.page {
            Some(p) => Some(p.as_str()),
            None => None,
        };
        let per_page = match &self.per_page {
            Some(p) => Some(p.as_str()),
            None => None,
        };
        let query = list_query_params(
            page,
            per_page,
            self.skip_total,
            self.sort,
            self.filter,
            self.expand,
        );
        self.client.request_get(url, query)
    }

    /// Completes the fetch from the server's answer: the status and the body read as a
    /// page of records.
    pub fn outcome(&self, exchange: Exchange, decoded: Result<RecordList<T>, String>) -> (r: Result<
        RecordList<T>,
        RequestError,
    >)
        ensures
            r == read_result(exchange, decoded, list_kinds()),
    {
        read_outcome(
            exchange,
            decoded,
            ErrorKinds { unauthorized: true, too_many_requests: true, unreachable: true },
        )
    }
}

} // verus!
