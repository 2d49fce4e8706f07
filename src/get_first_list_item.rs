use vstd::prelude::*;
use vstd::string::StringExecFns;

use crate::client::{Collection, PocketBase, PocketBaseView, collection_path, collection_url, is_request};
use crate::error::{ErrorKinds, RequestError, read_outcome, read_result};
use crate::get_list::{RecordList, list_kinds};
use crate::http::{Exchange, HttpRequest, Method, RequestBody};
use crate::query::{list_query, list_query_params, opt_str};

verus! {


/// The query of a fetch of the first record: always the first page of one record,
/// without totals.
pub open spec fn first_item_query(
    sort: Option<Seq<char>>,
    filter: Option<Seq<char>>,
    expand: Option<Seq<char>>,
) -> Seq<(Seq<char>, Seq<char>)> {
    list_query(Some("1"@), Some("1"@), true, sort, filter, expand)
}

/// The outcome of a fetch of the first record: the first record of the page, or a parse
/// error where the page is empty.
pub open spec fn first_item_result<T>(
    exchange: Exchange,
    decoded: Result<RecordList<T>, String>,
    r: Result<T, RequestError>,
) -> bool {
    match read_result(exchange, decoded, list_kinds()) {
        Err(e) => r == Err::<T, RequestError>(e),
        Ok(list) => if list.items@.len() == 0 {
            r matches Err(RequestError::ParseError(m)) && m@ == "No record found."@
        } else {
            r == Ok::<T, RequestError>(list.items@[0])
        },
    }
}

/// A fetch of the first matching record, being configured.
pub struct CollectionGetFirstListItemBuilder<'a, T> {
    client: &'a PocketBase,
    collection_name: &'a str,
    sort: Option<&'a str>,
    expand: Option<&'a str>,
    filter: Option<&'a str>,
    _marker: std::marker::PhantomData<T>,
}

impl<'a> Collection<'a> {
    /// Starts a fetch of the first matching record.
    pub fn get_first_list_item<T>(self) -> (r: CollectionGetFirstListItemBuilder<'a, T>)
        ensures
            r.spec_client() == self.spec_client(),
            r.spec_name() == self.spec_name(),
            *final(self.client) == *old(self.client),
            r.spec_settings() == (None::<Seq<char>>, None::<Seq<char>>, None::<Seq<char>>),
    {
        let (client, collection_name) = self.into_parts();
        CollectionGetFirstListItemBuilder {
            client,
            collection_name,
            sort: None,
            expand: None,
            filter: None,
            _marker: std::marker::PhantomData,
        }
    }
}

impl<'a, T> CollectionGetFirstListItemBuilder<'a, T> {
    /// The client that fetches.
    pub closed spec fn spec_client(&self) -> PocketBaseView {
        self.client@
    }

    /// The collection.
    pub closed spec fn spec_name(&self) -> Seq<char> {
        self.collection_name@
    }

    /// The sort, the filter and the relations to expand, where set.
    pub closed spec fn spec_settings(&self) -> (Option<Seq<char>>, Option<Seq<char>>, Option<Seq<char>>) {
        (opt_str(self.sort), opt_str(self.filter), opt_str(self.expand))
    }

    /// The order of the records, such as `-created,id`.
    pub fn sort(self, sort: &'a str) -> (r: Self)
        ensures
            r.spec_client() == self.spec_client(),
            r.spec_name() == self.spec_name(),
            r.spec_settings() == (Some(sort@), self.spec_settings().1, self.spec_settings().2),
    {
        CollectionGetFirstListItemBuilder { sort: Some(sort), ..self }
    }

    /// The filter that the record must match.
    pub fn filter(self, filter: &'a str) -> (r: Self)
        ensures
            r.spec_client() == self.spec_client(),
            r.spec_name() == self.spec_name(),
            r.spec_settings() == (self.spec_settings().0, Some(filter@), self.spec_settings().2),
    {
        CollectionGetFirstListItemBuilder { filter: Some(filter), ..self }
    }

    /// The relations to expand.
    pub fn expand(self, expand: &'a str) -> (r: Self)
        ensures
            r.spec_client() == self.spec_client(),
            r.spec_name() == self.spec_name(),
            r.spec_settings() == (self.spec_settings().0, self.spec_settings().1, Some(expand@)),
    {
        CollectionGetFirstListItemBuilder { expand: Some(expand), ..self }
    }

    /// The request: a `GET` of the first page of one record, without totals.
    pub fn request(&self) -> (r: HttpRequest)
        ensures
            is_request(
                r,
                Method::Get,
                collection_path(self.spec_client().base_url, self.spec_name(), "/records"@),
                first_item_query(
                    self.spec_settings().0,
                    self.spec_settings().1,
                    self.spec_settings().2,
                ),
                self.spec_client(),
            ),
            r.body == RequestBody::Empty,
    {
        let url = collection_url(self.client, self.collection_name, "/records");
        let query = list_query_params(
            Some("1"),
            Some("1"),
            true,
            self.sort,
            self.filter,
            self.expand,
        );
        self.client.request_get(url, query)
    }

    /// Completes the fetch from the server's answer: the status and the body read as a
    /// page of records.
    pub fn outcome(&self, exchange: Exchange, decoded: Result<RecordList<T>, String>) -> (r: Result<
        T,
        RequestError,
    >)
        ensures
            first_item_result(exchange, decoded, r),
    {
        let page = read_outcome(
            exchange,
            decoded,
            ErrorKinds { unauthorized: true, too_many_requests: true, unreachable: true },
        );
        match page {
            Err(e) => Err(e),
            Ok(list) => {
                let mut items = list.items;
                if items.len() == 0 {
                    Err(RequestError::ParseError(String::from_str("No record found.")))
                } else {
                    Ok(items.remove(0))
                }
            },
        }
    }
}

} // verus!
