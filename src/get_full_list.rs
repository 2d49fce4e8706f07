use vstd::prelude::*;

use crate::client::{Collection, PocketBase, PocketBaseView, collection_path, collection_url, is_request};
use crate::decimal::{decimal, decimal_string};
use crate::error::{ErrorKinds, RequestError, read_outcome, read_result};
use crate::get_list::{RecordList, list_kinds};
use crate::http::{Exchange, HttpRequest, Method, RequestBody};
use crate::query::{list_query, list_query_params, opt_str};

verus! {

/// The largest page that the server serves.
pub const MAX_BATCH_SIZE: u16 = 500;


/// A page of `count` records ends the fetch when it holds fewer than `batch_size`.
pub open spec fn is_last_page(count: nat, batch_size: nat) -> bool {
    count < batch_size
}

/// The query for page `page` of `batch_size` records.
pub open spec fn full_list_query(
    page: nat,
    batch_size: nat,
    sort: Option<Seq<char>>,
    filter: Option<Seq<char>>,
    expand: Option<Seq<char>>,
) -> Seq<(Seq<char>, Seq<char>)> {
    list_query(Some(decimal(page)), Some(decimal(batch_size)), true, sort, filter, expand)
}

/// A fetch of all records, being configured.
pub struct CollectionGetFullListBuilder<'a, T> {
    client: &'a PocketBase,
    collection_name: &'a str,
    batch_size: u16,
    sort: Option<&'a str>,
    expand: Option<&'a str>,
    filter: Option<&'a str>,
    _marker: std::marker::PhantomData<T>,
}

/// A fetch of all records under way: the page to fetch next and the records gathered.
pub struct FullListRun<T> {
    /// The next page, counted from 1.
    pub page: u32,
    /// The records of the pages fetched so far, in order.
    pub records: Vec<T>,
}

/// What a fetch of all records does after a page.
pub enum FullListStep<T> {
    /// Fetch the run's next page.
    Fetch(FullListRun<T>),
    /// The fetch is over, with all records or with the error of a page.
    Done(Result<Vec<T>, RequestError>),
}

impl<'a> Collection<'a> {
    /// Starts a fetch of all records, in pages of the largest size.
    pub fn get_full_list<T>(self) -> (r: CollectionGetFullListBuilder<'a, T>)
        ensures
            r.spec_client() == self.spec_client(),
            r.spec_name() == self.spec_name(),
            *final(self.client) == *old(self.client),
            r.spec_batch_size() == MAX_BATCH_SIZE,
            r.spec_settings() == (None::<Seq<char>>, None::<Seq<char>>, None::<Seq<char>>),
    {
        let (client, collection_name) = self.into_parts();
        CollectionGetFullListBuilder {
            client,
            collection_name,
            batch_size: MAX_BATCH_SIZE,
            sort: None,
            expand: None,
            filter: None,
            _marker: std::marker::PhantomData,
        }
    }
}

impl<'a, T> CollectionGetFullListBuilder<'a, T> {
    /// The client that fetches.
    pub closed spec fn spec_client(&self) -> PocketBaseView {
        self.client@
    }

    /// The collection.
    pub closed spec fn spec_name(&self) -> Seq<char> {
        self.collection_name@
    }

    /// The number of records asked for in each page.
    pub closed spec fn spec_batch_size(&self) -> u16 {
        self.batch_size
    }

    /// The sort, the filter and the relations to expand, where set.
    pub closed spec fn spec_settings(&self) -> (Option<Seq<char>>, Option<Seq<char>>, Option<Seq<char>>) {
        (opt_str(self.sort), opt_str(self.filter), opt_str(self.expand))
    }

    /// The number of records asked for in each page: `size`, but at most 500.
    pub fn batch_size(self, size: u16) -> (r: Self)
        ensures
            r.spec_client() == self.spec_client(),
            r.spec_name() == self.spec_name(),
            r.spec_settings() == self.spec_settings(),
            r.spec_batch_size() == if size <= MAX_BATCH_SIZE {
                size
            } else {
                MAX_BATCH_SIZE
            },
    {
        let batch_size = if size <= MAX_BATCH_SIZE {
            size
        } else {
            MAX_BATCH_SIZE
        };
        CollectionGetFullListBuilder { batch_size, ..self }
    }

    /// The order of the records, such as `-created`.
    pub fn sort(self, sort: &'a str) -> (r: Self)
        ensures
            r.spec_client() == self.spec_client(),
            r.spec_name() == self.spec_name(),
            r.spec_batch_size() == self.spec_batch_size(),
            r.spec_settings() == (Some(sort@), self.spec_settings().1, self.spec_settings().2),
    {
        CollectionGetFullListBuilder { sort: Some(sort), ..self }
    }

    /// The filter that the records must match.
    pub fn filter(self, filter: &'a str) -> (r: Self)
        ensures
            r.spec_client() == self.spec_client(),
            r.spec_name() == self.spec_name(),
            r.spec_batch_size() == self.spec_batch_size(),
            r.spec_settings() == (self.spec_settings().0, Some(filter@), self.spec_settings().2),
    {
        CollectionGetFullListBuilder { filter: Some(filter), ..self }
    }

    /// The relations to expand.
    pub fn expand(self, expand: &'a str) -> (r: Self)
        ensures
            r.spec_client() == self.spec_client(),
            r.spec_name() == self.spec_name(),
            r.spec_batch_size() == self.spec_batch_size(),
            r.spec_settings() == (self.spec_settings().0, self.spec_settings().1, Some(expand@)),
    {
        CollectionGetFullListBuilder { expand: Some(expand), ..self }
    }

    /// A fetch that has gathered nothing and starts at page 1.
    pub fn start(&self) -> (r: FullListRun<T>)
        ensures
            r.page == 1,
            r.records@.len() == 0,
    {
        FullListRun { page: 1, records: Vec::new() }
    }

    /// The request for page `page`: a `GET` of `batch_size` records, without totals.
    pub fn page_request(&self, page: u32) -> (r: HttpRequest)
        ensures
            is_request(
                r,
                Method::Get,
                collection_path(self.spec_client().base_url, self.spec_name(), "/records"@),
                full_list_query(
                    page as nat,
                    self.spec_batch_size() as nat,
                    self.spec_settings().0,
                    self.spec_settings().1,
                    self.spec_settings().2,
                ),
                self.spec_client(),
            ),
            r.body == RequestBody::Empty,
    {
        let url = collection_url(self.client, self.collection_name, "/records");
        let page_text = decimal_string(page as u128);
        let batch_text = decimal_string(self.batch_size as u128);
        let query = list_query_params(
            Some(page_text.as_str()),
            Some(batch_text.as_str()),
            true,
            self.sort,
            self.filter,
            self.expand,
        );
        self.client.request_get(url, query)
    }

    /// Takes in the server's answer for the run's page: the status and the body read as a
    /// page of records. The fetch ends on an error, or on a page that holds fewer records
    /// than asked for; it goes on to the next page otherwise.
    pub fn absorb(
        &self,
        run: FullListRun<T>,
        exchange: Exchange,
        decoded: Result<RecordList<T>, String>,
    ) -> (r: FullListStep<T>)
        requires
            run.page < u32::MAX,
        ensures
            match read_result(exchange, decoded, list_kinds()) {
                Err(e) => r matches FullListStep::Done(Err(x)) && x == e,
                Ok(list) => if is_last_page(list.items@.len(), self.spec_batch_size() as nat) {
                    r matches FullListStep::Done(Ok(all)) && all@ == run.records@ + list.items@
                } else {
                    r matches FullListStep::Fetch(next) && next.page == run.page + 1
                        && next.records@ == run.records@ + list.items@
                },
            },
    {
        let page = read_outcome(
            exchange,
            decoded,
            ErrorKinds { unauthorized: true, too_many_requests: true, unreachable: true },
        );
        match page {
            Err(e) => FullListStep::Done(Err(e)),
            Ok(list) => {
                let mut items = list.items;
                let count = items.len();
                let mut records = run.records;
                records.append(&mut items);
                if count < self.batch_size as usize {
                    FullListStep::Done(Ok(records))
                } else {
                    FullListStep::Fetch(FullListRun { page: run.page + 1, records })
                }
            },
        }
    }
}

/// The page of at most `batch_size` records from position `start` on that a server
/// holding `records` serves.
pub open spec fn served_page<T>(records: Seq<T>, batch_size: nat, start: nat) -> Seq<T> {
    let from = if start <= records.len() {
        start
    } else {
        records.len() as nat
    };
    let to = if start + batch_size <= records.len() {
        start + batch_size
    } else {
        records.len() as nat
    };
    records.subrange(from as int, to as int)
}

/// A fetch of all records, in pages of `batch_size`, from a server that holds `records`,
/// from position `start` on: the number of requests it makes, and the records it gathers.
/// Each page is asked for after the last one if that one was full. With pages of no
/// record the fetch never ends, and nothing is defined.
pub open spec fn fetch_from<T>(records: Seq<T>, batch_size: nat, start: nat) -> (nat, Seq<T>)
    decreases records.len() + batch_size - start,
    when batch_size > 0
{
    let page = served_page(records, batch_size, start);
    if is_last_page(page.len(), batch_size) {
        (1, page)
    } else {
        let rest = fetch_from(records, batch_size, start + batch_size);
        (rest.0 + 1, page + rest.1)
    }
}

} // verus!
