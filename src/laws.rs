use vstd::prelude::*;
use vstd::arithmetic::div_mod::{lemma_fundamental_div_mod, lemma_fundamental_div_mod_converse};

use crate::auth::{after_auth, auth_result, refresh_result};
use crate::client::{PocketBase, PocketBaseView, carries_session, session_token};
use crate::error::{ErrorKinds, read_result};
use crate::get_list::RecordList;
use crate::get_first_list_item::first_item_query;
use crate::get_full_list::{fetch_from, is_last_page, served_page};
use crate::http::{Exchange, HttpRequest, is_success, opt_view};
use crate::impersonate::{ImpersonateError, impersonate_result};
use crate::json::ErrorResponse;
use crate::session::AuthStore;

verus! {

proof fn lemma_fetch_from_offset<T>(records: Seq<T>, batch_size: nat, start: nat)
    requires
        batch_size >= 1,
        start <= records.len(),
    ensures
        fetch_from(records, batch_size, start).0 == (records.len() - start) / (batch_size as int) + 1,
        fetch_from(records, batch_size, start).1 == records.subrange(start as int, records.len() as int),
    decreases records.len() + batch_size - start,
{
    let n = records.len();
    let b = batch_size as int;
    let left = n - start;
    if start + batch_size > n {
        lemma_fundamental_div_mod_converse(left, b, 0, left);
    } else {
        lemma_fetch_from_offset(records, batch_size, start + batch_size);
        let page = served_page(records, batch_size, start);
        assert(page.len() == batch_size);
        let rest = fetch_from(records, batch_size, start + batch_size);
        assert(page + rest.1 =~= records.subrange(start as int, n as int));
        lemma_fundamental_div_mod(left - b, b);
        assert(left == ((left - b) / b + 1) * b + (left - b) % b) by (nonlinear_arith)
            requires
                left - b == b * ((left - b) / b) + (left - b) % b,
        ;
        lemma_fundamental_div_mod_converse(left, b, (left - b) / b + 1, (left - b) % b);
    }
}

/// One step of `absorb` against a server that holds `records`, in pages of
/// `batch_size`, follows `fetch_from`. Before the step the run has gathered the first
/// `start` records (its page is the one that starts there); the server answers with the
/// page it serves from `start`. After the step, which gathers `gathered + page`:
/// on a short page the fetch is over with all records, and `fetch_from` makes one
/// request from there; on a full page the run has gathered the first `start + batch_size`
/// records, and `fetch_from` makes one request more than from the next page on.
/// In both cases what is gathered, followed by what `fetch_from` gathers from `start`,
/// is all records.
pub proof fn absorb_follows_fetch_from<T>(
    records: Seq<T>,
    batch_size: nat,
    start: nat,
    gathered: Seq<T>,
)
    requires
        batch_size >= 1,
        start <= records.len(),
        gathered == records.subrange(0, start as int),
    ensures
        gathered + fetch_from(records, batch_size, start).1 == records,
        is_last_page(served_page(records, batch_size, start).len(), batch_size) ==> gathered
            + served_page(records, batch_size, start) == records && fetch_from(
            records,
            batch_size,
            start,
        ).0 == 1,
        !is_last_page(served_page(records, batch_size, start).len(), batch_size) ==> start
            + batch_size <= records.len() && gathered + served_page(records, batch_size, start)
            == records.subrange(0, (start + batch_size) as int) && fetch_from(records, batch_size, start).0
            == fetch_from(records, batch_size, start + batch_size).0 + 1,
{
    lemma_fetch_from_offset(records, batch_size, start);
    let page = served_page(records, batch_size, start);
    assert(gathered + fetch_from(records, batch_size, start).1 =~= records);
    if is_last_page(page.len(), batch_size) {
        assert(gathered + page =~= records);
    } else {
        assert(gathered + page =~= records.subrange(0, (start + batch_size) as int));
    }
}

/// Fetching all records of a collection that holds `records`, in pages of any size of
/// one record or more, makes one request per full page and one more for the last page,
/// which is short or empty: `N / B + 1` requests for `N` records in pages of `B`. That is
/// `ceil(N / B) + 1` where `B` divides `N`, the last page being empty, and `ceil(N / B)`
/// otherwise.
pub proof fn full_list_request_count<T>(records: Seq<T>, batch_size: nat)
    requires
        batch_size >= 1,
    ensures
        fetch_from(records, batch_size, 0).0 == records.len() / batch_size + 1,
        records.len() % batch_size == 0 ==> fetch_from(records, batch_size, 0).0 == records.len()
            / batch_size + 1,
        records.len() % batch_size != 0 ==> fetch_from(records, batch_size, 0).0 == (records.len()
            + batch_size - 1) / (batch_size as int),
{
    let n = records.len() as int;
    let b = batch_size as int;
    lemma_fetch_from_offset(records, batch_size, 0);
    lemma_fundamental_div_mod(n, b);
    if n % b != 0 {
        assert(n + b - 1 == (n / b + 1) * b + (n % b - 1)) by (nonlinear_arith)
            requires
                n == b * (n / b) + n % b,
        ;
        lemma_fundamental_div_mod_converse(n + b - 1, b, n / b + 1, n % b - 1);
    }
}

/// Fetching all records of a collection gathers exactly its records, in order, whatever
/// the page size: two fetches with different page sizes give the same records.
pub proof fn full_list_content<T>(records: Seq<T>, batch_size: nat, other_batch_size: nat)
    requires
        batch_size >= 1,
        other_batch_size >= 1,
    ensures
        fetch_from(records, batch_size, 0).1 == records,
        fetch_from(records, batch_size, 0).1 == fetch_from(records, other_batch_size, 0).1,
{
    lemma_fetch_from_offset(records, batch_size, 0);
    lemma_fetch_from_offset(records, other_batch_size, 0);
    assert(records.subrange(0, records.len() as int) =~= records);
}

/// A page that a server serves in answer to a request for `batch_size` records holds
/// at most `batch_size` records.
pub proof fn served_page_fits<T>(records: Seq<T>, batch_size: nat, start: nat)
    ensures
        served_page(records, batch_size, start).len() <= batch_size,
{
}

/// A successful list outcome is the server's page as it was decoded, from a 2xx answer:
/// the library neither adds nor drops records, nor changes the page number or size. So a
/// page returned to the caller holds at most `perPage` records, and has a page number of 1
/// or more, exactly when the server's page does.
pub proof fn list_outcome_is_server_page<T>(
    exchange: Exchange,
    decoded: Result<RecordList<T>, String>,
    kinds: ErrorKinds,
)
    requires
        read_result(exchange, decoded, kinds) is Ok,
    ensures
        exchange is Ok && is_success(exchange->Ok_0.code),
        decoded is Ok,
        read_result(exchange, decoded, kinds)->Ok_0 == decoded->Ok_0,
        read_result(exchange, decoded, kinds)->Ok_0.items@.len() <= read_result(
            exchange,
            decoded,
            kinds,
        )->Ok_0.per_page <==> decoded->Ok_0.items@.len() <= decoded->Ok_0.per_page,
        read_result(exchange, decoded, kinds)->Ok_0.page >= 1 <==> decoded->Ok_0.page >= 1,
{
}

/// A fetch of the first record asks for page 1 of one record without totals, whatever
/// else is set: those three parameters come first, and no other parameter has their names.
pub proof fn first_item_query_is_fixed(
    sort: Option<Seq<char>>,
    filter: Option<Seq<char>>,
    expand: Option<Seq<char>>,
)
    ensures
        first_item_query(sort, filter, expand).len() >= 3,
        first_item_query(sort, filter, expand)[0] == ("page"@, "1"@),
        first_item_query(sort, filter, expand)[1] == ("perPage"@, "1"@),
        first_item_query(sort, filter, expand)[2] == ("skipTotal"@, "true"@),
        forall|i: int|
            3 <= i < first_item_query(sort, filter, expand).len() ==> {
                let key = (#[trigger] first_item_query(sort, filter, expand)[i]).0;
                key != "page"@ && key != "perPage"@ && key != "skipTotal"@
            },
{
    reveal_strlit("page");
    reveal_strlit("perPage");
    reveal_strlit("skipTotal");
    reveal_strlit("sort");
    reveal_strlit("filter");
    reveal_strlit("expand");
    let q = first_item_query(sort, filter, expand);
    assert forall|i: int| 3 <= i < q.len() implies {
        let key = (#[trigger] q[i]).0;
        key != "page"@ && key != "perPage"@ && key != "skipTotal"@
    } by {
        let key = q[i].0;
        assert(key == "sort"@ || key == "filter"@ || key == "expand"@);
        assert(key.len() != "page"@.len() || key[0] != "page"@[0]);
        assert(key.len() != "perPage"@.len() || key[0] != "perPage"@[0]);
        assert(key.len() != "skipTotal"@.len() || key[0] != "skipTotal"@[0]);
    }
}

/// A client without a session sends no bearer token.
pub proof fn anonymous_requests_carry_no_token(client: PocketBaseView, request: HttpRequest)
    requires
        client.auth_store is None,
        carries_session(request, client),
    ensures
        request.bearer is None,
{
}

/// After a successful authentication with a password, the client's session token is the
/// token of the answer, and the requests the client composes from then on carry it.
pub proof fn password_login_sets_token(
    client: PocketBaseView,
    exchange: Exchange,
    auth_store: Result<AuthStore, String>,
    error_body: Option<ErrorResponse>,
    request: HttpRequest,
)
    requires
        auth_result(exchange, auth_store, error_body) is Ok,
        carries_session(request, after_auth(client, auth_result(exchange, auth_store, error_body))),
    ensures
        auth_store is Ok,
        session_token(after_auth(client, auth_result(exchange, auth_store, error_body))) == Some(
            auth_store->Ok_0.token@,
        ),
        opt_view(request.bearer) == Some(auth_store->Ok_0.token@),
{
}

/// After a successful refresh, the client's session token is the token of the answer, and
/// the requests the client composes from then on carry it.
pub proof fn refresh_sets_token(
    client: PocketBaseView,
    exchange: Exchange,
    auth_store: Result<AuthStore, String>,
    request: HttpRequest,
)
    requires
        refresh_result(exchange, auth_store) is Ok,
        carries_session(request, after_auth(client, refresh_result(exchange, auth_store))),
    ensures
        auth_store is Ok,
        session_token(after_auth(client, refresh_result(exchange, auth_store))) == Some(
            auth_store->Ok_0.token@,
        ),
        opt_view(request.bearer) == Some(auth_store->Ok_0.token@),
{
}

/// A successful impersonation gives a new client for the same server whose session is
/// the impersonated user's; the impersonating client, only read, keeps its own.
pub proof fn impersonation_gives_new_client(
    client: PocketBaseView,
    exchange: Exchange,
    auth_store: Result<AuthStore, String>,
    r: Result<PocketBase, ImpersonateError>,
)
    requires
        impersonate_result(exchange, auth_store, client, r),
        r is Ok,
    ensures
        auth_store is Ok,
        r->Ok_0@ == (PocketBaseView { base_url: client.base_url, auth_store: Some(auth_store->Ok_0) }),
{
}

} // verus!
