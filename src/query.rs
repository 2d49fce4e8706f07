use vstd::prelude::*;

use crate::http::pairs_view;

verus! {

/// The text of an optional string.
pub open spec fn opt_str(value: Option<&str>) -> Option<Seq<char>> {
    match value {
        Some(v) => Some(v@),
        None => None,
    }
}

/// The parameter `key=value` where a value is given; nothing otherwise.
pub open spec fn param(key: Seq<char>, value: Option<Seq<char>>) -> Seq<(Seq<char>, Seq<char>)> {
    match value {
        Some(v) => seq![(key, v)],
        None => seq![],
    }
}

/// The query of a list request, in this order: `page`, `perPage`, `skipTotal=true`
/// where totals are skipped, `sort`, `filter`, `expand`; each only where it is given.
pub open spec fn list_query(
    page: Option<Seq<char>>,
    per_page: Option<Seq<char>>,
    skip_total: bool,
    sort: Option<Seq<char>>,
    filter: Option<Seq<char>>,
    expand: Option<Seq<char>>,
) -> Seq<(Seq<char>, Seq<char>)> {
    param("page"@, page) + param("perPage"@, per_page) + param(
        "skipTotal"@,
        if skip_total {
            Some("true"@)
        } else {
            None
        },
    ) + param("sort"@, sort) + param("filter"@, filter) + param("expand"@, expand)
}

/// Appends `key=value` to `query` where a value is given.
pub fn push_param(query: &mut Vec<(String, String)>, key: &str, value: Option<&str>)
    ensures
        pairs_view(final(query)@) == pairs_view(old(query)@) + param(key@, opt_str(value)),
{
    match value {
        Some(v) => {
            query.push((key.to_owned(), v.to_owned()));
            assert(pairs_view(final(query)@) =~= pairs_view(old(query)@) + param(key@, opt_str(value)));
        },
        None => {
            assert(pairs_view(old(query)@) + param(key@, opt_str(value)) =~= pairs_view(old(query)@));
        },
    }
}

/// The query of a list request; see `list_query`.
pub fn list_query_params(
    page: Option<&str>,
    per_page: Option<&str>,
    skip_total: bool,
    sort: Option<&str>,
    filter: Option<&str>,
    expand: Option<&str>,
) -> (r: Vec<(String, String)>)
    ensures
        pairs_view(r@) == list_query(
            opt_str(page),
            opt_str(per_page),
            skip_total,
            opt_str(sort),
            opt_str(filter),
            opt_str(expand),
        ),
{
    let mut query: Vec<(String, String)> = Vec::new();
    assert(pairs_view(query@) =~= seq![]);
    push_param(&mut query, "page", page);
    push_param(&mut query, "perPage", per_page);
    let skip = if skip_total {
        Some("true")
    } else {
        None
    };
    push_param(&mut query, "skipTotal", skip);
    push_param(&mut query, "sort", sort);
    push_param(&mut query, "filter", filter);
    push_param(&mut query, "expand", expand);
    assert(pairs_view(query@) =~= list_query(
        opt_str(page),
        opt_str(per_page),
        skip_total,
        opt_str(sort),
        opt_str(filter),
        opt_str(expand),
    ));
    query
}

} // verus!
