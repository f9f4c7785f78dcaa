use vstd::prelude::*;

use crate::dto::{SearchQuery, SearchQueryView};
use crate::errors::PebbleQueryError;
use crate::field_map::FieldColumnMap;
use crate::select::{apply_linked_conditions_to_select, assembled, SelectPlan};

verus! {

/// The page size of the count query when the request names none.
pub const DEFAULT_PAGE_SIZE: u64 = 25;

/// The request that stands for "no request": everything, unfiltered.
pub open spec fn find_all_query() -> SearchQueryView {
    SearchQueryView {
        relation: None,
        sort: None,
        offset: 0,
        length: 0,
        page: 0,
        filter: None,
        find_one: false,
        find_all: true,
    }
}

/// The page size that the count query uses for a request.
pub open spec fn count_page_size(q: SearchQueryView) -> u64 {
    if q.length > 0 {
        q.length as u64
    } else {
        DEFAULT_PAGE_SIZE
    }
}

impl Default for SearchQuery {
    fn default() -> (r: SearchQuery)
        ensures
            r@ == (SearchQueryView { find_all: false, ..find_all_query() }),
    {
        SearchQuery {
            relation: None,
            sort: None,
            offset: 0,
            length: 0,
            page: 0,
            filter: None,
            find_one: false,
            find_all: false,
        }
    }
}

/// The request to run: the one given, or one that asks for everything.
pub fn effective_query(query: Option<SearchQuery>) -> (r: SearchQuery)
    ensures
        match query {
            Some(q) => r == q,
            None => r@ == find_all_query(),
        },
{
    match query {
        Some(q) => q,
        None => SearchQuery {
            relation: None,
            sort: None,
            offset: 0,
            length: 0,
            page: 0,
            filter: None,
            find_one: false,
            find_all: true,
        },
    }
}

/// The page size of the count query: the requested length, or
/// [`DEFAULT_PAGE_SIZE`] when it is zero or less.
pub fn query_page_size(query: &SearchQuery) -> (r: u64)
    ensures
        r == count_page_size(query@),
{
    if query.length > 0 {
        query.length as u64
    } else {
        DEFAULT_PAGE_SIZE
    }
}

/// All that running a request needs: the request itself, the selection to
/// run for the rows and then for the counts, the page size of the count,
/// and whether at most one row is fetched.
#[derive(Debug)]
pub struct PebbleQueryPlan<C> {
    pub query: SearchQuery,
    pub select: SelectPlan<C>,
    pub page_size: u64,
    pub find_one: bool,
}

/// Prepares a request on `initial_select`: takes the request (or one that asks
/// for everything), compiles and assembles it, ignoring its filter when it
/// asks for everything, and fixes the page size of the count. Fails, before
/// anything is run, when a field, operator or value does not compile.
pub fn plan_pebble_query<C: Copy>(
    initial_select: SelectPlan<C>,
    query: Option<SearchQuery>,
    field_to_column_map: &FieldColumnMap<C>,
) -> (r: Result<PebbleQueryPlan<C>, PebbleQueryError>)
    ensures
        ({
            let q = match query {
                Some(q) => q@,
                None => find_all_query(),
            };
            match assembled(q, *field_to_column_map, initial_select@, q.find_all) {
                Ok(p) => r matches Ok(plan) && plan.select@ == p && plan.query@ == q
                    && plan.page_size == count_page_size(q) && plan.find_one == q.find_one,
                Err(e) => r matches Err(x) && x@ == e,
            }
        }),
        query is Some && r is Ok ==> r->Ok_0.query == query->Some_0,
        r is Ok && r->Ok_0.query.length <= 0 ==> r->Ok_0.page_size == DEFAULT_PAGE_SIZE
            && r->Ok_0.select@.limit == initial_select@.limit,
{
    let query = effective_query(query);
    let select = match apply_linked_conditions_to_select(&query, field_to_column_map, initial_select) {
        Ok(s) => s,
        Err(e) => return Err(e),
    };
    let page_size = query_page_size(&query);
    let find_one = query.find_one;
    Ok(PebbleQueryPlan { query, select, page_size, find_one })
}

/// The rows of a single-row fetch: none or the one found.
pub fn rows_of_one<M>(row: Option<M>) -> (r: Vec<M>)
    ensures
        r.len() <= 1,
        match row {
            Some(x) => r@ == seq![x],
            None => r.len() == 0,
        },
{
    let mut r: Vec<M> = Vec::new();
    match row {
        Some(x) => r.push(x),
        None => {},
    }
    r
}

} // verus!
