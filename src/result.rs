use vstd::prelude::*;

use crate::dto::{SearchQuery, SearchResultMetadata};

verus! {

/// The total number of matching rows and of pages, as the count query found
/// them.
#[derive(Clone, Copy, Debug, PartialEq, Eq, Structural)]
pub struct ItemsAndPagesNumber {
    pub number_of_items: u64,
    pub number_of_pages: u64,
}

/// Builds the metadata of a result.
pub struct PebbleConverter {}

/// Turns the counts of a run into result metadata.
pub trait PebbleConverterTrait {
    /// Metadata that echoes the query and its paging, with the counts given
    /// and no projection recorded.
    fn query_many_result_to_standard_query_result(
        result_items: i32,
        result_total_items: i32,
        result_total_pages: i32,
        query: SearchQuery,
    ) -> (r: SearchResultMetadata)
        ensures
            r.result_items == result_items,
            r.offset == query.offset,
            r.length == query.length,
            r.page == query.page,
            r.result_total_pages == result_total_pages,
            r.result_total_items == result_total_items,
            r.query == Some(query),
            r.filter_count is None,
            r.filter_reason is None,
    ;
}

impl PebbleConverterTrait for PebbleConverter {
    fn query_many_result_to_standard_query_result(
        result_items: i32,
        result_total_items: i32,
        result_total_pages: i32,
        query: SearchQuery,
    ) -> (r: SearchResultMetadata) {
        SearchResultMetadata {
            result_items,
            offset: query.offset,
            length: query.length,
            page: query.page,
            result_total_pages,
            result_total_items,
            query: Some(query),
            filter_count: None,
            filter_reason: None,
        }
    }
}

/// The rows that a query returned, in the storage engine's row type, with
/// their metadata.
#[derive(Debug)]
pub struct PebbleQueryResult<M> {
    pub metadata: SearchResultMetadata,
    pub results: Vec<M>,
}

/// Rows of any type with their metadata, as a projection leaves them.
#[derive(Debug)]
pub struct PebbleQueryResultGeneric<T> {
    pub metadata: SearchResultMetadata,
    pub results: Vec<T>,
}

/// The values of the outcomes that hold one, in order.
pub open spec fn kept<U>(outs: Seq<Option<U>>) -> Seq<U>
    decreases outs.len(),
{
    if outs.len() == 0 {
        Seq::empty()
    } else {
        match outs.last() {
            Some(u) => kept(outs.drop_last()).push(u),
            None => kept(outs.drop_last()),
        }
    }
}

/// `f` was called on each row in turn with these outcomes.
pub open spec fn outcomes_of<A, B, F: Fn(A) -> Option<B>>(f: F, rows: Seq<A>, outs: Seq<Option<B>>) -> bool {
    &&& outs.len() == rows.len()
    &&& forall|i: int| 0 <= i < rows.len() ==> f.ensures((rows[i],), #[trigger] outs[i])
}

/// The metadata after a projection from `before` rows to `after` rows.
pub open spec fn projected_metadata(
    m: SearchResultMetadata,
    r: SearchResultMetadata,
    before: nat,
    after: nat,
    reason: Option<String>,
) -> bool {
    &&& r.result_items == after
    &&& r.filter_count == Some((before - after) as i32)
    &&& r.filter_reason == reason
    &&& r.offset == m.offset
    &&& r.length == m.length
    &&& r.page == m.page
    &&& r.result_total_pages == m.result_total_pages
    &&& r.result_total_items == m.result_total_items
    &&& r.query == m.query
}

proof fn lemma_kept_len<U>(outs: Seq<Option<U>>)
    ensures
        kept(outs).len() <= outs.len(),
    decreases outs.len(),
{
    if outs.len() > 0 {
        lemma_kept_len(outs.drop_last());
    }
}

/// Calls `f` on each row in order and keeps the values it returns.
fn filter_map_rows<A, B, F: Fn(A) -> Option<B>>(rows: Vec<A>, f: F) -> (r: Vec<B>)
    requires
        forall|a: A| f.requires((a,)),
    ensures
        exists|outs: Seq<Option<B>>| outcomes_of(f, rows@, outs) && r@ == kept(outs),
{
    let ghost all = rows@;
    let mut out: Vec<B> = Vec::new();
    let ghost mut outs: Seq<Option<B>> = Seq::empty();
    assert(outs.take(0) =~= outs);
    for row in it: rows.into_iter()
        invariant
            forall|a: A| f.requires((a,)),
            it.seq() == all,
            outs.len() == it.index(),
            forall|j: int| 0 <= j < it.index() ==> f.ensures((all[j],), #[trigger] outs[j]),
            out@ == kept(outs),
    {
        let mapped = f(row);
        proof {
            assert((outs.push(mapped)).drop_last() =~= outs);
        }
        match mapped {
            Some(v) => out.push(v),
            None => {},
        }
        proof {
            outs = outs.push(mapped);
        }
    }
    assert(outcomes_of(f, all, outs));
    out
}

impl<M> PebbleQueryResult<M> {
    /// The rows with metadata that echoes `query`, counts the rows and carries
    /// the totals of the count query.
    pub fn from(query: SearchQuery, results: Vec<M>, items_and_pages_num: ItemsAndPagesNumber) -> (r: Self)
        requires
            results.len() <= i32::MAX,
            items_and_pages_num.number_of_items <= i32::MAX,
            items_and_pages_num.number_of_pages <= i32::MAX,
        ensures
            r.results@ == results@,
            r.metadata.result_items == results.len(),
            r.metadata.result_total_items == items_and_pages_num.number_of_items,
            r.metadata.result_total_pages == items_and_pages_num.number_of_pages,
            r.metadata.offset == query.offset,
            r.metadata.length == query.length,
            r.metadata.page == query.page,
            r.metadata.query == Some(query),
            r.metadata.filter_count is None,
            r.metadata.filter_reason is None,
    {
        let metadata = PebbleConverter::query_many_result_to_standard_query_result(
            results.len() as i32,
            items_and_pages_num.number_of_items as i32,
            items_and_pages_num.number_of_pages as i32,
            query,
        );
        PebbleQueryResult { metadata, results }
    }
}

/// Reading and projecting the rows of a typed result.
pub trait PebbleQueryResultUtilTrait<M>: Sized {
    spec fn rows(&self) -> Seq<M>;

    spec fn meta(&self) -> SearchResultMetadata;

    /// The first row, if any.
    fn first(&self) -> (r: Option<&M>)
        ensures
            match r {
                Some(x) => self.rows().len() > 0 && *x == self.rows()[0],
                None => self.rows().len() == 0,
            },
    ;

    /// Projects each row through `result_filter_map`, dropping those it maps
    /// to `None`; the metadata then counts the rows kept, records how many
    /// were dropped and why, and keeps the rest.
    fn map_into_generic<U, F: Fn(M) -> Option<U>>(
        self,
        result_filter_map: F,
        filter_reason: Option<String>,
    ) -> (r: PebbleQueryResultGeneric<U>)
        requires
            forall|m: M| result_filter_map.requires((m,)),
            self.rows().len() <= i32::MAX,
        ensures
            exists|outs: Seq<Option<U>>|
                outcomes_of(result_filter_map, self.rows(), outs) && r.results@ == kept(outs),
            r.results.len() <= self.rows().len(),
            projected_metadata(self.meta(), r.metadata, self.rows().len(), r.results.len() as nat, filter_reason),
    ;
}

impl<M> PebbleQueryResultUtilTrait<M> for PebbleQueryResult<M> {
    open spec fn rows(&self) -> Seq<M> {
        self.results@
    }

    open spec fn meta(&self) -> SearchResultMetadata {
        self.metadata
    }

    fn first(&self) -> (r: Option<&M>) {
        if self.results.len() > 0 {
            Some(&self.results[0])
        } else {
            None
        }
    }

    fn map_into_generic<U, F: Fn(M) -> Option<U>>(
        self,
        result_filter_map: F,
        filter_reason: Option<String>,
    ) -> (r: PebbleQueryResultGeneric<U>) {
        let PebbleQueryResult { metadata, results } = self;
        let initial_result_count = results.len();
        let results = filter_map_rows(results, result_filter_map);
        proof {
            let outs = choose|outs: Seq<Option<U>>|
                outcomes_of(result_filter_map, self.results@, outs) && results@ == kept(outs);
            lemma_kept_len(outs);
        }
        let filtered_out_count = initial_result_count - results.len();
        let metadata = SearchResultMetadata {
            result_items: results.len() as i32,
            filter_count: Some(filtered_out_count as i32),
            filter_reason,
            ..metadata
        };
        PebbleQueryResultGeneric { metadata, results }
    }
}

/// Reading and projecting again the rows of a projected result.
pub trait PebbleQueryResultGenericUtilTraits<O>: Sized {
    spec fn rows(&self) -> Seq<O>;

    spec fn meta(&self) -> SearchResultMetadata;

    /// The first row, if any.
    fn first(&self) -> (r: Option<&O>)
        ensures
            match r {
                Some(x) => self.rows().len() > 0 && *x == self.rows()[0],
                None => self.rows().len() == 0,
            },
    ;

    /// Projects the rows again, as
    /// [`PebbleQueryResultUtilTrait::map_into_generic`] does; what is recorded
    /// of the drop concerns this projection alone.
    fn map_filter_result<T, F: Fn(O) -> Option<T>>(
        self,
        result_filter_map: F,
        filter_out_reason: Option<String>,
    ) -> (r: PebbleQueryResultGeneric<T>)
        requires
            forall|o: O| result_filter_map.requires((o,)),
            self.rows().len() <= i32::MAX,
        ensures
            exists|outs: Seq<Option<T>>|
                outcomes_of(result_filter_map, self.rows(), outs) && r.results@ == kept(outs),
            r.results.len() <= self.rows().len(),
            projected_metadata(self.meta(), r.metadata, self.rows().len(), r.results.len() as nat, filter_out_reason),
    ;
}

impl<O> PebbleQueryResultGenericUtilTraits<O> for PebbleQueryResultGeneric<O> {
    open spec fn rows(&self) -> Seq<O> {
        self.results@
    }

    open spec fn meta(&self) -> SearchResultMetadata {
        self.metadata
    }

    fn first(&self) -> (r: Option<&O>) {
        if self.results.len() > 0 {
            Some(&self.results[0])
        } else {
            None
        }
    }

    fn map_filter_result<T, F: Fn(O) -> Option<T>>(
        self,
        result_filter_map: F,
        filter_out_reason: Option<String>,
    ) -> (r: PebbleQueryResultGeneric<T>) {
        let PebbleQueryResultGeneric { metadata, results } = self;
        let initial_result_count = results.len();
        let results = filter_map_rows(results, result_filter_map);
        proof {
            let outs = choose|outs: Seq<Option<T>>|
                outcomes_of(result_filter_map, self.results@, outs) && results@ == kept(outs);
            lemma_kept_len(outs);
        }
        let filtered_out_count = initial_result_count - results.len();
        let metadata = SearchResultMetadata {
            result_items: results.len() as i32,
            filter_count: Some(filtered_out_count as i32),
            filter_reason: filter_out_reason,
            ..metadata
        };
        PebbleQueryResultGeneric { metadata, results }
    }
}

} // verus!
