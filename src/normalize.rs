use vstd::prelude::*;

use crate::casing::{is_plain_snake, snake_of, to_snake_case};
use crate::dto::{
    conditions_view, opt_text, texts, SearchCondition, SearchConditionView, SearchFilter,
    SearchFilterView, SearchQuery, SearchQueryView, SearchRelation, SearchSortOption,
    SearchSortOptionView,
};

verus! {

/// A condition whose field name is put in snake case.
pub open spec fn normalized_condition(c: SearchConditionView) -> SearchConditionView {
    SearchConditionView {
        field: snake_of(c.field),
        operator: c.operator,
        threshold_bits: c.threshold_bits,
        value: c.value,
        value_to: c.value_to,
        value_list: c.value_list,
    }
}

pub open spec fn normalized_conditions(cs: Seq<SearchConditionView>) -> Seq<SearchConditionView> {
    cs.map_values(|c: SearchConditionView| normalized_condition(c))
}

/// A query whose filter fields and sort field are put in snake case, all else
/// kept.
pub open spec fn normalized(q: SearchQueryView) -> SearchQueryView {
    SearchQueryView {
        relation: q.relation,
        sort: match q.sort {
            Some(s) => Some(SearchSortOptionView { field: snake_of(s.field), order: s.order }),
            None => None,
        },
        offset: q.offset,
        length: q.length,
        page: q.page,
        filter: match q.filter {
            Some(f) => Some(
                SearchFilterView {
                    must: normalized_conditions(f.must),
                    any: normalized_conditions(f.any),
                },
            ),
            None => None,
        },
        find_one: q.find_one,
        find_all: q.find_all,
    }
}

/// Every field name that the query's filter and sort refer to is already in
/// plain snake case.
pub open spec fn query_is_plain_snake(q: SearchQueryView) -> bool {
    &&& match q.filter {
        Some(f) => {
            &&& forall|i: int| 0 <= i < f.must.len() ==> is_plain_snake(#[trigger] f.must[i].field)
            &&& forall|i: int| 0 <= i < f.any.len() ==> is_plain_snake(#[trigger] f.any[i].field)
        },
        None => true,
    }
    &&& match q.sort {
        Some(s) => is_plain_snake(s.field),
        None => true,
    }
}

pub(crate) fn copy_opt_text(o: &Option<String>) -> (r: Option<String>)
    ensures
        opt_text(r) == opt_text(*o),
{
    match o {
        Some(s) => Some(s.clone()),
        None => None,
    }
}

pub(crate) fn copy_texts(v: &Vec<String>) -> (r: Vec<String>)
    ensures
        texts(r@) == texts(v@),
{
    let mut r: Vec<String> = Vec::new();
    let mut i: usize = 0;
    while i < v.len()
        invariant
            i <= v.len(),
            r.len() == i,
            forall|j: int| 0 <= j < i ==> #[trigger] r@[j]@ == v@[j]@,
        decreases v.len() - i,
    {
        r.push(v[i].clone());
        i = i + 1;
    }
    assert(texts(r@) =~= texts(v@));
    r
}

pub(crate) fn copy_relation(o: &Option<SearchRelation>) -> (r: Option<SearchRelation>)
    ensures
        match (r, *o) {
            (Some(a), Some(b)) => a@ == b@,
            (None, None) => true,
            _ => false,
        },
{
    match o {
        Some(rel) => {
            let mut ids: Vec<i32> = Vec::new();
            let mut i: usize = 0;
            while i < rel.parent_ids.len()
                invariant
                    i <= rel.parent_ids.len(),
                    ids@ == rel.parent_ids@.take(i as int),
                decreases rel.parent_ids.len() - i,
            {
                ids.push(rel.parent_ids[i]);
                i = i + 1;
                assert(ids@ =~= rel.parent_ids@.take(i as int));
            }
            assert(ids@ =~= rel.parent_ids@);
            Some(SearchRelation { parent_ids: ids, child_type: copy_texts(&rel.child_type) })
        },
        None => None,
    }
}

fn normalize_condition(c: &SearchCondition) -> (r: SearchCondition)
    ensures
        r@ == normalized_condition(c@),
        is_plain_snake(c.field@) ==> r@ == c@,
{
    SearchCondition {
        field: to_snake_case(&c.field),
        operator: c.operator,
        threshold_bits: c.threshold_bits,
        value: copy_opt_text(&c.value),
        value_to: copy_opt_text(&c.value_to),
        value_list: copy_texts(&c.value_list),
    }
}

fn normalize_conditions(v: &Vec<SearchCondition>) -> (r: Vec<SearchCondition>)
    ensures
        conditions_view(r@) == normalized_conditions(conditions_view(v@)),
        (forall|i: int| 0 <= i < v.len() ==> is_plain_snake(#[trigger] v@[i].field@))
            ==> conditions_view(r@) == conditions_view(v@),
{
    let mut r: Vec<SearchCondition> = Vec::new();
    let mut i: usize = 0;
    while i < v.len()
        invariant
            i <= v.len(),
            r.len() == i,
            forall|j: int| 0 <= j < i ==> #[trigger] r@[j]@ == normalized_condition(v@[j]@),
            forall|j: int|
                0 <= j < i && is_plain_snake(v@[j].field@) ==> #[trigger] r@[j]@ == v@[j]@,
        decreases v.len() - i,
    {
        r.push(normalize_condition(&v[i]));
        i = i + 1;
    }
    assert(conditions_view(r@) =~= normalized_conditions(conditions_view(v@)));
    proof {
        if forall|i: int| 0 <= i < v.len() ==> is_plain_snake(#[trigger] v@[i].field@) {
            assert(conditions_view(r@) =~= conditions_view(v@));
        }
    }
    r
}

/// A copy of the query whose filter fields and sort field are in snake case;
/// a query whose fields are already in plain snake case comes back unchanged.
pub fn normalize_query(input_query: &SearchQuery) -> (r: SearchQuery)
    ensures
        r@ == normalized(input_query@),
        query_is_plain_snake(input_query@) ==> r@ == input_query@,
{
    let filter = match &input_query.filter {
        Some(f) => {
            proof {
                if query_is_plain_snake(input_query@) {
                    assert forall|i: int| 0 <= i < f.must.len() implies is_plain_snake(
                        #[trigger] f.must@[i].field@,
                    ) by {
                        assert(input_query@.filter == Some(f@));
                        assert(f@.must[i] == f.must@[i]@);
                        assert(is_plain_snake(f@.must[i].field));
                    }
                    assert forall|i: int| 0 <= i < f.any.len() implies is_plain_snake(
                        #[trigger] f.any@[i].field@,
                    ) by {
                        assert(input_query@.filter == Some(f@));
                        assert(f@.any[i] == f.any@[i]@);
                        assert(is_plain_snake(f@.any[i].field));
                    }
                }
            }
            Some(SearchFilter { must: normalize_conditions(&f.must), any: normalize_conditions(&f.any) })
        },
        None => None,
    };
    let sort = match &input_query.sort {
        Some(s) => Some(SearchSortOption { field: to_snake_case(&s.field), order: s.order }),
        None => None,
    };
    SearchQuery {
        relation: copy_relation(&input_query.relation),
        sort,
        offset: input_query.offset,
        length: input_query.length,
        page: input_query.page,
        filter,
        find_one: input_query.find_one,
        find_all: input_query.find_all,
    }
}

} // verus!
