use vstd::prelude::*;

use crate::casing::{decimal_text, int_to_text, to_snake_case};
use crate::condition::{
    filter_groups, missing_field_message, query_to_seaorm_conditions, Condition, ConditionView,
};
use crate::dto::{
    sort_direction_of_code, SearchQuery, SearchQueryView, SearchSortOption,
    SearchSortOptionView, SortDirection,
};
use crate::errors::{PebbleQueryError, QueryErrorView};
use crate::field_map::FieldColumnMap;
use crate::normalize::normalized;

verus! {

/// The direction of an order-by.
#[derive(Clone, Copy, Debug, PartialEq, Eq, Structural)]
pub enum Order {
    Asc,
    Desc,
}

/// What is added to a caller's base selection: predicate groups that must
/// all hold, a row limit and a row offset (each replacing the base's own when
/// present) and order-by columns, first the most significant.
#[derive(Clone, Debug, PartialEq)]
pub struct SelectPlan<C> {
    pub filters: Vec<Condition<C>>,
    pub limit: Option<u64>,
    pub offset: Option<u64>,
    pub order_by: Vec<(C, Order)>,
}

pub struct SelectPlanView<C> {
    pub filters: Seq<ConditionView<C>>,
    pub limit: Option<u64>,
    pub offset: Option<u64>,
    pub order_by: Seq<(C, Order)>,
}

impl<C> View for SelectPlan<C> {
    type V = SelectPlanView<C>;

    open spec fn view(&self) -> SelectPlanView<C> {
        SelectPlanView {
            filters: self.filters@.map_values(|g: Condition<C>| g@),
            limit: self.limit,
            offset: self.offset,
            order_by: self.order_by@,
        }
    }
}

impl<C> SelectPlan<C> {
    /// A plan that adds nothing to the base selection.
    pub fn new() -> (r: Self)
        ensures
            r@ == empty_plan::<C>(),
    {
        let r = SelectPlan { filters: Vec::new(), limit: None, offset: None, order_by: Vec::new() };
        assert(r@.filters =~= Seq::empty());
        r
    }

    /// The plan with one more group that must hold.
    pub fn filter(self, condition: Condition<C>) -> (r: Self)
        ensures
            r@ == with_filter(self@, condition@),
    {
        let SelectPlan { mut filters, limit, offset, order_by } = self;
        let ghost before = filters@;
        let ghost g = condition@;
        filters.push(condition);
        let r = SelectPlan { filters, limit, offset, order_by };
        assert(r@.filters =~= before.map_values(|g: Condition<C>| g@).push(g));
        r
    }

    /// The plan with a row limit.
    pub fn limit(self, n: u64) -> (r: Self)
        ensures
            r@ == (SelectPlanView { limit: Some(n), ..self@ }),
    {
        SelectPlan { limit: Some(n), ..self }
    }

    /// The plan with a row offset.
    pub fn offset(self, n: u64) -> (r: Self)
        ensures
            r@ == (SelectPlanView { offset: Some(n), ..self@ }),
    {
        SelectPlan { offset: Some(n), ..self }
    }

    /// The plan ordered by one more column, after the ones it has.
    pub fn order_by(self, column: C, order: Order) -> (r: Self)
        ensures
            r@ == (SelectPlanView { order_by: self@.order_by.push((column, order)), ..self@ }),
    {
        let SelectPlan { filters, limit, offset, mut order_by } = self;
        order_by.push((column, order));
        SelectPlan { filters, limit, offset, order_by }
    }
}

/// The plan that adds nothing.
pub open spec fn empty_plan<C>() -> SelectPlanView<C> {
    SelectPlanView { filters: Seq::empty(), limit: None, offset: None, order_by: Seq::empty() }
}

pub open spec fn with_filter<C>(p: SelectPlanView<C>, g: ConditionView<C>) -> SelectPlanView<C> {
    SelectPlanView { filters: p.filters.push(g), ..p }
}

/// The plan with each of the two groups that has a member; an empty group is
/// left out, since an empty `Any` group would hold for no row.
pub open spec fn attach_groups<C>(p: SelectPlanView<C>, must: ConditionView<C>, any: ConditionView<C>) -> SelectPlanView<C> {
    let p1 = if must.conditions.len() > 0 {
        with_filter(p, must)
    } else {
        p
    };
    if any.conditions.len() > 0 {
        with_filter(p1, any)
    } else {
        p1
    }
}

/// The plan with the query's page size as a limit and its offset, each only
/// when positive.
pub open spec fn paginated<C>(p: SelectPlanView<C>, q: SearchQueryView) -> SelectPlanView<C> {
    SelectPlanView {
        limit: if q.length > 0 {
            Some(q.length as u64)
        } else {
            p.limit
        },
        offset: if q.offset > 0 {
            Some(q.offset as u64)
        } else {
            p.offset
        },
        ..p
    }
}

pub open spec fn invalid_sort_message(order: i32) -> Seq<char> {
    "Invalid sort direction: "@ + decimal_text(order)
}

/// The direction that a wire number asks for; an unspecified one is ascending.
pub open spec fn sort_order(order: i32) -> Result<Order, QueryErrorView> {
    match sort_direction_of_code(order) {
        Some(SortDirection::Desc) => Ok(Order::Desc),
        Some(_) => Ok(Order::Asc),
        None => Err(QueryErrorView::InvalidOperator(invalid_sort_message(order))),
    }
}

/// The plan ordered by the sort option's column, if there is a sort option.
pub open spec fn sorted<C>(p: SelectPlanView<C>, sort: Option<SearchSortOptionView>, map: FieldColumnMap<C>) -> Result<SelectPlanView<C>, QueryErrorView> {
    match sort {
        None => Ok(p),
        Some(s) => match map.resolve(s.field) {
            None => Err(QueryErrorView::InvalidField(missing_field_message(s.field))),
            Some(column) => match sort_order(s.order) {
                Err(e) => Err(e),
                Ok(o) => Ok(SelectPlanView { order_by: p.order_by.push((column, o)), ..p }),
            },
        },
    }
}

/// What a query makes of a base plan: its compiled groups (unless
/// `bypass_filter`), then its limit and offset, then its sort, all after
/// normalization; or the first error.
pub open spec fn assembled<C>(q: SearchQueryView, map: FieldColumnMap<C>, base: SelectPlanView<C>, bypass_filter: bool) -> Result<SelectPlanView<C>, QueryErrorView> {
    let with_filters = if bypass_filter {
        Ok(base)
    } else {
        match filter_groups(q, map) {
            Err(e) => Err(e),
            Ok((m, a)) => Ok(attach_groups(base, m, a)),
        }
    };
    match with_filters {
        Err(e) => Err(e),
        Ok(p) => sorted(paginated(p, q), normalized(q).sort, map),
    }
}

/// With `find_all` the filter does not count: two requests that differ in
/// their filter alone are assembled alike, the base's groups stay as they
/// were, and limit, offset and sort apply as without it.
pub proof fn lemma_find_all_bypasses_filter<C>(
    q1: SearchQueryView,
    q2: SearchQueryView,
    map: FieldColumnMap<C>,
    base: SelectPlanView<C>,
)
    requires
        q1.find_all,
        q2 == (SearchQueryView { filter: q2.filter, ..q1 }),
    ensures
        assembled(q1, map, base, q1.find_all) == assembled(q2, map, base, q2.find_all),
        assembled(q1, map, base, q1.find_all) == sorted(paginated(base, q1), normalized(q1).sort, map),
        assembled(q1, map, base, q1.find_all) is Ok ==> assembled(q1, map, base, q1.find_all)->Ok_0.filters
            == base.filters,
{
}

/// Orders the selection by the column of `sort_condition`'s field,
/// ascending unless the direction is descending.
pub fn add_sort_to_select<C: Copy>(
    select_entity: SelectPlan<C>,
    sort_condition: SearchSortOption,
    field_to_column_map: &FieldColumnMap<C>,
) -> (r: Result<SelectPlan<C>, PebbleQueryError>)
    ensures
        match sorted(select_entity@, Some(sort_condition@), *field_to_column_map) {
            Ok(p) => r matches Ok(s) && s@ == p,
            Err(e) => r matches Err(x) && x@ == e,
        },
{
    let column = match field_to_column_map.get(&sort_condition.field) {
        Some(c) => c,
        None => {
            let mut message = String::from_str("Column \"");
            message.append(sort_condition.field.as_str());
            message.append("\" not provided in field_to_column_map");
            return Err(PebbleQueryError::InvalidField(message));
        },
    };
    let order = match SortDirection::from_i32(sort_condition.order) {
        Some(SortDirection::Desc) => Order::Desc,
        Some(_) => Order::Asc,
        None => {
            let mut message = String::from_str("Invalid sort direction: ");
            let code = int_to_text(sort_condition.order);
            message.append(code.as_str());
            return Err(PebbleQueryError::InvalidOperator(message));
        },
    };
    Ok(select_entity.order_by(column, order))
}

fn assemble<C: Copy>(
    query: &SearchQuery,
    field_to_column_map: &FieldColumnMap<C>,
    select: SelectPlan<C>,
    bypass_filter: bool,
) -> (r: Result<SelectPlan<C>, PebbleQueryError>)
    ensures
        match assembled(query@, *field_to_column_map, select@, bypass_filter) {
            Ok(p) => r matches Ok(s) && s@ == p,
            Err(e) => r matches Err(x) && x@ == e,
        },
{
    let mut plan = select;
    if !bypass_filter {
        let (must, any) = match query_to_seaorm_conditions(query, field_to_column_map) {
            Ok(groups) => groups,
            Err(e) => return Err(e),
        };
        if !must.is_empty() {
            plan = plan.filter(must);
        }
        if !any.is_empty() {
            plan = plan.filter(any);
        }
    }
    if query.length > 0 {
        plan = plan.limit(query.length as u64);
    }
    if query.offset > 0 {
        plan = plan.offset(query.offset as u64);
    }
    match &query.sort {
        Some(sort) => {
            let normalized_sort = SearchSortOption { field: to_snake_case(&sort.field), order: sort.order };
            add_sort_to_select(plan, normalized_sort, field_to_column_map)
        },
        None => Ok(plan),
    }
}

/// Adds to `select_with_conditions` the query's compiled groups (each only
/// when it has a member), its limit and offset (each only when positive) and
/// its sort; fails on the first field, operator or value that does not
/// compile.
pub fn query_to_select<C: Copy>(
    query: &SearchQuery,
    field_to_column_map: &FieldColumnMap<C>,
    select_with_conditions: SelectPlan<C>,
) -> (r: Result<SelectPlan<C>, PebbleQueryError>)
    ensures
        match assembled(query@, *field_to_column_map, select_with_conditions@, false) {
            Ok(p) => r matches Ok(s) && s@ == p,
            Err(e) => r matches Err(x) && x@ == e,
        },
{
    assemble(query, field_to_column_map, select_with_conditions, false)
}

/// As [`query_to_select`] on a selection reached through a relation, except
/// that with `find_all` the filter is neither compiled nor attached.
pub fn apply_linked_conditions_to_select<C: Copy>(
    query: &SearchQuery,
    field_to_column_map: &FieldColumnMap<C>,
    linked_select: SelectPlan<C>,
) -> (r: Result<SelectPlan<C>, PebbleQueryError>)
    ensures
        match assembled(query@, *field_to_column_map, linked_select@, query.find_all) {
            Ok(p) => r matches Ok(s) && s@ == p,
            Err(e) => r matches Err(x) && x@ == e,
        },
{
    assemble(query, field_to_column_map, linked_select, query.find_all)
}

/// As [`apply_linked_conditions_to_select`] on an unfiltered selection.
pub fn apply_conditions_to_select<C: Copy>(
    query: &SearchQuery,
    field_to_column_map: &FieldColumnMap<C>,
) -> (r: Result<SelectPlan<C>, PebbleQueryError>)
    ensures
        match assembled(query@, *field_to_column_map, empty_plan::<C>(), query.find_all) {
            Ok(p) => r matches Ok(s) && s@ == p,
            Err(e) => r matches Err(x) && x@ == e,
        },
{
    assemble(query, field_to_column_map, SelectPlan::new(), query.find_all)
}

} // verus!
