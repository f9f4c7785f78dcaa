use vstd::prelude::*;

use crate::casing::{decimal_text, int_to_text};
use crate::dto::{
    conditions_view, opt_text, texts, SearchCondition, SearchConditionView, SearchOperator, SearchQuery,
    SearchQueryView,
};
use crate::errors::{PebbleQueryError, QueryErrorView};
use crate::field_map::FieldColumnMap;
use crate::normalize::{copy_opt_text, copy_texts, normalize_query, normalized};

verus! {

/// One test on one column; `C` is the caller's column reference.
#[derive(Clone, Debug, PartialEq)]
pub enum Predicate<C> {
    Eq(C, String),
    Ne(C, String),
    Gt(C, String),
    Gte(C, String),
    Lt(C, String),
    Lte(C, String),
    /// A pattern match; `%` stands for any run of characters.
    Like(C, String),
    In(C, Vec<String>),
    NotIn(C, Vec<String>),
    IsNull(C),
    IsNotNull(C),
    /// An inclusive range.
    Between(C, String, String),
    NotBetween(C, String, String),
}

/// A [`Predicate`] with its texts as characters.
pub enum PredicateView<C> {
    Eq(C, Seq<char>),
    Ne(C, Seq<char>),
    Gt(C, Seq<char>),
    Gte(C, Seq<char>),
    Lt(C, Seq<char>),
    Lte(C, Seq<char>),
    Like(C, Seq<char>),
    In(C, Seq<Seq<char>>),
    NotIn(C, Seq<Seq<char>>),
    IsNull(C),
    IsNotNull(C),
    Between(C, Seq<char>, Seq<char>),
    NotBetween(C, Seq<char>, Seq<char>),
}

impl<C> View for Predicate<C> {
    type V = PredicateView<C>;

    open spec fn view(&self) -> PredicateView<C> {
        match self {
            Predicate::Eq(c, v) => PredicateView::Eq(*c, v@),
            Predicate::Ne(c, v) => PredicateView::Ne(*c, v@),
            Predicate::Gt(c, v) => PredicateView::Gt(*c, v@),
            Predicate::Gte(c, v) => PredicateView::Gte(*c, v@),
            Predicate::Lt(c, v) => PredicateView::Lt(*c, v@),
            Predicate::Lte(c, v) => PredicateView::Lte(*c, v@),
            Predicate::Like(c, v) => PredicateView::Like(*c, v@),
            Predicate::In(c, l) => PredicateView::In(*c, texts(l@)),
            Predicate::NotIn(c, l) => PredicateView::NotIn(*c, texts(l@)),
            Predicate::IsNull(c) => PredicateView::IsNull(*c),
            Predicate::IsNotNull(c) => PredicateView::IsNotNull(*c),
            Predicate::Between(c, a, b) => PredicateView::Between(*c, a@, b@),
            Predicate::NotBetween(c, a, b) => PredicateView::NotBetween(*c, a@, b@),
        }
    }
}

/// How the members of a group combine.
#[derive(Clone, Copy, Debug, PartialEq, Eq, Structural)]
pub enum ConditionType {
    /// Every member must hold.
    All,
    /// At least one member must hold.
    Any,
}

/// A group of predicates combined by one operator.
#[derive(Clone, Debug, PartialEq)]
pub struct Condition<C> {
    pub condition_type: ConditionType,
    pub conditions: Vec<Predicate<C>>,
}

pub struct ConditionView<C> {
    pub condition_type: ConditionType,
    pub conditions: Seq<PredicateView<C>>,
}

pub open spec fn predicates_view<C>(v: Seq<Predicate<C>>) -> Seq<PredicateView<C>> {
    v.map_values(|p: Predicate<C>| p@)
}

impl<C> View for Condition<C> {
    type V = ConditionView<C>;

    open spec fn view(&self) -> ConditionView<C> {
        ConditionView { condition_type: self.condition_type, conditions: predicates_view(self.conditions@) }
    }
}

/// Whether a row passes a group, where `holds` says which predicates the row
/// satisfies: an `All` group asks for each member, an `Any` group for one.
pub open spec fn group_holds<C>(g: ConditionView<C>, holds: spec_fn(PredicateView<C>) -> bool) -> bool {
    match g.condition_type {
        ConditionType::All => forall|i: int| 0 <= i < g.conditions.len() ==> holds(#[trigger] g.conditions[i]),
        ConditionType::Any => exists|i: int| 0 <= i < g.conditions.len() && holds(#[trigger] g.conditions[i]),
    }
}

impl<C> Condition<C> {
    /// An empty group whose members must all hold.
    pub fn all() -> (r: Self)
        ensures
            r@ == (ConditionView::<C> { condition_type: ConditionType::All, conditions: Seq::empty() }),
    {
        let r = Condition { condition_type: ConditionType::All, conditions: Vec::new() };
        assert(r@.conditions =~= Seq::empty());
        r
    }

    /// An empty group of which one member must hold.
    pub fn any() -> (r: Self)
        ensures
            r@ == (ConditionView::<C> { condition_type: ConditionType::Any, conditions: Seq::empty() }),
    {
        let r = Condition { condition_type: ConditionType::Any, conditions: Vec::new() };
        assert(r@.conditions =~= Seq::empty());
        r
    }

    /// The group with one more member.
    pub fn add(self, p: Predicate<C>) -> (r: Self)
        ensures
            r@ == (ConditionView { condition_type: self@.condition_type, conditions: self@.conditions.push(p@) }),
    {
        let Condition { condition_type, mut conditions } = self;
        let ghost before = conditions@;
        conditions.push(p);
        let r = Condition { condition_type, conditions };
        assert(r@.conditions =~= predicates_view(before).push(p@));
        r
    }

    /// Whether the group has no member.
    pub fn is_empty(&self) -> (r: bool)
        ensures
            r == (self@.conditions.len() == 0),
    {
        self.conditions.len() == 0
    }
}

pub open spec fn value_or_empty(v: Option<Seq<char>>) -> Seq<char> {
    match v {
        Some(s) => s,
        None => Seq::empty(),
    }
}

pub open spec fn invalid_operator_message(operator: i32) -> Seq<char> {
    "Invalid operator: "@ + decimal_text(operator)
}

/// What one condition compiles to on a resolved column: the predicate, or the
/// error when the operator is not supported or a value that it needs is absent
/// (`value` for the comparisons and pattern matches, a non-empty `value_list`
/// for set membership, a non-empty `value` and a `value_to` for ranges).
pub open spec fn predicate_for<C>(
    operator: i32,
    column: C,
    value: Option<Seq<char>>,
    value_list: Seq<Seq<char>>,
    value_to: Option<Seq<char>>,
) -> Result<PredicateView<C>, QueryErrorView> {
    match crate::dto::search_operator_of_code(operator) {
        Some(SearchOperator::Contains) => match value {
            Some(v) => Ok(PredicateView::Like(column, "%"@ + v + "%"@)),
            None => Err(QueryErrorView::MissingValue("value is required for contains"@)),
        },
        Some(SearchOperator::Equals) => match value {
            Some(v) => Ok(PredicateView::Eq(column, v)),
            None => Err(QueryErrorView::MissingValue("value is required for equals"@)),
        },
        Some(SearchOperator::GreaterThan) => match value {
            Some(v) => Ok(PredicateView::Gt(column, v)),
            None => Err(QueryErrorView::MissingValue("value is required for greater than"@)),
        },
        Some(SearchOperator::GreaterThanOrEquals) => match value {
            Some(v) => Ok(PredicateView::Gte(column, v)),
            None => Err(QueryErrorView::MissingValue("value is required for greater than or equals"@)),
        },
        Some(SearchOperator::Like) => match value {
            Some(v) => Ok(PredicateView::Like(column, v)),
            None => Err(QueryErrorView::MissingValue("value is required for like"@)),
        },
        Some(SearchOperator::LessThan) => match value {
            Some(v) => Ok(PredicateView::Lt(column, v)),
            None => Err(QueryErrorView::MissingValue("value is required for less than"@)),
        },
        Some(SearchOperator::LessThanOrEquals) => match value {
            Some(v) => Ok(PredicateView::Lte(column, v)),
            None => Err(QueryErrorView::MissingValue("value is required for less than or equals"@)),
        },
        Some(SearchOperator::NotEquals) => match value {
            Some(v) => Ok(PredicateView::Ne(column, v)),
            None => Err(QueryErrorView::MissingValue("value is required for not equals"@)),
        },
        Some(SearchOperator::In) => if value_list.len() == 0 {
            Err(QueryErrorView::MissingValue("value_list is required for in"@))
        } else {
            Ok(PredicateView::In(column, value_list))
        },
        Some(SearchOperator::NotIn) => if value_list.len() == 0 {
            Err(QueryErrorView::MissingValue("value_list is required for not in"@))
        } else {
            Ok(PredicateView::NotIn(column, value_list))
        },
        Some(SearchOperator::IsNull) => Ok(PredicateView::IsNull(column)),
        Some(SearchOperator::IsNotNull) => Ok(PredicateView::IsNotNull(column)),
        Some(SearchOperator::Between) => if value_or_empty(value).len() == 0 {
            Err(QueryErrorView::MissingValue("value is required for between"@))
        } else {
            match value_to {
                Some(t) => Ok(PredicateView::Between(column, value_or_empty(value), t)),
                None => Err(QueryErrorView::MissingValue("value_to is required for between"@)),
            }
        },
        Some(SearchOperator::NotBetween) => if value_or_empty(value).len() == 0 {
            Err(QueryErrorView::MissingValue("value is required for not between"@))
        } else {
            match value_to {
                Some(t) => Ok(PredicateView::NotBetween(column, value_or_empty(value), t)),
                None => Err(QueryErrorView::MissingValue("value_to is required for not between"@)),
            }
        },
        _ => Err(QueryErrorView::InvalidOperator(invalid_operator_message(operator))),
    }
}

/// What a condition compiles to on a resolved column.
pub open spec fn compile_condition<C>(c: SearchConditionView, column: C) -> Result<PredicateView<C>, QueryErrorView> {
    predicate_for(c.operator, column, c.value, c.value_list, c.value_to)
}

pub open spec fn missing_field_message(field: Seq<char>) -> Seq<char> {
    "Column \""@ + field + "\" not provided in field_to_column_map"@
}

/// What a condition compiles to: its field is resolved first, then its
/// operator and values are read.
pub open spec fn resolve_condition<C>(c: SearchConditionView, map: FieldColumnMap<C>) -> Result<PredicateView<C>, QueryErrorView> {
    match map.resolve(c.field) {
        None => Err(QueryErrorView::InvalidField(missing_field_message(c.field))),
        Some(column) => compile_condition(c, column),
    }
}

/// The predicates of a list of conditions, in order, or the error of the
/// first condition that fails.
pub open spec fn compile_all<C>(cs: Seq<SearchConditionView>, map: FieldColumnMap<C>) -> Result<Seq<PredicateView<C>>, QueryErrorView>
    decreases cs.len(),
{
    if cs.len() == 0 {
        Ok(Seq::empty())
    } else {
        match compile_all(cs.drop_last(), map) {
            Err(e) => Err(e),
            Ok(ps) => match resolve_condition(cs.last(), map) {
                Err(e) => Err(e),
                Ok(p) => Ok(ps.push(p)),
            },
        }
    }
}

/// The two groups that a query's filter compiles to after normalization: all
/// of `must`, and any of `any`; or the first error, `must` before `any`.
pub open spec fn filter_groups<C>(q: SearchQueryView, map: FieldColumnMap<C>) -> Result<(ConditionView<C>, ConditionView<C>), QueryErrorView> {
    let nq = normalized(q);
    let must = match nq.filter {
        Some(f) => f.must,
        None => Seq::empty(),
    };
    let any = match nq.filter {
        Some(f) => f.any,
        None => Seq::empty(),
    };
    match compile_all(must, map) {
        Err(e) => Err(e),
        Ok(m) => match compile_all(any, map) {
            Err(e) => Err(e),
            Ok(a) => Ok((
                ConditionView { condition_type: ConditionType::All, conditions: m },
                ConditionView { condition_type: ConditionType::Any, conditions: a },
            )),
        },
    }
}

proof fn lemma_compile_all_stops_at_error<C>(cs: Seq<SearchConditionView>, k: int, map: FieldColumnMap<C>)
    requires
        0 <= k <= cs.len(),
        compile_all(cs.take(k), map) is Err,
    ensures
        compile_all(cs, map) == compile_all(cs.take(k), map),
    decreases cs.len(),
{
    if k == cs.len() {
        assert(cs.take(k) =~= cs);
    } else {
        assert(cs.drop_last().take(k) =~= cs.take(k));
        lemma_compile_all_stops_at_error(cs.drop_last(), k, map);
    }
}

proof fn lemma_compile_all_members<C>(cs: Seq<SearchConditionView>, map: FieldColumnMap<C>)
    requires
        compile_all(cs, map) is Ok,
    ensures
        compile_all(cs, map)->Ok_0.len() == cs.len(),
        forall|i: int|
            0 <= i < cs.len() ==> resolve_condition(#[trigger] cs[i], map) == Ok::<PredicateView<C>, QueryErrorView>(
                compile_all(cs, map)->Ok_0[i],
            ),
    decreases cs.len(),
{
    if cs.len() > 0 {
        lemma_compile_all_members(cs.drop_last(), map);
        assert forall|i: int| 0 <= i < cs.len() - 1 implies #[trigger] cs[i] == cs.drop_last()[i] by {}
    }
}

/// The conditions of `must` after normalization, when the query has a filter.
pub open spec fn must_of(q: SearchQueryView) -> Seq<SearchConditionView> {
    match normalized(q).filter {
        Some(f) => f.must,
        None => Seq::empty(),
    }
}

/// The conditions of `any` after normalization, when the query has a filter.
pub open spec fn any_of(q: SearchQueryView) -> Seq<SearchConditionView> {
    match normalized(q).filter {
        Some(f) => f.any,
        None => Seq::empty(),
    }
}

/// A row passes the group compiled from a non-empty `must` list exactly when
/// it satisfies the predicate of every listed condition: a row that fails one
/// of them is rejected.
pub proof fn lemma_must_group_rejects_failing_row<C>(
    q: SearchQueryView,
    map: FieldColumnMap<C>,
    holds: spec_fn(PredicateView<C>) -> bool,
)
    requires
        must_of(q).len() > 0,
        filter_groups(q, map) is Ok,
    ensures
        compile_all(must_of(q), map) is Ok,
        group_holds(filter_groups(q, map)->Ok_0.0, holds) <==> forall|i: int|
            0 <= i < must_of(q).len() ==> holds(#[trigger] resolve_condition(must_of(q)[i], map)->Ok_0),
{
    let cs = must_of(q);
    lemma_compile_all_members(cs, map);
    let g = filter_groups(q, map)->Ok_0.0;
    assert(g.conditions == compile_all(cs, map)->Ok_0);
    if group_holds(g, holds) {
        assert forall|i: int| 0 <= i < cs.len() implies holds(#[trigger] resolve_condition(cs[i], map)->Ok_0) by {
            assert(holds(g.conditions[i]));
        }
    }
    if forall|i: int| 0 <= i < cs.len() ==> holds(#[trigger] resolve_condition(cs[i], map)->Ok_0) {
        assert forall|i: int| 0 <= i < g.conditions.len() implies holds(#[trigger] g.conditions[i]) by {
            assert(holds(resolve_condition(cs[i], map)->Ok_0));
        }
    }
}

/// A row passes the group compiled from a non-empty `any` list exactly when
/// it satisfies the predicate of at least one listed condition: a row that
/// satisfies none is rejected.
pub proof fn lemma_any_group_accepts_one_match<C>(
    q: SearchQueryView,
    map: FieldColumnMap<C>,
    holds: spec_fn(PredicateView<C>) -> bool,
)
    requires
        any_of(q).len() > 0,
        filter_groups(q, map) is Ok,
    ensures
        compile_all(any_of(q), map) is Ok,
        group_holds(filter_groups(q, map)->Ok_0.1, holds) <==> exists|i: int|
            0 <= i < any_of(q).len() && holds(#[trigger] resolve_condition(any_of(q)[i], map)->Ok_0),
{
    let cs = any_of(q);
    lemma_compile_all_members(cs, map);
    let g = filter_groups(q, map)->Ok_0.1;
    assert(g.conditions == compile_all(cs, map)->Ok_0);
    if group_holds(g, holds) {
        let i = choose|i: int| 0 <= i < g.conditions.len() && holds(#[trigger] g.conditions[i]);
        assert(holds(resolve_condition(cs[i], map)->Ok_0));
    }
    if exists|i: int| 0 <= i < cs.len() && holds(#[trigger] resolve_condition(cs[i], map)->Ok_0) {
        let i = choose|i: int| 0 <= i < cs.len() && holds(#[trigger] resolve_condition(cs[i], map)->Ok_0);
        assert(holds(g.conditions[i]));
    }
}

fn missing_value(message: &str) -> (r: PebbleQueryError)
    ensures
        r@ == QueryErrorView::MissingValue(message@),
{
    PebbleQueryError::MissingValue(message.to_owned())
}

/// Adds to `input_condition` the predicate that `operator` builds on `column`
/// from the values, or fails as [`predicate_for`] says.
fn add_condition<C: Copy>(
    input_condition: Condition<C>,
    operator: i32,
    column: C,
    value: Option<String>,
    value_list: Vec<String>,
    value_to: Option<String>,
) -> (r: Result<Condition<C>, PebbleQueryError>)
    ensures
        match predicate_for(operator, column, opt_text(value), texts(value_list@), opt_text(value_to)) {
            Ok(p) => r matches Ok(g) && g@ == (ConditionView {
                condition_type: input_condition@.condition_type,
                conditions: input_condition@.conditions.push(p),
            }),
            Err(e) => r matches Err(x) && x@ == e,
        },
{
    let predicate = match SearchOperator::from_i32(operator) {
        Some(SearchOperator::Contains) => match value {
            Some(v) => {
                let mut pattern = String::from_str("%");
                pattern.append(v.as_str());
                pattern.append("%");
                Predicate::Like(column, pattern)
            },
            None => return Err(missing_value("value is required for contains")),
        },
        Some(SearchOperator::Equals) => match value {
            Some(v) => Predicate::Eq(column, v),
            None => return Err(missing_value("value is required for equals")),
        },
        Some(SearchOperator::GreaterThan) => match value {
            Some(v) => Predicate::Gt(column, v),
            None => return Err(missing_value("value is required for greater than")),
        },
        Some(SearchOperator::GreaterThanOrEquals) => match value {
            Some(v) => Predicate::Gte(column, v),
            None => return Err(missing_value("value is required for greater than or equals")),
        },
        Some(SearchOperator::Like) => match value {
            Some(v) => Predicate::Like(column, v),
            None => return Err(missing_value("value is required for like")),
        },
        Some(SearchOperator::LessThan) => match value {
            Some(v) => Predicate::Lt(column, v),
            None => return Err(missing_value("value is required for less than")),
        },
        Some(SearchOperator::LessThanOrEquals) => match value {
            Some(v) => Predicate::Lte(column, v),
            None => return Err(missing_value("value is required for less than or equals")),
        },
        Some(SearchOperator::NotEquals) => match value {
            Some(v) => Predicate::Ne(column, v),
            None => return Err(missing_value("value is required for not equals")),
        },
        Some(SearchOperator::In) => {
            if value_list.len() == 0 {
                return Err(missing_value("value_list is required for in"));
            }
            Predicate::In(column, value_list)
        },
        Some(SearchOperator::NotIn) => {
            if value_list.len() == 0 {
                return Err(missing_value("value_list is required for not in"));
            }
            Predicate::NotIn(column, value_list)
        },
        Some(SearchOperator::IsNull) => Predicate::IsNull(column),
        Some(SearchOperator::IsNotNull) => Predicate::IsNotNull(column),
        Some(SearchOperator::Between) => {
            let from = match value {
                Some(v) => v,
                None => return Err(missing_value("value is required for between")),
            };
            if from.as_str().is_empty() {
                return Err(missing_value("value is required for between"));
            }
            match value_to {
                Some(t) => Predicate::Between(column, from, t),
                None => return Err(missing_value("value_to is required for between")),
            }
        },
        Some(SearchOperator::NotBetween) => {
            let from = match value {
                Some(v) => v,
                None => return Err(missing_value("value is required for not between")),
            };
            if from.as_str().is_empty() {
                return Err(missing_value("value is required for not between"));
            }
            match value_to {
                Some(t) => Predicate::NotBetween(column, from, t),
                None => return Err(missing_value("value_to is required for not between")),
            }
        },
        _ => {
            let mut message = String::from_str("Invalid operator: ");
            let code = int_to_text(operator);
            message.append(code.as_str());
            return Err(PebbleQueryError::InvalidOperator(message));
        },
    };
    Ok(input_condition.add(predicate))
}

/// Adds to `input_current_condition` the predicate that `filter` compiles to
/// on `column`, or fails as [`compile_condition`] says.
pub fn add_query_condition_to_sea_orm_condition<C: Copy>(
    input_current_condition: Condition<C>,
    filter: &SearchCondition,
    column: C,
) -> (r: Result<Condition<C>, PebbleQueryError>)
    ensures
        match compile_condition(filter@, column) {
            Ok(p) => r matches Ok(g) && g@ == (ConditionView {
                condition_type: input_current_condition@.condition_type,
                conditions: input_current_condition@.conditions.push(p),
            }),
            Err(e) => r matches Err(x) && x@ == e,
        },
{
    let value = copy_opt_text(&filter.value);
    let value_list = copy_texts(&filter.value_list);
    let value_to = copy_opt_text(&filter.value_to);
    add_condition(input_current_condition, filter.operator, column, value, value_list, value_to)
}

/// Resolves the condition's field through the map and adds its predicate to
/// `base_condition`.
fn extract_query_conditions<C: Copy>(
    base_condition: Condition<C>,
    sq_filter: &SearchCondition,
    field_column_map: &FieldColumnMap<C>,
) -> (r: Result<Condition<C>, PebbleQueryError>)
    ensures
        match resolve_condition(sq_filter@, *field_column_map) {
            Ok(p) => r matches Ok(g) && g@ == (ConditionView {
                condition_type: base_condition@.condition_type,
                conditions: base_condition@.conditions.push(p),
            }),
            Err(e) => r matches Err(x) && x@ == e,
        },
{
    match field_column_map.get(&sq_filter.field) {
        Some(column) => add_query_condition_to_sea_orm_condition(base_condition, sq_filter, column),
        None => {
            let mut message = String::from_str("Column \"");
            message.append(sq_filter.field.as_str());
            message.append("\" not provided in field_to_column_map");
            Err(PebbleQueryError::InvalidField(message))
        },
    }
}

/// Adds the predicates of all of `conditions` to `base`, in order.
fn extract_all_conditions<C: Copy>(
    base: Condition<C>,
    conditions: &Vec<SearchCondition>,
    field_column_map: &FieldColumnMap<C>,
) -> (r: Result<Condition<C>, PebbleQueryError>)
    ensures
        match compile_all(conditions_view(conditions@), *field_column_map) {
            Ok(ps) => r matches Ok(g) && g@ == (ConditionView {
                condition_type: base@.condition_type,
                conditions: base@.conditions + ps,
            }),
            Err(e) => r matches Err(x) && x@ == e,
        },
{
    let ghost cs = conditions_view(conditions@);
    let ghost base_view = base@;
    let mut current = base;
    let mut i: usize = 0;
    assert(cs.take(0) =~= Seq::<SearchConditionView>::empty());
    assert(base_view.conditions + Seq::<PredicateView<C>>::empty() =~= base_view.conditions);
    while i < conditions.len()
        invariant
            i <= conditions.len(),
            cs == conditions_view(conditions@),
            compile_all(cs.take(i as int), *field_column_map) matches Ok(ps)
                && current@ == (ConditionView {
                    condition_type: base_view.condition_type,
                    conditions: base_view.conditions + ps,
                }),
        decreases conditions.len() - i,
    {
        let ghost ps = compile_all(cs.take(i as int), *field_column_map)->Ok_0;
        assert(cs.take(i + 1).drop_last() =~= cs.take(i as int));
        assert(cs.take(i + 1).last() == conditions@[i as int]@);
        match extract_query_conditions(current, &conditions[i], field_column_map) {
            Ok(next) => {
                current = next;
                proof {
                    let p = resolve_condition(conditions@[i as int]@, *field_column_map)->Ok_0;
                    assert(base_view.conditions + ps.push(p) =~= (base_view.conditions + ps).push(p));
                }
            },
            Err(e) => {
                proof {
                    lemma_compile_all_stops_at_error(cs, i + 1, *field_column_map);
                }
                return Err(e);
            },
        }
        i = i + 1;
    }
    assert(cs.take(i as int) =~= cs);
    Ok(current)
}

/// Compiles the query's filter, after normalizing its field names, into a
/// group that asks for all of `must` and a group that asks for one of `any`.
pub fn query_to_seaorm_conditions<C: Copy>(
    query: &SearchQuery,
    field_to_column_map: &FieldColumnMap<C>,
) -> (r: Result<(Condition<C>, Condition<C>), PebbleQueryError>)
    ensures
        match filter_groups(query@, *field_to_column_map) {
            Ok((m, a)) => r matches Ok((rm, ra)) && rm@ == m && ra@ == a,
            Err(e) => r matches Err(x) && x@ == e,
        },
{
    let query = normalize_query(query);
    let must = Condition::all();
    let any = Condition::any();
    match &query.filter {
        Some(filter_set) => {
            assert(query@.filter == Some(filter_set@));
            let must = match extract_all_conditions(must, &filter_set.must, field_to_column_map) {
                Ok(g) => g,
                Err(e) => return Err(e),
            };
            let any = match extract_all_conditions(any, &filter_set.any, field_to_column_map) {
                Ok(g) => g,
                Err(e) => return Err(e),
            };
            proof {
                assert(Seq::<PredicateView<C>>::empty() + compile_all(filter_set@.must, *field_to_column_map)->Ok_0
                    =~= compile_all(filter_set@.must, *field_to_column_map)->Ok_0);
                assert(Seq::<PredicateView<C>>::empty() + compile_all(filter_set@.any, *field_to_column_map)->Ok_0
                    =~= compile_all(filter_set@.any, *field_to_column_map)->Ok_0);
            }
            Ok((must, any))
        },
        None => Ok((must, any)),
    }
}

} // verus!
