use std::cmp::Ordering::{Greater, Less};
use std::collections::HashMap;

use pebble_query::condition::{Condition, ConditionType, Predicate};
use pebble_query::dto::{SearchCondition, SearchFilter, SearchOperator, SearchQuery, SearchSortOption};
use pebble_query::errors::PebbleQueryError;
use pebble_query::field_map::FieldColumnMap;
use pebble_query::query::{effective_query, plan_pebble_query, query_page_size, rows_of_one, DEFAULT_PAGE_SIZE};
use pebble_query::result::{ItemsAndPagesNumber, PebbleQueryResult};
use pebble_query::select::{Order, SelectPlan};

type Row = HashMap<&'static str, String>;

fn row(pairs: &[(&'static str, &str)]) -> Row {
    pairs.iter().map(|(k, v)| (*k, v.to_string())).collect()
}

fn compare(a: &str, b: &str) -> std::cmp::Ordering {
    match (a.parse::<i64>(), b.parse::<i64>()) {
        (Ok(x), Ok(y)) => x.cmp(&y),
        _ => a.cmp(b),
    }
}

fn like(value: &str, pattern: &str) -> bool {
    if pattern.len() >= 2 && pattern.starts_with('%') && pattern.ends_with('%') {
        value.contains(&pattern[1..pattern.len() - 1])
    } else {
        value == pattern
    }
}

fn holds(p: &Predicate<&'static str>, r: &Row) -> bool {
    let get = |c: &&'static str| r.get(*c);
    match p {
        Predicate::Eq(c, v) => get(c).map_or(false, |x| x == v),
        Predicate::Ne(c, v) => get(c).map_or(false, |x| x != v),
        Predicate::Gt(c, v) => get(c).map_or(false, |x| compare(x, v) == Greater),
        Predicate::Gte(c, v) => get(c).map_or(false, |x| compare(x, v) != Less),
        Predicate::Lt(c, v) => get(c).map_or(false, |x| compare(x, v) == Less),
        Predicate::Lte(c, v) => get(c).map_or(false, |x| compare(x, v) != Greater),
        Predicate::Like(c, v) => get(c).map_or(false, |x| like(x, v)),
        Predicate::In(c, l) => get(c).map_or(false, |x| l.contains(x)),
        Predicate::NotIn(c, l) => get(c).map_or(false, |x| !l.contains(x)),
        Predicate::IsNull(c) => get(c).is_none(),
        Predicate::IsNotNull(c) => get(c).is_some(),
        Predicate::Between(c, a, b) => get(c).map_or(false, |x| compare(x, a) != Less && compare(x, b) != Greater),
        Predicate::NotBetween(c, a, b) => get(c).map_or(false, |x| compare(x, a) == Less || compare(x, b) == Greater),
    }
}

fn group_holds(g: &Condition<&'static str>, r: &Row) -> bool {
    match g.condition_type {
        ConditionType::All => g.conditions.iter().all(|p| holds(p, r)),
        ConditionType::Any => g.conditions.iter().any(|p| holds(p, r)),
    }
}

/// Runs a request against rows held in memory, the way the storage engine
/// would: the data query, then the count query over the same groups.
fn run(rows: &[Row], query: Option<SearchQuery>, map: &FieldColumnMap<&'static str>) -> Result<PebbleQueryResult<Row>, PebbleQueryError> {
    let plan = plan_pebble_query(SelectPlan::new(), query, map)?;
    let mut matching: Vec<Row> = rows.iter().filter(|r| plan.select.filters.iter().all(|g| group_holds(g, r))).cloned().collect();
    for (column, order) in plan.select.order_by.iter().rev() {
        matching.sort_by(|a, b| {
            let o = compare(a.get(column).map_or("", |s| s.as_str()), b.get(column).map_or("", |s| s.as_str()));
            if *order == Order::Desc { o.reverse() } else { o }
        });
    }
    let page: Vec<Row> = matching
        .iter()
        .skip(plan.select.offset.unwrap_or(0) as usize)
        .take(plan.select.limit.map_or(usize::MAX, |l| l as usize))
        .cloned()
        .collect();
    let fetched = if plan.find_one { rows_of_one(page.into_iter().next()) } else { page };
    let items = matching.len() as u64;
    let counts = ItemsAndPagesNumber {
        number_of_items: items,
        number_of_pages: items / plan.page_size + (items % plan.page_size > 0) as u64,
    };
    Ok(PebbleQueryResult::from(plan.query, fetched, counts))
}

fn map() -> FieldColumnMap<&'static str> {
    let mut m = FieldColumnMap::new();
    m.insert("status".to_string(), "status");
    m.insert("age".to_string(), "age");
    m.insert("type".to_string(), "type");
    m.insert("created_at".to_string(), "created_at");
    m
}

fn dataset() -> Vec<Row> {
    (0..35)
        .map(|i| {
            let status = if i < 20 { "active" } else { "inactive" };
            let created = format!("{}", 1000 + (i * 8) % 35);
            row(&[("status", status), ("age", &format!("{}", 10 + i)), ("type", "c"), ("created_at", &created)])
        })
        .collect()
}

fn cond(field: &str, op: SearchOperator, value: Option<&str>) -> SearchCondition {
    SearchCondition {
        field: field.to_string(),
        operator: op.as_i32(),
        threshold_bits: None,
        value: value.map(|v| v.to_string()),
        value_to: None,
        value_list: vec![],
    }
}

#[test]
fn first_page_of_active_rows() {
    let q = SearchQuery {
        filter: Some(SearchFilter { must: vec![cond("Status", SearchOperator::Equals, Some("active"))], any: vec![] }),
        length: 10,
        offset: 0,
        ..SearchQuery::default()
    };
    let r = run(&dataset(), Some(q.clone()), &map()).unwrap();
    assert_eq!(r.results.len(), 10);
    assert!(r.results.iter().all(|x| x["status"] == "active"));
    assert_eq!(r.metadata.result_items, 10);
    assert_eq!(r.metadata.result_total_items, 20);
    assert_eq!(r.metadata.result_total_pages, 2);
    assert_eq!(r.metadata.length, 10);
    assert_eq!(r.metadata.query, Some(q));
    assert_eq!(r.metadata.filter_count, None);
}

#[test]
fn between_without_upper_bound_fails_before_running() {
    let q = SearchQuery {
        filter: Some(SearchFilter { must: vec![cond("age", SearchOperator::Between, Some("18"))], any: vec![] }),
        ..SearchQuery::default()
    };
    match plan_pebble_query(SelectPlan::<&'static str>::new(), Some(q), &map()) {
        Err(PebbleQueryError::MissingValue(m)) => assert_eq!(m, "value_to is required for between"),
        other => panic!("unexpected {:?}", other),
    }
}

#[test]
fn sort_field_in_human_casing_orders_descending() {
    let mut m = FieldColumnMap::new();
    m.insert("created_at".to_string(), "created_at");
    let q = SearchQuery { sort: Some(SearchSortOption { field: "Created At".to_string(), order: 2 }), ..SearchQuery::default() };
    let plan = plan_pebble_query(SelectPlan::new(), Some(q.clone()), &m).unwrap();
    assert_eq!(plan.select.order_by, vec![("created_at", Order::Desc)]);
    let r = run(&dataset(), Some(q), &m).unwrap();
    let values: Vec<i64> = r.results.iter().map(|x| x["created_at"].parse().unwrap()).collect();
    assert_eq!(values.len(), 35);
    assert!(values.windows(2).all(|w| w[0] >= w[1]));
    assert_eq!(values[0], 1034);
}

#[test]
fn no_matching_rows_is_an_empty_result() {
    let mut c = cond("type", SearchOperator::In, None);
    c.value_list = vec!["a".to_string(), "b".to_string()];
    let q = SearchQuery { filter: Some(SearchFilter { must: vec![], any: vec![c] }), ..SearchQuery::default() };
    let r = run(&dataset(), Some(q), &map()).unwrap();
    assert!(r.results.is_empty());
    assert_eq!(r.metadata.result_items, 0);
    assert_eq!(r.metadata.result_total_items, 0);
    assert_eq!(r.metadata.result_total_pages, 0);
}

#[test]
fn find_one_returns_at_most_one_row() {
    let q = SearchQuery {
        filter: Some(SearchFilter { must: vec![cond("status", SearchOperator::Equals, Some("active"))], any: vec![] }),
        find_one: true,
        ..SearchQuery::default()
    };
    let r = run(&dataset(), Some(q.clone()), &map()).unwrap();
    assert_eq!(r.results.len(), 1);
    assert_eq!(r.metadata.result_items, 1);
    assert_eq!(r.metadata.result_total_items, 20);
    let none = run(&[], Some(q), &map()).unwrap();
    assert_eq!(none.results.len(), 0);
    assert_eq!(none.metadata.result_items, 0);
    assert_eq!(rows_of_one(Some(5)), vec![5]);
    assert_eq!(rows_of_one::<u8>(None), Vec::<u8>::new());
}

#[test]
fn zero_length_uses_default_count_page_size_and_no_limit() {
    let q = SearchQuery { length: 0, ..SearchQuery::default() };
    assert_eq!(query_page_size(&q), DEFAULT_PAGE_SIZE);
    assert_eq!(query_page_size(&SearchQuery { length: -3, ..SearchQuery::default() }), 25);
    assert_eq!(query_page_size(&SearchQuery { length: 8, ..SearchQuery::default() }), 8);
    let plan = plan_pebble_query(SelectPlan::new(), Some(q.clone()), &map()).unwrap();
    assert_eq!(plan.page_size, 25);
    assert_eq!(plan.select.limit, None);
    let r = run(&dataset(), Some(q), &map()).unwrap();
    assert_eq!(r.results.len(), 35);
    assert_eq!(r.metadata.result_total_pages, 2);
}

#[test]
fn missing_request_means_everything() {
    let q = effective_query(None);
    assert!(q.find_all);
    assert!(!q.find_one);
    assert_eq!(q.filter, None);
    let r = run(&dataset(), None, &map()).unwrap();
    assert_eq!(r.results.len(), 35);
    assert_eq!(r.metadata.result_total_items, 35);
    assert_eq!(r.metadata.query.unwrap().find_all, true);
}

#[test]
fn find_all_ignores_filter_when_running() {
    let q = SearchQuery {
        filter: Some(SearchFilter { must: vec![cond("status", SearchOperator::Equals, Some("active"))], any: vec![] }),
        find_all: true,
        length: 5,
        offset: 30,
        ..SearchQuery::default()
    };
    let r = run(&dataset(), Some(q), &map()).unwrap();
    assert_eq!(r.results.len(), 5);
    assert_eq!(r.metadata.result_total_items, 35);
    assert_eq!(r.metadata.result_total_pages, 7);
}

#[test]
fn all_of_must_and_one_of_any() {
    let mut rows = dataset();
    rows[0].insert("type", "a".to_string());
    rows[1].insert("type", "b".to_string());
    rows[25].insert("type", "a".to_string());
    let q = SearchQuery {
        filter: Some(SearchFilter {
            must: vec![cond("status", SearchOperator::Equals, Some("active"))],
            any: vec![cond("type", SearchOperator::Equals, Some("a")), cond("type", SearchOperator::Equals, Some("b"))],
        }),
        ..SearchQuery::default()
    };
    let r = run(&rows, Some(q), &map()).unwrap();
    assert_eq!(r.results.len(), 2);
    assert_eq!(r.metadata.result_total_items, 2);
    assert_eq!(r.metadata.result_total_pages, 1);
}
