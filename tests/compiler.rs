use pebble_query::condition::{
    add_query_condition_to_sea_orm_condition, query_to_seaorm_conditions, Condition,
    ConditionType, Predicate,
};
use pebble_query::dto::{
    SearchCondition, SearchFilter, SearchOperator, SearchQuery, SearchSortOption, SortDirection,
};
use pebble_query::errors::PebbleQueryError;
use pebble_query::field_map::FieldColumnMap;
use pebble_query::normalize::normalize_query;
use pebble_query::select::{
    add_sort_to_select, apply_conditions_to_select, query_to_select, Order, SelectPlan,
};

fn cond(field: &str, op: SearchOperator, value: Option<&str>) -> SearchCondition {
    SearchCondition {
        field: field.to_string(),
        operator: op.as_i32(),
        threshold_bits: None,
        value: value.map(|v| v.to_string()),
        value_to: None,
        value_list: vec![],
    }
}

fn map() -> FieldColumnMap<&'static str> {
    let mut m = FieldColumnMap::new();
    m.insert("status".to_string(), "t.status");
    m.insert("age".to_string(), "t.age");
    m.insert("type".to_string(), "t.type");
    m.insert("created_at".to_string(), "t.created_at");
    m.insert("my_field".to_string(), "t.my_field");
    m
}

fn query_with(must: Vec<SearchCondition>, any: Vec<SearchCondition>) -> SearchQuery {
    SearchQuery { filter: Some(SearchFilter { must, any }), ..SearchQuery::default() }
}

#[test]
fn operator_names_round_trip() {
    assert_eq!(SearchOperator::GreaterThanOrEquals.as_str_name(), "SEARCH_OPERATOR_GREATER_THAN_OR_EQUALS");
    assert_eq!(SearchOperator::from_str_name("SEARCH_OPERATOR_NOT_BETWEEN"), Some(SearchOperator::NotBetween));
    assert_eq!(SearchOperator::from_str_name("SEARCH_OPERATOR_UNKNOWN"), None);
    assert_eq!(SortDirection::Desc.as_str_name(), "SORT_DIRECTION_DESC");
    assert_eq!(SortDirection::from_str_name("SORT_DIRECTION_ASC"), Some(SortDirection::Asc));
    assert_eq!(SortDirection::from_str_name("asc"), None);
}

#[test]
fn operator_wire_numbers() {
    assert_eq!(SearchOperator::Like.as_i32(), 21);
    assert_eq!(SearchOperator::Between.as_i32(), 25);
    assert_eq!(SearchOperator::from_i32(9), Some(SearchOperator::Contains));
    assert_eq!(SearchOperator::from_i32(99), None);
    assert_eq!(SortDirection::from_i32(2), Some(SortDirection::Desc));
}

#[test]
fn field_map_last_insert_wins() {
    let mut m: FieldColumnMap<u32> = FieldColumnMap::new();
    assert_eq!(m.get(&"a".to_string()), None);
    m.insert("a".to_string(), 1);
    m.insert("b".to_string(), 2);
    m.insert("a".to_string(), 3);
    assert_eq!(m.get(&"a".to_string()), Some(3));
    assert_eq!(m.get(&"b".to_string()), Some(2));
    assert_eq!(m.get(&"c".to_string()), None);
}

#[test]
fn contains_wraps_value_in_wildcards() {
    let c = cond("status", SearchOperator::Contains, Some("act"));
    let g = add_query_condition_to_sea_orm_condition(Condition::all(), &c, "t.status").unwrap();
    assert_eq!(g.conditions, vec![Predicate::Like("t.status", "%act%".to_string())]);
}

#[test]
fn like_passes_pattern_verbatim() {
    let c = cond("status", SearchOperator::Like, Some("a_t%"));
    let g = add_query_condition_to_sea_orm_condition(Condition::any(), &c, "t.status").unwrap();
    assert_eq!(g.condition_type, ConditionType::Any);
    assert_eq!(g.conditions, vec![Predicate::Like("t.status", "a_t%".to_string())]);
}

#[test]
fn comparison_and_null_operators() {
    let cases = vec![
        (SearchOperator::Equals, Predicate::Eq("c", "5".to_string())),
        (SearchOperator::NotEquals, Predicate::Ne("c", "5".to_string())),
        (SearchOperator::GreaterThan, Predicate::Gt("c", "5".to_string())),
        (SearchOperator::GreaterThanOrEquals, Predicate::Gte("c", "5".to_string())),
        (SearchOperator::LessThan, Predicate::Lt("c", "5".to_string())),
        (SearchOperator::LessThanOrEquals, Predicate::Lte("c", "5".to_string())),
        (SearchOperator::IsNull, Predicate::IsNull("c")),
        (SearchOperator::IsNotNull, Predicate::IsNotNull("c")),
    ];
    for (op, expected) in cases {
        let c = cond("x", op, Some("5"));
        let g = add_query_condition_to_sea_orm_condition(Condition::all(), &c, "c").unwrap();
        assert_eq!(g.conditions, vec![expected]);
    }
}

#[test]
fn set_membership_uses_value_list() {
    let mut c = cond("type", SearchOperator::NotIn, None);
    c.value_list = vec!["a".to_string(), "b".to_string()];
    let g = add_query_condition_to_sea_orm_condition(Condition::all(), &c, "t.type").unwrap();
    assert_eq!(g.conditions, vec![Predicate::NotIn("t.type", vec!["a".to_string(), "b".to_string()])]);
}

#[test]
fn between_builds_inclusive_range() {
    let mut c = cond("age", SearchOperator::Between, Some("18"));
    c.value_to = Some("65".to_string());
    let g = add_query_condition_to_sea_orm_condition(Condition::all(), &c, "t.age").unwrap();
    assert_eq!(g.conditions, vec![Predicate::Between("t.age", "18".to_string(), "65".to_string())]);
}

#[test]
fn not_between_without_lower_bound_fails() {
    let mut c = cond("age", SearchOperator::NotBetween, None);
    c.value_to = Some("65".to_string());
    match add_query_condition_to_sea_orm_condition(Condition::all(), &c, "t.age") {
        Err(PebbleQueryError::MissingValue(m)) => assert_eq!(m, "value is required for not between"),
        other => panic!("unexpected {:?}", other),
    }
}

#[test]
fn unsupported_operator_is_named() {
    for code in [0, 99, SearchOperator::StartsWith.as_i32()] {
        let c = SearchCondition { operator: code, ..cond("x", SearchOperator::Equals, Some("v")) };
        match add_query_condition_to_sea_orm_condition(Condition::all(), &c, "c") {
            Err(e @ PebbleQueryError::InvalidOperator(_)) => {
                assert_eq!(e.message(), format!("Invalid operator: Invalid operator: {}", code));
            }
            other => panic!("unexpected {:?}", other),
        }
    }
}

#[test]
fn unknown_field_is_an_error_not_a_crash() {
    let q = query_with(vec![cond("Colour", SearchOperator::Equals, Some("red"))], vec![]);
    match query_to_seaorm_conditions(&q, &map()) {
        Err(PebbleQueryError::InvalidField(m)) => {
            assert_eq!(m, "Column \"colour\" not provided in field_to_column_map")
        }
        other => panic!("unexpected {:?}", other),
    }
}

#[test]
fn must_and_any_compile_into_two_groups() {
    let q = query_with(
        vec![cond("Status", SearchOperator::Equals, Some("active")), cond("AGE", SearchOperator::IsNotNull, None)],
        vec![cond("type", SearchOperator::Equals, Some("a")), cond("type", SearchOperator::Equals, Some("b"))],
    );
    let (must, any) = query_to_seaorm_conditions(&q, &map()).unwrap();
    assert_eq!(must.condition_type, ConditionType::All);
    assert_eq!(must.conditions, vec![Predicate::Eq("t.status", "active".to_string()), Predicate::IsNotNull("t.age")]);
    assert_eq!(any.condition_type, ConditionType::Any);
    assert_eq!(any.conditions, vec![Predicate::Eq("t.type", "a".to_string()), Predicate::Eq("t.type", "b".to_string())]);
}

#[test]
fn normalize_converts_to_snake_case_on_a_copy() {
    let mut q = query_with(vec![cond("My Field", SearchOperator::Equals, Some("v"))], vec![cond("myField", SearchOperator::IsNull, None)]);
    q.sort = Some(SearchSortOption { field: "Created At".to_string(), order: 2 });
    let n = normalize_query(&q);
    let f = n.filter.as_ref().unwrap();
    assert_eq!(f.must[0].field, "my_field");
    assert_eq!(f.must[0].value, Some("v".to_string()));
    assert_eq!(f.any[0].field, "my_field");
    assert_eq!(n.sort.as_ref().unwrap().field, "created_at");
    assert_eq!(q.filter.as_ref().unwrap().must[0].field, "My Field");
}

#[test]
fn normalize_keeps_snake_case_query() {
    let mut q = query_with(vec![cond("status", SearchOperator::Equals, Some("x"))], vec![cond("created_at", SearchOperator::IsNull, None)]);
    q.sort = Some(SearchSortOption { field: "my_field".to_string(), order: 1 });
    q.length = 7;
    assert_eq!(normalize_query(&q), q);
}

#[test]
fn empty_groups_are_not_attached() {
    let q = SearchQuery { length: 5, offset: 10, ..SearchQuery::default() };
    let p = query_to_select(&q, &map(), SelectPlan::new()).unwrap();
    assert!(p.filters.is_empty());
    assert_eq!(p.limit, Some(5));
    assert_eq!(p.offset, Some(10));
    assert!(p.order_by.is_empty());
}

#[test]
fn only_non_empty_group_is_attached() {
    let q = query_with(vec![], vec![cond("type", SearchOperator::Equals, Some("a"))]);
    let p = query_to_select(&q, &map(), SelectPlan::new()).unwrap();
    assert_eq!(p.filters.len(), 1);
    assert_eq!(p.filters[0].condition_type, ConditionType::Any);
    assert_eq!(p.limit, None);
    assert_eq!(p.offset, None);
}

#[test]
fn base_limit_stands_without_length() {
    let base = SelectPlan::new().limit(3);
    let q = SearchQuery { length: 0, ..SearchQuery::default() };
    let p = query_to_select(&q, &map(), base).unwrap();
    assert_eq!(p.limit, Some(3));
}

#[test]
fn sort_directions() {
    let asc = add_sort_to_select(SelectPlan::new(), SearchSortOption { field: "age".to_string(), order: 0 }, &map()).unwrap();
    assert_eq!(asc.order_by, vec![("t.age", Order::Asc)]);
    let desc = add_sort_to_select(SelectPlan::new(), SearchSortOption { field: "age".to_string(), order: 2 }, &map()).unwrap();
    assert_eq!(desc.order_by, vec![("t.age", Order::Desc)]);
    match add_sort_to_select(SelectPlan::new(), SearchSortOption { field: "age".to_string(), order: 7 }, &map()) {
        Err(PebbleQueryError::InvalidOperator(m)) => assert_eq!(m, "Invalid sort direction: 7"),
        other => panic!("unexpected {:?}", other),
    }
    assert!(matches!(
        add_sort_to_select(SelectPlan::new(), SearchSortOption { field: "nope".to_string(), order: 1 }, &map()),
        Err(PebbleQueryError::InvalidField(_))
    ));
}

#[test]
fn find_all_bypasses_filters_but_keeps_sort_and_paging() {
    let mut q = query_with(vec![cond("unknown", SearchOperator::Equals, Some("x"))], vec![cond("status", SearchOperator::Equals, Some("y"))]);
    q.find_all = true;
    q.length = 4;
    q.offset = 2;
    q.sort = Some(SearchSortOption { field: "Age".to_string(), order: 2 });
    let p = apply_conditions_to_select(&q, &map()).unwrap();
    assert!(p.filters.is_empty());
    assert_eq!(p.limit, Some(4));
    assert_eq!(p.offset, Some(2));
    assert_eq!(p.order_by, vec![("t.age", Order::Desc)]);
}

#[test]
fn find_one_keeps_filters() {
    let mut q = query_with(vec![cond("status", SearchOperator::Equals, Some("x"))], vec![]);
    q.find_one = true;
    let p = apply_conditions_to_select(&q, &map()).unwrap();
    assert_eq!(p.filters.len(), 1);
}

#[test]
fn value_operators_without_value_fail() {
    let cases = vec![
        (SearchOperator::Equals, "value is required for equals"),
        (SearchOperator::NotEquals, "value is required for not equals"),
        (SearchOperator::GreaterThan, "value is required for greater than"),
        (SearchOperator::GreaterThanOrEquals, "value is required for greater than or equals"),
        (SearchOperator::LessThan, "value is required for less than"),
        (SearchOperator::LessThanOrEquals, "value is required for less than or equals"),
        (SearchOperator::Contains, "value is required for contains"),
        (SearchOperator::Like, "value is required for like"),
        (SearchOperator::Between, "value is required for between"),
        (SearchOperator::In, "value_list is required for in"),
        (SearchOperator::NotIn, "value_list is required for not in"),
    ];
    for (op, expected) in cases {
        let c = cond("x", op, None);
        match add_query_condition_to_sea_orm_condition(Condition::all(), &c, "c") {
            Err(PebbleQueryError::MissingValue(m)) => assert_eq!(m, expected),
            other => panic!("unexpected {:?}", other),
        }
    }
}

#[test]
fn empty_value_compares_with_empty_text_but_not_as_range_bound() {
    let c = cond("x", SearchOperator::Equals, Some(""));
    let g = add_query_condition_to_sea_orm_condition(Condition::all(), &c, "c").unwrap();
    assert_eq!(g.conditions, vec![Predicate::Eq("c", String::new())]);
    let mut r = cond("x", SearchOperator::Between, Some(""));
    r.value_to = Some("9".to_string());
    match add_query_condition_to_sea_orm_condition(Condition::all(), &r, "c") {
        Err(PebbleQueryError::MissingValue(m)) => assert_eq!(m, "value is required for between"),
        other => panic!("unexpected {:?}", other),
    }
}

#[test]
fn query_with_missing_value_fails_to_compile() {
    let q = query_with(vec![cond("status", SearchOperator::Equals, None)], vec![]);
    assert!(matches!(query_to_seaorm_conditions(&q, &map()), Err(PebbleQueryError::MissingValue(_))));
    let q = query_with(vec![], vec![cond("type", SearchOperator::In, None)]);
    assert!(matches!(query_to_seaorm_conditions(&q, &map()), Err(PebbleQueryError::MissingValue(_))));
}
