use vstd::prelude::*;

verus! {

/// Whether two texts hold the same characters.
pub fn same_text(a: &str, b: &str) -> (r: bool)
    ensures
        r == (a@ == b@),
{
    let x = a.to_owned();
    let y = b.to_owned();
    x == y
}

/// A search request: filters, sort, pagination and the execution mode.
#[derive(Clone, Debug, PartialEq)]
pub struct SearchQuery {
    /// When a relation is present, the other conditions apply after it.
    pub relation: Option<SearchRelation>,
    pub sort: Option<SearchSortOption>,
    pub offset: i32,
    /// Page size; zero or less means "use the default".
    pub length: i32,
    pub page: i32,
    pub filter: Option<SearchFilter>,
    /// Return only the first result.
    pub find_one: bool,
    /// Return all results, ignoring the filter.
    pub find_all: bool,
}

/// The relations of the object to search among.
#[derive(Clone, Debug, PartialEq)]
pub struct SearchRelation {
    pub parent_ids: Vec<i32>,
    /// The types of the child objects to keep.
    pub child_type: Vec<String>,
}

/// Two lists of conditions.
#[derive(Clone, Debug, PartialEq)]
pub struct SearchFilter {
    /// Conditions that must all be satisfied.
    pub must: Vec<SearchCondition>,
    /// Conditions of which at least one must be satisfied.
    pub any: Vec<SearchCondition>,
}

/// One condition on one field.
#[derive(Clone, Debug, PartialEq)]
pub struct SearchCondition {
    pub field: String,
    /// A [`SearchOperator`] by its wire number.
    pub operator: i32,
    /// The bits of the single-precision threshold reserved for similarity
    /// search (`f32::to_bits`); not consulted when compiling.
    pub threshold_bits: Option<u32>,
    /// The only or the first value.
    pub value: Option<String>,
    /// The second value, for `Between` and `NotBetween`.
    pub value_to: Option<String>,
    /// The values for `In` and `NotIn`.
    pub value_list: Vec<String>,
}

/// What was asked and what came back.
#[derive(Clone, Debug, PartialEq)]
pub struct SearchResultMetadata {
    /// How many results the response holds.
    pub result_items: i32,
    pub offset: i32,
    pub length: i32,
    pub page: i32,
    pub result_total_pages: i32,
    pub result_total_items: i32,
    pub query: Option<SearchQuery>,
    /// How many results a projection after the query dropped.
    pub filter_count: Option<i32>,
    /// Why they were dropped.
    pub filter_reason: Option<String>,
}

/// The field to order by and the direction.
#[derive(Clone, Debug, PartialEq)]
pub struct SearchSortOption {
    pub field: String,
    /// A [`SortDirection`] by its wire number.
    pub order: i32,
}

/// A [`SearchCondition`] with its texts as characters.
pub struct SearchConditionView {
    pub field: Seq<char>,
    pub operator: i32,
    pub threshold_bits: Option<u32>,
    pub value: Option<Seq<char>>,
    pub value_to: Option<Seq<char>>,
    pub value_list: Seq<Seq<char>>,
}

pub struct SearchFilterView {
    pub must: Seq<SearchConditionView>,
    pub any: Seq<SearchConditionView>,
}

pub struct SearchSortOptionView {
    pub field: Seq<char>,
    pub order: i32,
}

pub struct SearchRelationView {
    pub parent_ids: Seq<i32>,
    pub child_type: Seq<Seq<char>>,
}

pub struct SearchQueryView {
    pub relation: Option<SearchRelationView>,
    pub sort: Option<SearchSortOptionView>,
    pub offset: i32,
    pub length: i32,
    pub page: i32,
    pub filter: Option<SearchFilterView>,
    pub find_one: bool,
    pub find_all: bool,
}

pub open spec fn opt_text(o: Option<String>) -> Option<Seq<char>> {
    match o {
        Some(s) => Some(s@),
        None => None,
    }
}

pub open spec fn texts(v: Seq<String>) -> Seq<Seq<char>> {
    v.map_values(|s: String| s@)
}

impl View for SearchCondition {
    type V = SearchConditionView;

    open spec fn view(&self) -> SearchConditionView {
        SearchConditionView {
            field: self.field@,
            operator: self.operator,
            threshold_bits: self.threshold_bits,
            value: opt_text(self.value),
            value_to: opt_text(self.value_to),
            value_list: texts(self.value_list@),
        }
    }
}

pub open spec fn conditions_view(v: Seq<SearchCondition>) -> Seq<SearchConditionView> {
    v.map_values(|c: SearchCondition| c@)
}

impl View for SearchFilter {
    type V = SearchFilterView;

    open spec fn view(&self) -> SearchFilterView {
        SearchFilterView { must: conditions_view(self.must@), any: conditions_view(self.any@) }
    }
}

impl View for SearchSortOption {
    type V = SearchSortOptionView;

    open spec fn view(&self) -> SearchSortOptionView {
        SearchSortOptionView { field: self.field@, order: self.order }
    }
}

impl View for SearchRelation {
    type V = SearchRelationView;

    open spec fn view(&self) -> SearchRelationView {
        SearchRelationView { parent_ids: self.parent_ids@, child_type: texts(self.child_type@) }
    }
}

impl View for SearchQuery {
    type V = SearchQueryView;

    open spec fn view(&self) -> SearchQueryView {
        SearchQueryView {
            relation: match self.relation {
                Some(r) => Some(r@),
                None => None,
            },
            sort: match self.sort {
                Some(s) => Some(s@),
                None => None,
            },
            offset: self.offset,
            length: self.length,
            page: self.page,
            filter: match self.filter {
                Some(f) => Some(f@),
                None => None,
            },
            find_one: self.find_one,
            find_all: self.find_all,
        }
    }
}

#[derive(Clone, Copy, Debug, PartialEq, Eq, Structural, Hash)]
pub enum SearchOperator {
    Unspecified,
    /// SQL-like syntax.
    Like,
    NotLike,
    /// SQL-ilike syntax.
    Ilike,
    NotIlike,
    /// Semantic similarity, using cosine similarity.
    Similar,
    Equals,
    NotEquals,
    GreaterThan,
    GreaterThanOrEquals,
    LessThan,
    LessThanOrEquals,
    In,
    NotIn,
    Contains,
    NotContains,
    StartsWith,
    NotStartsWith,
    EndsWith,
    NotEndsWith,
    Exists,
    NotExists,
    IsNull,
    IsNotNull,
    IsTrue,
    IsFalse,
    Between,
    NotBetween,
}

/// The number that stands for each search operator on the wire.
pub open spec fn search_operator_code(x: SearchOperator) -> i32 {
    match x {
        SearchOperator::Unspecified => 0,
        SearchOperator::Like => 21,
        SearchOperator::NotLike => 22,
        SearchOperator::Ilike => 23,
        SearchOperator::NotIlike => 24,
        SearchOperator::Similar => 27,
        SearchOperator::Equals => 1,
        SearchOperator::NotEquals => 2,
        SearchOperator::GreaterThan => 3,
        SearchOperator::GreaterThanOrEquals => 4,
        SearchOperator::LessThan => 5,
        SearchOperator::LessThanOrEquals => 6,
        SearchOperator::In => 7,
        SearchOperator::NotIn => 8,
        SearchOperator::Contains => 9,
        SearchOperator::NotContains => 10,
        SearchOperator::StartsWith => 11,
        SearchOperator::NotStartsWith => 12,
        SearchOperator::EndsWith => 13,
        SearchOperator::NotEndsWith => 14,
        SearchOperator::Exists => 15,
        SearchOperator::NotExists => 16,
        SearchOperator::IsNull => 17,
        SearchOperator::IsNotNull => 18,
        SearchOperator::IsTrue => 19,
        SearchOperator::IsFalse => 20,
        SearchOperator::Between => 25,
        SearchOperator::NotBetween => 26,
    }
}

pub open spec fn search_operator_of_code(n: i32) -> Option<SearchOperator> {
    if n == 0 {
        Some(SearchOperator::Unspecified)
    } else if n == 21 {
        Some(SearchOperator::Like)
    } else if n == 22 {
        Some(SearchOperator::NotLike)
    } else if n == 23 {
        Some(SearchOperator::Ilike)
    } else if n == 24 {
        Some(SearchOperator::NotIlike)
    } else if n == 27 {
        Some(SearchOperator::Similar)
    } else if n == 1 {
        Some(SearchOperator::Equals)
    } else if n == 2 {
        Some(SearchOperator::NotEquals)
    } else if n == 3 {
        Some(SearchOperator::GreaterThan)
    } else if n == 4 {
        Some(SearchOperator::GreaterThanOrEquals)
    } else if n == 5 {
        Some(SearchOperator::LessThan)
    } else if n == 6 {
        Some(SearchOperator::LessThanOrEquals)
    } else if n == 7 {
        Some(SearchOperator::In)
    } else if n == 8 {
        Some(SearchOperator::NotIn)
    } else if n == 9 {
        Some(SearchOperator::Contains)
    } else if n == 10 {
        Some(SearchOperator::NotContains)
    } else if n == 11 {
        Some(SearchOperator::StartsWith)
    } else if n == 12 {
        Some(SearchOperator::NotStartsWith)
    } else if n == 13 {
        Some(SearchOperator::EndsWith)
    } else if n == 14 {
        Some(SearchOperator::NotEndsWith)
    } else if n == 15 {
        Some(SearchOperator::Exists)
    } else if n == 16 {
        Some(SearchOperator::NotExists)
    } else if n == 17 {
        Some(SearchOperator::IsNull)
    } else if n == 18 {
        Some(SearchOperator::IsNotNull)
    } else if n == 19 {
        Some(SearchOperator::IsTrue)
    } else if n == 20 {
        Some(SearchOperator::IsFalse)
    } else if n == 25 {
        Some(SearchOperator::Between)
    } else if n == 26 {
        Some(SearchOperator::NotBetween)
    } else {
        None
    }
}

/// The name that stands for each search operator in the schema.
pub open spec fn search_operator_name(x: SearchOperator) -> Seq<char> {
    match x {
        SearchOperator::Unspecified => "SEARCH_OPERATOR_UNSPECIFIED"@,
        SearchOperator::Like => "SEARCH_OPERATOR_LIKE"@,
        SearchOperator::NotLike => "SEARCH_OPERATOR_NOT_LIKE"@,
        SearchOperator::Ilike => "SEARCH_OPERATOR_ILIKE"@,
        SearchOperator::NotIlike => "SEARCH_OPERATOR_NOT_ILIKE"@,
        SearchOperator::Similar => "SEARCH_OPERATOR_SIMILAR"@,
        SearchOperator::Equals => "SEARCH_OPERATOR_EQUALS"@,
        SearchOperator::NotEquals => "SEARCH_OPERATOR_NOT_EQUALS"@,
        SearchOperator::GreaterThan => "SEARCH_OPERATOR_GREATER_THAN"@,
        SearchOperator::GreaterThanOrEquals => "SEARCH_OPERATOR_GREATER_THAN_OR_EQUALS"@,
        SearchOperator::LessThan => "SEARCH_OPERATOR_LESS_THAN"@,
        SearchOperator::LessThanOrEquals => "SEARCH_OPERATOR_LESS_THAN_OR_EQUALS"@,
        SearchOperator::In => "SEARCH_OPERATOR_IN"@,
        SearchOperator::NotIn => "SEARCH_OPERATOR_NOT_IN"@,
        SearchOperator::Contains => "SEARCH_OPERATOR_CONTAINS"@,
        SearchOperator::NotContains => "SEARCH_OPERATOR_NOT_CONTAINS"@,
        SearchOperator::StartsWith => "SEARCH_OPERATOR_STARTS_WITH"@,
        SearchOperator::NotStartsWith => "SEARCH_OPERATOR_NOT_STARTS_WITH"@,
        SearchOperator::EndsWith => "SEARCH_OPERATOR_ENDS_WITH"@,
        SearchOperator::NotEndsWith => "SEARCH_OPERATOR_NOT_ENDS_WITH"@,
        SearchOperator::Exists => "SEARCH_OPERATOR_EXISTS"@,
        SearchOperator::NotExists => "SEARCH_OPERATOR_NOT_EXISTS"@,
        SearchOperator::IsNull => "SEARCH_OPERATOR_IS_NULL"@,
        SearchOperator::IsNotNull => "SEARCH_OPERATOR_IS_NOT_NULL"@,
        SearchOperator::IsTrue => "SEARCH_OPERATOR_IS_TRUE"@,
        SearchOperator::IsFalse => "SEARCH_OPERATOR_IS_FALSE"@,
        SearchOperator::Between => "SEARCH_OPERATOR_BETWEEN"@,
        SearchOperator::NotBetween => "SEARCH_OPERATOR_NOT_BETWEEN"@,
    }
}

pub open spec fn search_operator_of_name(s: Seq<char>) -> Option<SearchOperator> {
    if s == "SEARCH_OPERATOR_UNSPECIFIED"@ {
        Some(SearchOperator::Unspecified)
    } else if s == "SEARCH_OPERATOR_LIKE"@ {
        Some(SearchOperator::Like)
    } else if s == "SEARCH_OPERATOR_NOT_LIKE"@ {
        Some(SearchOperator::NotLike)
    } else if s == "SEARCH_OPERATOR_ILIKE"@ {
        Some(SearchOperator::Ilike)
    } else if s == "SEARCH_OPERATOR_NOT_ILIKE"@ {
        Some(SearchOperator::NotIlike)
    } else if s == "SEARCH_OPERATOR_SIMILAR"@ {
        Some(SearchOperator::Similar)
    } else if s == "SEARCH_OPERATOR_EQUALS"@ {
        Some(SearchOperator::Equals)
    } else if s == "SEARCH_OPERATOR_NOT_EQUALS"@ {
        Some(SearchOperator::NotEquals)
    } else if s == "SEARCH_OPERATOR_GREATER_THAN"@ {
        Some(SearchOperator::GreaterThan)
    } else if s == "SEARCH_OPERATOR_GREATER_THAN_OR_EQUALS"@ {
        Some(SearchOperator::GreaterThanOrEquals)
    } else if s == "SEARCH_OPERATOR_LESS_THAN"@ {
        Some(SearchOperator::LessThan)
    } else if s == "SEARCH_OPERATOR_LESS_THAN_OR_EQUALS"@ {
        Some(SearchOperator::LessThanOrEquals)
    } else if s == "SEARCH_OPERATOR_IN"@ {
        Some(SearchOperator::In)
    } else if s == "SEARCH_OPERATOR_NOT_IN"@ {
        Some(SearchOperator::NotIn)
    } else if s == "SEARCH_OPERATOR_CONTAINS"@ {
        Some(SearchOperator::Contains)
    } else if s == "SEARCH_OPERATOR_NOT_CONTAINS"@ {
        Some(SearchOperator::NotContains)
    } else if s == "SEARCH_OPERATOR_STARTS_WITH"@ {
        Some(SearchOperator::StartsWith)
    } else if s == "SEARCH_OPERATOR_NOT_STARTS_WITH"@ {
        Some(SearchOperator::NotStartsWith)
    } else if s == "SEARCH_OPERATOR_ENDS_WITH"@ {
        Some(SearchOperator::EndsWith)
    } else if s == "SEARCH_OPERATOR_NOT_ENDS_WITH"@ {
        Some(SearchOperator::NotEndsWith)
    } else if s == "SEARCH_OPERATOR_EXISTS"@ {
        Some(SearchOperator::Exists)
    } else if s == "SEARCH_OPERATOR_NOT_EXISTS"@ {
        Some(SearchOperator::NotExists)
    } else if s == "SEARCH_OPERATOR_IS_NULL"@ {
        Some(SearchOperator::IsNull)
    } else if s == "SEARCH_OPERATOR_IS_NOT_NULL"@ {
        Some(SearchOperator::IsNotNull)
    } else if s == "SEARCH_OPERATOR_IS_TRUE"@ {
        Some(SearchOperator::IsTrue)
    } else if s == "SEARCH_OPERATOR_IS_FALSE"@ {
        Some(SearchOperator::IsFalse)
    } else if s == "SEARCH_OPERATOR_BETWEEN"@ {
        Some(SearchOperator::Between)
    } else if s == "SEARCH_OPERATOR_NOT_BETWEEN"@ {
        Some(SearchOperator::NotBetween)
    } else {
        None
    }
}

impl SearchOperator {
    /// The number of this value on the wire.
    pub fn as_i32(&self) -> (r: i32)
        ensures
            r == search_operator_code(*self),
    {
        match self {
            SearchOperator::Unspecified => 0,
            SearchOperator::Like => 21,
            SearchOperator::NotLike => 22,
            SearchOperator::Ilike => 23,
            SearchOperator::NotIlike => 24,
            SearchOperator::Similar => 27,
            SearchOperator::Equals => 1,
            SearchOperator::NotEquals => 2,
            SearchOperator::GreaterThan => 3,
            SearchOperator::GreaterThanOrEquals => 4,
            SearchOperator::LessThan => 5,
            SearchOperator::LessThanOrEquals => 6,
            SearchOperator::In => 7,
            SearchOperator::NotIn => 8,
            SearchOperator::Contains => 9,
            SearchOperator::NotContains => 10,
            SearchOperator::StartsWith => 11,
            SearchOperator::NotStartsWith => 12,
            SearchOperator::EndsWith => 13,
            SearchOperator::NotEndsWith => 14,
            SearchOperator::Exists => 15,
            SearchOperator::NotExists => 16,
            SearchOperator::IsNull => 17,
            SearchOperator::IsNotNull => 18,
            SearchOperator::IsTrue => 19,
            SearchOperator::IsFalse => 20,
            SearchOperator::Between => 25,
            SearchOperator::NotBetween => 26,
        }
    }

    /// The value that a wire number stands for, if any.
    pub fn from_i32(n: i32) -> (r: Option<SearchOperator>)
        ensures
            r == search_operator_of_code(n),
    {
        if n == 0 {
            Some(SearchOperator::Unspecified)
        } else if n == 21 {
            Some(SearchOperator::Like)
        } else if n == 22 {
            Some(SearchOperator::NotLike)
        } else if n == 23 {
            Some(SearchOperator::Ilike)
        } else if n == 24 {
            Some(SearchOperator::NotIlike)
        } else if n == 27 {
            Some(SearchOperator::Similar)
        } else if n == 1 {
            Some(SearchOperator::Equals)
        } else if n == 2 {
            Some(SearchOperator::NotEquals)
        } else if n == 3 {
            Some(SearchOperator::GreaterThan)
        } else if n == 4 {
            Some(SearchOperator::GreaterThanOrEquals)
        } else if n == 5 {
            Some(SearchOperator::LessThan)
        } else if n == 6 {
            Some(SearchOperator::LessThanOrEquals)
        } else if n == 7 {
            Some(SearchOperator::In)
        } else if n == 8 {
            Some(SearchOperator::NotIn)
        } else if n == 9 {
            Some(SearchOperator::Contains)
        } else if n == 10 {
            Some(SearchOperator::NotContains)
        } else if n == 11 {
            Some(SearchOperator::StartsWith)
        } else if n == 12 {
            Some(SearchOperator::NotStartsWith)
        } else if n == 13 {
            Some(SearchOperator::EndsWith)
        } else if n == 14 {
            Some(SearchOperator::NotEndsWith)
        } else if n == 15 {
            Some(SearchOperator::Exists)
        } else if n == 16 {
            Some(SearchOperator::NotExists)
        } else if n == 17 {
            Some(SearchOperator::IsNull)
        } else if n == 18 {
            Some(SearchOperator::IsNotNull)
        } else if n == 19 {
            Some(SearchOperator::IsTrue)
        } else if n == 20 {
            Some(SearchOperator::IsFalse)
        } else if n == 25 {
            Some(SearchOperator::Between)
        } else if n == 26 {
            Some(SearchOperator::NotBetween)
        } else {
            None
        }
    }

    /// The name of this value as the schema writes it.
    pub fn as_str_name(&self) -> (r: &'static str)
        ensures
            r@ == search_operator_name(*self),
    {
        match self {
            SearchOperator::Unspecified => "SEARCH_OPERATOR_UNSPECIFIED",
            SearchOperator::Like => "SEARCH_OPERATOR_LIKE",
            SearchOperator::NotLike => "SEARCH_OPERATOR_NOT_LIKE",
            SearchOperator::Ilike => "SEARCH_OPERATOR_ILIKE",
            SearchOperator::NotIlike => "SEARCH_OPERATOR_NOT_ILIKE",
            SearchOperator::Similar => "SEARCH_OPERATOR_SIMILAR",
            SearchOperator::Equals => "SEARCH_OPERATOR_EQUALS",
            SearchOperator::NotEquals => "SEARCH_OPERATOR_NOT_EQUALS",
            SearchOperator::GreaterThan => "SEARCH_OPERATOR_GREATER_THAN",
            SearchOperator::GreaterThanOrEquals => "SEARCH_OPERATOR_GREATER_THAN_OR_EQUALS",
            SearchOperator::LessThan => "SEARCH_OPERATOR_LESS_THAN",
            SearchOperator::LessThanOrEquals => "SEARCH_OPERATOR_LESS_THAN_OR_EQUALS",
            SearchOperator::In => "SEARCH_OPERATOR_IN",
            SearchOperator::NotIn => "SEARCH_OPERATOR_NOT_IN",
            SearchOperator::Contains => "SEARCH_OPERATOR_CONTAINS",
            SearchOperator::NotContains => "SEARCH_OPERATOR_NOT_CONTAINS",
            SearchOperator::StartsWith => "SEARCH_OPERATOR_STARTS_WITH",
            SearchOperator::NotStartsWith => "SEARCH_OPERATOR_NOT_STARTS_WITH",
            SearchOperator::EndsWith => "SEARCH_OPERATOR_ENDS_WITH",
            SearchOperator::NotEndsWith => "SEARCH_OPERATOR_NOT_ENDS_WITH",
            SearchOperator::Exists => "SEARCH_OPERATOR_EXISTS",
            SearchOperator::NotExists => "SEARCH_OPERATOR_NOT_EXISTS",
            SearchOperator::IsNull => "SEARCH_OPERATOR_IS_NULL",
            SearchOperator::IsNotNull => "SEARCH_OPERATOR_IS_NOT_NULL",
            SearchOperator::IsTrue => "SEARCH_OPERATOR_IS_TRUE",
            SearchOperator::IsFalse => "SEARCH_OPERATOR_IS_FALSE",
            SearchOperator::Between => "SEARCH_OPERATOR_BETWEEN",
            SearchOperator::NotBetween => "SEARCH_OPERATOR_NOT_BETWEEN",
        }
    }

    /// The value that a schema name stands for, if any.
    pub fn from_str_name(value: &str) -> (r: Option<SearchOperator>)
        ensures
            r == search_operator_of_name(value@),
    {
        if same_text(value, "SEARCH_OPERATOR_UNSPECIFIED") {
            Some(SearchOperator::Unspecified)
        } else if same_text(value, "SEARCH_OPERATOR_LIKE") {
            Some(SearchOperator::Like)
        } else if same_text(value, "SEARCH_OPERATOR_NOT_LIKE") {
            Some(SearchOperator::NotLike)
        } else if same_text(value, "SEARCH_OPERATOR_ILIKE") {
            Some(SearchOperator::Ilike)
        } else if same_text(value, "SEARCH_OPERATOR_NOT_ILIKE") {
            Some(SearchOperator::NotIlike)
        } else if same_text(value, "SEARCH_OPERATOR_SIMILAR") {
            Some(SearchOperator::Similar)
        } else if same_text(value, "SEARCH_OPERATOR_EQUALS") {
            Some(SearchOperator::Equals)
        } else if same_text(value, "SEARCH_OPERATOR_NOT_EQUALS") {
            Some(SearchOperator::NotEquals)
        } else if same_text(value, "SEARCH_OPERATOR_GREATER_THAN") {
            Some(SearchOperator::GreaterThan)
        } else if same_text(value, "SEARCH_OPERATOR_GREATER_THAN_OR_EQUALS") {
            Some(SearchOperator::GreaterThanOrEquals)
        } else if same_text(value, "SEARCH_OPERATOR_LESS_THAN") {
            Some(SearchOperator::LessThan)
        } else if same_text(value, "SEARCH_OPERATOR_LESS_THAN_OR_EQUALS") {
            Some(SearchOperator::LessThanOrEquals)
        } else if same_text(value, "SEARCH_OPERATOR_IN") {
            Some(SearchOperator::In)
        } else if same_text(value, "SEARCH_OPERATOR_NOT_IN") {
            Some(SearchOperator::NotIn)
        } else if same_text(value, "SEARCH_OPERATOR_CONTAINS") {
            Some(SearchOperator::Contains)
        } else if same_text(value, "SEARCH_OPERATOR_NOT_CONTAINS") {
            Some(SearchOperator::NotContains)
        } else if same_text(value, "SEARCH_OPERATOR_STARTS_WITH") {
            Some(SearchOperator::StartsWith)
        } else if same_text(value, "SEARCH_OPERATOR_NOT_STARTS_WITH") {
            Some(SearchOperator::NotStartsWith)
        } else if same_text(value, "SEARCH_OPERATOR_ENDS_WITH") {
            Some(SearchOperator::EndsWith)
        } else if same_text(value, "SEARCH_OPERATOR_NOT_ENDS_WITH") {
            Some(SearchOperator::NotEndsWith)
        } else if same_text(value, "SEARCH_OPERATOR_EXISTS") {
            Some(SearchOperator::Exists)
        } else if same_text(value, "SEARCH_OPERATOR_NOT_EXISTS") {
            Some(SearchOperator::NotExists)
        } else if same_text(value, "SEARCH_OPERATOR_IS_NULL") {
            Some(SearchOperator::IsNull)
        } else if same_text(value, "SEARCH_OPERATOR_IS_NOT_NULL") {
            Some(SearchOperator::IsNotNull)
        } else if same_text(value, "SEARCH_OPERATOR_IS_TRUE") {
            Some(SearchOperator::IsTrue)
        } else if same_text(value, "SEARCH_OPERATOR_IS_FALSE") {
            Some(SearchOperator::IsFalse)
        } else if same_text(value, "SEARCH_OPERATOR_BETWEEN") {
            Some(SearchOperator::Between)
        } else if same_text(value, "SEARCH_OPERATOR_NOT_BETWEEN") {
            Some(SearchOperator::NotBetween)
        } else {
            None
        }
    }
}

#[derive(Clone, Copy, Debug, PartialEq, Eq, Structural, Hash)]
pub enum SortDirection {
    Unspecified,
    Asc,
    Desc,
}

/// The number that stands for each sort direction on the wire.
pub open spec fn sort_direction_code(x: SortDirection) -> i32 {
    match x {
        SortDirection::Unspecified => 0,
        SortDirection::Asc => 1,
        SortDirection::Desc => 2,
    }
}

pub open spec fn sort_direction_of_code(n: i32) -> Option<SortDirection> {
    if n == 0 {
        Some(SortDirection::Unspecified)
    } else if n == 1 {
        Some(SortDirection::Asc)
    } else if n == 2 {
        Some(SortDirection::Desc)
    } else {
        None
    }
}

/// The name that stands for each sort direction in the schema.
pub open spec fn sort_direction_name(x: SortDirection) -> Seq<char> {
    match x {
        SortDirection::Unspecified => "SORT_DIRECTION_UNSPECIFIED"@,
        SortDirection::Asc => "SORT_DIRECTION_ASC"@,
        SortDirection::Desc => "SORT_DIRECTION_DESC"@,
    }
}

pub open spec fn sort_direction_of_name(s: Seq<char>) -> Option<SortDirection> {
    if s == "SORT_DIRECTION_UNSPECIFIED"@ {
        Some(SortDirection::Unspecified)
    } else if s == "SORT_DIRECTION_ASC"@ {
        Some(SortDirection::Asc)
    } else if s == "SORT_DIRECTION_DESC"@ {
        Some(SortDirection::Desc)
    } else {
        None
    }
}

impl SortDirection {
    /// The number of this value on the wire.
    pub fn as_i32(&self) -> (r: i32)
        ensures
            r == sort_direction_code(*self),
    {
        match self {
            SortDirection::Unspecified => 0,
            SortDirection::Asc => 1,
            SortDirection::Desc => 2,
        }
    }

    /// The value that a wire number stands for, if any.
    pub fn from_i32(n: i32) -> (r: Option<SortDirection>)
        ensures
            r == sort_direction_of_code(n),
    {
        if n == 0 {
            Some(SortDirection::Unspecified)
        } else if n == 1 {
            Some(SortDirection::Asc)
        } else if n == 2 {
            Some(SortDirection::Desc)
        } else {
            None
        }
    }

    /// The name of this value as the schema writes it.
    pub fn as_str_name(&self) -> (r: &'static str)
        ensures
            r@ == sort_direction_name(*self),
    {
        match self {
            SortDirection::Unspecified => "SORT_DIRECTION_UNSPECIFIED",
            SortDirection::Asc => "SORT_DIRECTION_ASC",
            SortDirection::Desc => "SORT_DIRECTION_DESC",
        }
    }

    /// The value that a schema name stands for, if any.
    pub fn from_str_name(value: &str) -> (r: Option<SortDirection>)
        ensures
            r == sort_direction_of_name(value@),
    {
        if same_text(value, "SORT_DIRECTION_UNSPECIFIED") {
            Some(SortDirection::Unspecified)
        } else if same_text(value, "SORT_DIRECTION_ASC") {
            Some(SortDirection::Asc)
        } else if same_text(value, "SORT_DIRECTION_DESC") {
            Some(SortDirection::Desc)
        } else {
            None
        }
    }
}

} // verus!
