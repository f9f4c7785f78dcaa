use vstd::prelude::*;

verus! {

/// `sea_orm::DbErr`, the storage engine's error, carried through opaquely.
#[verifier::external_type_specification]
#[verifier::external_body]
pub struct ExDbErr(sea_orm::DbErr);

/// Everything that can make a search request fail.
#[derive(Debug)]
pub enum PebbleQueryError {
    InvalidConditionOperator(String),
    InvalidOperator(String),
    InvalidField(String),
    MissingValue(String),
    SeaOrmDbError(sea_orm::DbErr),
}

/// What a [`PebbleQueryError`] says, with its message as characters.
pub enum QueryErrorView {
    InvalidConditionOperator(Seq<char>),
    InvalidOperator(Seq<char>),
    InvalidField(Seq<char>),
    MissingValue(Seq<char>),
    Backend,
}

impl View for PebbleQueryError {
    type V = QueryErrorView;

    open spec fn view(&self) -> QueryErrorView {
        match self {
            PebbleQueryError::InvalidConditionOperator(s) => QueryErrorView::InvalidConditionOperator(s@),
            PebbleQueryError::InvalidOperator(s) => QueryErrorView::InvalidOperator(s@),
            PebbleQueryError::InvalidField(s) => QueryErrorView::InvalidField(s@),
            PebbleQueryError::MissingValue(s) => QueryErrorView::MissingValue(s@),
            PebbleQueryError::SeaOrmDbError(_) => QueryErrorView::Backend,
        }
    }
}

impl PebbleQueryError {
    /// Wraps an error of the storage engine.
    pub fn from_db_err(e: sea_orm::DbErr) -> (r: PebbleQueryError)
        ensures
            r is SeaOrmDbError,
    {
        PebbleQueryError::SeaOrmDbError(e)
    }

    /// The message of this error, as a display would show it.
    pub fn message(&self) -> (r: String)
        ensures
            !(self is SeaOrmDbError) ==> r@ == self.kind_prefix() + self.text(),
    {
        match self {
            PebbleQueryError::InvalidConditionOperator(s) => {
                let mut r = String::from_str("Invalid condition: ");
                r.append(s.as_str());
                r
            },
            PebbleQueryError::InvalidOperator(s) => {
                let mut r = String::from_str("Invalid operator: ");
                r.append(s.as_str());
                r
            },
            PebbleQueryError::InvalidField(s) => {
                let mut r = String::from_str("Invalid field: ");
                r.append(s.as_str());
                r
            },
            PebbleQueryError::MissingValue(s) => {
                let mut r = String::from_str("Missing value: ");
                r.append(s.as_str());
                r
            },
            PebbleQueryError::SeaOrmDbError(_) => String::from_str("SeaOrmDbError"),
        }
    }

    pub open spec fn kind_prefix(&self) -> Seq<char> {
        match self {
            PebbleQueryError::InvalidConditionOperator(_) => "Invalid condition: "@,
            PebbleQueryError::InvalidOperator(_) => "Invalid operator: "@,
            PebbleQueryError::InvalidField(_) => "Invalid field: "@,
            PebbleQueryError::MissingValue(_) => "Missing value: "@,
            PebbleQueryError::SeaOrmDbError(_) => "SeaOrmDbError"@,
        }
    }

    pub open spec fn text(&self) -> Seq<char> {
        match self {
            PebbleQueryError::InvalidConditionOperator(s) => s@,
            PebbleQueryError::InvalidOperator(s) => s@,
            PebbleQueryError::InvalidField(s) => s@,
            PebbleQueryError::MissingValue(s) => s@,
            PebbleQueryError::SeaOrmDbError(_) => Seq::empty(),
        }
    }
}

} // verus!
