//! Translation of declarative search requests into filtered, sorted and
//! paginated selections, and packaging of the rows that come back.
//!
//! A request ([`dto::SearchQuery`]) is normalized ([`normalize`]), its
//! conditions are compiled into predicate groups ([`condition`]) through the
//! caller's field map ([`field_map`]), and the groups, paging and sort are
//! assembled into a [`select::SelectPlan`] that the storage engine applies to
//! its own base selection. [`query`] prepares a whole run; [`result`] packages
//! and projects the rows that come back.

pub mod casing;
pub mod condition;
pub mod dto;
pub mod errors;
pub mod field_map;
pub mod normalize;
pub mod query;
pub mod result;
pub mod select;
