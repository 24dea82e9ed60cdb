//! Database-facing types: pool markers, SQL parameter values, query building
//! and the row models.

pub mod models;
pub mod query;

use vstd::prelude::*;

verus! {

/// Marker for the core database (rules, records, users, settings).
pub struct CoreDb;

/// Marker for the metrics database (activity log and aggregated metrics).
pub struct MetricsDb;

/// A value bound to a SQL statement parameter.
#[derive(Debug, Clone, PartialEq)]
pub enum SqlValue {
    /// A 64-bit integer (booleans are bound as 0 or 1).
    Integer(i64),
    /// A text value.
    Text(String),
}

/// The mathematical value of a [`SqlValue`].
pub enum SqlValueView {
    Integer(i64),
    Text(Seq<char>),
}

impl View for SqlValue {
    type V = SqlValueView;

    open spec fn view(&self) -> SqlValueView {
        match self {
            SqlValue::Integer(i) => SqlValueView::Integer(*i),
            SqlValue::Text(s) => SqlValueView::Text(s@),
        }
    }
}

/// The integer a boolean is stored as.
pub open spec fn bool_as_int(b: bool) -> i64 {
    if b {
        1
    } else {
        0
    }
}

/// The integer a boolean is stored as (`b as i64`).
pub fn bool_to_int(b: bool) -> (i: i64)
    ensures
        i == bool_as_int(b),
{
    if b {
        1
    } else {
        0
    }
}

} // verus!
