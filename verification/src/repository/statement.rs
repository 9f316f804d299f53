//! SQL statements with their bound values.

use vstd::prelude::*;

verus! {

/// A value bound to one `?` placeholder of a statement.
#[derive(Debug, Clone)]
pub enum SqlValue {
    /// A UUID, given by its 128-bit value.
    Uuid(u128),
    Integer(i64),
    Text(String),
}

/// The mathematical value of a bound value.
pub enum BoundValue {
    Uuid(u128),
    Integer(i64),
    Text(Seq<char>),
}

impl View for SqlValue {
    type V = BoundValue;

    open spec fn view(&self) -> BoundValue {
        match self {
            SqlValue::Uuid(id) => BoundValue::Uuid(*id),
            SqlValue::Integer(n) => BoundValue::Integer(*n),
            SqlValue::Text(s) => BoundValue::Text(s@),
        }
    }
}

/// An SQL statement and the values bound to its placeholders, in order.
#[derive(Debug)]
pub struct Statement {
    pub sql: String,
    pub binds: Vec<SqlValue>,
}

/// The mathematical value of a statement.
pub struct StatementView {
    pub sql: Seq<char>,
    pub binds: Seq<BoundValue>,
}

impl View for Statement {
    type V = StatementView;

    open spec fn view(&self) -> StatementView {
        StatementView { sql: self.sql@, binds: self.binds@.map_values(|v: SqlValue| v@) }
    }
}

/// Builds a statement from its text and bound values.
pub fn statement(sql: &str, binds: Vec<SqlValue>) -> (result: Statement)
    ensures
        result.sql@ == sql@,
        result.binds@ == binds@,
{
    Statement { sql: String::from_str(sql), binds }
}

/// A bound text value.
pub fn text_value(text: &str) -> (value: SqlValue)
    ensures
        value@ == BoundValue::Text(text@),
{
    SqlValue::Text(String::from_str(text))
}

} // verus!
