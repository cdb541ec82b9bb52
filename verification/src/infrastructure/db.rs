//! Parameterized statements as plain values.
//!
//! A statement is a text with the placeholders `$1`, `$2`, ... and the
//! arguments that fill them, in that order. Whoever holds the connection binds
//! the arguments one by one and sends the statement; nothing here touches the
//! network.

use crate::domain::models::instant::Timestamp;
use vstd::prelude::*;

verus! {

/// One argument of a statement, tagged with the column type it is bound as.
#[derive(Debug, Clone, PartialEq, Eq)]
pub enum SqlValue {
    /// A `uuid`.
    Uuid(u128),
    /// A `text` that is never null.
    Text(String),
    /// A `text` that may be null.
    NullableText(Option<String>),
    /// An `integer`.
    Integer(i32),
    /// A `boolean`.
    Boolean(bool),
    /// A `timestamp with time zone`.
    TimestampTz(Timestamp),
}

/// An argument as contracts speak of it.
pub enum SqlValueView {
    Uuid(u128),
    Text(Seq<char>),
    NullableText(Option<Seq<char>>),
    Integer(i32),
    Boolean(bool),
    TimestampTz(Timestamp),
}

impl View for SqlValue {
    type V = SqlValueView;

    open spec fn view(&self) -> SqlValueView {
        match self {
            SqlValue::Uuid(id) => SqlValueView::Uuid(*id),
            SqlValue::Text(text) => SqlValueView::Text(text@),
            SqlValue::NullableText(Some(text)) => SqlValueView::NullableText(Some(text@)),
            SqlValue::NullableText(None) => SqlValueView::NullableText(None),
            SqlValue::Integer(number) => SqlValueView::Integer(*number),
            SqlValue::Boolean(flag) => SqlValueView::Boolean(*flag),
            SqlValue::TimestampTz(instant) => SqlValueView::TimestampTz(*instant),
        }
    }
}

/// A statement and its arguments.
#[derive(Debug, Clone, PartialEq, Eq)]
pub struct Statement {
    pub sql: &'static str,
    pub params: Vec<SqlValue>,
}

/// A statement as contracts speak of it.
pub struct StatementView {
    pub sql: Seq<char>,
    pub params: Seq<SqlValueView>,
}

impl View for Statement {
    type V = StatementView;

    open spec fn view(&self) -> StatementView {
        StatementView { sql: self.sql@, params: self.params@.map_values(|value: SqlValue| value@) }
    }
}

} // verus!
