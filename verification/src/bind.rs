//! What a parameter is bound as in SQLite.

use crate::ast::values::{ParameterizedValue, Scalar};
use crate::json::{json_text, write_json};
use vstd::prelude::*;

verus! {

/// A value of one of SQLite's storage classes. `Real` holds the bit pattern
/// of a 64-bit IEEE 754 number.
#[derive(Clone, Debug, PartialEq, Eq)]
pub enum SqliteValue {
    Null,
    Integer(i64),
    Real(u64),
    Text(String),
}

/// The mathematical value of a bound value: texts as their characters, lists as
/// sequences.
pub enum SqliteValueModel {
    Null,
    Integer(int),
    Real(u64),
    Text(Seq<char>),
}

impl View for SqliteValue {
    type V = SqliteValueModel;

    open spec fn view(&self) -> SqliteValueModel {
        match self {
            SqliteValue::Null => SqliteValueModel::Null,
            SqliteValue::Integer(i) => SqliteValueModel::Integer(*i as int),
            SqliteValue::Real(bits) => SqliteValueModel::Real(*bits),
            SqliteValue::Text(t) => SqliteValueModel::Text(t@),
        }
    }
}

/// Why a parameter could not be bound.
#[derive(Clone, Copy, Debug, PartialEq, Eq)]
pub enum BindError {
    /// The value has no form that the database takes.
    BindConversion,
}

impl BindError {
    /// The error in words.
    pub fn message(&self) -> (out: String)
        ensures
            out@ == "the value could not be converted for binding"@,
    {
        "the value could not be converted for binding".to_owned()
    }
}

/// What a parameter is bound as: SQLite has no booleans, so true is 1 and
/// false is 0, and a JSON document is bound as its compact text. A document
/// that cannot be written cannot be bound.
pub open spec fn bound(value: Scalar) -> Result<SqliteValueModel, BindError> {
    match value {
        Scalar::Null => Ok(SqliteValueModel::Null),
        Scalar::Integer(i) => Ok(SqliteValueModel::Integer(i)),
        Scalar::Real(bits) => Ok(SqliteValueModel::Real(bits)),
        Scalar::Text(t) => Ok(SqliteValueModel::Text(t)),
        Scalar::Boolean(b) => Ok(
            SqliteValueModel::Integer(
                if b {
                    1
                } else {
                    0
                },
            ),
        ),
        Scalar::Json(document) => bound_text(json_text(document)),
    }
}

/// What a document is bound as, given its text: the text, or nothing where
/// the document could not be written.
pub open spec fn bound_text(text: Option<Seq<char>>) -> Result<SqliteValueModel, BindError> {
    match text {
        Some(t) => Ok(SqliteValueModel::Text(t)),
        None => Err(BindError::BindConversion),
    }
}

/// The view of a written document, or nothing for a failure.
pub open spec fn written<E>(text: Result<String, E>) -> Option<Seq<char>> {
    match text {
        Ok(t) => Some(t@),
        Err(_) => None,
    }
}

/// The view of what was bound.
pub open spec fn bound_view(out: Result<SqliteValue, BindError>) -> Result<SqliteValueModel, BindError> {
    match out {
        Ok(v) => Ok(v@),
        Err(e) => Err(e),
    }
}

/// Binds a document whose text was written, or reports that it was not.
pub fn bind_text<E>(text: Result<String, E>) -> (out: Result<SqliteValue, BindError>)
    ensures
        bound_view(out) == bound_text(written(text)),
{
    match text {
        Ok(t) => Ok(SqliteValue::Text(t)),
        Err(_) => Err(BindError::BindConversion),
    }
}

impl ParameterizedValue {
    /// The value as SQLite takes it.
    pub fn to_sql(&self) -> (out: Result<SqliteValue, BindError>)
        ensures
            bound_view(out) == bound(self@),
    {
        match self {
            ParameterizedValue::Null => Ok(SqliteValue::Null),
            ParameterizedValue::Integer(i) => Ok(SqliteValue::Integer(*i)),
            ParameterizedValue::Real(bits) => Ok(SqliteValue::Real(*bits)),
            ParameterizedValue::Text(t) => Ok(SqliteValue::Text(t.clone())),
            ParameterizedValue::Boolean(b) => Ok(
                SqliteValue::Integer(
                    if *b {
                        1
                    } else {
                        0
                    },
                ),
            ),
            ParameterizedValue::Json(document) => bind_text(write_json(document)),
        }
    }
}

} // verus!
