//! A typed, composable SQL query builder.
//!
//! Statements are assembled as plain values from the items of [`ast`] and
//! turned into SQL text plus a positional parameter list by a dialect of
//! [`visitor`]. Values supplied by the caller never enter the SQL text: each
//! one is replaced by a parameter marker and handed back in the list.

pub mod ast;
pub mod bind;
pub mod json;
pub mod visitor;
