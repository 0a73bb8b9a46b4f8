//! The statements and their parts, as plain values.

pub mod column;
pub mod compare;
pub mod conditions;
pub mod delete;
pub mod function;
pub mod insert;
pub mod join;
pub mod order;
pub mod query;
pub mod row;
pub mod select;
pub mod table;
pub mod update;
pub mod values;

pub use column::{Column, ColumnLike};
pub use compare::{Comparable, Compare};
pub use conditions::ConditionTree;
pub use delete::Delete;
pub use function::{aggregate_to_string, count, Function, FunctionType};
pub use insert::{Insert, MultiRowInsert, OnConflict, SingleRowInsert};
pub use join::{Join, JoinKind, Joinable};
pub use order::{Direction, OrderDefinition, OrderLike, Orderable};
pub use query::{Query, QueryLike};
pub use row::Row;
pub use select::Select;
pub use table::{Table, TableLike, TableType};
pub use update::{Assignment, Update};
pub use values::{
    asterisk, ArithmeticOp, DatabaseValue, ParameterizedValue, ScalarLike, TextLike, ValueLike,
};
