//! Parenthesised tuples of values.

use crate::ast::values::{
    duplicate_values, value_models, DatabaseValue, DatabaseValueModel, ValueLike,
};
use vstd::prelude::*;

verus! {

/// An ordered run of values, written as `(v1, v2, ...)`.
#[derive(Debug, PartialEq)]
pub struct Row {
    pub values: Vec<DatabaseValue>,
}

/// The mathematical value of a row: texts as their characters, lists as
/// sequences.
pub struct RowModel {
    pub values: Seq<DatabaseValueModel>,
}

impl Row {
    /// The mathematical value.
    pub open spec fn model(&self) -> RowModel
        decreases self,
    {
        RowModel { values: value_models(self.values) }
    }
}

impl Clone for Row {
    fn clone(&self) -> (out: Row)
        ensures
            out@ == self@,
    {
        self.duplicate()
    }
}

impl Row {
    /// A copy with the same view.
    pub fn duplicate(&self) -> (out: Row)
        ensures
            out@ == self@,
        decreases self,
    {
        Row { values: duplicate_values(&self.values) }
    }

    /// A row without values.
    pub fn new() -> (out: Row)
        ensures
            out@ == (RowModel { values: Seq::empty() }),
    {
        let out = Row { values: Vec::new() };
        assert(value_models(out.values) =~= Seq::empty());
        out
    }

    /// The row of the given values.
    pub fn from(values: Vec<DatabaseValue>) -> (out: Row)
        ensures
            out@ == (RowModel { values: value_models(values) }),
    {
        Row { values }
    }

    /// The row with one more value at its end.
    pub fn push<V: ValueLike>(self, value: V) -> (out: Row)
        ensures
            out@ == (RowModel { values: self@.values.push(value.value_model()) }),
    {
        let mut out = self;
        out.values.push(value.into_value());
        assert(value_models(out.values) =~= value_models(self.values).push(value.value_model()));
        out
    }

    /// The number of values.
    pub fn len(&self) -> (out: usize)
        ensures
            out == self@.values.len(),
    {
        self.values.len()
    }

    /// Whether the row has no value.
    pub fn is_empty(&self) -> (out: bool)
        ensures
            out == (self@.values.len() == 0),
    {
        self.values.len() == 0
    }
}

impl View for Row {
    type V = RowModel;

    open spec fn view(&self) -> RowModel {
        self.model()
    }
}

/// A copy of each row, in order.
pub fn duplicate_rows(items: &Vec<Row>) -> (out: Vec<Row>)
    ensures
        row_models(out) == row_models(*items),
{
    let mut out: Vec<Row> = Vec::new();
    let mut i: usize = 0;
    while i < items.len()
        invariant
            i <= items.len(),
            out.len() == i,
            forall|k: int| 0 <= k < i ==> out[k]@ == items[k]@,
        decreases items.len() - i,
    {
        out.push(items[i].duplicate());
        i += 1;
    }
    assert(row_models(out) =~= row_models(*items));
    out
}

/// The models of a run of rows, in order.
pub open spec fn row_models(rows: Vec<Row>) -> Seq<RowModel> {
    Seq::new(rows.len() as nat, |i: int| rows[i]@)
}

} // verus!
