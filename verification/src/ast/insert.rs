//! The INSERT statement.

use crate::ast::column::{column_models, duplicate_columns, Column, ColumnLike, ColumnModel};
use crate::ast::row::{duplicate_rows, row_models, Row, RowModel};
use crate::ast::table::{Table, TableLike, TableModel};
use crate::ast::values::{DatabaseValueModel, ValueLike};
use vstd::prelude::*;

verus! {

/// What the database does with a row that breaks a uniqueness constraint.
#[derive(Clone, Copy, Debug, PartialEq, Eq)]
pub enum OnConflict {
    /// The row is left out, without an error.
    DoNothing,
}

/// An insert statement. Without rows it inserts one row of defaults.
#[derive(Debug, PartialEq)]
pub struct Insert {
    pub table: Table,
    pub columns: Vec<Column>,
    pub values: Vec<Row>,
    pub on_conflict: Option<OnConflict>,
}

/// The mathematical value of a insert statement: texts as their characters, lists as
/// sequences.
pub struct InsertModel {
    pub table: TableModel,
    pub columns: Seq<ColumnModel>,
    pub values: Seq<RowModel>,
    pub on_conflict: Option<OnConflict>,
}

impl InsertModel {
    /// Every row has one value for each column.
    pub open spec fn well_formed(self) -> bool {
        forall|i: int|
            0 <= i < self.values.len() ==> (#[trigger] self.values[i]).values.len()
                == self.columns.len()
    }
}

impl Insert {
    /// An insert of one row, which has no value yet.
    pub fn single_into<T: TableLike>(table: T) -> (out: SingleRowInsert)
        ensures
            out@ == (SingleRowInsertModel {
                table: table.table_model(),
                columns: Seq::empty(),
                values: RowModel { values: Seq::empty() },
            }),
    {
        let out = SingleRowInsert {
            table: table.into_table(),
            columns: Vec::new(),
            values: Row::new(),
        };
        assert(column_models(out.columns) =~= Seq::empty());
        out
    }

    /// An insert of rows into the given columns, which has no row yet.
    pub fn multi_into<T: TableLike>(table: T, columns: Vec<Column>) -> (out: MultiRowInsert)
        ensures
            out@ == (MultiRowInsertModel {
                table: table.table_model(),
                columns: column_models(columns),
                values: Seq::empty(),
            }),
    {
        let out = MultiRowInsert { table: table.into_table(), columns, values: Vec::new() };
        assert(row_models(out.values) =~= Seq::empty());
        out
    }

    /// Says what happens to a row that breaks a uniqueness constraint.
    pub fn on_conflict(self, on_conflict: OnConflict) -> (out: Insert)
        ensures
            out@ == (InsertModel { on_conflict: Some(on_conflict), ..self@ }),
    {
        let mut out = self;
        out.on_conflict = Some(on_conflict);
        out
    }
}

impl Clone for Insert {
    fn clone(&self) -> (out: Insert)
        ensures
            out@ == self@,
    {
        self.duplicate()
    }
}

impl Clone for SingleRowInsert {
    fn clone(&self) -> (out: SingleRowInsert)
        ensures
            out@ == self@,
    {
        self.duplicate()
    }
}

impl Clone for MultiRowInsert {
    fn clone(&self) -> (out: MultiRowInsert)
        ensures
            out@ == self@,
    {
        self.duplicate()
    }
}

impl SingleRowInsert {
    /// A copy with the same view.
    pub fn duplicate(&self) -> (out: SingleRowInsert)
        ensures
            out@ == self@,
    {
        SingleRowInsert {
            table: self.table.duplicate(),
            columns: duplicate_columns(&self.columns),
            values: self.values.duplicate(),
        }
    }
}

impl MultiRowInsert {
    /// A copy with the same view.
    pub fn duplicate(&self) -> (out: MultiRowInsert)
        ensures
            out@ == self@,
    {
        MultiRowInsert {
            table: self.table.duplicate(),
            columns: duplicate_columns(&self.columns),
            values: duplicate_rows(&self.values),
        }
    }
}

impl Insert {
    /// A copy with the same view.
    pub fn duplicate(&self) -> (out: Insert)
        ensures
            out@ == self@,
    {
        Insert {
            table: self.table.duplicate(),
            columns: duplicate_columns(&self.columns),
            values: duplicate_rows(&self.values),
            on_conflict: self.on_conflict,
        }
    }

    /// Whether every row has one value for each column.
    pub fn is_well_formed(&self) -> (out: bool)
        ensures
            out == self@.well_formed(),
    {
        let mut i: usize = 0;
        while i < self.values.len()
            invariant
                i <= self.values.len(),
                forall|k: int|
                    0 <= k < i ==> (#[trigger] self@.values[k]).values.len() == self@.columns.len(),
            decreases self.values.len() - i,
        {
            if self.values[i].len() != self.columns.len() {
                assert(self@.values[i as int].values.len() != self@.columns.len());
                return false;
            }
            i += 1;
        }
        true
    }
}

impl SingleRowInsert {
    /// Adds a column and the value that the row has in it.
    pub fn value<C: ColumnLike, V: ValueLike>(self, column: C, value: V) -> (out: SingleRowInsert)
        ensures
            out@ == self@.value(column.column_model(), value.value_model()),
    {
        let mut out = self;
        out.columns.push(column.into_column());
        out.values = out.values.push(value);
        assert(column_models(out.columns) =~= column_models(self.columns).push(
            column.column_model(),
        ));
        out
    }

    /// The insert of this row; of a row of defaults where no value was added.
    pub fn build(self) -> (out: Insert)
        ensures
            out@ == self@.insert(),
    {
        let SingleRowInsert { table, columns, values } = self;
        let mut rows: Vec<Row> = Vec::new();
        if !values.is_empty() {
            rows.push(values);
        }
        proof {
            if values@.values.len() == 0 {
                assert(row_models(rows) =~= Seq::empty());
            } else {
                assert(row_models(rows) =~= seq![values@]);
            }
        }
        Insert { table, columns, values: rows, on_conflict: None }
    }
}

impl MultiRowInsert {
    /// Adds a row.
    pub fn values(self, row: Row) -> (out: MultiRowInsert)
        ensures
            out@ == self@.values(row@),
    {
        let mut out = self;
        out.values.push(row);
        assert(row_models(out.values) =~= row_models(self.values).push(row@));
        out
    }

    /// The insert of these rows.
    pub fn build(self) -> (out: Insert)
        ensures
            out@ == self@.insert(),
    {
        let MultiRowInsert { table, columns, values } = self;
        Insert { table, columns, values, on_conflict: None }
    }
}

impl View for Insert {
    type V = InsertModel;

    open spec fn view(&self) -> InsertModel {
        InsertModel {
            table: self.table@,
            columns: column_models(self.columns),
            values: row_models(self.values),
            on_conflict: self.on_conflict,
        }
    }
}

/// An insert of one row, built value by value.
#[derive(Debug, PartialEq)]
pub struct SingleRowInsert {
    pub table: Table,
    pub columns: Vec<Column>,
    pub values: Row,
}

/// The mathematical value of a insert of one row: texts as their characters, lists as
/// sequences.
pub struct SingleRowInsertModel {
    pub table: TableModel,
    pub columns: Seq<ColumnModel>,
    pub values: RowModel,
}

impl SingleRowInsertModel {
    /// The row has one value for each column.
    pub open spec fn well_formed(self) -> bool {
        self.values.values.len() == self.columns.len()
    }

    /// The insert with one more column and the value that the row has in it.
    pub open spec fn value(self, column: ColumnModel, value: DatabaseValueModel) -> Self {
        SingleRowInsertModel {
            columns: self.columns.push(column),
            values: RowModel { values: self.values.values.push(value) },
            ..self
        }
    }

    /// An insert of one well-formed row is well formed.
    pub proof fn lemma_insert_is_well_formed(self)
        requires
            self.well_formed(),
        ensures
            self.insert().well_formed(),
    {
    }

    /// The insert of this one row; of a row of defaults where no value was
    /// given.
    pub open spec fn insert(self) -> InsertModel {
        InsertModel {
            table: self.table,
            columns: self.columns,
            values: if self.values.values.len() == 0 {
                Seq::empty()
            } else {
                seq![self.values]
            },
            on_conflict: None,
        }
    }
}

impl View for SingleRowInsert {
    type V = SingleRowInsertModel;

    open spec fn view(&self) -> SingleRowInsertModel {
        SingleRowInsertModel {
            table: self.table@,
            columns: column_models(self.columns),
            values: self.values@,
        }
    }
}

/// An insert of several rows into given columns.
#[derive(Debug, PartialEq)]
pub struct MultiRowInsert {
    pub table: Table,
    pub columns: Vec<Column>,
    pub values: Vec<Row>,
}

/// The mathematical value of a insert of several rows: texts as their characters, lists as
/// sequences.
pub struct MultiRowInsertModel {
    pub table: TableModel,
    pub columns: Seq<ColumnModel>,
    pub values: Seq<RowModel>,
}

impl MultiRowInsertModel {
    /// Every row has one value for each column.
    pub open spec fn well_formed(self) -> bool {
        self.insert().well_formed()
    }

    /// The insert with one more row.
    pub open spec fn values(self, row: RowModel) -> Self {
        MultiRowInsertModel { values: self.values.push(row), ..self }
    }

    /// A well-formed insert with one more row that has one value for each
    /// column is well formed.
    pub proof fn lemma_values_is_well_formed(self, row: RowModel)
        requires
            self.well_formed(),
            row.values.len() == self.columns.len(),
        ensures
            self.values(row).well_formed(),
    {
        let before = self.insert();
        let after = self.values(row).insert();
        assert forall|i: int| 0 <= i < after.values.len() implies (#[trigger] after.values[i]).values.len()
            == after.columns.len() by {
            if i < before.values.len() {
                assert(after.values[i] == before.values[i]);
            }
        }
    }

    /// The insert of these rows.
    pub open spec fn insert(self) -> InsertModel {
        InsertModel {
            table: self.table,
            columns: self.columns,
            values: self.values,
            on_conflict: None,
        }
    }
}

impl View for MultiRowInsert {
    type V = MultiRowInsertModel;

    open spec fn view(&self) -> MultiRowInsertModel {
        MultiRowInsertModel {
            table: self.table@,
            columns: column_models(self.columns),
            values: row_models(self.values),
        }
    }
}

} // verus!
