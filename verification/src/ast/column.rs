//! Column references.

use crate::ast::table::{Table, TableLike, TableModel};
use crate::ast::values::{duplicate_name, optional_name, TextLike};
use vstd::prelude::*;

verus! {

/// A column definition.
#[derive(Debug, PartialEq)]
pub struct Column {
    pub name: String,
    pub table: Option<Table>,
    pub alias: Option<String>,
}

/// The mathematical value of a column: texts as their characters, lists as
/// sequences.
pub struct ColumnModel {
    pub name: Seq<char>,
    pub table: Option<TableModel>,
    pub alias: Option<Seq<char>>,
}

impl Column {
    /// The mathematical value.
    pub open spec fn model(&self) -> ColumnModel
        decreases self,
    {
        ColumnModel {
            name: self.name@,
            table: match self.table {
                Some(t) => Some(t.model()),
                None => None,
            },
            alias: optional_name(self.alias),
        }
    }
}

impl Default for Column {
    /// The column without a name.
    fn default() -> (out: Column)
        ensures
            out@ == (ColumnModel { name: Seq::empty(), table: None, alias: None }),
    {
        Column { name: String::new(), table: None, alias: None }
    }
}

impl Clone for Column {
    fn clone(&self) -> (out: Column)
        ensures
            out@ == self@,
    {
        self.duplicate()
    }
}

impl Column {
    /// A copy with the same view.
    pub fn duplicate(&self) -> (out: Column)
        ensures
            out@ == self@,
        decreases self,
    {
        Column {
            name: self.name.clone(),
            table: match &self.table {
                Some(t) => Some(t.duplicate()),
                None => None,
            },
            alias: duplicate_name(&self.alias),
        }
    }

    /// Create a column definition.
    pub fn new<S: TextLike>(name: S) -> (out: Column)
        ensures
            out@ == (ColumnModel { name: name.characters(), table: None, alias: None }),
    {
        Column { name: name.into_text(), table: None, alias: None }
    }

    /// The column that a name, a column or a pair of a table and a column
    /// stands for.
    pub fn from<C: ColumnLike>(column: C) -> (out: Column)
        ensures
            out@ == column.column_model(),
    {
        column.into_column()
    }

    /// Include the table name in the column expression.
    pub fn table<T: TableLike>(self, table: T) -> (out: Column)
        ensures
            out@ == (ColumnModel { table: Some(table.table_model()), ..self@ }),
    {
        let mut out = self;
        out.table = Some(table.into_table());
        out
    }

    /// Include the table name in the column expression, if table is defined.
    pub fn opt_table<T: TableLike>(self, table: Option<T>) -> (out: Column)
        ensures
            out@ == match table {
                Some(t) => (ColumnModel { table: Some(t.table_model()), ..self@ }),
                None => self@,
            },
    {
        let mut out = self;
        if let Some(table) = table {
            out.table = Some(table.into_table());
        }
        out
    }

    /// Give the column an alias in the query.
    pub fn alias<S: TextLike>(self, alias: S) -> (out: Column)
        ensures
            out@ == (ColumnModel { alias: Some(alias.characters()), ..self@ }),
    {
        let mut out = self;
        out.alias = Some(alias.into_text());
        out
    }
}

/// Anything that names a column: a bare name, a column, or a pair of a table
/// and a column.
pub trait ColumnLike: Sized {
    /// The column that this stands for.
    spec fn column_model(&self) -> ColumnModel;

    /// The column itself.
    fn into_column(self) -> (out: Column)
        ensures
            out@ == self.column_model(),
    ;
}

impl ColumnLike for Column {
    open spec fn column_model(&self) -> ColumnModel {
        self@
    }

    fn into_column(self) -> (out: Column) {
        self
    }
}

impl<'a> ColumnLike for &'a str {
    open spec fn column_model(&self) -> ColumnModel {
        ColumnModel { name: self@, table: None, alias: None }
    }

    fn into_column(self) -> (out: Column) {
        Column::new(self)
    }
}

impl ColumnLike for String {
    open spec fn column_model(&self) -> ColumnModel {
        ColumnModel { name: self@, table: None, alias: None }
    }

    fn into_column(self) -> (out: Column) {
        Column::new(self)
    }
}

/// The column of the second part, in the table of the first.
impl<T: TableLike, C: ColumnLike> ColumnLike for (T, C) {
    open spec fn column_model(&self) -> ColumnModel {
        ColumnModel { table: Some(self.0.table_model()), ..self.1.column_model() }
    }

    fn into_column(self) -> (out: Column) {
        let (table, column) = self;
        column.into_column().table(table)
    }
}

impl View for Column {
    type V = ColumnModel;

    open spec fn view(&self) -> ColumnModel {
        self.model()
    }
}

/// A copy of each column, in order.
pub fn duplicate_columns(items: &Vec<Column>) -> (out: Vec<Column>)
    ensures
        column_models(out) == column_models(*items),
{
    let mut out: Vec<Column> = Vec::new();
    let mut i: usize = 0;
    while i < items.len()
        invariant
            i <= items.len(),
            out.len() == i,
            forall|k: int| 0 <= k < i ==> out[k]@ == items[k]@,
        decreases items.len() - i,
    {
        out.push(items[i].duplicate());
        i += 1;
    }
    assert(column_models(out) =~= column_models(*items));
    out
}

/// The models of a run of columns, in order.
pub open spec fn column_models(columns: Vec<Column>) -> Seq<ColumnModel> {
    Seq::new(columns.len() as nat, |i: int| columns[i]@)
}

} // verus!
