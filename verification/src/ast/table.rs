//! Tables: named ones and selects that stand in their place.

use crate::ast::select::{Select, SelectModel};
use crate::ast::values::{
    duplicate_name, optional_name, DatabaseValue, DatabaseValueModel, TextLike,
};
use vstd::prelude::*;

verus! {

/// What a table is read from.
#[derive(Debug, PartialEq)]
pub enum TableType {
    /// A table of the database, by name.
    Table(String),
    /// The rows of a select: a derived table.
    Query(Box<Select>),
}

/// The mathematical value of a source of a table: texts as their characters, lists as
/// sequences.
pub enum TableTypeModel {
    Table(Seq<char>),
    Query(Box<SelectModel>),
}

/// A table definition.
#[derive(Debug, PartialEq)]
pub struct Table {
    pub typ: TableType,
    pub schema: Option<String>,
    pub alias: Option<String>,
}

/// The mathematical value of a table: texts as their characters, lists as
/// sequences.
pub struct TableModel {
    pub typ: TableTypeModel,
    pub schema: Option<Seq<char>>,
    pub alias: Option<Seq<char>>,
}

impl Table {
    /// The mathematical value.
    pub open spec fn model(&self) -> TableModel
        decreases self,
    {
        TableModel {
            typ: match self.typ {
                TableType::Table(name) => TableTypeModel::Table(name@),
                TableType::Query(select) => TableTypeModel::Query(Box::new(select.model())),
            },
            schema: optional_name(self.schema),
            alias: optional_name(self.alias),
        }
    }
}

impl Clone for TableType {
    fn clone(&self) -> (out: TableType)
        ensures
            out.is_copy_of(*self),
    {
        match self {
            TableType::Table(name) => TableType::Table(name.clone()),
            TableType::Query(select) => TableType::Query(Box::new(select.duplicate())),
        }
    }
}

impl TableType {
    /// Whether the two are the same source: the table of the same name, or
    /// selects with the same view.
    pub open spec fn is_copy_of(self, other: TableType) -> bool {
        match (self, other) {
            (TableType::Table(a), TableType::Table(b)) => a@ == b@,
            (TableType::Query(a), TableType::Query(b)) => a@ == b@,
            _ => false,
        }
    }
}

impl Clone for Table {
    fn clone(&self) -> (out: Table)
        ensures
            out@ == self@,
    {
        self.duplicate()
    }
}

impl Table {
    /// A copy with the same view.
    pub fn duplicate(&self) -> (out: Table)
        ensures
            out@ == self@,
        decreases self,
    {
        Table {
            typ: match &self.typ {
                TableType::Table(name) => TableType::Table(name.clone()),
                TableType::Query(select) => TableType::Query(Box::new(select.duplicate())),
            },
            schema: duplicate_name(&self.schema),
            alias: duplicate_name(&self.alias),
        }
    }

    /// The table that a name, a pair of a schema and a name, a table or a
    /// select stands for.
    pub fn from<T: TableLike>(table: T) -> (out: Table)
        ensures
            out@ == table.table_model(),
    {
        table.into_table()
    }

    /// Name the schema that the table is in.
    pub fn schema<S: TextLike>(self, schema: S) -> (out: Table)
        ensures
            out@ == (TableModel { schema: Some(schema.characters()), ..self@ }),
    {
        let mut out = self;
        out.schema = Some(schema.into_text());
        out
    }

    /// Give the table an alias in the query.
    pub fn alias<S: TextLike>(self, alias: S) -> (out: Table)
        ensures
            out@ == (TableModel { alias: Some(alias.characters()), ..self@ }),
    {
        let mut out = self;
        out.alias = Some(alias.into_text());
        out
    }

    /// Every column of the table.
    pub fn asterisk(self) -> (out: DatabaseValue)
        ensures
            out@ == DatabaseValueModel::Asterisk(Some(self@)),
    {
        DatabaseValue::Asterisk(Some(self))
    }
}

/// Anything that names a table: a bare name, a pair of a schema and a name, a
/// table, or a select to read from.
pub trait TableLike: Sized {
    /// The table that this stands for.
    spec fn table_model(&self) -> TableModel;

    /// The table itself.
    fn into_table(self) -> (out: Table)
        ensures
            out@ == self.table_model(),
    ;
}

impl TableLike for Table {
    open spec fn table_model(&self) -> TableModel {
        self@
    }

    fn into_table(self) -> (out: Table) {
        self
    }
}

impl<'a> TableLike for &'a str {
    open spec fn table_model(&self) -> TableModel {
        TableModel { typ: TableTypeModel::Table(self@), schema: None, alias: None }
    }

    fn into_table(self) -> (out: Table) {
        Table { typ: TableType::Table(self.to_owned()), schema: None, alias: None }
    }
}

impl TableLike for String {
    open spec fn table_model(&self) -> TableModel {
        TableModel { typ: TableTypeModel::Table(self@), schema: None, alias: None }
    }

    fn into_table(self) -> (out: Table) {
        Table { typ: TableType::Table(self), schema: None, alias: None }
    }
}

/// The table of the second name, in the schema of the first.
impl<S: TextLike, N: TextLike> TableLike for (S, N) {
    open spec fn table_model(&self) -> TableModel {
        TableModel {
            typ: TableTypeModel::Table(self.1.characters()),
            schema: Some(self.0.characters()),
            alias: None,
        }
    }

    fn into_table(self) -> (out: Table) {
        let (schema, name) = self;
        Table {
            typ: TableType::Table(name.into_text()),
            schema: Some(schema.into_text()),
            alias: None,
        }
    }
}

/// The rows of the select, as a derived table.
impl TableLike for Select {
    open spec fn table_model(&self) -> TableModel {
        TableModel { typ: TableTypeModel::Query(Box::new(self@)), schema: None, alias: None }
    }

    fn into_table(self) -> (out: Table) {
        Table { typ: TableType::Query(Box::new(self)), schema: None, alias: None }
    }
}

impl View for Table {
    type V = TableModel;

    open spec fn view(&self) -> TableModel {
        self.model()
    }
}

} // verus!
