//! The statements that can be built.

use crate::ast::delete::{Delete, DeleteModel};
use crate::ast::insert::{Insert, InsertModel, MultiRowInsert, SingleRowInsert};
use crate::ast::select::{Select, SelectModel};
use crate::ast::update::{Update, UpdateModel};
use vstd::prelude::*;

verus! {

/// A statement.
#[derive(Debug, PartialEq)]
pub enum Query {
    Select(Select),
    Insert(Insert),
    Update(Update),
    Delete(Delete),
}

/// The mathematical value of a statement: texts as their characters, lists as
/// sequences.
pub enum QueryModel {
    Select(SelectModel),
    Insert(InsertModel),
    Update(UpdateModel),
    Delete(DeleteModel),
}

impl QueryModel {
    /// An insert has one value for each column in every row.
    pub open spec fn well_formed(self) -> bool {
        match self {
            QueryModel::Insert(i) => i.well_formed(),
            _ => true,
        }
    }
}

/// Anything that is a whole statement.
pub trait QueryLike: Sized {
    /// The statement that this stands for.
    spec fn query_model(&self) -> QueryModel;

    /// The statement itself.
    fn into_query(self) -> (out: Query)
        ensures
            out@ == self.query_model(),
    ;
}

impl QueryLike for Query {
    open spec fn query_model(&self) -> QueryModel {
        self@
    }

    fn into_query(self) -> (out: Query) {
        self
    }
}

impl QueryLike for Select {
    open spec fn query_model(&self) -> QueryModel {
        QueryModel::Select(self@)
    }

    fn into_query(self) -> (out: Query) {
        Query::Select(self)
    }
}

impl QueryLike for Insert {
    open spec fn query_model(&self) -> QueryModel {
        QueryModel::Insert(self@)
    }

    fn into_query(self) -> (out: Query) {
        Query::Insert(self)
    }
}

impl QueryLike for Update {
    open spec fn query_model(&self) -> QueryModel {
        QueryModel::Update(self@)
    }

    fn into_query(self) -> (out: Query) {
        Query::Update(self)
    }
}

impl QueryLike for Delete {
    open spec fn query_model(&self) -> QueryModel {
        QueryModel::Delete(self@)
    }

    fn into_query(self) -> (out: Query) {
        Query::Delete(self)
    }
}

impl QueryLike for SingleRowInsert {
    open spec fn query_model(&self) -> QueryModel {
        QueryModel::Insert(self@.insert())
    }

    fn into_query(self) -> (out: Query) {
        Query::Insert(self.build())
    }
}

impl QueryLike for MultiRowInsert {
    open spec fn query_model(&self) -> QueryModel {
        QueryModel::Insert(self@.insert())
    }

    fn into_query(self) -> (out: Query) {
        Query::Insert(self.build())
    }
}

impl Clone for Query {
    fn clone(&self) -> (out: Query)
        ensures
            out@ == self@,
    {
        self.duplicate()
    }
}

impl Query {
    /// A copy with the same view.
    pub fn duplicate(&self) -> (out: Query)
        ensures
            out@ == self@,
    {
        match self {
            Query::Select(s) => Query::Select(s.duplicate()),
            Query::Insert(i) => Query::Insert(i.duplicate()),
            Query::Update(u) => Query::Update(u.duplicate()),
            Query::Delete(d) => Query::Delete(d.duplicate()),
        }
    }

    /// Whether the statement can be written: an insert has one value for
    /// each column in every row.
    pub fn is_well_formed(&self) -> (out: bool)
        ensures
            out == self@.well_formed(),
    {
        match self {
            Query::Insert(insert) => insert.is_well_formed(),
            _ => true,
        }
    }
}

impl View for Query {
    type V = QueryModel;

    open spec fn view(&self) -> QueryModel {
        match self {
            Query::Select(s) => QueryModel::Select(s@),
            Query::Insert(i) => QueryModel::Insert(i@),
            Query::Update(u) => QueryModel::Update(u@),
            Query::Delete(d) => QueryModel::Delete(d@),
        }
    }
}

} // verus!
