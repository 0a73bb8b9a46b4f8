//! The DELETE statement.

use crate::ast::conditions::{ConditionTree, ConditionTreeModel};
use crate::ast::table::{Table, TableLike, TableModel};
use vstd::prelude::*;

verus! {

/// A delete statement. Without a condition it deletes every row.
#[derive(Debug, PartialEq)]
pub struct Delete {
    pub table: Table,
    pub conditions: ConditionTree,
}

/// The mathematical value of a delete statement: texts as their characters, lists as
/// sequences.
pub struct DeleteModel {
    pub table: TableModel,
    pub conditions: ConditionTreeModel,
}

impl View for Delete {
    type V = DeleteModel;

    open spec fn view(&self) -> DeleteModel {
        DeleteModel { table: self.table@, conditions: self.conditions@ }
    }
}

impl Clone for Delete {
    fn clone(&self) -> (out: Delete)
        ensures
            out@ == self@,
    {
        self.duplicate()
    }
}

impl Delete {
    /// A copy with the same view.
    pub fn duplicate(&self) -> (out: Delete)
        ensures
            out@ == self@,
    {
        Delete { table: self.table.duplicate(), conditions: self.conditions.duplicate() }
    }

    /// A delete of every row of the table.
    pub fn from_table<T: TableLike>(table: T) -> (out: Delete)
        ensures
            out@ == (DeleteModel {
                table: table.table_model(),
                conditions: ConditionTreeModel::NoCondition,
            }),
    {
        Delete { table: table.into_table(), conditions: ConditionTree::NoCondition }
    }

    /// Sets the condition of the WHERE clause, in place of an earlier one.
    pub fn so_that(self, conditions: ConditionTree) -> (out: Delete)
        ensures
            out@ == (DeleteModel { conditions: conditions@, ..self@ }),
    {
        let mut out = self;
        out.conditions = conditions;
        out
    }
}

} // verus!
