//! The UPDATE statement.

use crate::ast::column::{Column, ColumnLike, ColumnModel};
use crate::ast::conditions::{ConditionTree, ConditionTreeModel};
use crate::ast::table::{Table, TableLike, TableModel};
use crate::ast::values::{DatabaseValue, DatabaseValueModel, ValueLike};
use vstd::prelude::*;

verus! {

/// A column and the value that it is set to.
#[derive(Debug, PartialEq)]
pub struct Assignment {
    pub column: Column,
    pub value: DatabaseValue,
}

/// The mathematical value of a assignment: texts as their characters, lists as
/// sequences.
pub struct AssignmentModel {
    pub column: ColumnModel,
    pub value: DatabaseValueModel,
}

impl View for Assignment {
    type V = AssignmentModel;

    open spec fn view(&self) -> AssignmentModel {
        AssignmentModel { column: self.column@, value: self.value@ }
    }
}

impl Clone for Assignment {
    fn clone(&self) -> (out: Assignment)
        ensures
            out@ == self@,
    {
        self.duplicate()
    }
}

impl Clone for Update {
    fn clone(&self) -> (out: Update)
        ensures
            out@ == self@,
    {
        self.duplicate()
    }
}

impl Assignment {
    /// A copy with the same view.
    pub fn duplicate(&self) -> (out: Assignment)
        ensures
            out@ == self@,
    {
        Assignment { column: self.column.duplicate(), value: self.value.duplicate() }
    }
}

/// A copy of each assignment, in order.
pub fn duplicate_assignments(items: &Vec<Assignment>) -> (out: Vec<Assignment>)
    ensures
        assignment_models(out) == assignment_models(*items),
{
    let mut out: Vec<Assignment> = Vec::new();
    let mut i: usize = 0;
    while i < items.len()
        invariant
            i <= items.len(),
            out.len() == i,
            forall|k: int| 0 <= k < i ==> out[k]@ == items[k]@,
        decreases items.len() - i,
    {
        out.push(items[i].duplicate());
        i += 1;
    }
    assert(assignment_models(out) =~= assignment_models(*items));
    out
}

/// The models of a run of assignments, in order.
pub open spec fn assignment_models(assignments: Vec<Assignment>) -> Seq<AssignmentModel> {
    Seq::new(assignments.len() as nat, |i: int| assignments[i]@)
}

/// An update statement. Without a condition it updates every row.
#[derive(Debug, PartialEq)]
pub struct Update {
    pub table: Table,
    pub assignments: Vec<Assignment>,
    pub conditions: ConditionTree,
}

/// The mathematical value of a update statement: texts as their characters, lists as
/// sequences.
pub struct UpdateModel {
    pub table: TableModel,
    pub assignments: Seq<AssignmentModel>,
    pub conditions: ConditionTreeModel,
}

impl View for Update {
    type V = UpdateModel;

    open spec fn view(&self) -> UpdateModel {
        UpdateModel {
            table: self.table@,
            assignments: assignment_models(self.assignments),
            conditions: self.conditions@,
        }
    }
}

impl Update {
    /// A copy with the same view.
    pub fn duplicate(&self) -> (out: Update)
        ensures
            out@ == self@,
    {
        Update {
            table: self.table.duplicate(),
            assignments: duplicate_assignments(&self.assignments),
            conditions: self.conditions.duplicate(),
        }
    }

    /// An update of the table, which sets nothing yet.
    pub fn table<T: TableLike>(table: T) -> (out: Update)
        ensures
            out@ == (UpdateModel {
                table: table.table_model(),
                assignments: Seq::empty(),
                conditions: ConditionTreeModel::NoCondition,
            }),
    {
        let out = Update {
            table: table.into_table(),
            assignments: Vec::new(),
            conditions: ConditionTree::NoCondition,
        };
        assert(assignment_models(out.assignments) =~= Seq::empty());
        out
    }

    /// Sets a column to a value, after the columns that are set already.
    pub fn set<C: ColumnLike, V: ValueLike>(self, column: C, value: V) -> (out: Update)
        ensures
            out@ == (UpdateModel {
                assignments: self@.assignments.push(
                    AssignmentModel { column: column.column_model(), value: value.value_model() },
                ),
                ..self@
            }),
    {
        let mut out = self;
        let assignment = Assignment { column: column.into_column(), value: value.into_value() };
        out.assignments.push(assignment);
        assert(assignment_models(out.assignments) =~= assignment_models(self.assignments).push(
            assignment@,
        ));
        out
    }

    /// Sets the condition of the WHERE clause, in place of an earlier one.
    pub fn so_that(self, conditions: ConditionTree) -> (out: Update)
        ensures
            out@ == (UpdateModel { conditions: conditions@, ..self@ }),
    {
        let mut out = self;
        out.conditions = conditions;
        out
    }
}

} // verus!
