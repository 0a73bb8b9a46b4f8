//! Joins of a select's table with another one.

use crate::ast::conditions::{ConditionTree, ConditionTreeModel};
use crate::ast::table::{Table, TableLike, TableModel};
use vstd::prelude::*;

verus! {

/// How the rows of the two tables are paired.
#[derive(Clone, Copy, Debug, PartialEq, Eq)]
pub enum JoinKind {
    Inner,
    LeftOuter,
}

/// A joined table and the condition that pairs its rows.
#[derive(Debug, PartialEq)]
pub struct Join {
    pub kind: JoinKind,
    pub target: Table,
    pub predicate: ConditionTree,
}

/// The mathematical value of a join: texts as their characters, lists as
/// sequences.
pub struct JoinModel {
    pub kind: JoinKind,
    pub target: TableModel,
    pub predicate: ConditionTreeModel,
}

impl Join {
    /// The mathematical value.
    pub open spec fn model(&self) -> JoinModel
        decreases self,
    {
        JoinModel {
            kind: self.kind,
            target: self.target.model(),
            predicate: self.predicate.model(),
        }
    }
}

impl Clone for Join {
    fn clone(&self) -> (out: Join)
        ensures
            out@ == self@,
    {
        self.duplicate()
    }
}

impl Join {
    /// A copy with the same view.
    pub fn duplicate(&self) -> (out: Join)
        ensures
            out@ == self@,
        decreases self,
    {
        Join {
            kind: self.kind,
            target: self.target.duplicate(),
            predicate: self.predicate.duplicate(),
        }
    }
}

/// A copy of each join, in order.
pub fn duplicate_joins(items: &Vec<Join>) -> (out: Vec<Join>)
    ensures
        join_models(out) == join_models(*items),
    decreases items,
{
    let mut out: Vec<Join> = Vec::new();
    let mut i: usize = 0;
    while i < items.len()
        invariant
            i <= items.len(),
            out.len() == i,
            forall|k: int| 0 <= k < i ==> out[k]@ == items[k]@,
        decreases items.len() - i,
    {
        out.push(items[i].duplicate());
        i += 1;
    }
    assert(join_models(out) =~= join_models(*items));
    out
}

/// Anything that names a table can be joined.
pub trait Joinable: Sized {
    /// The table that is joined.
    spec fn target(&self) -> TableModel;

    /// The join of this table on the condition. It is an inner join until
    /// a select takes it as another kind.
    fn on(self, conditions: ConditionTree) -> (out: Join)
        ensures
            out@ == (JoinModel {
                kind: JoinKind::Inner,
                target: self.target(),
                predicate: conditions@,
            }),
    ;
}

impl<T: TableLike> Joinable for T {
    open spec fn target(&self) -> TableModel {
        self.table_model()
    }

    fn on(self, conditions: ConditionTree) -> (out: Join) {
        Join { kind: JoinKind::Inner, target: self.into_table(), predicate: conditions }
    }
}

impl View for Join {
    type V = JoinModel;

    open spec fn view(&self) -> JoinModel {
        self.model()
    }
}

/// The models of a run of joins, in order.
pub open spec fn join_models(joins: Vec<Join>) -> Seq<JoinModel>
    decreases joins,
{
    Seq::new(
        joins.len() as nat,
        |i: int|
            if 0 <= i < joins.len() {
                joins[i].model()
            } else {
                arbitrary()
            },
    )
}

} // verus!
