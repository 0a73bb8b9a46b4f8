//! Trees of comparisons joined by AND, OR and NOT.

use crate::ast::compare::{Compare, CompareModel};
use vstd::prelude::*;

verus! {

/// A boolean combination of comparisons. The shape is kept as it was built:
/// every binary node is written with its own parentheses.
#[derive(Debug, PartialEq)]
pub enum ConditionTree {
    And(Box<ConditionTree>, Box<ConditionTree>),
    Or(Box<ConditionTree>, Box<ConditionTree>),
    Not(Box<ConditionTree>),
    Single(Box<Compare>),
    /// No condition at all: it is written as nothing, and beside another
    /// condition only the other one is written.
    NoCondition,
}

/// The mathematical value of a condition tree: texts as their characters, lists as
/// sequences.
pub enum ConditionTreeModel {
    And(Box<ConditionTreeModel>, Box<ConditionTreeModel>),
    Or(Box<ConditionTreeModel>, Box<ConditionTreeModel>),
    Not(Box<ConditionTreeModel>),
    Single(Box<CompareModel>),
    NoCondition,
}

impl ConditionTreeModel {
    /// Whether the tree holds no comparison, and so is written as nothing.
    pub open spec fn is_vacuous(self) -> bool
        decreases self,
    {
        match self {
            ConditionTreeModel::And(l, r) => l.is_vacuous() && r.is_vacuous(),
            ConditionTreeModel::Or(l, r) => l.is_vacuous() && r.is_vacuous(),
            ConditionTreeModel::Not(inner) => inner.is_vacuous(),
            ConditionTreeModel::Single(_) => false,
            ConditionTreeModel::NoCondition => true,
        }
    }
}

impl Clone for ConditionTree {
    fn clone(&self) -> (out: ConditionTree)
        ensures
            out@ == self@,
    {
        self.duplicate()
    }
}

impl ConditionTree {
    /// A copy with the same view.
    pub fn duplicate(&self) -> (out: ConditionTree)
        ensures
            out@ == self@,
        decreases self,
    {
        match self {
            ConditionTree::And(l, r) => ConditionTree::And(
                Box::new(l.duplicate()),
                Box::new(r.duplicate()),
            ),
            ConditionTree::Or(l, r) => ConditionTree::Or(
                Box::new(l.duplicate()),
                Box::new(r.duplicate()),
            ),
            ConditionTree::Not(inner) => ConditionTree::Not(Box::new(inner.duplicate())),
            ConditionTree::Single(c) => ConditionTree::Single(Box::new(c.duplicate())),
            ConditionTree::NoCondition => ConditionTree::NoCondition,
        }
    }

    /// The mathematical value.
    pub open spec fn model(&self) -> ConditionTreeModel
        decreases self,
    {
        match self {
            ConditionTree::And(l, r) => ConditionTreeModel::And(
                Box::new(l.model()),
                Box::new(r.model()),
            ),
            ConditionTree::Or(l, r) => ConditionTreeModel::Or(
                Box::new(l.model()),
                Box::new(r.model()),
            ),
            ConditionTree::Not(inner) => ConditionTreeModel::Not(Box::new(inner.model())),
            ConditionTree::Single(c) => ConditionTreeModel::Single(Box::new(c.model())),
            ConditionTree::NoCondition => ConditionTreeModel::NoCondition,
        }
    }

    /// The condition that holds one comparison.
    pub fn single(compare: Compare) -> (out: ConditionTree)
        ensures
            out@ == ConditionTreeModel::Single(Box::new(compare@)),
    {
        ConditionTree::Single(Box::new(compare))
    }

    /// Both conditions hold. A new node stands above the two, whatever they
    /// are.
    pub fn and(self, other: ConditionTree) -> (out: ConditionTree)
        ensures
            out@ == ConditionTreeModel::And(Box::new(self@), Box::new(other@)),
    {
        ConditionTree::And(Box::new(self), Box::new(other))
    }

    /// One of the conditions holds. A new node stands above the two,
    /// whatever they are.
    pub fn or(self, other: ConditionTree) -> (out: ConditionTree)
        ensures
            out@ == ConditionTreeModel::Or(Box::new(self@), Box::new(other@)),
    {
        ConditionTree::Or(Box::new(self), Box::new(other))
    }

    /// The condition does not hold.
    pub fn not(self) -> (out: ConditionTree)
        ensures
            out@ == ConditionTreeModel::Not(Box::new(self@)),
    {
        ConditionTree::Not(Box::new(self))
    }

    /// Whether the tree holds no comparison.
    pub fn is_vacuous(&self) -> (out: bool)
        ensures
            out == self@.is_vacuous(),
        decreases self,
    {
        match self {
            ConditionTree::And(l, r) => l.is_vacuous() && r.is_vacuous(),
            ConditionTree::Or(l, r) => l.is_vacuous() && r.is_vacuous(),
            ConditionTree::Not(inner) => inner.is_vacuous(),
            ConditionTree::Single(_) => false,
            ConditionTree::NoCondition => true,
        }
    }
}

impl View for ConditionTree {
    type V = ConditionTreeModel;

    open spec fn view(&self) -> ConditionTreeModel {
        self.model()
    }
}

} // verus!
