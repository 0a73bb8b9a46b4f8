//! The sort order of a select's rows.

use crate::ast::column::ColumnLike;
use crate::ast::values::{DatabaseValue, DatabaseValueModel, ValueLike};
use vstd::prelude::*;

verus! {

/// The direction of one sort key. `Default` writes no direction at all and
/// leaves the choice to the database.
#[derive(Clone, Copy, Debug, PartialEq, Eq)]
pub enum Direction {
    Default,
    Asc,
    Desc,
}

/// One sort key: a value and its direction.
#[derive(Debug, PartialEq)]
pub struct OrderDefinition {
    pub value: DatabaseValue,
    pub direction: Direction,
}

/// The mathematical value of a sort key: texts as their characters, lists as
/// sequences.
pub struct OrderDefinitionModel {
    pub value: DatabaseValueModel,
    pub direction: Direction,
}

impl OrderDefinition {
    /// The mathematical value.
    pub open spec fn model(&self) -> OrderDefinitionModel
        decreases self,
    {
        OrderDefinitionModel { value: self.value.model(), direction: self.direction }
    }
}

impl Clone for OrderDefinition {
    fn clone(&self) -> (out: OrderDefinition)
        ensures
            out@ == self@,
    {
        self.duplicate()
    }
}

impl OrderDefinition {
    /// A copy with the same view.
    pub fn duplicate(&self) -> (out: OrderDefinition)
        ensures
            out@ == self@,
        decreases self,
    {
        OrderDefinition { value: self.value.duplicate(), direction: self.direction }
    }
}

/// A copy of each sort key, in order.
pub fn duplicate_orders(items: &Vec<OrderDefinition>) -> (out: Vec<OrderDefinition>)
    ensures
        order_models(out) == order_models(*items),
    decreases items,
{
    let mut out: Vec<OrderDefinition> = Vec::new();
    let mut i: usize = 0;
    while i < items.len()
        invariant
            i <= items.len(),
            out.len() == i,
            forall|k: int| 0 <= k < i ==> out[k]@ == items[k]@,
        decreases items.len() - i,
    {
        out.push(items[i].duplicate());
        i += 1;
    }
    assert(order_models(out) =~= order_models(*items));
    out
}

/// Anything that names a column can be sorted by.
pub trait Orderable: Sized {
    /// The value that is sorted by: the column.
    spec fn sorted(&self) -> DatabaseValueModel;

    /// Sort by this column in the given direction.
    fn order(self, direction: Direction) -> (out: OrderDefinition)
        ensures
            out@ == (OrderDefinitionModel { value: self.sorted(), direction }),
    ;

    /// Sort by this column, the smallest first.
    fn ascend(self) -> (out: OrderDefinition)
        ensures
            out@ == (OrderDefinitionModel { value: self.sorted(), direction: Direction::Asc }),
    ;

    /// Sort by this column, the largest first.
    fn descend(self) -> (out: OrderDefinition)
        ensures
            out@ == (OrderDefinitionModel { value: self.sorted(), direction: Direction::Desc }),
    ;
}

impl<C: ColumnLike> Orderable for C {
    open spec fn sorted(&self) -> DatabaseValueModel {
        DatabaseValueModel::Column(Box::new(self.column_model()))
    }

    fn order(self, direction: Direction) -> (out: OrderDefinition) {
        OrderDefinition { value: self.into_column().into_value(), direction }
    }

    fn ascend(self) -> (out: OrderDefinition) {
        self.order(Direction::Asc)
    }

    fn descend(self) -> (out: OrderDefinition) {
        self.order(Direction::Desc)
    }
}

/// Anything that a select can be ordered by: a sort key, or a column alone,
/// which leaves the direction to the database.
pub trait OrderLike: Sized {
    /// The sort key that this stands for.
    spec fn order_model(&self) -> OrderDefinitionModel;

    /// The sort key itself.
    fn into_order(self) -> (out: OrderDefinition)
        ensures
            out@ == self.order_model(),
    ;
}

impl OrderLike for OrderDefinition {
    open spec fn order_model(&self) -> OrderDefinitionModel {
        self@
    }

    fn into_order(self) -> (out: OrderDefinition) {
        self
    }
}

impl<C: ColumnLike> OrderLike for C {
    open spec fn order_model(&self) -> OrderDefinitionModel {
        OrderDefinitionModel {
            value: DatabaseValueModel::Column(Box::new(self.column_model())),
            direction: Direction::Default,
        }
    }

    fn into_order(self) -> (out: OrderDefinition) {
        self.order(Direction::Default)
    }
}

impl View for OrderDefinition {
    type V = OrderDefinitionModel;

    open spec fn view(&self) -> OrderDefinitionModel {
        self.model()
    }
}

/// The models of a run of sort keys, in order.
pub open spec fn order_models(keys: Vec<OrderDefinition>) -> Seq<OrderDefinitionModel>
    decreases keys,
{
    Seq::new(
        keys.len() as nat,
        |i: int|
            if 0 <= i < keys.len() {
                keys[i].model()
            } else {
                arbitrary()
            },
    )
}

} // verus!
