//! The SELECT statement.

use crate::ast::column::ColumnLike;
use crate::ast::conditions::{ConditionTree, ConditionTreeModel};
use crate::ast::join::{duplicate_joins, join_models, Join, JoinKind, JoinModel};
use crate::ast::order::{
    duplicate_orders, order_models, OrderDefinition, OrderDefinitionModel, OrderLike,
};
use crate::ast::table::{Table, TableLike, TableModel};
use crate::ast::values::{
    duplicate_values, optional_scalar, value_models, DatabaseValue, DatabaseValueModel, ParameterizedValue, Scalar,
    ScalarLike, ValueLike,
};
use vstd::prelude::*;

verus! {

/// A select statement. Without a table it selects values only.
#[derive(Debug, PartialEq)]
pub struct Select {
    pub table: Option<Table>,
    pub columns: Vec<DatabaseValue>,
    pub conditions: ConditionTree,
    pub joins: Vec<Join>,
    pub ordering: Vec<OrderDefinition>,
    pub grouping: Vec<DatabaseValue>,
    pub having: ConditionTree,
    pub limit: Option<ParameterizedValue>,
    pub offset: Option<ParameterizedValue>,
}

/// The mathematical value of a select statement: texts as their characters, lists as
/// sequences.
pub struct SelectModel {
    pub table: Option<TableModel>,
    pub columns: Seq<DatabaseValueModel>,
    pub conditions: ConditionTreeModel,
    pub joins: Seq<JoinModel>,
    pub ordering: Seq<OrderDefinitionModel>,
    pub grouping: Seq<DatabaseValueModel>,
    pub having: ConditionTreeModel,
    pub limit: Option<Scalar>,
    pub offset: Option<Scalar>,
}

impl Select {
    /// The mathematical value.
    pub open spec fn model(&self) -> SelectModel
        decreases self,
    {
        SelectModel {
            table: match self.table {
                Some(t) => Some(t.model()),
                None => None,
            },
            columns: value_models(self.columns),
            conditions: self.conditions.model(),
            joins: join_models(self.joins),
            ordering: order_models(self.ordering),
            grouping: value_models(self.grouping),
            having: self.having.model(),
            limit: optional_scalar(self.limit),
            offset: optional_scalar(self.offset),
        }
    }
}

impl SelectModel {
    /// The select of nothing, from nowhere.
    pub open spec fn empty() -> SelectModel {
        SelectModel {
            table: None,
            columns: Seq::empty(),
            conditions: ConditionTreeModel::NoCondition,
            joins: Seq::empty(),
            ordering: Seq::empty(),
            grouping: Seq::empty(),
            having: ConditionTreeModel::NoCondition,
            limit: None,
            offset: None,
        }
    }
}

impl Default for Select {
    /// A select without a table: it gives the values that are added to it.
    fn default() -> (out: Select)
        ensures
            out@ == SelectModel::empty(),
    {
        let out = Select {
            table: None,
            columns: Vec::new(),
            conditions: ConditionTree::NoCondition,
            joins: Vec::new(),
            ordering: Vec::new(),
            grouping: Vec::new(),
            having: ConditionTree::NoCondition,
            limit: None,
            offset: None,
        };
        proof {
            assert(value_models(out.columns) =~= Seq::empty());
            assert(value_models(out.grouping) =~= Seq::empty());
            assert(join_models(out.joins) =~= Seq::empty());
            assert(order_models(out.ordering) =~= Seq::empty());
        }
        out
    }
}

impl Clone for Select {
    fn clone(&self) -> (out: Select)
        ensures
            out@ == self@,
    {
        self.duplicate()
    }
}

impl Select {
    /// A copy with the same view.
    pub fn duplicate(&self) -> (out: Select)
        ensures
            out@ == self@,
        decreases self,
    {
        Select {
            table: match &self.table {
                Some(t) => Some(t.duplicate()),
                None => None,
            },
            columns: duplicate_values(&self.columns),
            conditions: self.conditions.duplicate(),
            joins: duplicate_joins(&self.joins),
            ordering: duplicate_orders(&self.ordering),
            grouping: duplicate_values(&self.grouping),
            having: self.having.duplicate(),
            limit: match &self.limit {
                Some(v) => Some(v.duplicate()),
                None => None,
            },
            offset: match &self.offset {
                Some(v) => Some(v.duplicate()),
                None => None,
            },
        }
    }

    /// A select of every column of the table.
    pub fn from_table<T: TableLike>(table: T) -> (out: Select)
        ensures
            out@ == (SelectModel { table: Some(table.table_model()), ..SelectModel::empty() }),
    {
        let mut out = Select::default();
        out.table = Some(table.into_table());
        out
    }

    /// Adds a value to the projection.
    pub fn value<V: ValueLike>(self, value: V) -> (out: Select)
        ensures
            out@ == (SelectModel { columns: self@.columns.push(value.value_model()), ..self@ }),
    {
        let mut out = self;
        out.columns.push(value.into_value());
        assert(value_models(out.columns) =~= value_models(self.columns).push(value.value_model()));
        out
    }

    /// Adds a column to the projection.
    pub fn column<C: ColumnLike>(self, column: C) -> (out: Select)
        ensures
            out@ == (SelectModel {
                columns: self@.columns.push(
                    DatabaseValueModel::Column(Box::new(column.column_model())),
                ),
                ..self@
            }),
    {
        self.value(column.into_column())
    }

    /// Sets the condition of the WHERE clause, in place of an earlier one.
    pub fn so_that(self, conditions: ConditionTree) -> (out: Select)
        ensures
            out@ == (SelectModel { conditions: conditions@, ..self@ }),
    {
        let mut out = self;
        out.conditions = conditions;
        out
    }

    /// Adds an inner join.
    pub fn inner_join(self, join: Join) -> (out: Select)
        ensures
            out@ == (SelectModel {
                joins: self@.joins.push(JoinModel { kind: JoinKind::Inner, ..join@ }),
                ..self@
            }),
    {
        let mut out = self;
        let mut join = join;
        join.kind = JoinKind::Inner;
        out.joins.push(join);
        assert(join_models(out.joins) =~= join_models(self.joins).push(join@));
        out
    }

    /// Adds a left outer join.
    pub fn left_outer_join(self, join: Join) -> (out: Select)
        ensures
            out@ == (SelectModel {
                joins: self@.joins.push(JoinModel { kind: JoinKind::LeftOuter, ..join@ }),
                ..self@
            }),
    {
        let mut out = self;
        let mut join = join;
        join.kind = JoinKind::LeftOuter;
        out.joins.push(join);
        assert(join_models(out.joins) =~= join_models(self.joins).push(join@));
        out
    }

    /// Adds a sort key after those that are there.
    pub fn order_by<O: OrderLike>(self, key: O) -> (out: Select)
        ensures
            out@ == (SelectModel { ordering: self@.ordering.push(key.order_model()), ..self@ }),
    {
        let mut out = self;
        out.ordering.push(key.into_order());
        assert(order_models(out.ordering) =~= order_models(self.ordering).push(key.order_model()));
        out
    }

    /// Adds a column to group by.
    pub fn group_by<C: ColumnLike>(self, column: C) -> (out: Select)
        ensures
            out@ == (SelectModel {
                grouping: self@.grouping.push(
                    DatabaseValueModel::Column(Box::new(column.column_model())),
                ),
                ..self@
            }),
    {
        let mut out = self;
        out.grouping.push(column.into_column().into_value());
        assert(value_models(out.grouping) =~= value_models(self.grouping).push(
            DatabaseValueModel::Column(Box::new(column.column_model())),
        ));
        out
    }

    /// Sets the condition of the HAVING clause, in place of an earlier one.
    pub fn having(self, conditions: ConditionTree) -> (out: Select)
        ensures
            out@ == (SelectModel { having: conditions@, ..self@ }),
    {
        let mut out = self;
        out.having = conditions;
        out
    }

    /// Sets the largest number of rows to give.
    pub fn limit<S: ScalarLike>(self, limit: S) -> (out: Select)
        ensures
            out@ == (SelectModel { limit: Some(limit.scalar()), ..self@ }),
    {
        let mut out = self;
        out.limit = Some(limit.into_scalar());
        out
    }

    /// Sets the number of rows to pass over.
    pub fn offset<S: ScalarLike>(self, offset: S) -> (out: Select)
        ensures
            out@ == (SelectModel { offset: Some(offset.scalar()), ..self@ }),
    {
        let mut out = self;
        out.offset = Some(offset.into_scalar());
        out
    }
}

impl View for Select {
    type V = SelectModel;

    open spec fn view(&self) -> SelectModel {
        self.model()
    }
}

} // verus!
