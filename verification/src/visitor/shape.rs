//! The shape of a statement: what is left of it when every bound value is
//! forgotten. The SQL text is written from the shape alone.

use crate::ast::column::ColumnModel;
use crate::ast::compare::CompareModel;
use crate::ast::conditions::ConditionTreeModel;
use crate::ast::delete::DeleteModel;
use crate::ast::function::{FunctionModel, FunctionTypeModel};
use crate::ast::insert::InsertModel;
use crate::ast::join::JoinModel;
use crate::ast::order::OrderDefinitionModel;
use crate::ast::query::QueryModel;
use crate::ast::row::RowModel;
use crate::ast::select::SelectModel;
use crate::ast::table::{TableModel, TableTypeModel};
use crate::ast::update::{AssignmentModel, UpdateModel};
use crate::ast::values::{DatabaseValueModel, Scalar};
use crate::visitor::pieces::{group_pieces, lemma_sql_text_concat, sql_text, text, Piece};
use crate::visitor::render::{
    aggregate_to_string_pieces, alias_of, assignment_list_pieces, assignment_pieces,
    clause_pieces, delete_pieces, update_pieces, column_list_pieces, column_pieces,
    comparator_text, compare_pieces, condition_pieces, from_pieces, function_pieces, grouping_pieces, infix,
    insert_pieces, insert_values_pieces, item_pieces, join_pieces, joins_pieces,
    order_list_pieces, order_pieces, ordering_pieces, pagination_pieces, projection_pieces,
    query_pieces, row_list_pieces, row_pieces, select_pieces, table_pieces, value_list_pieces,
    value_pieces, wildcard_pieces,
};
use vstd::prelude::*;

verus! {

/// A bound value that is there or not, with the value forgotten.
pub open spec fn scalar_shape(s: Option<Scalar>) -> Option<Scalar> {
    match s {
        Some(_) => Some(Scalar::Null),
        None => None,
    }
}

impl DatabaseValueModel {
    /// The value with every scalar in it replaced by null.
    pub open spec fn shape(self) -> DatabaseValueModel
        decreases self,
    {
        match self {
            DatabaseValueModel::Parameterized(_) => DatabaseValueModel::Parameterized(Scalar::Null),
            DatabaseValueModel::Column(c) => DatabaseValueModel::Column(Box::new(c.shape())),
            DatabaseValueModel::Row(r) => DatabaseValueModel::Row(r.shape()),
            DatabaseValueModel::Select(s) => DatabaseValueModel::Select(Box::new(s.shape())),
            DatabaseValueModel::Function(f) => DatabaseValueModel::Function(f.shape()),
            DatabaseValueModel::Asterisk(t) => DatabaseValueModel::Asterisk(
                match t {
                    Some(t) => Some(t.shape()),
                    None => None,
                },
            ),
            DatabaseValueModel::Arithmetic(l, op, r) => DatabaseValueModel::Arithmetic(
                Box::new(l.shape()),
                op,
                Box::new(r.shape()),
            ),
            DatabaseValueModel::Raw(t) => DatabaseValueModel::Raw(t),
        }
    }
}

/// The shapes of a run of values, in order.
pub open spec fn value_shapes(xs: Seq<DatabaseValueModel>) -> Seq<DatabaseValueModel>
    decreases xs,
{
    Seq::new(
        xs.len(),
        |i: int|
            if 0 <= i < xs.len() {
                xs[i].shape()
            } else {
                arbitrary()
            },
    )
}

impl ColumnModel {
    /// The column with every scalar in it replaced by null.
    pub open spec fn shape(self) -> ColumnModel
        decreases self,
    {
        ColumnModel {
            table: match self.table {
                Some(t) => Some(t.shape()),
                None => None,
            },
            ..self
        }
    }
}

impl TableModel {
    /// The table with every scalar in it replaced by null.
    pub open spec fn shape(self) -> TableModel
        decreases self,
    {
        TableModel {
            typ: match self.typ {
                TableTypeModel::Table(name) => TableTypeModel::Table(name),
                TableTypeModel::Query(select) => TableTypeModel::Query(Box::new(select.shape())),
            },
            ..self
        }
    }
}

impl RowModel {
    /// The row with every scalar in it replaced by null.
    pub open spec fn shape(self) -> RowModel
        decreases self,
    {
        RowModel { values: value_shapes(self.values) }
    }
}

impl FunctionModel {
    /// The function call with every scalar in it replaced by null.
    pub open spec fn shape(self) -> FunctionModel
        decreases self,
    {
        FunctionModel {
            typ: match self.typ {
                FunctionTypeModel::Count(args) => FunctionTypeModel::Count(value_shapes(args)),
                FunctionTypeModel::AggregateToString(value) => FunctionTypeModel::AggregateToString(
                    Box::new(value.shape()),
                ),
            },
            ..self
        }
    }
}

impl CompareModel {
    /// The comparison with every scalar in it replaced by null.
    pub open spec fn shape(self) -> CompareModel
        decreases self,
    {
        match self {
            CompareModel::Equals(l, r) => CompareModel::Equals(
                Box::new(l.shape()),
                Box::new(r.shape()),
            ),
            CompareModel::NotEquals(l, r) => CompareModel::NotEquals(
                Box::new(l.shape()),
                Box::new(r.shape()),
            ),
            CompareModel::LessThan(l, r) => CompareModel::LessThan(
                Box::new(l.shape()),
                Box::new(r.shape()),
            ),
            CompareModel::LessThanOrEquals(l, r) => CompareModel::LessThanOrEquals(
                Box::new(l.shape()),
                Box::new(r.shape()),
            ),
            CompareModel::GreaterThan(l, r) => CompareModel::GreaterThan(
                Box::new(l.shape()),
                Box::new(r.shape()),
            ),
            CompareModel::GreaterThanOrEquals(l, r) => CompareModel::GreaterThanOrEquals(
                Box::new(l.shape()),
                Box::new(r.shape()),
            ),
            CompareModel::Like(l, r) => CompareModel::Like(
                Box::new(l.shape()),
                Box::new(r.shape()),
            ),
            CompareModel::NotLike(l, r) => CompareModel::NotLike(
                Box::new(l.shape()),
                Box::new(r.shape()),
            ),
            CompareModel::In(l, r) => CompareModel::In(
                Box::new(l.shape()),
                Box::new(r.shape()),
            ),
            CompareModel::NotIn(l, r) => CompareModel::NotIn(
                Box::new(l.shape()),
                Box::new(r.shape()),
            ),
            CompareModel::Null(v) => CompareModel::Null(Box::new(v.shape())),
            CompareModel::NotNull(v) => CompareModel::NotNull(Box::new(v.shape())),
            CompareModel::Between(v, lo, hi) => CompareModel::Between(
                Box::new(v.shape()),
                Box::new(lo.shape()),
                Box::new(hi.shape()),
            ),
            CompareModel::NotBetween(v, lo, hi) => CompareModel::NotBetween(
                Box::new(v.shape()),
                Box::new(lo.shape()),
                Box::new(hi.shape()),
            ),
        }
    }
}

impl ConditionTreeModel {
    /// The tree with every scalar in it replaced by null.
    pub open spec fn shape(self) -> ConditionTreeModel
        decreases self,
    {
        match self {
            ConditionTreeModel::And(l, r) => ConditionTreeModel::And(
                Box::new(l.shape()),
                Box::new(r.shape()),
            ),
            ConditionTreeModel::Or(l, r) => ConditionTreeModel::Or(
                Box::new(l.shape()),
                Box::new(r.shape()),
            ),
            ConditionTreeModel::Not(inner) => ConditionTreeModel::Not(Box::new(inner.shape())),
            ConditionTreeModel::Single(c) => ConditionTreeModel::Single(Box::new(c.shape())),
            ConditionTreeModel::NoCondition => ConditionTreeModel::NoCondition,
        }
    }
}

impl JoinModel {
    /// The join with every scalar in it replaced by null.
    pub open spec fn shape(self) -> JoinModel
        decreases self,
    {
        JoinModel { kind: self.kind, target: self.target.shape(), predicate: self.predicate.shape() }
    }
}

/// The shapes of a run of joins, in order.
pub open spec fn join_shapes(xs: Seq<JoinModel>) -> Seq<JoinModel>
    decreases xs,
{
    Seq::new(
        xs.len(),
        |i: int|
            if 0 <= i < xs.len() {
                xs[i].shape()
            } else {
                arbitrary()
            },
    )
}

impl OrderDefinitionModel {
    /// The sort key with every scalar in it replaced by null.
    pub open spec fn shape(self) -> OrderDefinitionModel
        decreases self,
    {
        OrderDefinitionModel { value: self.value.shape(), direction: self.direction }
    }
}

/// The shapes of a run of sort keys, in order.
pub open spec fn order_shapes(xs: Seq<OrderDefinitionModel>) -> Seq<OrderDefinitionModel>
    decreases xs,
{
    Seq::new(
        xs.len(),
        |i: int|
            if 0 <= i < xs.len() {
                xs[i].shape()
            } else {
                arbitrary()
            },
    )
}

impl SelectModel {
    /// The select with every scalar in it replaced by null.
    pub open spec fn shape(self) -> SelectModel
        decreases self,
    {
        SelectModel {
            table: match self.table {
                Some(t) => Some(t.shape()),
                None => None,
            },
            columns: value_shapes(self.columns),
            conditions: self.conditions.shape(),
            joins: join_shapes(self.joins),
            ordering: order_shapes(self.ordering),
            grouping: value_shapes(self.grouping),
            having: self.having.shape(),
            limit: scalar_shape(self.limit),
            offset: scalar_shape(self.offset),
        }
    }
}

impl InsertModel {
    /// The insert with every scalar in it replaced by null.
    pub open spec fn shape(self) -> InsertModel {
        InsertModel {
            table: self.table.shape(),
            columns: Seq::new(self.columns.len(), |i: int| self.columns[i].shape()),
            values: Seq::new(self.values.len(), |i: int| self.values[i].shape()),
            on_conflict: self.on_conflict,
        }
    }
}

impl AssignmentModel {
    /// The assignment with every scalar in it replaced by null.
    pub open spec fn shape(self) -> AssignmentModel {
        AssignmentModel { column: self.column.shape(), value: self.value.shape() }
    }
}

impl UpdateModel {
    /// The update with every scalar in it replaced by null.
    pub open spec fn shape(self) -> UpdateModel {
        UpdateModel {
            table: self.table.shape(),
            assignments: Seq::new(self.assignments.len(), |i: int| self.assignments[i].shape()),
            conditions: self.conditions.shape(),
        }
    }
}

impl DeleteModel {
    /// The delete with every scalar in it replaced by null.
    pub open spec fn shape(self) -> DeleteModel {
        DeleteModel { table: self.table.shape(), conditions: self.conditions.shape() }
    }
}

impl QueryModel {
    /// The statement with every scalar in it replaced by null.
    pub open spec fn shape(self) -> QueryModel {
        match self {
            QueryModel::Select(s) => QueryModel::Select(s.shape()),
            QueryModel::Insert(i) => QueryModel::Insert(i.shape()),
            QueryModel::Update(u) => QueryModel::Update(u.shape()),
            QueryModel::Delete(d) => QueryModel::Delete(d.shape()),
        }
    }
}

/// A condition holds a comparison exactly if its shape does.
pub proof fn lemma_vacuous_shape(t: ConditionTreeModel)
    ensures
        t.shape().is_vacuous() == t.is_vacuous(),
    decreases t,
{
    match t {
        ConditionTreeModel::And(l, r) => {
            lemma_vacuous_shape(*l);
            lemma_vacuous_shape(*r);
        },
        ConditionTreeModel::Or(l, r) => {
            lemma_vacuous_shape(*l);
            lemma_vacuous_shape(*r);
        },
        ConditionTreeModel::Not(inner) => {
            lemma_vacuous_shape(*inner);
        },
        _ => {},
    }
}

/// A table is written as its shape is.
pub proof fn lemma_table_text(t: TableModel, with_alias: bool)
    ensures
        sql_text(table_pieces(t.shape(), with_alias)) == sql_text(table_pieces(t, with_alias)),
    decreases t, 0nat,
{
    broadcast use group_pieces;

    match t.typ {
        TableTypeModel::Table(_) => {},
        TableTypeModel::Query(select) => {
            lemma_select_text(*select);
        },
    }
}

/// Every column of a table is written as for its shape.
pub proof fn lemma_wildcard_text(t: TableModel)
    ensures
        sql_text(wildcard_pieces(t.shape())) == sql_text(wildcard_pieces(t)),
    decreases t, 1nat,
{
    broadcast use group_pieces;

    lemma_table_text(t, false);
}

/// A column is written as its shape is.
pub proof fn lemma_column_text(c: ColumnModel)
    ensures
        sql_text(column_pieces(c.shape())) == sql_text(column_pieces(c)),
    decreases c, 0nat,
{
    broadcast use group_pieces;

    match c.table {
        Some(t) => {
            lemma_table_text(t, false);
        },
        None => {},
    }
}

/// A value is written as its shape is.
pub proof fn lemma_value_text(v: DatabaseValueModel)
    ensures
        sql_text(value_pieces(v.shape())) == sql_text(value_pieces(v)),
        alias_of(v.shape()) == alias_of(v),
    decreases v, 0nat,
{
    broadcast use group_pieces;

    match v {
        DatabaseValueModel::Parameterized(_) => {},
        DatabaseValueModel::Column(c) => {
            lemma_column_text(*c);
        },
        DatabaseValueModel::Row(r) => {
            lemma_row_text(r);
        },
        DatabaseValueModel::Select(s) => {
            lemma_select_text(*s);
        },
        DatabaseValueModel::Function(f) => {
            lemma_function_text(f);
        },
        DatabaseValueModel::Asterisk(t) => {
            match t {
                Some(t) => {
                    lemma_table_text(t, false);
                },
                None => {},
            }
        },
        DatabaseValueModel::Arithmetic(l, _, r) => {
            lemma_value_text(*l);
            lemma_value_text(*r);
        },
        DatabaseValueModel::Raw(_) => {},
    }
}

/// A value of a list is written as its shape is.
pub proof fn lemma_item_text(v: DatabaseValueModel, aliased: bool)
    ensures
        sql_text(item_pieces(v.shape(), aliased)) == sql_text(item_pieces(v, aliased)),
    decreases v, 1nat,
{
    broadcast use group_pieces;

    lemma_value_text(v);
}

/// A list of values is written as the list of their shapes is.
pub proof fn lemma_value_list_text(vs: Seq<DatabaseValueModel>, aliased: bool)
    ensures
        sql_text(value_list_pieces(value_shapes(vs), aliased)) == sql_text(
            value_list_pieces(vs, aliased),
        ),
    decreases vs, 0nat,
{
    broadcast use group_pieces;

    if vs.len() > 0 {
        lemma_item_text(vs.last(), aliased);
        assert(value_shapes(vs).drop_last() =~= value_shapes(vs.drop_last()));
        if vs.len() > 1 {
            lemma_value_list_text(vs.drop_last(), aliased);
        }
    }
}

/// A row is written as its shape is.
pub proof fn lemma_row_text(r: RowModel)
    ensures
        sql_text(row_pieces(r.shape())) == sql_text(row_pieces(r)),
    decreases r, 0nat,
{
    broadcast use group_pieces;

    lemma_value_list_text(r.values, false);
}

/// A function call is written as its shape is.
pub proof fn lemma_function_text(f: FunctionModel)
    ensures
        sql_text(function_pieces(f.shape())) == sql_text(function_pieces(f)),
    decreases f, 0nat,
{
    broadcast use group_pieces;

    match f.typ {
        FunctionTypeModel::Count(args) => {
            lemma_value_list_text(args, false);
        },
        FunctionTypeModel::AggregateToString(value) => {
            lemma_aggregate_text(*value);
        },
    }
}

/// The aggregate of a value is written as that of its shape is.
pub proof fn lemma_aggregate_text(value: DatabaseValueModel)
    ensures
        sql_text(aggregate_to_string_pieces(value.shape())) == sql_text(
            aggregate_to_string_pieces(value),
        ),
    decreases value, 1nat,
{
    broadcast use group_pieces;

    lemma_value_text(value);
}

/// Two operands around an operator are written alike where the operands
/// are.
pub proof fn lemma_infix_text(
    left: Seq<Piece>,
    same_left: Seq<Piece>,
    operator: Seq<char>,
    right: Seq<Piece>,
    same_right: Seq<Piece>,
)
    requires
        sql_text(left) == sql_text(same_left),
        sql_text(right) == sql_text(same_right),
    ensures
        sql_text(infix(left, operator, right)) == sql_text(infix(same_left, operator, same_right)),
{
    lemma_sql_text_concat(left, text(operator));
    lemma_sql_text_concat(left + text(operator), right);
    lemma_sql_text_concat(same_left, text(operator));
    lemma_sql_text_concat(same_left + text(operator), same_right);
}

/// A comparison is written as its shape is.
pub proof fn lemma_compare_text(c: CompareModel)
    ensures
        sql_text(compare_pieces(c.shape())) == sql_text(compare_pieces(c)),
    decreases c, 0nat,
{
    let operator = comparator_text(c);
    assert(comparator_text(c.shape()) == operator);
    match c {
        CompareModel::Equals(l, r)
        | CompareModel::NotEquals(l, r)
        | CompareModel::LessThan(l, r)
        | CompareModel::LessThanOrEquals(l, r)
        | CompareModel::GreaterThan(l, r)
        | CompareModel::GreaterThanOrEquals(l, r)
        | CompareModel::Like(l, r)
        | CompareModel::NotLike(l, r)
        | CompareModel::In(l, r)
        | CompareModel::NotIn(l, r) => {
            lemma_value_text(*l);
            lemma_value_text(*r);
            lemma_infix_text(
                value_pieces(l.shape()),
                value_pieces(*l),
                operator,
                value_pieces(r.shape()),
                value_pieces(*r),
            );
        },
        CompareModel::Null(v)
        | CompareModel::NotNull(v) => {
            lemma_value_text(*v);
            lemma_sql_text_concat(value_pieces(v.shape()), text(operator));
            lemma_sql_text_concat(value_pieces(*v), text(operator));
        },
        CompareModel::Between(v, lo, hi)
        | CompareModel::NotBetween(v, lo, hi) => {
            lemma_value_text(*v);
            lemma_value_text(*lo);
            lemma_value_text(*hi);
            lemma_infix_text(
                value_pieces(v.shape()),
                value_pieces(*v),
                operator,
                value_pieces(lo.shape()),
                value_pieces(*lo),
            );
            lemma_infix_text(
                infix(value_pieces(v.shape()), operator, value_pieces(lo.shape())),
                infix(value_pieces(*v), operator, value_pieces(*lo)),
                " AND "@,
                value_pieces(hi.shape()),
                value_pieces(*hi),
            );
        },
    }
}

/// A condition is written as its shape is.
pub proof fn lemma_condition_text(t: ConditionTreeModel)
    ensures
        sql_text(condition_pieces(t.shape())) == sql_text(condition_pieces(t)),
    decreases t, 0nat,
{
    broadcast use group_pieces;

    match t {
        ConditionTreeModel::And(l, r) => {
            lemma_vacuous_shape(*l);
            lemma_vacuous_shape(*r);
            lemma_condition_text(*l);
            lemma_condition_text(*r);
        },
        ConditionTreeModel::Or(l, r) => {
            lemma_vacuous_shape(*l);
            lemma_vacuous_shape(*r);
            lemma_condition_text(*l);
            lemma_condition_text(*r);
        },
        ConditionTreeModel::Not(inner) => {
            lemma_vacuous_shape(*inner);
            lemma_condition_text(*inner);
        },
        ConditionTreeModel::Single(c) => {
            lemma_compare_text(*c);
        },
        ConditionTreeModel::NoCondition => {},
    }
}

/// A clause is written as the clause of the condition's shape is.
pub proof fn lemma_clause_text(keyword: Seq<char>, t: ConditionTreeModel)
    ensures
        sql_text(clause_pieces(keyword, t.shape())) == sql_text(clause_pieces(keyword, t)),
    decreases t, 1nat,
{
    broadcast use group_pieces;

    lemma_vacuous_shape(t);
    lemma_condition_text(t);
}

/// A join is written as its shape is.
pub proof fn lemma_join_text(j: JoinModel)
    ensures
        sql_text(join_pieces(j.shape())) == sql_text(join_pieces(j)),
    decreases j, 0nat,
{
    broadcast use group_pieces;

    lemma_table_text(j.target, true);
    lemma_clause_text(" ON "@, j.predicate);
}

/// Joins are written as their shapes are.
pub proof fn lemma_joins_text(js: Seq<JoinModel>)
    ensures
        sql_text(joins_pieces(join_shapes(js))) == sql_text(joins_pieces(js)),
    decreases js, 0nat,
{
    broadcast use group_pieces;

    if js.len() > 0 {
        lemma_join_text(js.last());
        assert(join_shapes(js).drop_last() =~= join_shapes(js.drop_last()));
        lemma_joins_text(js.drop_last());
    }
}

/// A sort key is written as its shape is.
pub proof fn lemma_order_text(o: OrderDefinitionModel)
    ensures
        sql_text(order_pieces(o.shape())) == sql_text(order_pieces(o)),
    decreases o, 0nat,
{
    broadcast use group_pieces;

    lemma_value_text(o.value);
}

/// Sort keys are written as their shapes are.
pub proof fn lemma_order_list_text(os: Seq<OrderDefinitionModel>)
    ensures
        sql_text(order_list_pieces(order_shapes(os))) == sql_text(order_list_pieces(os)),
    decreases os, 0nat,
{
    broadcast use group_pieces;

    if os.len() > 0 {
        lemma_order_text(os.last());
        assert(order_shapes(os).drop_last() =~= order_shapes(os.drop_last()));
        if os.len() > 1 {
            lemma_order_list_text(os.drop_last());
        }
    }
}

/// The text of a select does not depend on the values that it binds: it is
/// the text of the select's shape.
pub proof fn lemma_select_text(s: SelectModel)
    ensures
        sql_text(select_pieces(s.shape())) == sql_text(select_pieces(s)),
    decreases s, 1nat,
{
    broadcast use group_pieces;

    lemma_projection_text(s);
    lemma_from_text(s);
    lemma_joins_text(s.joins);
    lemma_clause_text(" WHERE "@, s.conditions);
    lemma_grouping_text(s.grouping);
    lemma_clause_text(" HAVING "@, s.having);
    lemma_ordering_text(s.ordering);
    lemma_pagination_text(s.limit, s.offset);
}

/// The projection of a select is written as that of its shape is.
pub proof fn lemma_projection_text(s: SelectModel)
    ensures
        sql_text(projection_pieces(s.shape())) == sql_text(projection_pieces(s)),
    decreases s, 0nat,
{
    broadcast use group_pieces;

    if s.columns.len() > 0 {
        lemma_value_list_text(s.columns, true);
    } else {
        match s.table {
            Some(t) => {
                lemma_wildcard_text(t);
            },
            None => {},
        }
    }
}

/// The FROM clause of a select is written as that of its shape is.
pub proof fn lemma_from_text(s: SelectModel)
    ensures
        sql_text(from_pieces(s.shape())) == sql_text(from_pieces(s)),
    decreases s, 0nat,
{
    broadcast use group_pieces;

    match s.table {
        Some(t) => {
            lemma_table_text(t, true);
        },
        None => {},
    }
}

/// The GROUP BY clause is written as that of the values' shapes is.
pub proof fn lemma_grouping_text(grouping: Seq<DatabaseValueModel>)
    ensures
        sql_text(grouping_pieces(value_shapes(grouping))) == sql_text(grouping_pieces(grouping)),
    decreases grouping, 1nat,
{
    broadcast use group_pieces;

    lemma_value_list_text(grouping, false);
}

/// The ORDER BY clause is written as that of the sort keys' shapes is.
pub proof fn lemma_ordering_text(keys: Seq<OrderDefinitionModel>)
    ensures
        sql_text(ordering_pieces(order_shapes(keys))) == sql_text(ordering_pieces(keys)),
    decreases keys, 1nat,
{
    broadcast use group_pieces;

    lemma_order_list_text(keys);
}

/// The pagination clause is written alike whatever the limit and the offset
/// are.
pub proof fn lemma_pagination_text(limit: Option<Scalar>, offset: Option<Scalar>)
    ensures
        sql_text(pagination_pieces(scalar_shape(limit), scalar_shape(offset))) == sql_text(
            pagination_pieces(limit, offset),
        ),
{
    broadcast use group_pieces;

}

/// A list of columns is written as the list of their shapes is.
pub proof fn lemma_column_list_text(cs: Seq<ColumnModel>)
    ensures
        sql_text(column_list_pieces(Seq::new(cs.len(), |i: int| cs[i].shape()))) == sql_text(
            column_list_pieces(cs),
        ),
    decreases cs.len(),
{
    broadcast use group_pieces;

    if cs.len() > 0 {
        let shapes = Seq::new(cs.len(), |i: int| cs[i].shape());
        let head = cs.drop_last();
        lemma_column_text(cs.last());
        assert(shapes.drop_last() =~= Seq::new(head.len(), |i: int| head[i].shape()));
        if cs.len() > 1 {
            lemma_column_list_text(head);
        }
    }
}

/// A list of rows is written as the list of their shapes is.
pub proof fn lemma_row_list_text(rs: Seq<RowModel>)
    ensures
        sql_text(row_list_pieces(Seq::new(rs.len(), |i: int| rs[i].shape()))) == sql_text(
            row_list_pieces(rs),
        ),
    decreases rs.len(),
{
    broadcast use group_pieces;

    if rs.len() > 0 {
        let shapes = Seq::new(rs.len(), |i: int| rs[i].shape());
        let head = rs.drop_last();
        lemma_row_text(rs.last());
        assert(shapes.drop_last() =~= Seq::new(head.len(), |i: int| head[i].shape()));
        if rs.len() > 1 {
            lemma_row_list_text(head);
        }
    }
}

/// The text of an insert does not depend on the values that it binds.
pub proof fn lemma_insert_text(i: InsertModel)
    ensures
        sql_text(insert_pieces(i.shape())) == sql_text(insert_pieces(i)),
{
    broadcast use group_pieces;

    lemma_table_text(i.table, true);
    lemma_column_list_text(i.columns);
    lemma_row_list_text(i.values);
    assert(sql_text(insert_values_pieces(i.shape())) == sql_text(insert_values_pieces(i)));
}

/// An assignment is written as its shape is.
pub proof fn lemma_assignment_text(a: AssignmentModel)
    ensures
        sql_text(assignment_pieces(a.shape())) == sql_text(assignment_pieces(a)),
{
    lemma_column_text(a.column);
    lemma_value_text(a.value);
    lemma_infix_text(
        column_pieces(a.column.shape()),
        column_pieces(a.column),
        " = "@,
        value_pieces(a.value.shape()),
        value_pieces(a.value),
    );
}

/// A list of assignments is written as the list of their shapes is.
pub proof fn lemma_assignment_list_text(xs: Seq<AssignmentModel>)
    ensures
        sql_text(assignment_list_pieces(Seq::new(xs.len(), |i: int| xs[i].shape()))) == sql_text(
            assignment_list_pieces(xs),
        ),
    decreases xs.len(),
{
    broadcast use group_pieces;

    if xs.len() > 0 {
        let shapes = Seq::new(xs.len(), |i: int| xs[i].shape());
        let head = xs.drop_last();
        lemma_assignment_text(xs.last());
        assert(shapes.drop_last() =~= Seq::new(head.len(), |i: int| head[i].shape()));
        if xs.len() > 1 {
            lemma_assignment_list_text(head);
        }
    }
}

/// The text of an update does not depend on the values that it binds.
pub proof fn lemma_update_text(u: UpdateModel)
    ensures
        sql_text(update_pieces(u.shape())) == sql_text(update_pieces(u)),
{
    broadcast use group_pieces;

    lemma_table_text(u.table, true);
    lemma_assignment_list_text(u.assignments);
    lemma_clause_text(" WHERE "@, u.conditions);
}

/// The text of a delete does not depend on the values that it binds.
pub proof fn lemma_delete_text(d: DeleteModel)
    ensures
        sql_text(delete_pieces(d.shape())) == sql_text(delete_pieces(d)),
{
    broadcast use group_pieces;

    lemma_table_text(d.table, true);
    lemma_clause_text(" WHERE "@, d.conditions);
}

/// No bound value stands in the SQL text: the text of a statement is that of
/// its shape, in which every scalar is null. Two statements that differ only
/// in their scalars are written alike.
pub proof fn lemma_text_is_of_shape(q: QueryModel)
    ensures
        sql_text(query_pieces(q.shape())) == sql_text(query_pieces(q)),
{
    match q {
        QueryModel::Select(s) => {
            lemma_select_text(s);
        },
        QueryModel::Insert(i) => {
            lemma_insert_text(i);
        },
        QueryModel::Update(u) => {
            lemma_update_text(u);
        },
        QueryModel::Delete(d) => {
            lemma_delete_text(d);
        },
    }
}

} // verus!
