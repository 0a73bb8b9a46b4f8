//! What each part of a statement is written as, in pieces.

use crate::ast::column::ColumnModel;
use crate::ast::compare::CompareModel;
use crate::ast::conditions::ConditionTreeModel;
use crate::ast::delete::DeleteModel;
use crate::ast::function::{FunctionModel, FunctionTypeModel};
use crate::ast::insert::{InsertModel, OnConflict};
use crate::ast::join::{JoinKind, JoinModel};
use crate::ast::order::{Direction, OrderDefinitionModel};
use crate::ast::query::QueryModel;
use crate::ast::row::RowModel;
use crate::ast::select::SelectModel;
use crate::ast::table::{TableModel, TableTypeModel};
use crate::ast::update::{AssignmentModel, UpdateModel};
use crate::ast::values::{ArithmeticOp, DatabaseValueModel, Scalar};
use crate::visitor::pieces::{identifier, marker, raw, text, Piece};
use vstd::prelude::*;

verus! {

/// ` AS ` and the alias, where there is one.
pub open spec fn alias_pieces(alias: Option<Seq<char>>) -> Seq<Piece> {
    match alias {
        Some(name) => text(" AS "@) + identifier(name),
        None => Seq::empty(),
    }
}

/// The alias that a value carries into a projection.
pub open spec fn alias_of(v: DatabaseValueModel) -> Option<Seq<char>> {
    match v {
        DatabaseValueModel::Column(c) => c.alias,
        DatabaseValueModel::Function(f) => f.alias,
        _ => None,
    }
}

/// The operator of an arithmetic expression, with the spaces around it.
pub open spec fn operator_text(op: ArithmeticOp) -> Seq<char> {
    match op {
        ArithmeticOp::Plus => " + "@,
        ArithmeticOp::Minus => " - "@,
        ArithmeticOp::Times => " * "@,
        ArithmeticOp::Divide => " / "@,
    }
}

/// The keyword of a sort direction, with the space before it.
pub open spec fn direction_pieces(direction: Direction) -> Seq<Piece> {
    match direction {
        Direction::Default => Seq::empty(),
        Direction::Asc => text(" ASC"@),
        Direction::Desc => text(" DESC"@),
    }
}

/// The keywords of a join, with the spaces around them.
pub open spec fn join_text(kind: JoinKind) -> Seq<char> {
    match kind {
        JoinKind::Inner => " INNER JOIN "@,
        JoinKind::LeftOuter => " LEFT OUTER JOIN "@,
    }
}

/// Two operands with an operator between them.
pub open spec fn infix(left: Seq<Piece>, operator: Seq<char>, right: Seq<Piece>) -> Seq<Piece> {
    left + text(operator) + right
}

/// A table: its name, qualified by the schema where it has one, or the select
/// it is derived from, in parentheses; then the alias, where it is asked for.
pub open spec fn table_pieces(t: TableModel, with_alias: bool) -> Seq<Piece>
    decreases t, 0nat,
{
    (match t.typ {
        TableTypeModel::Table(name) => match t.schema {
            Some(schema) => identifier(schema) + text("."@) + identifier(name),
            None => identifier(name),
        },
        TableTypeModel::Query(select) => text("("@) + select_pieces(*select) + text(")"@),
    }) + (if with_alias {
        alias_pieces(t.alias)
    } else {
        Seq::empty()
    })
}

/// Every column of a table: the alias where the table has one, else the
/// table's name; a derived table without an alias gives a bare `*`.
pub open spec fn wildcard_pieces(t: TableModel) -> Seq<Piece>
    decreases t, 1nat,
{
    match t.alias {
        Some(alias) => identifier(alias) + text(".*"@),
        None => match t.typ {
            TableTypeModel::Table(_) => table_pieces(t, false) + text(".*"@),
            TableTypeModel::Query(_) => text("*"@),
        },
    }
}

/// A column, qualified by its table where it has one. The alias is not
/// written here.
pub open spec fn column_pieces(c: ColumnModel) -> Seq<Piece>
    decreases c, 0nat,
{
    match c.table {
        Some(t) => table_pieces(t, false) + text("."@) + identifier(c.name),
        None => identifier(c.name),
    }
}

/// A value. Only a parameterized value gives a marker.
pub open spec fn value_pieces(v: DatabaseValueModel) -> Seq<Piece>
    decreases v, 0nat,
{
    match v {
        DatabaseValueModel::Parameterized(s) => marker(s),
        DatabaseValueModel::Column(c) => column_pieces(*c),
        DatabaseValueModel::Row(r) => row_pieces(r),
        DatabaseValueModel::Select(s) => text("("@) + select_pieces(*s) + text(")"@),
        DatabaseValueModel::Function(f) => function_pieces(f),
        DatabaseValueModel::Asterisk(t) => match t {
            Some(t) => table_pieces(t, false) + text(".*"@),
            None => text("*"@),
        },
        DatabaseValueModel::Arithmetic(l, op, r) => text("("@) + value_pieces(*l) + text(
            operator_text(op),
        ) + value_pieces(*r) + text(")"@),
        DatabaseValueModel::Raw(t) => raw(t),
    }
}

/// A value in a list; in a projection, followed by its alias.
pub open spec fn item_pieces(v: DatabaseValueModel, aliased: bool) -> Seq<Piece>
    decreases v, 1nat,
{
    value_pieces(v) + (if aliased {
        alias_pieces(alias_of(v))
    } else {
        Seq::empty()
    })
}

/// Values separated by `, `.
pub open spec fn value_list_pieces(vs: Seq<DatabaseValueModel>, aliased: bool) -> Seq<Piece>
    decreases vs, 0nat,
{
    if vs.len() == 0 {
        Seq::empty()
    } else if vs.len() == 1 {
        item_pieces(vs[0], aliased)
    } else {
        value_list_pieces(vs.drop_last(), aliased) + text(", "@) + item_pieces(vs.last(), aliased)
    }
}

/// A row: its values in parentheses.
pub open spec fn row_pieces(r: RowModel) -> Seq<Piece>
    decreases r, 0nat,
{
    text("("@) + value_list_pieces(r.values, false) + text(")"@)
}

/// A function call: the name, then the arguments in parentheses.
pub open spec fn function_pieces(f: FunctionModel) -> Seq<Piece>
    decreases f, 0nat,
{
    match f.typ {
        FunctionTypeModel::Count(args) => if args.len() == 0 {
            text("COUNT(*)"@)
        } else {
            text("COUNT("@) + value_list_pieces(args, false) + text(")"@)
        },
        FunctionTypeModel::AggregateToString(value) => aggregate_to_string_pieces(*value),
    }
}

/// The aggregate that joins the values of a group into one string.
pub open spec fn aggregate_to_string_pieces(value: DatabaseValueModel) -> Seq<Piece>
    decreases value, 1nat,
{
    text("group_concat("@) + value_pieces(value) + text(")"@)
}

/// The operator of a comparison, with the spaces around it.
pub open spec fn comparator_text(c: CompareModel) -> Seq<char> {
    match c {
        CompareModel::Equals(_, _) => " = "@,
        CompareModel::NotEquals(_, _) => " <> "@,
        CompareModel::LessThan(_, _) => " < "@,
        CompareModel::LessThanOrEquals(_, _) => " <= "@,
        CompareModel::GreaterThan(_, _) => " > "@,
        CompareModel::GreaterThanOrEquals(_, _) => " >= "@,
        CompareModel::Like(_, _) => " LIKE "@,
        CompareModel::NotLike(_, _) => " NOT LIKE "@,
        CompareModel::In(_, _) => " IN "@,
        CompareModel::NotIn(_, _) => " NOT IN "@,
        CompareModel::Null(_) => " IS NULL"@,
        CompareModel::NotNull(_) => " IS NOT NULL"@,
        CompareModel::Between(_, _, _) => " BETWEEN "@,
        CompareModel::NotBetween(_, _, _) => " NOT BETWEEN "@,
    }
}

/// A comparison: left operand, operator, right operand. A test for null has
/// the operator last; a test for a range has ` AND ` between the bounds.
pub open spec fn compare_pieces(c: CompareModel) -> Seq<Piece>
    decreases c, 0nat,
{
    match c {
        CompareModel::Equals(l, r)
        | CompareModel::NotEquals(l, r)
        | CompareModel::LessThan(l, r)
        | CompareModel::LessThanOrEquals(l, r)
        | CompareModel::GreaterThan(l, r)
        | CompareModel::GreaterThanOrEquals(l, r)
        | CompareModel::Like(l, r)
        | CompareModel::NotLike(l, r)
        | CompareModel::In(l, r)
        | CompareModel::NotIn(l, r) => infix(value_pieces(*l), comparator_text(c), value_pieces(*r)),
        CompareModel::Null(v)
        | CompareModel::NotNull(v) => value_pieces(*v) + text(
            comparator_text(c),
        ),
        CompareModel::Between(v, lo, hi)
        | CompareModel::NotBetween(v, lo, hi) => infix(
            infix(value_pieces(*v), comparator_text(c), value_pieces(*lo)),
            " AND "@,
            value_pieces(*hi),
        ),
    }
}

/// The keyword between the two sides of a node, with the spaces around it.
pub open spec fn junction_text(t: ConditionTreeModel) -> Seq<char> {
    match t {
        ConditionTreeModel::Or(_, _) => " OR "@,
        _ => " AND "@,
    }
}

/// A condition tree. Every node with two non-vacuous sides, and every
/// negation, has parentheses of its own. Beside a vacuous side only the other
/// side is written, and a vacuous tree is written as nothing.
pub open spec fn condition_pieces(t: ConditionTreeModel) -> Seq<Piece>
    decreases t, 0nat,
{
    match t {
        ConditionTreeModel::And(l, r) | ConditionTreeModel::Or(l, r) => if l.is_vacuous() {
            condition_pieces(*r)
        } else if r.is_vacuous() {
            condition_pieces(*l)
        } else {
            text("("@) + condition_pieces(*l) + text(junction_text(t)) + condition_pieces(*r)
                + text(")"@)
        },
        ConditionTreeModel::Not(inner) => if inner.is_vacuous() {
            Seq::empty()
        } else {
            text("(NOT "@) + condition_pieces(*inner) + text(")"@)
        },
        ConditionTreeModel::Single(c) => compare_pieces(*c),
        ConditionTreeModel::NoCondition => Seq::empty(),
    }
}

/// A keyword and the condition after it; nothing for a vacuous condition.
pub open spec fn clause_pieces(keyword: Seq<char>, t: ConditionTreeModel) -> Seq<Piece>
    decreases t, 1nat,
{
    if t.is_vacuous() {
        Seq::empty()
    } else {
        text(keyword) + condition_pieces(t)
    }
}

/// A join: its keywords, the table with its alias, and the condition after
/// ` ON `.
pub open spec fn join_pieces(j: JoinModel) -> Seq<Piece>
    decreases j, 0nat,
{
    text(join_text(j.kind)) + table_pieces(j.target, true) + clause_pieces(" ON "@, j.predicate)
}

/// Joins, one after the other.
pub open spec fn joins_pieces(js: Seq<JoinModel>) -> Seq<Piece>
    decreases js, 0nat,
{
    if js.len() == 0 {
        Seq::empty()
    } else {
        joins_pieces(js.drop_last()) + join_pieces(js.last())
    }
}

/// A sort key: the value, then its direction.
pub open spec fn order_pieces(o: OrderDefinitionModel) -> Seq<Piece>
    decreases o, 0nat,
{
    value_pieces(o.value) + direction_pieces(o.direction)
}

/// Sort keys separated by `, `.
pub open spec fn order_list_pieces(os: Seq<OrderDefinitionModel>) -> Seq<Piece>
    decreases os, 0nat,
{
    if os.len() == 0 {
        Seq::empty()
    } else if os.len() == 1 {
        order_pieces(os[0])
    } else {
        order_list_pieces(os.drop_last()) + text(", "@) + order_pieces(os.last())
    }
}

/// The pagination clause. An offset without a limit is written with the
/// limit -1, which is sent as a parameter like any other.
pub open spec fn limit_and_offset_pieces(limit: Option<Scalar>, offset: Option<Scalar>) -> Option<
    Seq<Piece>,
> {
    match (limit, offset) {
        (Some(l), Some(o)) => Some(text("LIMIT "@) + marker(l) + text(" OFFSET "@) + marker(o)),
        (None, Some(o)) => Some(
            text("LIMIT "@) + marker(Scalar::Integer(-1)) + text(" OFFSET "@) + marker(o),
        ),
        (Some(l), None) => Some(text("LIMIT "@) + marker(l)),
        (None, None) => None,
    }
}

/// The projection: the values with their aliases; without values, every
/// column of the table, or `*` where there is no table.
pub open spec fn projection_pieces(s: SelectModel) -> Seq<Piece>
    decreases s, 0nat,
{
    if s.columns.len() > 0 {
        value_list_pieces(s.columns, true)
    } else {
        match s.table {
            Some(t) => wildcard_pieces(t),
            None => text("*"@),
        }
    }
}

/// ` FROM ` and the table with its alias, where there is a table.
pub open spec fn from_pieces(s: SelectModel) -> Seq<Piece>
    decreases s, 0nat,
{
    match s.table {
        Some(t) => text(" FROM "@) + table_pieces(t, true),
        None => Seq::empty(),
    }
}

/// ` GROUP BY ` and the values, where there are any.
pub open spec fn grouping_pieces(grouping: Seq<DatabaseValueModel>) -> Seq<Piece>
    decreases grouping, 1nat,
{
    if grouping.len() > 0 {
        text(" GROUP BY "@) + value_list_pieces(grouping, false)
    } else {
        Seq::empty()
    }
}

/// ` ORDER BY ` and the sort keys, where there are any.
pub open spec fn ordering_pieces(keys: Seq<OrderDefinitionModel>) -> Seq<Piece>
    decreases keys, 1nat,
{
    if keys.len() > 0 {
        text(" ORDER BY "@) + order_list_pieces(keys)
    } else {
        Seq::empty()
    }
}

/// The pagination clause with the space before it, where there is one.
pub open spec fn pagination_pieces(limit: Option<Scalar>, offset: Option<Scalar>) -> Seq<Piece> {
    match limit_and_offset_pieces(limit, offset) {
        Some(ps) => text(" "@) + ps,
        None => Seq::empty(),
    }
}

/// A select: `SELECT`, the projection, and then each clause that is not
/// empty, in the order FROM, joins, WHERE, GROUP BY, HAVING, ORDER BY,
/// LIMIT and OFFSET.
pub open spec fn select_pieces(s: SelectModel) -> Seq<Piece>
    decreases s, 1nat,
{
    text("SELECT "@) + projection_pieces(s) + from_pieces(s)
        + joins_pieces(s.joins) + clause_pieces(" WHERE "@, s.conditions) + grouping_pieces(
        s.grouping,
    ) + clause_pieces(" HAVING "@, s.having) + ordering_pieces(s.ordering) + pagination_pieces(
        s.limit,
        s.offset,
    )
}

/// Columns separated by `, `.
pub open spec fn column_list_pieces(cs: Seq<ColumnModel>) -> Seq<Piece>
    decreases cs.len(),
{
    if cs.len() == 0 {
        Seq::empty()
    } else if cs.len() == 1 {
        column_pieces(cs[0])
    } else {
        column_list_pieces(cs.drop_last()) + text(", "@) + column_pieces(cs.last())
    }
}

/// Rows separated by `, `.
pub open spec fn row_list_pieces(rs: Seq<RowModel>) -> Seq<Piece>
    decreases rs.len(),
{
    if rs.len() == 0 {
        Seq::empty()
    } else if rs.len() == 1 {
        row_pieces(rs[0])
    } else {
        row_list_pieces(rs.drop_last()) + text(", "@) + row_pieces(rs.last())
    }
}

/// The words that open an insert. SQLite writes the conflict clause here.
pub open spec fn insert_keyword(on_conflict: Option<OnConflict>) -> Seq<char> {
    match on_conflict {
        Some(OnConflict::DoNothing) => "INSERT OR IGNORE"@,
        None => "INSERT"@,
    }
}

/// What an insert inserts: a row of defaults where it has no rows, else its
/// columns and rows.
pub open spec fn insert_values_pieces(i: InsertModel) -> Seq<Piece> {
    if i.values.len() == 0 {
        text(" DEFAULT VALUES"@)
    } else {
        text(" ("@) + column_list_pieces(i.columns) + text(") VALUES "@) + row_list_pieces(
            i.values,
        )
    }
}

/// An insert: the opening words, the table, and what is inserted.
pub open spec fn insert_pieces(i: InsertModel) -> Seq<Piece> {
    text(insert_keyword(i.on_conflict)) + text(" INTO "@) + table_pieces(i.table, true)
        + insert_values_pieces(i)
}

/// An assignment: the column, ` = `, the value.
pub open spec fn assignment_pieces(a: AssignmentModel) -> Seq<Piece> {
    infix(column_pieces(a.column), " = "@, value_pieces(a.value))
}

/// Assignments separated by `, `.
pub open spec fn assignment_list_pieces(xs: Seq<AssignmentModel>) -> Seq<Piece>
    decreases xs.len(),
{
    if xs.len() == 0 {
        Seq::empty()
    } else if xs.len() == 1 {
        assignment_pieces(xs[0])
    } else {
        assignment_list_pieces(xs.drop_last()) + text(", "@) + assignment_pieces(xs.last())
    }
}

/// An update: the table, the assignments after ` SET `, and the condition.
pub open spec fn update_pieces(u: UpdateModel) -> Seq<Piece> {
    text("UPDATE "@) + table_pieces(u.table, true) + text(" SET "@) + assignment_list_pieces(
        u.assignments,
    ) + clause_pieces(" WHERE "@, u.conditions)
}

/// A delete: the table and the condition.
pub open spec fn delete_pieces(d: DeleteModel) -> Seq<Piece> {
    text("DELETE FROM "@) + table_pieces(d.table, true) + clause_pieces(" WHERE "@, d.conditions)
}

/// A statement.
pub open spec fn query_pieces(q: QueryModel) -> Seq<Piece> {
    match q {
        QueryModel::Select(s) => select_pieces(s),
        QueryModel::Insert(i) => insert_pieces(i),
        QueryModel::Update(u) => update_pieces(u),
        QueryModel::Delete(d) => delete_pieces(d),
    }
}

} // verus!
