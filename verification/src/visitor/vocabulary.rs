//! The fixed SQL of the dialect. Whatever else stands in the text of a
//! statement is a quoted identifier, a parameter marker, or a fragment that
//! the caller wrote as SQL.

use crate::ast::column::ColumnModel;
use crate::ast::compare::CompareModel;
use crate::ast::conditions::ConditionTreeModel;
use crate::ast::delete::DeleteModel;
use crate::ast::function::{FunctionModel, FunctionTypeModel};
use crate::ast::insert::InsertModel;
use crate::ast::join::JoinModel;
use crate::ast::order::OrderDefinitionModel;
use crate::ast::query::QueryModel;
use crate::ast::row::RowModel;
use crate::ast::select::SelectModel;
use crate::ast::table::{TableModel, TableTypeModel};
use crate::ast::update::{AssignmentModel, UpdateModel};
use crate::ast::values::{DatabaseValueModel, Scalar};
use crate::visitor::pieces::{identifier, marker, raw, text, Piece};
use crate::visitor::render::{
    aggregate_to_string_pieces, alias_pieces, assignment_list_pieces, assignment_pieces,
    clause_pieces, column_list_pieces, column_pieces, compare_pieces, condition_pieces,
    delete_pieces, from_pieces, function_pieces, grouping_pieces, insert_pieces, item_pieces,
    join_pieces, joins_pieces, order_list_pieces, order_pieces, ordering_pieces,
    pagination_pieces, projection_pieces, query_pieces, row_list_pieces, row_pieces,
    select_pieces, table_pieces, update_pieces, value_list_pieces, value_pieces, wildcard_pieces,
};
use vstd::prelude::*;

verus! {

/// Whether a text is one of the keywords, operators and punctuation marks
/// that the dialect writes.
pub open spec fn is_fixed(t: Seq<char>) -> bool {
    t == " "@
        || t == " ("@
        || t == " * "@
        || t == " + "@
        || t == " - "@
        || t == " / "@
        || t == " < "@
        || t == " <= "@
        || t == " <> "@
        || t == " = "@
        || t == " > "@
        || t == " >= "@
        || t == " AND "@
        || t == " AS "@
        || t == " ASC"@
        || t == " BETWEEN "@
        || t == " DEFAULT VALUES"@
        || t == " DESC"@
        || t == " FROM "@
        || t == " GROUP BY "@
        || t == " HAVING "@
        || t == " IN "@
        || t == " INNER JOIN "@
        || t == " INTO "@
        || t == " IS NOT NULL"@
        || t == " IS NULL"@
        || t == " LEFT OUTER JOIN "@
        || t == " LIKE "@
        || t == " NOT BETWEEN "@
        || t == " NOT IN "@
        || t == " NOT LIKE "@
        || t == " OFFSET "@
        || t == " ON "@
        || t == " OR "@
        || t == " ORDER BY "@
        || t == " SET "@
        || t == " WHERE "@
        || t == "("@
        || t == "(NOT "@
        || t == ") VALUES "@
        || t == ")"@
        || t == "*"@
        || t == ", "@
        || t == "."@
        || t == ".*"@
        || t == "COUNT("@
        || t == "COUNT(*)"@
        || t == "DELETE FROM "@
        || t == "INSERT OR IGNORE"@
        || t == "INSERT"@
        || t == "LIMIT "@
        || t == "SELECT "@
        || t == "UPDATE "@
        || t == "group_concat("@
}

/// Every fixed-text piece of the run is a text that the dialect writes: no
/// name and no value of a statement stands in one.
pub open spec fn only_fixed_texts(ps: Seq<Piece>) -> bool {
    forall|i: int| 0 <= i < ps.len() && (#[trigger] ps[i]) is Text ==> is_fixed(ps[i]->Text_0)
}

/// Two runs hold only fixed texts exactly if the two together do.
pub broadcast proof fn lemma_fixed_concat(a: Seq<Piece>, b: Seq<Piece>)
    ensures
        #[trigger] only_fixed_texts(a + b) == (only_fixed_texts(a) && only_fixed_texts(b)),
{
    if only_fixed_texts(a + b) {
        assert forall|i: int| 0 <= i < a.len() && (#[trigger] a[i]) is Text implies is_fixed(
            a[i]->Text_0,
        ) by {
            assert((a + b)[i] == a[i]);
        }
        assert forall|i: int| 0 <= i < b.len() && (#[trigger] b[i]) is Text implies is_fixed(
            b[i]->Text_0,
        ) by {
            assert((a + b)[a.len() + i] == b[i]);
        }
    }
}

/// A run of one text holds only fixed texts exactly if the text is fixed.
pub broadcast proof fn lemma_fixed_text(t: Seq<char>)
    ensures
        only_fixed_texts(#[trigger] text(t)) == is_fixed(t),
{
    assert(text(t)[0] == Piece::Text(t));
}

/// An identifier is no text piece.
pub broadcast proof fn lemma_fixed_identifier(name: Seq<char>)
    ensures
        only_fixed_texts(#[trigger] identifier(name)),
{
}

/// A marker is no text piece.
pub broadcast proof fn lemma_fixed_marker(v: Scalar)
    ensures
        only_fixed_texts(#[trigger] marker(v)),
{
}

/// A raw fragment is no text piece.
pub broadcast proof fn lemma_fixed_raw(t: Seq<char>)
    ensures
        only_fixed_texts(#[trigger] raw(t)),
{
}

/// Which composed runs hold only fixed texts.
pub broadcast group group_vocabulary {
    lemma_fixed_concat,
    lemma_fixed_text,
    lemma_fixed_identifier,
    lemma_fixed_marker,
    lemma_fixed_raw,
}

/// An alias is written with fixed texts only.
pub proof fn lemma_alias_vocabulary(alias: Option<Seq<char>>)
    ensures
        only_fixed_texts(alias_pieces(alias)),
{
    broadcast use group_vocabulary;

}

/// A table is written with fixed texts only.
pub proof fn lemma_table_vocabulary(t: TableModel, with_alias: bool)
    ensures
        only_fixed_texts(table_pieces(t, with_alias)),
    decreases t, 0nat,
{
    broadcast use group_vocabulary;

    lemma_alias_vocabulary(t.alias);
    match t.typ {
        TableTypeModel::Table(_) => {},
        TableTypeModel::Query(select) => {
            lemma_select_vocabulary(*select);
        },
    }
}

/// Every column of a table is written with fixed texts only.
pub proof fn lemma_wildcard_vocabulary(t: TableModel)
    ensures
        only_fixed_texts(wildcard_pieces(t)),
    decreases t, 1nat,
{
    broadcast use group_vocabulary;

    lemma_table_vocabulary(t, false);
}

/// A column is written with fixed texts only.
pub proof fn lemma_column_vocabulary(c: ColumnModel)
    ensures
        only_fixed_texts(column_pieces(c)),
    decreases c, 0nat,
{
    broadcast use group_vocabulary;

    match c.table {
        Some(t) => {
            lemma_table_vocabulary(t, false);
        },
        None => {},
    }
}

/// A value is written with fixed texts only.
pub proof fn lemma_value_vocabulary(v: DatabaseValueModel)
    ensures
        only_fixed_texts(value_pieces(v)),
    decreases v, 0nat,
{
    broadcast use group_vocabulary;

    match v {
        DatabaseValueModel::Parameterized(_) => {},
        DatabaseValueModel::Column(c) => {
            lemma_column_vocabulary(*c);
        },
        DatabaseValueModel::Row(r) => {
            lemma_row_vocabulary(r);
        },
        DatabaseValueModel::Select(s) => {
            lemma_select_vocabulary(*s);
        },
        DatabaseValueModel::Function(f) => {
            lemma_function_vocabulary(f);
        },
        DatabaseValueModel::Asterisk(t) => {
            match t {
                Some(t) => {
                    lemma_table_vocabulary(t, false);
                },
                None => {},
            }
        },
        DatabaseValueModel::Arithmetic(l, _, r) => {
            lemma_value_vocabulary(*l);
            lemma_value_vocabulary(*r);
        },
        DatabaseValueModel::Raw(_) => {},
    }
}

/// A value of a list is written with fixed texts only.
pub proof fn lemma_item_vocabulary(v: DatabaseValueModel, aliased: bool)
    ensures
        only_fixed_texts(item_pieces(v, aliased)),
    decreases v, 1nat,
{
    broadcast use group_vocabulary;

    lemma_value_vocabulary(v);
    match v {
        DatabaseValueModel::Column(c) => {
            lemma_alias_vocabulary(c.alias);
        },
        DatabaseValueModel::Function(f) => {
            lemma_alias_vocabulary(f.alias);
        },
        _ => {},
    }
}

/// A list of values is written with fixed texts only.
pub proof fn lemma_value_list_vocabulary(vs: Seq<DatabaseValueModel>, aliased: bool)
    ensures
        only_fixed_texts(value_list_pieces(vs, aliased)),
    decreases vs, 0nat,
{
    broadcast use group_vocabulary;

    if vs.len() > 0 {
        lemma_item_vocabulary(vs.last(), aliased);
        lemma_value_list_vocabulary(vs.drop_last(), aliased);
    }
}

/// A row is written with fixed texts only.
pub proof fn lemma_row_vocabulary(r: RowModel)
    ensures
        only_fixed_texts(row_pieces(r)),
    decreases r, 0nat,
{
    broadcast use group_vocabulary;

    lemma_value_list_vocabulary(r.values, false);
}

/// A function call is written with fixed texts only.
pub proof fn lemma_function_vocabulary(f: FunctionModel)
    ensures
        only_fixed_texts(function_pieces(f)),
    decreases f, 0nat,
{
    broadcast use group_vocabulary;

    match f.typ {
        FunctionTypeModel::Count(args) => {
            lemma_value_list_vocabulary(args, false);
        },
        FunctionTypeModel::AggregateToString(value) => {
            lemma_aggregate_vocabulary(*value);
        },
    }
}

/// The aggregate of a value is written with fixed texts only.
pub proof fn lemma_aggregate_vocabulary(value: DatabaseValueModel)
    ensures
        only_fixed_texts(aggregate_to_string_pieces(value)),
    decreases value, 1nat,
{
    broadcast use group_vocabulary;

    lemma_value_vocabulary(value);
}

/// A comparison is written with fixed texts only.
pub proof fn lemma_compare_vocabulary(c: CompareModel)
    ensures
        only_fixed_texts(compare_pieces(c)),
    decreases c, 0nat,
{
    broadcast use group_vocabulary;

    match c {
        CompareModel::Equals(l, r)
        | CompareModel::NotEquals(l, r)
        | CompareModel::LessThan(l, r)
        | CompareModel::LessThanOrEquals(l, r)
        | CompareModel::GreaterThan(l, r)
        | CompareModel::GreaterThanOrEquals(l, r)
        | CompareModel::Like(l, r)
        | CompareModel::NotLike(l, r)
        | CompareModel::In(l, r)
        | CompareModel::NotIn(l, r) => {
            lemma_value_vocabulary(*l);
            lemma_value_vocabulary(*r);
        },
        CompareModel::Null(v)
        | CompareModel::NotNull(v) => {
            lemma_value_vocabulary(*v);
        },
        CompareModel::Between(v, lo, hi)
        | CompareModel::NotBetween(v, lo, hi) => {
            lemma_value_vocabulary(*v);
            lemma_value_vocabulary(*lo);
            lemma_value_vocabulary(*hi);
        },
    }
}

/// A condition is written with fixed texts only.
pub proof fn lemma_condition_vocabulary(t: ConditionTreeModel)
    ensures
        only_fixed_texts(condition_pieces(t)),
    decreases t, 0nat,
{
    broadcast use group_vocabulary;

    match t {
        ConditionTreeModel::And(l, r) => {
            lemma_condition_vocabulary(*l);
            lemma_condition_vocabulary(*r);
        },
        ConditionTreeModel::Or(l, r) => {
            lemma_condition_vocabulary(*l);
            lemma_condition_vocabulary(*r);
        },
        ConditionTreeModel::Not(inner) => {
            lemma_condition_vocabulary(*inner);
        },
        ConditionTreeModel::Single(c) => {
            lemma_compare_vocabulary(*c);
        },
        ConditionTreeModel::NoCondition => {},
    }
}

/// A clause under a fixed keyword is written with fixed texts only.
pub proof fn lemma_clause_vocabulary(keyword: Seq<char>, t: ConditionTreeModel)
    requires
        is_fixed(keyword),
    ensures
        only_fixed_texts(clause_pieces(keyword, t)),
    decreases t, 1nat,
{
    broadcast use group_vocabulary;

    lemma_condition_vocabulary(t);
}

/// A join is written with fixed texts only.
pub proof fn lemma_join_vocabulary(j: JoinModel)
    ensures
        only_fixed_texts(join_pieces(j)),
    decreases j, 0nat,
{
    broadcast use group_vocabulary;

    lemma_table_vocabulary(j.target, true);
    lemma_clause_vocabulary(" ON "@, j.predicate);
}

/// Joins are written with fixed texts only.
pub proof fn lemma_joins_vocabulary(js: Seq<JoinModel>)
    ensures
        only_fixed_texts(joins_pieces(js)),
    decreases js, 0nat,
{
    broadcast use group_vocabulary;

    if js.len() > 0 {
        lemma_join_vocabulary(js.last());
        lemma_joins_vocabulary(js.drop_last());
    }
}

/// A sort key is written with fixed texts only.
pub proof fn lemma_order_vocabulary(o: OrderDefinitionModel)
    ensures
        only_fixed_texts(order_pieces(o)),
    decreases o, 0nat,
{
    broadcast use group_vocabulary;

    lemma_value_vocabulary(o.value);
}

/// Sort keys are written with fixed texts only.
pub proof fn lemma_order_list_vocabulary(os: Seq<OrderDefinitionModel>)
    ensures
        only_fixed_texts(order_list_pieces(os)),
    decreases os, 0nat,
{
    broadcast use group_vocabulary;

    if os.len() > 0 {
        lemma_order_vocabulary(os.last());
        lemma_order_list_vocabulary(os.drop_last());
    }
}

/// The projection of a select is written with fixed texts only.
pub proof fn lemma_projection_vocabulary(s: SelectModel)
    ensures
        only_fixed_texts(projection_pieces(s)),
    decreases s, 0nat,
{
    broadcast use group_vocabulary;

    lemma_value_list_vocabulary(s.columns, true);
    match s.table {
        Some(t) => {
            lemma_wildcard_vocabulary(t);
        },
        None => {},
    }
}

/// The FROM clause of a select is written with fixed texts only.
pub proof fn lemma_from_vocabulary(s: SelectModel)
    ensures
        only_fixed_texts(from_pieces(s)),
    decreases s, 0nat,
{
    broadcast use group_vocabulary;

    match s.table {
        Some(t) => {
            lemma_table_vocabulary(t, true);
        },
        None => {},
    }
}

/// The GROUP BY clause is written with fixed texts only.
pub proof fn lemma_grouping_vocabulary(grouping: Seq<DatabaseValueModel>)
    ensures
        only_fixed_texts(grouping_pieces(grouping)),
    decreases grouping, 1nat,
{
    broadcast use group_vocabulary;

    lemma_value_list_vocabulary(grouping, false);
}

/// The ORDER BY clause is written with fixed texts only.
pub proof fn lemma_ordering_vocabulary(keys: Seq<OrderDefinitionModel>)
    ensures
        only_fixed_texts(ordering_pieces(keys)),
    decreases keys, 1nat,
{
    broadcast use group_vocabulary;

    lemma_order_list_vocabulary(keys);
}

/// The pagination clause is written with fixed texts only.
pub proof fn lemma_pagination_vocabulary(limit: Option<Scalar>, offset: Option<Scalar>)
    ensures
        only_fixed_texts(pagination_pieces(limit, offset)),
{
    broadcast use group_vocabulary;

}

/// A select is written with fixed texts only.
pub proof fn lemma_select_vocabulary(s: SelectModel)
    ensures
        only_fixed_texts(select_pieces(s)),
    decreases s, 1nat,
{
    broadcast use group_vocabulary;

    lemma_projection_vocabulary(s);
    lemma_from_vocabulary(s);
    lemma_joins_vocabulary(s.joins);
    lemma_clause_vocabulary(" WHERE "@, s.conditions);
    lemma_grouping_vocabulary(s.grouping);
    lemma_clause_vocabulary(" HAVING "@, s.having);
    lemma_ordering_vocabulary(s.ordering);
    lemma_pagination_vocabulary(s.limit, s.offset);
}

/// A list of columns is written with fixed texts only.
pub proof fn lemma_column_list_vocabulary(cs: Seq<ColumnModel>)
    ensures
        only_fixed_texts(column_list_pieces(cs)),
    decreases cs.len(),
{
    broadcast use group_vocabulary;

    if cs.len() > 0 {
        lemma_column_vocabulary(cs.last());
        lemma_column_list_vocabulary(cs.drop_last());
    }
}

/// A list of rows is written with fixed texts only.
pub proof fn lemma_row_list_vocabulary(rs: Seq<RowModel>)
    ensures
        only_fixed_texts(row_list_pieces(rs)),
    decreases rs.len(),
{
    broadcast use group_vocabulary;

    if rs.len() > 0 {
        lemma_row_vocabulary(rs.last());
        lemma_row_list_vocabulary(rs.drop_last());
    }
}

/// A list of assignments is written with fixed texts only.
pub proof fn lemma_assignment_list_vocabulary(xs: Seq<AssignmentModel>)
    ensures
        only_fixed_texts(assignment_list_pieces(xs)),
    decreases xs.len(),
{
    broadcast use group_vocabulary;

    if xs.len() > 0 {
        lemma_assignment_vocabulary(xs.last());
        lemma_assignment_list_vocabulary(xs.drop_last());
    }
}

/// An assignment is written with fixed texts only.
pub proof fn lemma_assignment_vocabulary(a: AssignmentModel)
    ensures
        only_fixed_texts(assignment_pieces(a)),
{
    broadcast use group_vocabulary;

    lemma_column_vocabulary(a.column);
    lemma_value_vocabulary(a.value);
}

/// An insert is written with fixed texts only.
pub proof fn lemma_insert_vocabulary(i: InsertModel)
    ensures
        only_fixed_texts(insert_pieces(i)),
{
    broadcast use group_vocabulary;

    lemma_table_vocabulary(i.table, true);
    lemma_column_list_vocabulary(i.columns);
    lemma_row_list_vocabulary(i.values);
}

/// An update is written with fixed texts only.
pub proof fn lemma_update_vocabulary(u: UpdateModel)
    ensures
        only_fixed_texts(update_pieces(u)),
{
    broadcast use group_vocabulary;

    lemma_table_vocabulary(u.table, true);
    lemma_assignment_list_vocabulary(u.assignments);
    lemma_clause_vocabulary(" WHERE "@, u.conditions);
}

/// A delete is written with fixed texts only.
pub proof fn lemma_delete_vocabulary(d: DeleteModel)
    ensures
        only_fixed_texts(delete_pieces(d)),
{
    broadcast use group_vocabulary;

    lemma_table_vocabulary(d.table, true);
    lemma_clause_vocabulary(" WHERE "@, d.conditions);
}

/// In the text of a statement, whatever is not a quoted identifier, a
/// parameter marker or a fragment that the caller wrote as SQL is one of the
/// dialect's fixed texts. No name and no value of the statement is written
/// in any other way.
pub proof fn lemma_query_vocabulary(q: QueryModel)
    ensures
        only_fixed_texts(query_pieces(q)),
{
    match q {
        QueryModel::Select(s) => {
            lemma_select_vocabulary(s);
        },
        QueryModel::Insert(i) => {
            lemma_insert_vocabulary(i);
        },
        QueryModel::Update(u) => {
            lemma_update_vocabulary(u);
        },
        QueryModel::Delete(d) => {
            lemma_delete_vocabulary(d);
        },
    }
}

} // verus!
