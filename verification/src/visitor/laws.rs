//! What holds of every statement that is written.

use crate::ast::column::ColumnModel;
use crate::ast::conditions::ConditionTreeModel;
use crate::ast::insert::{InsertModel, OnConflict, SingleRowInsertModel};
use crate::ast::query::QueryModel;
use crate::ast::values::{DatabaseValueModel, Scalar};
use crate::visitor::pieces::{
    count_of, doubled, group_pieces, identifier, lemma_marker_parity, lemma_parameters_concat,
    lemma_text, marker, marker_count, marker_text, parameters, piece_text, quote_char, quoted,
    sql_text, stray_markers, text, undoubled, Piece, C_PARAMETER,
};
use crate::visitor::render::{
    column_list_pieces, column_pieces, condition_pieces, insert_keyword, insert_pieces,
    item_pieces, query_pieces, row_list_pieces, table_pieces, value_list_pieces, value_pieces,
};
use vstd::prelude::*;

verus! {

/// A statement binds exactly one parameter for each marker that is written
/// for it.
pub proof fn lemma_query_marker_parity(q: QueryModel)
    ensures
        parameters(query_pieces(q)).len() == marker_count(query_pieces(q)),
{
    lemma_marker_parity(query_pieces(q));
}

/// A character stands in two texts, one after the other, as often as in the
/// first and in the second together.
pub proof fn lemma_count_concat(a: Seq<char>, b: Seq<char>, c: char)
    ensures
        count_of(a + b, c) == count_of(a, c) + count_of(b, c),
    decreases b.len(),
{
    if b.len() == 0 {
        assert(a + b =~= a);
    } else {
        lemma_count_concat(a, b.drop_last(), c);
        assert((a + b).drop_last() =~= a + b.drop_last());
        assert((a + b).last() == b.last());
    }
}

/// The marker's character stands in the SQL text once for each bound
/// parameter, and besides only where an identifier, a raw fragment or a
/// fixed text holds it.
pub proof fn lemma_markers_in_text(ps: Seq<Piece>)
    ensures
        count_of(sql_text(ps), C_PARAMETER) == parameters(ps).len() + stray_markers(ps),
    decreases ps.len(),
{
    if ps.len() > 0 {
        let head = ps.drop_last();
        let last = ps.last();
        lemma_markers_in_text(head);
        lemma_count_concat(sql_text(head), piece_text(last), C_PARAMETER);
        if last is Marker {
            assert(marker_text().drop_last() =~= Seq::<char>::empty());
            assert(count_of(marker_text().drop_last(), C_PARAMETER) == 0);
            assert(count_of(marker_text(), C_PARAMETER) == 1);
        }
    }
}

/// Wherever a marker stands among the pieces, the marker token stands at
/// that place in the text, and its value stands among the parameters after
/// those of the pieces before it and before those of the pieces after it.
pub proof fn lemma_marker_in_place(before: Seq<Piece>, v: Scalar, after: Seq<Piece>)
    ensures
        sql_text(before + marker(v) + after) == sql_text(before) + marker_text() + sql_text(
            after,
        ),
        parameters(before + marker(v) + after) == parameters(before) + seq![v] + parameters(
            after,
        ),
        (parameters(before + marker(v) + after))[parameters(before).len() as int] == v,
{
    broadcast use group_pieces;

}

/// Wherever an identifier stands among the pieces, it stands quoted at that
/// place in the text.
pub proof fn lemma_identifier_in_place(before: Seq<Piece>, name: Seq<char>, after: Seq<Piece>)
    ensures
        sql_text(before + identifier(name) + after) == sql_text(before) + quoted(name)
            + sql_text(after),
{
    broadcast use group_pieces;

}

/// A parameterized value is written as one marker and binds itself; its
/// value is no part of the text.
pub proof fn lemma_parameterized_is_marker(s: Scalar)
    ensures
        sql_text(value_pieces(DatabaseValueModel::Parameterized(s))) == marker_text(),
        parameters(value_pieces(DatabaseValueModel::Parameterized(s))) == seq![s],
{
    broadcast use group_pieces;

}

/// An identifier is written between two quote characters, and what stands
/// between them is the name with each quote character doubled: the name can
/// be read back from it.
pub proof fn lemma_quoting_is_faithful(name: Seq<char>)
    ensures
        quoted(name).len() == doubled(name).len() + 2,
        quoted(name).first() == quote_char(),
        quoted(name).last() == quote_char(),
        quoted(name).subrange(1, quoted(name).len() - 1) == doubled(name),
        doubled(name).len() == name.len() + count_of(name, quote_char()),
        count_of(doubled(name), quote_char()) == 2 * count_of(name, quote_char()),
        undoubled(doubled(name)) == name,
{
    lemma_doubled(name);
    assert(quoted(name).subrange(1, quoted(name).len() - 1) =~= doubled(name));
}

/// A name without a quote character is written as it is, between two quote
/// characters.
pub proof fn lemma_plain_name_is_kept(name: Seq<char>)
    requires
        !name.contains(quote_char()),
    ensures
        quoted(name) == seq![quote_char()] + name + seq![quote_char()],
{
    lemma_plain_is_not_doubled(name);
}

/// A name without a quote character is its own doubled form.
pub proof fn lemma_plain_is_not_doubled(name: Seq<char>)
    requires
        !name.contains(quote_char()),
    ensures
        doubled(name) == name,
    decreases name.len(),
{
    if name.len() > 0 {
        let head = name.drop_last();
        assert(name[name.len() - 1] == name.last());
        assert forall|i: int| 0 <= i < head.len() implies head[i] != quote_char() by {
            assert(head[i] == name[i]);
        }
        lemma_plain_is_not_doubled(head);
        assert(doubled(name) =~= name);
    }
}

/// The doubled name holds each quote character of the name twice and every
/// other character once, and the name can be read back from it.
pub proof fn lemma_doubled(name: Seq<char>)
    ensures
        doubled(name).len() == name.len() + count_of(name, quote_char()),
        count_of(doubled(name), quote_char()) == 2 * count_of(name, quote_char()),
        undoubled(doubled(name)) == name,
    decreases name.len(),
{
    if name.len() > 0 {
        let head = name.drop_last();
        lemma_doubled(head);
        let d = doubled(name);
        if name.last() == quote_char() {
            assert(d.drop_last() == doubled(head).push(quote_char()));
            assert(d.drop_last().drop_last() =~= doubled(head));
            assert(d.subrange(0, d.len() - 2) =~= doubled(head));
            assert(undoubled(d) =~= name);
            assert(count_of(d.drop_last(), quote_char()) == count_of(doubled(head), quote_char())
                + 1);
            assert(count_of(d, quote_char()) == count_of(d.drop_last(), quote_char()) + 1);
        } else {
            assert(d.drop_last() =~= doubled(head));
            assert(undoubled(d) =~= name);
            assert(count_of(d, quote_char()) == count_of(doubled(head), quote_char()));
        }
    }
}

/// Beside a condition that holds no comparison, only the other condition is
/// written, and a tree of nothing else is written as nothing.
pub proof fn lemma_no_condition_is_identity(t: ConditionTreeModel)
    ensures
        condition_pieces(ConditionTreeModel::NoCondition) == Seq::<Piece>::empty(),
        condition_pieces(
            ConditionTreeModel::And(Box::new(ConditionTreeModel::NoCondition), Box::new(t)),
        ) == condition_pieces(t),
        condition_pieces(
            ConditionTreeModel::And(Box::new(t), Box::new(ConditionTreeModel::NoCondition)),
        ) == condition_pieces(t),
        condition_pieces(
            ConditionTreeModel::Or(Box::new(ConditionTreeModel::NoCondition), Box::new(t)),
        ) == condition_pieces(t),
        condition_pieces(
            ConditionTreeModel::Or(Box::new(t), Box::new(ConditionTreeModel::NoCondition)),
        ) == condition_pieces(t),
{
    let nothing = ConditionTreeModel::NoCondition;
    assert(nothing.is_vacuous());
    assert(condition_pieces(nothing) == Seq::<Piece>::empty());
    if t.is_vacuous() {
        lemma_vacuous_is_nothing(t);
    }
}

/// A condition that holds no comparison is written as nothing.
pub proof fn lemma_vacuous_is_nothing(t: ConditionTreeModel)
    requires
        t.is_vacuous(),
    ensures
        condition_pieces(t) == Seq::<Piece>::empty(),
    decreases t,
{
    match t {
        ConditionTreeModel::And(l, r) => {
            lemma_vacuous_is_nothing(*l);
            lemma_vacuous_is_nothing(*r);
        },
        ConditionTreeModel::Or(l, r) => {
            lemma_vacuous_is_nothing(*l);
            lemma_vacuous_is_nothing(*r);
        },
        ConditionTreeModel::Not(inner) => {
            lemma_vacuous_is_nothing(*inner);
        },
        _ => {},
    }
}

/// An insert that does nothing on a conflict begins with SQLite's conflict
/// clause, word for word.
pub proof fn lemma_do_nothing_is_written(i: InsertModel)
    requires
        i.on_conflict == Some(OnConflict::DoNothing),
    ensures
        "INSERT OR IGNORE"@.is_prefix_of(sql_text(insert_pieces(i))),
{
    broadcast use group_pieces;

    let sql = sql_text(insert_pieces(i));
    let head = "INSERT OR IGNORE"@;
    assert(sql.subrange(0, head.len() as int) =~= head);
}

/// Three texts under one keyword, grouped to the left.
pub open spec fn grouped_left(a: Seq<char>, b: Seq<char>, c: Seq<char>, keyword: Seq<char>) -> Seq<
    char,
> {
    seq!['('] + (seq!['('] + a + keyword + b + seq![')']) + keyword + c + seq![')']
}

/// Three texts under one keyword, grouped to the right.
pub open spec fn grouped_right(a: Seq<char>, b: Seq<char>, c: Seq<char>, keyword: Seq<char>) -> Seq<
    char,
> {
    seq!['('] + a + keyword + (seq!['('] + b + keyword + c + seq![')']) + seq![')']
}

/// Where the two groupings were written alike, the first text would begin
/// with nothing but opening parentheses.
proof fn lemma_run_of_parentheses(a: Seq<char>, left: Seq<char>, right: Seq<char>, n: nat)
    requires
        left == right,
        left.len() >= a.len() + 2,
        left[1] == '(',
        forall|i: int| 0 <= i < a.len() ==> left[2 + i] == #[trigger] a[i],
        forall|i: int| 0 <= i < a.len() ==> right[1 + i] == #[trigger] a[i],
        n <= a.len(),
    ensures
        forall|i: int| 0 <= i < n ==> a[i] == '(',
    decreases n,
{
    if n > 0 {
        lemma_run_of_parentheses(a, left, right, (n - 1) as nat);
        let last = n - 1;
        assert(a[last] == right[1 + last]);
        if last > 0 {
            assert(a[last - 1] == left[2 + (last - 1)]);
        }
    }
}

/// Three texts under one keyword are written differently when they are
/// grouped to the left and when they are grouped to the right, whatever the
/// texts are.
pub proof fn lemma_groupings_differ(a: Seq<char>, b: Seq<char>, c: Seq<char>, keyword: Seq<char>)
    requires
        keyword.len() > 0,
        keyword[0] != '(',
    ensures
        grouped_left(a, b, c, keyword) != grouped_right(a, b, c, keyword),
{
    let left = grouped_left(a, b, c, keyword);
    let right = grouped_right(a, b, c, keyword);
    let n = a.len() as int;
    assert(left[1] == '(');
    assert forall|i: int| 0 <= i < n implies left[2 + i] == #[trigger] a[i] by {}
    assert forall|i: int| 0 <= i < n implies right[1 + i] == #[trigger] a[i] by {}
    assert(right[1 + n] == keyword[0]);
    if left == right {
        lemma_run_of_parentheses(a, left, right, a.len());
        if n > 0 {
            assert(left[1 + n] == a[n - 1]);
        }
        assert(left[1 + n] == '(');
        assert(false);
    }
}

/// `(a AND b) AND c` and `a AND (b AND c)` are written differently: the
/// parentheses of every node are kept. The three conditions hold a
/// comparison each; a condition that holds none is not written at all.
pub proof fn lemma_and_keeps_grouping(
    a: ConditionTreeModel,
    b: ConditionTreeModel,
    c: ConditionTreeModel,
)
    requires
        !a.is_vacuous(),
        !b.is_vacuous(),
        !c.is_vacuous(),
    ensures
        sql_text(
            condition_pieces(
                ConditionTreeModel::And(
                    Box::new(ConditionTreeModel::And(Box::new(a), Box::new(b))),
                    Box::new(c),
                ),
            ),
        ) != sql_text(
            condition_pieces(
                ConditionTreeModel::And(
                    Box::new(a),
                    Box::new(ConditionTreeModel::And(Box::new(b), Box::new(c))),
                ),
            ),
        ),
{
    broadcast use group_pieces;

    reveal_strlit("(");
    reveal_strlit(")");
    reveal_strlit(" AND ");
    let ta = sql_text(condition_pieces(a));
    let tb = sql_text(condition_pieces(b));
    let tc = sql_text(condition_pieces(c));
    let ab = ConditionTreeModel::And(Box::new(a), Box::new(b));
    let bc = ConditionTreeModel::And(Box::new(b), Box::new(c));
    assert(!ab.is_vacuous());
    assert(!bc.is_vacuous());
    assert(sql_text(condition_pieces(ab)) =~= seq!['('] + ta + " AND "@ + tb + seq![')']);
    assert(sql_text(condition_pieces(bc)) =~= seq!['('] + tb + " AND "@ + tc + seq![')']);
    assert(sql_text(condition_pieces(ConditionTreeModel::And(Box::new(ab), Box::new(c))))
        =~= grouped_left(ta, tb, tc, " AND "@));
    assert(sql_text(condition_pieces(ConditionTreeModel::And(Box::new(a), Box::new(bc))))
        =~= grouped_right(ta, tb, tc, " AND "@));
    lemma_groupings_differ(ta, tb, tc, " AND "@);
}

/// `(a OR b) OR c` and `a OR (b OR c)` are written differently, for three
/// conditions that hold a comparison each.
pub proof fn lemma_or_keeps_grouping(
    a: ConditionTreeModel,
    b: ConditionTreeModel,
    c: ConditionTreeModel,
)
    requires
        !a.is_vacuous(),
        !b.is_vacuous(),
        !c.is_vacuous(),
    ensures
        sql_text(
            condition_pieces(
                ConditionTreeModel::Or(
                    Box::new(ConditionTreeModel::Or(Box::new(a), Box::new(b))),
                    Box::new(c),
                ),
            ),
        ) != sql_text(
            condition_pieces(
                ConditionTreeModel::Or(
                    Box::new(a),
                    Box::new(ConditionTreeModel::Or(Box::new(b), Box::new(c))),
                ),
            ),
        ),
{
    broadcast use group_pieces;

    reveal_strlit("(");
    reveal_strlit(")");
    reveal_strlit(" OR ");
    let ta = sql_text(condition_pieces(a));
    let tb = sql_text(condition_pieces(b));
    let tc = sql_text(condition_pieces(c));
    let ab = ConditionTreeModel::Or(Box::new(a), Box::new(b));
    let bc = ConditionTreeModel::Or(Box::new(b), Box::new(c));
    assert(!ab.is_vacuous());
    assert(!bc.is_vacuous());
    assert(sql_text(condition_pieces(ab)) =~= seq!['('] + ta + " OR "@ + tb + seq![')']);
    assert(sql_text(condition_pieces(bc)) =~= seq!['('] + tb + " OR "@ + tc + seq![')']);
    assert(sql_text(condition_pieces(ConditionTreeModel::Or(Box::new(ab), Box::new(c))))
        =~= grouped_left(ta, tb, tc, " OR "@));
    assert(sql_text(condition_pieces(ConditionTreeModel::Or(Box::new(a), Box::new(bc))))
        =~= grouped_right(ta, tb, tc, " OR "@));
    lemma_groupings_differ(ta, tb, tc, " OR "@);
}

/// A list of columns with one more column binds what the list bound, then
/// what the new column binds.
pub proof fn lemma_column_list_push(cs: Seq<ColumnModel>, c: ColumnModel)
    ensures
        parameters(column_list_pieces(cs.push(c))) == parameters(column_list_pieces(cs))
            + parameters(column_pieces(c)),
{
    broadcast use group_pieces;

    let next = cs.push(c);
    assert(next.drop_last() =~= cs);
    assert(next.last() == c);
    if cs.len() == 0 {
        assert(next[0] == c);
    }
    assert(parameters(column_list_pieces(next)) =~= parameters(column_list_pieces(cs))
        + parameters(column_pieces(c)));
}

/// A list of values with one more value binds what the list bound, then what
/// the new value binds.
pub proof fn lemma_value_list_push(vs: Seq<DatabaseValueModel>, v: DatabaseValueModel)
    ensures
        parameters(value_list_pieces(vs.push(v), false)) == parameters(
            value_list_pieces(vs, false),
        ) + parameters(value_pieces(v)),
{
    broadcast use group_pieces;

    let next = vs.push(v);
    assert(next.drop_last() =~= vs);
    assert(next.last() == v);
    if vs.len() == 0 {
        assert(next[0] == v);
    }
    assert(item_pieces(v, false) =~= value_pieces(v));
    assert(parameters(value_list_pieces(next, false)) =~= parameters(
        value_list_pieces(vs, false),
    ) + parameters(value_pieces(v)));
}

/// The parameters of an insert of one row that has a value: those of the
/// table, then those of the columns, then those of the values.
pub proof fn lemma_single_insert_parameters(m: SingleRowInsertModel)
    requires
        m.values.values.len() > 0,
    ensures
        parameters(insert_pieces(m.insert())) == parameters(table_pieces(m.table, true))
            + parameters(column_list_pieces(m.columns)) + parameters(
            value_list_pieces(m.values.values, false),
        ),
{
    let i = m.insert();
    assert(i.values.len() == 1);
    assert(i.values[0] == m.values);
    let opening = text(insert_keyword(i.on_conflict)) + text(" INTO "@);
    let table = table_pieces(m.table, true);
    let columns = column_list_pieces(m.columns);
    let values = value_list_pieces(m.values.values, false);
    let row = text("("@) + values + text(")"@);
    let inserted = text(" ("@) + columns + text(") VALUES "@) + row;
    assert(row_list_pieces(i.values) == row);
    assert(insert_pieces(i) == opening + table + inserted);
    lemma_text(insert_keyword(i.on_conflict));
    lemma_text(" INTO "@);
    lemma_text("("@);
    lemma_text(")"@);
    lemma_text(" ("@);
    lemma_text(") VALUES "@);
    lemma_parameters_concat(text(insert_keyword(i.on_conflict)), text(" INTO "@));
    lemma_parameters_concat(opening, table);
    lemma_parameters_concat(text("("@), values);
    lemma_parameters_concat(text("("@) + values, text(")"@));
    lemma_parameters_concat(text(" ("@), columns);
    lemma_parameters_concat(text(" ("@) + columns, text(") VALUES "@));
    lemma_parameters_concat(text(" ("@) + columns + text(") VALUES "@), row);
    lemma_parameters_concat(opening + table, inserted);
    assert(parameters(insert_pieces(i)) =~= parameters(table) + parameters(columns) + parameters(
        values,
    ));
}

/// Adding a column and its value to an insert of one row puts what the
/// column binds after what the columns bound before, and what the value
/// binds after what the values bound before.
pub proof fn lemma_insert_value_appends(
    m: SingleRowInsertModel,
    c: ColumnModel,
    v: DatabaseValueModel,
)
    ensures
        parameters(insert_pieces(m.value(c, v).insert())) == parameters(
            table_pieces(m.table, true),
        ) + (parameters(column_list_pieces(m.columns)) + parameters(column_pieces(c))) + (
        parameters(value_list_pieces(m.values.values, false)) + parameters(value_pieces(v))),
{
    lemma_single_insert_parameters(m.value(c, v));
    lemma_column_list_push(m.columns, c);
    lemma_value_list_push(m.values.values, v);
}

/// Adding two values to an insert in the one order and in the other binds
/// the same parameters, in the order in which the values were added.
pub proof fn lemma_insert_values_swap(
    m: SingleRowInsertModel,
    c1: ColumnModel,
    x: DatabaseValueModel,
    c2: ColumnModel,
    y: DatabaseValueModel,
)
    ensures
        parameters(insert_pieces(m.value(c1, x).value(c2, y).insert())) == parameters(
            table_pieces(m.table, true),
        ) + (parameters(column_list_pieces(m.columns)) + parameters(column_pieces(c1))
            + parameters(column_pieces(c2))) + (parameters(
            value_list_pieces(m.values.values, false),
        ) + parameters(value_pieces(x)) + parameters(value_pieces(y))),
        parameters(insert_pieces(m.value(c2, y).value(c1, x).insert())) == parameters(
            table_pieces(m.table, true),
        ) + (parameters(column_list_pieces(m.columns)) + parameters(column_pieces(c2))
            + parameters(column_pieces(c1))) + (parameters(
            value_list_pieces(m.values.values, false),
        ) + parameters(value_pieces(y)) + parameters(value_pieces(x))),
{
    lemma_insert_value_appends(m.value(c1, x), c2, y);
    lemma_column_list_push(m.columns, c1);
    lemma_value_list_push(m.values.values, x);
    lemma_insert_value_appends(m.value(c2, y), c1, x);
    lemma_column_list_push(m.columns, c2);
    lemma_value_list_push(m.values.values, y);
}

} // verus!
