//! The SQLite dialect.

use crate::ast::column::{column_models, Column};
use crate::ast::compare::Compare;
use crate::ast::conditions::ConditionTree;
use crate::ast::delete::Delete;
use crate::ast::function::{Function, FunctionType};
use crate::ast::insert::{Insert, OnConflict};
use crate::ast::join::{join_models, Join, JoinKind};
use crate::ast::order::{order_models, Direction, OrderDefinition};
use crate::ast::query::{Query, QueryLike};
use crate::ast::row::{row_models, Row};
use crate::ast::select::Select;
use crate::ast::table::{Table, TableType};
use crate::ast::update::{assignment_models, Assignment, Update};
use crate::ast::values::{
    optional_name, scalars, value_models, ArithmeticOp, DatabaseValue, DatabaseValueModel,
    ParameterizedValue, Scalar,
};
use crate::visitor::pieces::{
    lemma_marker, lemma_marker_parity, marker, marker_count, marker_text, parameters, sql_text,
    text, C_PARAMETER,
};
use crate::visitor::render::{
    aggregate_to_string_pieces, alias_of, alias_pieces, assignment_list_pieces,
    assignment_pieces, clause_pieces, column_list_pieces, column_pieces, comparator_text,
    compare_pieces, condition_pieces, delete_pieces, from_pieces, function_pieces,
    grouping_pieces, insert_keyword, insert_pieces, insert_values_pieces, item_pieces,
    join_pieces, join_text, joins_pieces, junction_text, limit_and_offset_pieces, operator_text,
    order_list_pieces, order_pieces, ordering_pieces, pagination_pieces, projection_pieces,
    query_pieces, row_list_pieces, row_pieces, select_pieces, table_pieces, update_pieces,
    value_list_pieces, value_pieces, wildcard_pieces,
};
use crate::visitor::writer::Writer;
use vstd::prelude::*;

verus! {

/// A visitor that writes statements for an SQLite database. It gathers the
/// parameters of what it has written so far.
pub struct Sqlite {
    parameters: Vec<ParameterizedValue>,
}

impl View for Sqlite {
    type V = Seq<Scalar>;

    /// The parameters gathered so far, in order.
    closed spec fn view(&self) -> Seq<Scalar> {
        scalars(self.parameters@)
    }
}

/// The view of a parameter that may be absent.
pub open spec fn optional_scalar_ref(value: Option<&ParameterizedValue>) -> Option<Scalar> {
    match value {
        Some(v) => Some(v@),
        None => None,
    }
}

/// The operator of an arithmetic expression, with the spaces around it.
pub fn operator_str(op: ArithmeticOp) -> (out: &'static str)
    ensures
        out@ == operator_text(op),
{
    match op {
        ArithmeticOp::Plus => " + ",
        ArithmeticOp::Minus => " - ",
        ArithmeticOp::Times => " * ",
        ArithmeticOp::Divide => " / ",
    }
}

/// The operator of a comparison, with the spaces around it.
pub fn comparator_str(compare: &Compare) -> (out: &'static str)
    ensures
        out@ == comparator_text(compare@),
{
    match compare {
        Compare::Equals(_, _) => " = ",
        Compare::NotEquals(_, _) => " <> ",
        Compare::LessThan(_, _) => " < ",
        Compare::LessThanOrEquals(_, _) => " <= ",
        Compare::GreaterThan(_, _) => " > ",
        Compare::GreaterThanOrEquals(_, _) => " >= ",
        Compare::Like(_, _) => " LIKE ",
        Compare::NotLike(_, _) => " NOT LIKE ",
        Compare::In(_, _) => " IN ",
        Compare::NotIn(_, _) => " NOT IN ",
        Compare::Null(_) => " IS NULL",
        Compare::NotNull(_) => " IS NOT NULL",
        Compare::Between(_, _, _) => " BETWEEN ",
        Compare::NotBetween(_, _, _) => " NOT BETWEEN ",
    }
}

/// The keyword between the two sides of a node, with the spaces around it.
pub fn junction_str(tree: &ConditionTree) -> (out: &'static str)
    ensures
        out@ == junction_text(tree@),
{
    match tree {
        ConditionTree::Or(_, _) => " OR ",
        _ => " AND ",
    }
}

/// The keywords of a join, with the spaces around them.
pub fn join_str(kind: JoinKind) -> (out: &'static str)
    ensures
        out@ == join_text(kind),
{
    match kind {
        JoinKind::Inner => " INNER JOIN ",
        JoinKind::LeftOuter => " LEFT OUTER JOIN ",
    }
}

/// The words that open an insert.
pub fn insert_str(on_conflict: Option<OnConflict>) -> (out: &'static str)
    ensures
        out@ == insert_keyword(on_conflict),
{
    match on_conflict {
        Some(OnConflict::DoNothing) => "INSERT OR IGNORE",
        None => "INSERT",
    }
}

impl Sqlite {
    /// A visitor that has gathered nothing.
    pub fn new() -> (out: Sqlite)
        ensures
            out@ == Seq::<Scalar>::empty(),
    {
        let out = Sqlite { parameters: Vec::new() };
        assert(out@ =~= Seq::<Scalar>::empty());
        out
    }

    /// Writes the statement. The result is the SQL text and, for each marker
    /// in it, in the order of the markers, the value to bind.
    pub fn build<Q: QueryLike>(query: Q) -> (out: (String, Vec<ParameterizedValue>))
        requires
            query.query_model().well_formed(),
        ensures
            out.0@ == sql_text(query_pieces(query.query_model())),
            scalars(out.1@) == parameters(query_pieces(query.query_model())),
            out.1@.len() == marker_count(query_pieces(query.query_model())),
    {
        let mut sqlite = Sqlite::new();
        let query = query.into_query();
        let sql = sqlite.visit_query(&query);
        proof {
            assert(sqlite@ =~= parameters(query_pieces(query@)));
            lemma_marker_parity(query_pieces(query@));
        }
        (sql, sqlite.into_parameters())
    }

    /// The parameters gathered so far.
    pub fn into_parameters(self) -> (out: Vec<ParameterizedValue>)
        ensures
            scalars(out@) == self@,
    {
        self.parameters
    }

    /// The token that stands for a parameter.
    pub fn parameter_substitution(&self) -> (out: String)
        ensures
            out@ == marker_text(),
    {
        let mut out = String::new();
        out.push(C_PARAMETER);
        out
    }

    /// Puts a value at the end of the parameters.
    pub fn add_parameter(&mut self, value: ParameterizedValue)
        ensures
            final(self)@ == old(self)@.push(value@),
    {
        self.parameters.push(value);
        assert(self@ =~= old(self)@.push(value@));
    }

    /// Writes a marker and gathers the value as its parameter.
    pub fn visit_parameterized(&mut self, value: &ParameterizedValue) -> (out: String)
        ensures
            out@ == sql_text(marker(value@)),
            final(self)@ == old(self)@ + parameters(marker(value@)),
    {
        self.add_parameter(value.duplicate());
        proof {
            lemma_marker(value@);
            assert(self@ =~= old(self)@ + parameters(marker(value@)));
        }
        self.parameter_substitution()
    }

    /// Writes `LIMIT`, a marker for the limit and, where there is an offset,
    /// ` OFFSET ` and a marker for it.
    pub fn visit_limit(
        &mut self,
        limit: &ParameterizedValue,
        offset: Option<&ParameterizedValue>,
    ) -> (out: String)
        ensures
            out@ == sql_text(limit_and_offset_pieces(Some(limit@), optional_scalar_ref(offset))->0),
            final(self)@ == old(self)@ + parameters(
                limit_and_offset_pieces(Some(limit@), optional_scalar_ref(offset))->0,
            ),
    {
        let mut w = Writer::new(Ghost(self@));
        w.text("LIMIT ", Ghost(self@));
        let ghost mid = self@;
        let part = self.visit_parameterized(limit);
        w.part(part.as_str(), Ghost(marker(limit@)), Ghost(mid), Ghost(self@));
        if let Some(offset) = offset {
            w.text(" OFFSET ", Ghost(self@));
            let ghost mid = self@;
            let part = self.visit_parameterized(offset);
            w.part(part.as_str(), Ghost(marker(offset@)), Ghost(mid), Ghost(self@));
        }
        assert(w.pieces@ =~= limit_and_offset_pieces(
            Some(limit@),
            optional_scalar_ref(offset),
        )->0);
        w.finish()
    }

    /// Writes the pagination clause, if there is a limit or an offset. SQLite
    /// takes no offset without a limit: an offset alone is written with the
    /// limit -1, sent as a parameter.
    pub fn visit_limit_and_offset(
        &mut self,
        limit: Option<&ParameterizedValue>,
        offset: Option<&ParameterizedValue>,
    ) -> (out: Option<String>)
        ensures
            match limit_and_offset_pieces(optional_scalar_ref(limit), optional_scalar_ref(offset)) {
                Some(ps) => out is Some && out.unwrap()@ == sql_text(ps) && final(self)@ == old(
                    self,
                )@ + parameters(ps),
                None => out is None && final(self)@ == old(self)@,
            },
    {
        match (limit, offset) {
            (Some(limit), _) => Some(self.visit_limit(limit, offset)),
            (None, Some(_)) => {
                let unlimited = ParameterizedValue::Integer(-1);
                Some(self.visit_limit(&unlimited, offset))
            },
            (None, None) => None,
        }
    }

    /// Writes ` AS ` and the quoted alias, where there is one.
    pub fn visit_alias(&mut self, alias: &Option<String>) -> (out: String)
        ensures
            out@ == sql_text(alias_pieces(optional_name(*alias))),
            final(self)@ == old(self)@ + parameters(alias_pieces(optional_name(*alias))),
    {
        let mut w = Writer::new(Ghost(self@));
        if let Some(name) = alias {
            w.text(" AS ", Ghost(self@));
            w.identifier(name.as_str(), Ghost(self@));
        }
        assert(w.pieces@ =~= alias_pieces(optional_name(*alias)));
        w.finish()
    }

    /// Writes a table; with `include_alias`, its alias after it.
    pub fn visit_table(&mut self, table: &Table, include_alias: bool) -> (out: String)
        ensures
            out@ == sql_text(table_pieces(table@, include_alias)),
            final(self)@ == old(self)@ + parameters(table_pieces(table@, include_alias)),
        decreases table, 0nat,
    {
        let mut w = Writer::new(Ghost(self@));
        match &table.typ {
            TableType::Table(name) => {
                if let Some(schema) = &table.schema {
                    w.identifier(schema.as_str(), Ghost(self@));
                    w.text(".", Ghost(self@));
                }
                w.identifier(name.as_str(), Ghost(self@));
            },
            TableType::Query(select) => {
                w.text("(", Ghost(self@));
                let ghost mid = self@;
                let part = self.visit_select(select);
                w.part(part.as_str(), Ghost(select_pieces(select@)), Ghost(mid), Ghost(self@));
                w.text(")", Ghost(self@));
            },
        }
        if include_alias {
            let ghost mid = self@;
            let part = self.visit_alias(&table.alias);
            w.part(part.as_str(), Ghost(alias_pieces(optional_name(table.alias))), Ghost(mid), Ghost(self@));
        }
        assert(w.pieces@ =~= table_pieces(table@, include_alias));
        w.finish()
    }

    /// Writes every column of a table.
    pub fn visit_wildcard(&mut self, table: &Table) -> (out: String)
        ensures
            out@ == sql_text(wildcard_pieces(table@)),
            final(self)@ == old(self)@ + parameters(wildcard_pieces(table@)),
        decreases table, 1nat,
    {
        let mut w = Writer::new(Ghost(self@));
        match &table.alias {
            Some(alias) => {
                w.identifier(alias.as_str(), Ghost(self@));
                w.text(".*", Ghost(self@));
            },
            None => match &table.typ {
                TableType::Table(_) => {
                    let ghost mid = self@;
                    let part = self.visit_table(table, false);
                    w.part(part.as_str(), Ghost(table_pieces(table@, false)), Ghost(mid), Ghost(self@));
                    w.text(".*", Ghost(self@));
                },
                TableType::Query(_) => {
                    w.text("*", Ghost(self@));
                },
            },
        }
        assert(w.pieces@ =~= wildcard_pieces(table@));
        w.finish()
    }

    /// Writes a column, qualified by its table where it has one.
    pub fn visit_column(&mut self, column: &Column) -> (out: String)
        ensures
            out@ == sql_text(column_pieces(column@)),
            final(self)@ == old(self)@ + parameters(column_pieces(column@)),
        decreases column, 0nat,
    {
        let mut w = Writer::new(Ghost(self@));
        if let Some(table) = &column.table {
            let ghost mid = self@;
            let part = self.visit_table(table, false);
            w.part(part.as_str(), Ghost(table_pieces(table@, false)), Ghost(mid), Ghost(self@));
            w.text(".", Ghost(self@));
        }
        w.identifier(column.name.as_str(), Ghost(self@));
        assert(w.pieces@ =~= column_pieces(column@));
        w.finish()
    }

    /// Writes a value. A parameterized value becomes a marker and is
    /// gathered; nothing else is.
    pub fn visit_database_value(&mut self, value: &DatabaseValue) -> (out: String)
        ensures
            out@ == sql_text(value_pieces(value@)),
            final(self)@ == old(self)@ + parameters(value_pieces(value@)),
        decreases value, 0nat,
    {
        let mut w = Writer::new(Ghost(self@));
        match value {
            DatabaseValue::Parameterized(v) => {
                let ghost mid = self@;
                let part = self.visit_parameterized(v);
                w.part(part.as_str(), Ghost(marker(v@)), Ghost(mid), Ghost(self@));
            },
            DatabaseValue::Column(c) => {
                let ghost mid = self@;
                let part = self.visit_column(c);
                w.part(part.as_str(), Ghost(column_pieces(c@)), Ghost(mid), Ghost(self@));
            },
            DatabaseValue::Row(r) => {
                let ghost mid = self@;
                let part = self.visit_row(r);
                w.part(part.as_str(), Ghost(row_pieces(r@)), Ghost(mid), Ghost(self@));
            },
            DatabaseValue::Function(f) => {
                let ghost mid = self@;
                let part = self.visit_function(f);
                w.part(part.as_str(), Ghost(function_pieces(f@)), Ghost(mid), Ghost(self@));
            },
            DatabaseValue::Select(select) => {
                w.text("(", Ghost(self@));
                let ghost mid = self@;
                let part = self.visit_select(select);
                w.part(part.as_str(), Ghost(select_pieces(select@)), Ghost(mid), Ghost(self@));
                w.text(")", Ghost(self@));
            },
            DatabaseValue::Asterisk(table) => match table {
                Some(t) => {
                    let ghost mid = self@;
                    let part = self.visit_table(t, false);
                    w.part(part.as_str(), Ghost(table_pieces(t@, false)), Ghost(mid), Ghost(self@));
                    w.text(".*", Ghost(self@));
                },
                None => {
                    w.text("*", Ghost(self@));
                },
            },
            DatabaseValue::Arithmetic(l, op, r) => {
                w.text("(", Ghost(self@));
                let ghost mid = self@;
                let part = self.visit_database_value(l);
                w.part(part.as_str(), Ghost(value_pieces(l@)), Ghost(mid), Ghost(self@));
                w.text(operator_str(*op), Ghost(self@));
                let ghost mid = self@;
                let part = self.visit_database_value(r);
                w.part(part.as_str(), Ghost(value_pieces(r@)), Ghost(mid), Ghost(self@));
                w.text(")", Ghost(self@));
            },
            DatabaseValue::Raw(t) => {
                w.raw(t.as_str(), Ghost(self@));
            },
        }
        assert(w.pieces@ =~= value_pieces(value@));
        w.finish()
    }

    /// Writes a value of a list; with `aliased`, followed by the alias it
    /// carries.
    pub fn visit_item(&mut self, value: &DatabaseValue, aliased: bool) -> (out: String)
        ensures
            out@ == sql_text(item_pieces(value@, aliased)),
            final(self)@ == old(self)@ + parameters(item_pieces(value@, aliased)),
        decreases value, 1nat,
    {
        let mut w = Writer::new(Ghost(self@));
        let ghost mid = self@;
        let part = self.visit_database_value(value);
        w.part(part.as_str(), Ghost(value_pieces(value@)), Ghost(mid), Ghost(self@));
        if aliased {
            match value {
                DatabaseValue::Column(c) => {
                    assert(value@ == DatabaseValueModel::Column(Box::new(c@)));
                    assert(c@.alias == optional_name(c.alias));
                    let ghost mid = self@;
                    let part = self.visit_alias(&c.alias);
                    w.part(part.as_str(), Ghost(alias_pieces(optional_name(c.alias))), Ghost(mid), Ghost(self@));
                },
                DatabaseValue::Function(f) => {
                    assert(value@ == DatabaseValueModel::Function(f@));
                    assert(f@.alias == optional_name(f.alias));
                    let ghost mid = self@;
                    let part = self.visit_alias(&f.alias);
                    w.part(part.as_str(), Ghost(alias_pieces(optional_name(f.alias))), Ghost(mid), Ghost(self@));
                },
                _ => {
                    assert(alias_of(value@) is None);
                },
            }
        }
        assert(w.pieces@ =~= item_pieces(value@, aliased));
        w.finish()
    }

    /// Writes values separated by `, `; with `aliased`, each followed by the
    /// alias it carries.
    pub fn visit_values(&mut self, values: &Vec<DatabaseValue>, aliased: bool) -> (out: String)
        ensures
            out@ == sql_text(value_list_pieces(value_models(*values), aliased)),
            final(self)@ == old(self)@ + parameters(
                value_list_pieces(value_models(*values), aliased),
            ),
        decreases values, 0nat,
    {
        let ghost models = value_models(*values);
        let mut w = Writer::new(Ghost(self@));
        let mut i: usize = 0;
        while i < values.len()
            invariant
                i <= values.len(),
                models == value_models(*values),
                w.holds(self@),
                w.before@ == old(self)@,
                w.pieces@ =~= value_list_pieces(models.take(i as int), aliased),
            decreases values.len() - i,
        {
            if i > 0 {
                w.text(", ", Ghost(self@));
            }
            let value = &values[i];
            let ghost mid = self@;
            let part = self.visit_item(value, aliased);
            w.part(part.as_str(), Ghost(item_pieces(value@, aliased)), Ghost(mid), Ghost(self@));
            proof {
                let next = models.take(i as int + 1);
                assert(next.drop_last() =~= models.take(i as int));
                assert(next.last() == value@);
                assert(w.pieces@ =~= value_list_pieces(next, aliased));
            }
            i += 1;
        }
        assert(models.take(values.len() as int) =~= models);
        w.finish()
    }

    /// Writes a row: its values in parentheses.
    pub fn visit_row(&mut self, row: &Row) -> (out: String)
        ensures
            out@ == sql_text(row_pieces(row@)),
            final(self)@ == old(self)@ + parameters(row_pieces(row@)),
        decreases row, 0nat,
    {
        let mut w = Writer::new(Ghost(self@));
        w.text("(", Ghost(self@));
        let ghost mid = self@;
        let part = self.visit_values(&row.values, false);
        w.part(part.as_str(), Ghost(value_list_pieces(row@.values, false)), Ghost(mid), Ghost(self@));
        w.text(")", Ghost(self@));
        assert(w.pieces@ =~= row_pieces(row@));
        w.finish()
    }

    /// Writes a function call.
    pub fn visit_function(&mut self, function: &Function) -> (out: String)
        ensures
            out@ == sql_text(function_pieces(function@)),
            final(self)@ == old(self)@ + parameters(function_pieces(function@)),
        decreases function, 0nat,
    {
        let mut w = Writer::new(Ghost(self@));
        match &function.typ {
            FunctionType::Count(args) => {
                if args.len() == 0 {
                    w.text("COUNT(*)", Ghost(self@));
                } else {
                    w.text("COUNT(", Ghost(self@));
                    let ghost mid = self@;
                    let part = self.visit_values(args, false);
                    w.part(part.as_str(), Ghost(value_list_pieces(value_models(*args), false)), Ghost(mid), Ghost(self@));
                    w.text(")", Ghost(self@));
                }
            },
            FunctionType::AggregateToString(value) => {
                let ghost mid = self@;
                let part = self.visit_aggregate_to_string(value);
                w.part(part.as_str(), Ghost(aggregate_to_string_pieces(value@)), Ghost(mid), Ghost(self@));
            },
        }
        assert(w.pieces@ =~= function_pieces(function@));
        w.finish()
    }

    /// Writes the aggregate that joins the values of a group into one string:
    /// in SQLite, `group_concat`.
    pub fn visit_aggregate_to_string(&mut self, value: &DatabaseValue) -> (out: String)
        ensures
            out@ == sql_text(aggregate_to_string_pieces(value@)),
            final(self)@ == old(self)@ + parameters(aggregate_to_string_pieces(value@)),
        decreases value, 1nat,
    {
        let mut w = Writer::new(Ghost(self@));
        w.text("group_concat(", Ghost(self@));
        let ghost mid = self@;
        let part = self.visit_database_value(value);
        w.part(part.as_str(), Ghost(value_pieces(value@)), Ghost(mid), Ghost(self@));
        w.text(")", Ghost(self@));
        assert(w.pieces@ =~= aggregate_to_string_pieces(value@));
        w.finish()
    }

    /// Writes a comparison: left operand, operator, right operand.
    pub fn visit_compare(&mut self, compare: &Compare) -> (out: String)
        ensures
            out@ == sql_text(compare_pieces(compare@)),
            final(self)@ == old(self)@ + parameters(compare_pieces(compare@)),
        decreases compare, 0nat,
    {
        let mut w = Writer::new(Ghost(self@));
        let comparator = comparator_str(compare);
        match compare {
            Compare::Equals(l, r)
            | Compare::NotEquals(l, r)
            | Compare::LessThan(l, r)
            | Compare::LessThanOrEquals(l, r)
            | Compare::GreaterThan(l, r)
            | Compare::GreaterThanOrEquals(l, r)
            | Compare::Like(l, r)
            | Compare::NotLike(l, r)
            | Compare::In(l, r)
            | Compare::NotIn(l, r) => {
                let ghost mid = self@;
                let part = self.visit_database_value(l);
                w.part(part.as_str(), Ghost(value_pieces(l@)), Ghost(mid), Ghost(self@));
                w.text(comparator, Ghost(self@));
                let ghost mid = self@;
                let part = self.visit_database_value(r);
                w.part(part.as_str(), Ghost(value_pieces(r@)), Ghost(mid), Ghost(self@));
            },
            Compare::Null(v)
            | Compare::NotNull(v) => {
                let ghost mid = self@;
                let part = self.visit_database_value(v);
                w.part(part.as_str(), Ghost(value_pieces(v@)), Ghost(mid), Ghost(self@));
                w.text(comparator, Ghost(self@));
            },
            Compare::Between(v, lo, hi)
            | Compare::NotBetween(v, lo, hi) => {
                let ghost mid = self@;
                let part = self.visit_database_value(v);
                w.part(part.as_str(), Ghost(value_pieces(v@)), Ghost(mid), Ghost(self@));
                w.text(comparator, Ghost(self@));
                let ghost mid = self@;
                let part = self.visit_database_value(lo);
                w.part(part.as_str(), Ghost(value_pieces(lo@)), Ghost(mid), Ghost(self@));
                w.text(" AND ", Ghost(self@));
                let ghost mid = self@;
                let part = self.visit_database_value(hi);
                w.part(part.as_str(), Ghost(value_pieces(hi@)), Ghost(mid), Ghost(self@));
            },
        }
        assert(w.pieces@ =~= compare_pieces(compare@));
        w.finish()
    }

    /// Writes a condition tree, each node in its own parentheses. A vacuous
    /// tree is written as nothing.
    pub fn visit_conditions(&mut self, tree: &ConditionTree) -> (out: String)
        ensures
            out@ == sql_text(condition_pieces(tree@)),
            final(self)@ == old(self)@ + parameters(condition_pieces(tree@)),
        decreases tree, 0nat,
    {
        let mut w = Writer::new(Ghost(self@));
        match tree {
            ConditionTree::And(l, r) | ConditionTree::Or(l, r) => {
                if l.is_vacuous() {
                    let ghost mid = self@;
                    let part = self.visit_conditions(r);
                    w.part(part.as_str(), Ghost(condition_pieces(r@)), Ghost(mid), Ghost(self@));
                } else if r.is_vacuous() {
                    let ghost mid = self@;
                    let part = self.visit_conditions(l);
                    w.part(part.as_str(), Ghost(condition_pieces(l@)), Ghost(mid), Ghost(self@));
                } else {
                    w.text("(", Ghost(self@));
                    let ghost mid = self@;
                    let part = self.visit_conditions(l);
                    w.part(part.as_str(), Ghost(condition_pieces(l@)), Ghost(mid), Ghost(self@));
                    w.text(junction_str(tree), Ghost(self@));
                    let ghost mid = self@;
                    let part = self.visit_conditions(r);
                    w.part(part.as_str(), Ghost(condition_pieces(r@)), Ghost(mid), Ghost(self@));
                    w.text(")", Ghost(self@));
                }
            },
            ConditionTree::Not(inner) => {
                if !inner.is_vacuous() {
                    w.text("(NOT ", Ghost(self@));
                    let ghost mid = self@;
                    let part = self.visit_conditions(inner);
                    w.part(part.as_str(), Ghost(condition_pieces(inner@)), Ghost(mid), Ghost(self@));
                    w.text(")", Ghost(self@));
                }
            },
            ConditionTree::Single(compare) => {
                let ghost mid = self@;
                let part = self.visit_compare(compare);
                w.part(part.as_str(), Ghost(compare_pieces(compare@)), Ghost(mid), Ghost(self@));
            },
            ConditionTree::NoCondition => {},
        }
        assert(w.pieces@ =~= condition_pieces(tree@));
        w.finish()
    }

    /// Writes a keyword and the condition after it, or nothing where the
    /// condition is vacuous.
    pub fn visit_clause(&mut self, keyword: &str, tree: &ConditionTree) -> (out: String)
        ensures
            out@ == sql_text(clause_pieces(keyword@, tree@)),
            final(self)@ == old(self)@ + parameters(clause_pieces(keyword@, tree@)),
        decreases tree, 1nat,
    {
        let mut w = Writer::new(Ghost(self@));
        if !tree.is_vacuous() {
            w.text(keyword, Ghost(self@));
            let ghost mid = self@;
            let part = self.visit_conditions(tree);
            w.part(part.as_str(), Ghost(condition_pieces(tree@)), Ghost(mid), Ghost(self@));
        }
        assert(w.pieces@ =~= clause_pieces(keyword@, tree@));
        w.finish()
    }

    /// Writes a join: its keywords, the table, and the condition.
    pub fn visit_join(&mut self, join: &Join) -> (out: String)
        ensures
            out@ == sql_text(join_pieces(join@)),
            final(self)@ == old(self)@ + parameters(join_pieces(join@)),
        decreases join, 0nat,
    {
        let mut w = Writer::new(Ghost(self@));
        w.text(join_str(join.kind), Ghost(self@));
        let ghost mid = self@;
        let part = self.visit_table(&join.target, true);
        w.part(part.as_str(), Ghost(table_pieces(join@.target, true)), Ghost(mid), Ghost(self@));
        let ghost mid = self@;
        let part = self.visit_clause(" ON ", &join.predicate);
        w.part(part.as_str(), Ghost(clause_pieces(" ON "@, join@.predicate)), Ghost(mid), Ghost(self@));
        assert(w.pieces@ =~= join_pieces(join@));
        w.finish()
    }

    /// Writes joins in the order in which they were added.
    pub fn visit_joins(&mut self, joins: &Vec<Join>) -> (out: String)
        ensures
            out@ == sql_text(joins_pieces(join_models(*joins))),
            final(self)@ == old(self)@ + parameters(joins_pieces(join_models(*joins))),
        decreases joins, 0nat,
    {
        let ghost models = join_models(*joins);
        let mut w = Writer::new(Ghost(self@));
        let mut i: usize = 0;
        while i < joins.len()
            invariant
                i <= joins.len(),
                models == join_models(*joins),
                w.holds(self@),
                w.before@ == old(self)@,
                w.pieces@ =~= joins_pieces(models.take(i as int)),
            decreases joins.len() - i,
        {
            let join = &joins[i];
            let ghost mid = self@;
            let part = self.visit_join(join);
            w.part(part.as_str(), Ghost(join_pieces(join@)), Ghost(mid), Ghost(self@));
            proof {
                let next = models.take(i as int + 1);
                assert(next.drop_last() =~= models.take(i as int));
                assert(next.last() == join@);
                assert(w.pieces@ =~= joins_pieces(next));
            }
            i += 1;
        }
        assert(models.take(joins.len() as int) =~= models);
        w.finish()
    }

    /// Writes a sort key: the value, then its direction.
    pub fn visit_order(&mut self, key: &OrderDefinition) -> (out: String)
        ensures
            out@ == sql_text(order_pieces(key@)),
            final(self)@ == old(self)@ + parameters(order_pieces(key@)),
        decreases key, 0nat,
    {
        let mut w = Writer::new(Ghost(self@));
        let ghost mid = self@;
        let part = self.visit_database_value(&key.value);
        w.part(part.as_str(), Ghost(value_pieces(key@.value)), Ghost(mid), Ghost(self@));
        match key.direction {
            Direction::Default => {},
            Direction::Asc => {
                w.text(" ASC", Ghost(self@));
            },
            Direction::Desc => {
                w.text(" DESC", Ghost(self@));
            },
        }
        assert(w.pieces@ =~= order_pieces(key@));
        w.finish()
    }

    /// Writes sort keys separated by `, `.
    pub fn visit_order_list(&mut self, keys: &Vec<OrderDefinition>) -> (out: String)
        ensures
            out@ == sql_text(order_list_pieces(order_models(*keys))),
            final(self)@ == old(self)@ + parameters(order_list_pieces(order_models(*keys))),
        decreases keys, 0nat,
    {
        let ghost models = order_models(*keys);
        let mut w = Writer::new(Ghost(self@));
        let mut i: usize = 0;
        while i < keys.len()
            invariant
                i <= keys.len(),
                models == order_models(*keys),
                w.holds(self@),
                w.before@ == old(self)@,
                w.pieces@ =~= order_list_pieces(models.take(i as int)),
            decreases keys.len() - i,
        {
            if i > 0 {
                w.text(", ", Ghost(self@));
            }
            let key = &keys[i];
            let ghost mid = self@;
            let part = self.visit_order(key);
            w.part(part.as_str(), Ghost(order_pieces(key@)), Ghost(mid), Ghost(self@));
            proof {
                let next = models.take(i as int + 1);
                assert(next.drop_last() =~= models.take(i as int));
                assert(next.last() == key@);
                assert(w.pieces@ =~= order_list_pieces(next));
            }
            i += 1;
        }
        assert(models.take(keys.len() as int) =~= models);
        w.finish()
    }

    /// Writes ` ORDER BY ` and the sort keys, where there are any.
    pub fn visit_ordering(&mut self, keys: &Vec<OrderDefinition>) -> (out: String)
        ensures
            out@ == sql_text(ordering_pieces(order_models(*keys))),
            final(self)@ == old(self)@ + parameters(ordering_pieces(order_models(*keys))),
        decreases keys, 1nat,
    {
        let mut w = Writer::new(Ghost(self@));
        if keys.len() > 0 {
            w.text(" ORDER BY ", Ghost(self@));
            let ghost mid = self@;
            let part = self.visit_order_list(keys);
            w.part(part.as_str(), Ghost(order_list_pieces(order_models(*keys))), Ghost(mid), Ghost(self@));
        }
        assert(w.pieces@ =~= ordering_pieces(order_models(*keys)));
        w.finish()
    }

    /// Writes ` GROUP BY ` and the values, where there are any.
    pub fn visit_grouping(&mut self, grouping: &Vec<DatabaseValue>) -> (out: String)
        ensures
            out@ == sql_text(grouping_pieces(value_models(*grouping))),
            final(self)@ == old(self)@ + parameters(grouping_pieces(value_models(*grouping))),
        decreases grouping, 1nat,
    {
        let mut w = Writer::new(Ghost(self@));
        if grouping.len() > 0 {
            w.text(" GROUP BY ", Ghost(self@));
            let ghost mid = self@;
            let part = self.visit_values(grouping, false);
            w.part(part.as_str(), Ghost(value_list_pieces(value_models(*grouping), false)), Ghost(mid), Ghost(self@));
        }
        assert(w.pieces@ =~= grouping_pieces(value_models(*grouping)));
        w.finish()
    }

    /// Writes the projection of a select.
    pub fn visit_projection(&mut self, select: &Select) -> (out: String)
        ensures
            out@ == sql_text(projection_pieces(select@)),
            final(self)@ == old(self)@ + parameters(projection_pieces(select@)),
        decreases select, 0nat,
    {
        let mut w = Writer::new(Ghost(self@));
        if select.columns.len() > 0 {
            let ghost mid = self@;
            let part = self.visit_values(&select.columns, true);
            w.part(part.as_str(), Ghost(value_list_pieces(select@.columns, true)), Ghost(mid), Ghost(self@));
        } else {
            match &select.table {
                Some(table) => {
                    let ghost mid = self@;
                    let part = self.visit_wildcard(table);
                    w.part(part.as_str(), Ghost(wildcard_pieces(table@)), Ghost(mid), Ghost(self@));
                },
                None => {
                    w.text("*", Ghost(self@));
                },
            }
        }
        assert(w.pieces@ =~= projection_pieces(select@));
        w.finish()
    }

    /// Writes ` FROM ` and the table of a select, where it has one.
    pub fn visit_from(&mut self, select: &Select) -> (out: String)
        ensures
            out@ == sql_text(from_pieces(select@)),
            final(self)@ == old(self)@ + parameters(from_pieces(select@)),
        decreases select, 0nat,
    {
        let mut w = Writer::new(Ghost(self@));
        if let Some(table) = &select.table {
            w.text(" FROM ", Ghost(self@));
            let ghost mid = self@;
            let part = self.visit_table(table, true);
            w.part(part.as_str(), Ghost(table_pieces(table@, true)), Ghost(mid), Ghost(self@));
        }
        assert(w.pieces@ =~= from_pieces(select@));
        w.finish()
    }

    /// Writes the pagination clause with a space before it, where there is
    /// one.
    pub fn visit_pagination(&mut self, select: &Select) -> (out: String)
        ensures
            out@ == sql_text(pagination_pieces(select@.limit, select@.offset)),
            final(self)@ == old(self)@ + parameters(
                pagination_pieces(select@.limit, select@.offset),
            ),
    {
        let mut w = Writer::new(Ghost(self@));
        let ghost mid = self@;
        let ghost clause = limit_and_offset_pieces(select@.limit, select@.offset);
        if let Some(part) = self.visit_limit_and_offset(
            select.limit.as_ref(),
            select.offset.as_ref(),
        ) {
            w.text(" ", Ghost(mid));
            w.part(part.as_str(), Ghost(clause->0), Ghost(mid), Ghost(self@));
        }
        assert(w.pieces@ =~= pagination_pieces(select@.limit, select@.offset));
        w.finish()
    }

    /// Writes a select: the projection, then each clause that is not empty.
    pub fn visit_select(&mut self, select: &Select) -> (out: String)
        ensures
            out@ == sql_text(select_pieces(select@)),
            final(self)@ == old(self)@ + parameters(select_pieces(select@)),
        decreases select, 1nat,
    {
        let mut w = Writer::new(Ghost(self@));
        w.text("SELECT ", Ghost(self@));
        let ghost mid = self@;
        let part = self.visit_projection(select);
        w.part(part.as_str(), Ghost(projection_pieces(select@)), Ghost(mid), Ghost(self@));
        let ghost mid = self@;
        let part = self.visit_from(select);
        w.part(part.as_str(), Ghost(from_pieces(select@)), Ghost(mid), Ghost(self@));
        let ghost mid = self@;
        let part = self.visit_joins(&select.joins);
        w.part(part.as_str(), Ghost(joins_pieces(select@.joins)), Ghost(mid), Ghost(self@));
        let ghost mid = self@;
        let part = self.visit_clause(" WHERE ", &select.conditions);
        w.part(part.as_str(), Ghost(clause_pieces(" WHERE "@, select@.conditions)), Ghost(mid), Ghost(self@));
        let ghost mid = self@;
        let part = self.visit_grouping(&select.grouping);
        w.part(part.as_str(), Ghost(grouping_pieces(select@.grouping)), Ghost(mid), Ghost(self@));
        let ghost mid = self@;
        let part = self.visit_clause(" HAVING ", &select.having);
        w.part(part.as_str(), Ghost(clause_pieces(" HAVING "@, select@.having)), Ghost(mid), Ghost(self@));
        let ghost mid = self@;
        let part = self.visit_ordering(&select.ordering);
        w.part(part.as_str(), Ghost(ordering_pieces(select@.ordering)), Ghost(mid), Ghost(self@));
        let ghost mid = self@;
        let part = self.visit_pagination(select);
        w.part(part.as_str(), Ghost(pagination_pieces(select@.limit, select@.offset)), Ghost(mid), Ghost(self@));
        assert(w.pieces@ =~= select_pieces(select@));
        w.finish()
    }

    /// Writes columns separated by `, `.
    pub fn visit_column_list(&mut self, columns: &Vec<Column>) -> (out: String)
        ensures
            out@ == sql_text(column_list_pieces(column_models(*columns))),
            final(self)@ == old(self)@ + parameters(column_list_pieces(column_models(*columns))),
    {
        let ghost models = column_models(*columns);
        let mut w = Writer::new(Ghost(self@));
        let mut i: usize = 0;
        while i < columns.len()
            invariant
                i <= columns.len(),
                models == column_models(*columns),
                w.holds(self@),
                w.before@ == old(self)@,
                w.pieces@ =~= column_list_pieces(models.take(i as int)),
            decreases columns.len() - i,
        {
            if i > 0 {
                w.text(", ", Ghost(self@));
            }
            let column = &columns[i];
            let ghost mid = self@;
            let part = self.visit_column(column);
            w.part(part.as_str(), Ghost(column_pieces(column@)), Ghost(mid), Ghost(self@));
            proof {
                let next = models.take(i as int + 1);
                assert(next.drop_last() =~= models.take(i as int));
                assert(next.last() == column@);
                assert(w.pieces@ =~= column_list_pieces(next));
            }
            i += 1;
        }
        assert(models.take(columns.len() as int) =~= models);
        w.finish()
    }

    /// Writes rows separated by `, `.
    pub fn visit_row_list(&mut self, rows: &Vec<Row>) -> (out: String)
        ensures
            out@ == sql_text(row_list_pieces(row_models(*rows))),
            final(self)@ == old(self)@ + parameters(row_list_pieces(row_models(*rows))),
    {
        let ghost models = row_models(*rows);
        let mut w = Writer::new(Ghost(self@));
        let mut i: usize = 0;
        while i < rows.len()
            invariant
                i <= rows.len(),
                models == row_models(*rows),
                w.holds(self@),
                w.before@ == old(self)@,
                w.pieces@ =~= row_list_pieces(models.take(i as int)),
            decreases rows.len() - i,
        {
            if i > 0 {
                w.text(", ", Ghost(self@));
            }
            let row = &rows[i];
            let ghost mid = self@;
            let part = self.visit_row(row);
            w.part(part.as_str(), Ghost(row_pieces(row@)), Ghost(mid), Ghost(self@));
            proof {
                let next = models.take(i as int + 1);
                assert(next.drop_last() =~= models.take(i as int));
                assert(next.last() == row@);
                assert(w.pieces@ =~= row_list_pieces(next));
            }
            i += 1;
        }
        assert(models.take(rows.len() as int) =~= models);
        w.finish()
    }

    /// Writes what an insert inserts: ` DEFAULT VALUES` where it has no rows,
    /// else its columns and its rows.
    pub fn visit_insert_values(&mut self, insert: &Insert) -> (out: String)
        ensures
            out@ == sql_text(insert_values_pieces(insert@)),
            final(self)@ == old(self)@ + parameters(insert_values_pieces(insert@)),
    {
        let mut w = Writer::new(Ghost(self@));
        if insert.values.len() == 0 {
            w.text(" DEFAULT VALUES", Ghost(self@));
        } else {
            w.text(" (", Ghost(self@));
            let ghost mid = self@;
            let part = self.visit_column_list(&insert.columns);
            w.part(part.as_str(), Ghost(column_list_pieces(insert@.columns)), Ghost(mid), Ghost(self@));
            w.text(") VALUES ", Ghost(self@));
            let ghost mid = self@;
            let part = self.visit_row_list(&insert.values);
            w.part(part.as_str(), Ghost(row_list_pieces(insert@.values)), Ghost(mid), Ghost(self@));
        }
        assert(w.pieces@ =~= insert_values_pieces(insert@));
        w.finish()
    }

    /// Writes an insert. SQLite has the conflict clause in the opening words:
    /// `INSERT OR IGNORE`. An insert without rows inserts a row of defaults,
    /// with or without a conflict clause.
    pub fn visit_insert(&mut self, insert: &Insert) -> (out: String)
        requires
            insert@.well_formed(),
        ensures
            out@ == sql_text(insert_pieces(insert@)),
            final(self)@ == old(self)@ + parameters(insert_pieces(insert@)),
    {
        let mut w = Writer::new(Ghost(self@));
        w.text(insert_str(insert.on_conflict), Ghost(self@));
        w.text(" INTO ", Ghost(self@));
        let ghost mid = self@;
        let part = self.visit_table(&insert.table, true);
        w.part(part.as_str(), Ghost(table_pieces(insert@.table, true)), Ghost(mid), Ghost(self@));
        let ghost mid = self@;
        let part = self.visit_insert_values(insert);
        w.part(part.as_str(), Ghost(insert_values_pieces(insert@)), Ghost(mid), Ghost(self@));
        assert(w.pieces@ =~= insert_pieces(insert@));
        w.finish()
    }

    /// Writes an assignment: the column, ` = `, the value.
    pub fn visit_assignment(&mut self, assignment: &Assignment) -> (out: String)
        ensures
            out@ == sql_text(assignment_pieces(assignment@)),
            final(self)@ == old(self)@ + parameters(assignment_pieces(assignment@)),
    {
        let mut w = Writer::new(Ghost(self@));
        let ghost mid = self@;
        let part = self.visit_column(&assignment.column);
        w.part(part.as_str(), Ghost(column_pieces(assignment@.column)), Ghost(mid), Ghost(self@));
        w.text(" = ", Ghost(self@));
        let ghost mid = self@;
        let part = self.visit_database_value(&assignment.value);
        w.part(part.as_str(), Ghost(value_pieces(assignment@.value)), Ghost(mid), Ghost(self@));
        assert(w.pieces@ =~= assignment_pieces(assignment@));
        w.finish()
    }

    /// Writes assignments separated by `, `.
    pub fn visit_assignment_list(&mut self, assignments: &Vec<Assignment>) -> (out: String)
        ensures
            out@ == sql_text(assignment_list_pieces(assignment_models(*assignments))),
            final(self)@ == old(self)@ + parameters(
                assignment_list_pieces(assignment_models(*assignments)),
            ),
    {
        let ghost models = assignment_models(*assignments);
        let mut w = Writer::new(Ghost(self@));
        let mut i: usize = 0;
        while i < assignments.len()
            invariant
                i <= assignments.len(),
                models == assignment_models(*assignments),
                w.holds(self@),
                w.before@ == old(self)@,
                w.pieces@ =~= assignment_list_pieces(models.take(i as int)),
            decreases assignments.len() - i,
        {
            if i > 0 {
                w.text(", ", Ghost(self@));
            }
            let assignment = &assignments[i];
            let ghost mid = self@;
            let part = self.visit_assignment(assignment);
            w.part(part.as_str(), Ghost(assignment_pieces(assignment@)), Ghost(mid), Ghost(self@));
            proof {
                let next = models.take(i as int + 1);
                assert(next.drop_last() =~= models.take(i as int));
                assert(next.last() == assignment@);
                assert(w.pieces@ =~= assignment_list_pieces(next));
            }
            i += 1;
        }
        assert(models.take(assignments.len() as int) =~= models);
        w.finish()
    }

    /// Writes an update.
    pub fn visit_update(&mut self, update: &Update) -> (out: String)
        ensures
            out@ == sql_text(update_pieces(update@)),
            final(self)@ == old(self)@ + parameters(update_pieces(update@)),
    {
        let mut w = Writer::new(Ghost(self@));
        w.text("UPDATE ", Ghost(self@));
        let ghost mid = self@;
        let part = self.visit_table(&update.table, true);
        w.part(part.as_str(), Ghost(table_pieces(update@.table, true)), Ghost(mid), Ghost(self@));
        w.text(" SET ", Ghost(self@));
        let ghost mid = self@;
        let part = self.visit_assignment_list(&update.assignments);
        w.part(part.as_str(), Ghost(assignment_list_pieces(update@.assignments)), Ghost(mid), Ghost(self@));
        let ghost mid = self@;
        let part = self.visit_clause(" WHERE ", &update.conditions);
        w.part(part.as_str(), Ghost(clause_pieces(" WHERE "@, update@.conditions)), Ghost(mid), Ghost(self@));
        assert(w.pieces@ =~= update_pieces(update@));
        w.finish()
    }

    /// Writes a delete.
    pub fn visit_delete(&mut self, delete: &Delete) -> (out: String)
        ensures
            out@ == sql_text(delete_pieces(delete@)),
            final(self)@ == old(self)@ + parameters(delete_pieces(delete@)),
    {
        let mut w = Writer::new(Ghost(self@));
        w.text("DELETE FROM ", Ghost(self@));
        let ghost mid = self@;
        let part = self.visit_table(&delete.table, true);
        w.part(part.as_str(), Ghost(table_pieces(delete@.table, true)), Ghost(mid), Ghost(self@));
        let ghost mid = self@;
        let part = self.visit_clause(" WHERE ", &delete.conditions);
        w.part(part.as_str(), Ghost(clause_pieces(" WHERE "@, delete@.conditions)), Ghost(mid), Ghost(self@));
        assert(w.pieces@ =~= delete_pieces(delete@));
        w.finish()
    }

    /// Writes a statement.
    pub fn visit_query(&mut self, query: &Query) -> (out: String)
        requires
            query@.well_formed(),
        ensures
            out@ == sql_text(query_pieces(query@)),
            final(self)@ == old(self)@ + parameters(query_pieces(query@)),
    {
        match query {
            Query::Select(select) => self.visit_select(select),
            Query::Insert(insert) => self.visit_insert(insert),
            Query::Update(update) => self.visit_update(update),
            Query::Delete(delete) => self.visit_delete(delete),
        }
    }
}

} // verus!
