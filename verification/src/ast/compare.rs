//! Comparisons between values.

use crate::ast::column::ColumnLike;
use crate::ast::conditions::{ConditionTree, ConditionTreeModel};
use crate::ast::values::{
    DatabaseValue, DatabaseValueModel, ParameterizedValue, Scalar, TextLike, ValueLike,
};
use vstd::prelude::*;

verus! {

/// One comparison. The operands are written in the order of the fields.
#[derive(Debug, PartialEq)]
pub enum Compare {
    /// `left = right`
    Equals(Box<DatabaseValue>, Box<DatabaseValue>),
    /// `left <> right`
    NotEquals(Box<DatabaseValue>, Box<DatabaseValue>),
    /// `left < right`
    LessThan(Box<DatabaseValue>, Box<DatabaseValue>),
    /// `left <= right`
    LessThanOrEquals(Box<DatabaseValue>, Box<DatabaseValue>),
    /// `left > right`
    GreaterThan(Box<DatabaseValue>, Box<DatabaseValue>),
    /// `left >= right`
    GreaterThanOrEquals(Box<DatabaseValue>, Box<DatabaseValue>),
    /// `left LIKE pattern`; the pattern holds its wildcards already.
    Like(Box<DatabaseValue>, Box<DatabaseValue>),
    /// `left NOT LIKE pattern`; the pattern holds its wildcards already.
    NotLike(Box<DatabaseValue>, Box<DatabaseValue>),
    /// `left IN right`
    In(Box<DatabaseValue>, Box<DatabaseValue>),
    /// `left NOT IN right`
    NotIn(Box<DatabaseValue>, Box<DatabaseValue>),
    /// `value IS NULL`
    Null(Box<DatabaseValue>),
    /// `value IS NOT NULL`
    NotNull(Box<DatabaseValue>),
    /// `value BETWEEN low AND high`
    Between(Box<DatabaseValue>, Box<DatabaseValue>, Box<DatabaseValue>),
    /// `value NOT BETWEEN low AND high`
    NotBetween(Box<DatabaseValue>, Box<DatabaseValue>, Box<DatabaseValue>),
}

/// The mathematical value of a comparison: texts as their characters, lists as
/// sequences.
pub enum CompareModel {
    Equals(Box<DatabaseValueModel>, Box<DatabaseValueModel>),
    NotEquals(Box<DatabaseValueModel>, Box<DatabaseValueModel>),
    LessThan(Box<DatabaseValueModel>, Box<DatabaseValueModel>),
    LessThanOrEquals(Box<DatabaseValueModel>, Box<DatabaseValueModel>),
    GreaterThan(Box<DatabaseValueModel>, Box<DatabaseValueModel>),
    GreaterThanOrEquals(Box<DatabaseValueModel>, Box<DatabaseValueModel>),
    Like(Box<DatabaseValueModel>, Box<DatabaseValueModel>),
    NotLike(Box<DatabaseValueModel>, Box<DatabaseValueModel>),
    In(Box<DatabaseValueModel>, Box<DatabaseValueModel>),
    NotIn(Box<DatabaseValueModel>, Box<DatabaseValueModel>),
    Null(Box<DatabaseValueModel>),
    NotNull(Box<DatabaseValueModel>),
    Between(Box<DatabaseValueModel>, Box<DatabaseValueModel>, Box<DatabaseValueModel>),
    NotBetween(Box<DatabaseValueModel>, Box<DatabaseValueModel>, Box<DatabaseValueModel>),
}

impl Compare {
    /// The mathematical value.
    pub open spec fn model(&self) -> CompareModel
        decreases self,
    {
        match self {
            Compare::Equals(l, r) => CompareModel::Equals(
                Box::new(l.model()),
                Box::new(r.model()),
            ),
            Compare::NotEquals(l, r) => CompareModel::NotEquals(
                Box::new(l.model()),
                Box::new(r.model()),
            ),
            Compare::LessThan(l, r) => CompareModel::LessThan(
                Box::new(l.model()),
                Box::new(r.model()),
            ),
            Compare::LessThanOrEquals(l, r) => CompareModel::LessThanOrEquals(
                Box::new(l.model()),
                Box::new(r.model()),
            ),
            Compare::GreaterThan(l, r) => CompareModel::GreaterThan(
                Box::new(l.model()),
                Box::new(r.model()),
            ),
            Compare::GreaterThanOrEquals(l, r) => CompareModel::GreaterThanOrEquals(
                Box::new(l.model()),
                Box::new(r.model()),
            ),
            Compare::Like(l, r) => CompareModel::Like(Box::new(l.model()), Box::new(r.model())),
            Compare::NotLike(l, r) => CompareModel::NotLike(
                Box::new(l.model()),
                Box::new(r.model()),
            ),
            Compare::In(l, r) => CompareModel::In(Box::new(l.model()), Box::new(r.model())),
            Compare::NotIn(l, r) => CompareModel::NotIn(Box::new(l.model()), Box::new(r.model())),
            Compare::Null(v) => CompareModel::Null(Box::new(v.model())),
            Compare::NotNull(v) => CompareModel::NotNull(Box::new(v.model())),
            Compare::Between(v, lo, hi) => CompareModel::Between(
                Box::new(v.model()),
                Box::new(lo.model()),
                Box::new(hi.model()),
            ),
            Compare::NotBetween(v, lo, hi) => CompareModel::NotBetween(
                Box::new(v.model()),
                Box::new(lo.model()),
                Box::new(hi.model()),
            ),
        }
    }
}

impl Clone for Compare {
    fn clone(&self) -> (out: Compare)
        ensures
            out@ == self@,
    {
        self.duplicate()
    }
}

impl Compare {
    /// A copy with the same view.
    pub fn duplicate(&self) -> (out: Compare)
        ensures
            out@ == self@,
        decreases self,
    {
        match self {
            Compare::Equals(l, r) => Compare::Equals(Box::new(l.duplicate()), Box::new(r.duplicate())),
            Compare::NotEquals(l, r) => Compare::NotEquals(Box::new(l.duplicate()), Box::new(r.duplicate())),
            Compare::LessThan(l, r) => Compare::LessThan(Box::new(l.duplicate()), Box::new(r.duplicate())),
            Compare::LessThanOrEquals(l, r) => Compare::LessThanOrEquals(Box::new(l.duplicate()), Box::new(r.duplicate())),
            Compare::GreaterThan(l, r) => Compare::GreaterThan(Box::new(l.duplicate()), Box::new(r.duplicate())),
            Compare::GreaterThanOrEquals(l, r) => Compare::GreaterThanOrEquals(Box::new(l.duplicate()), Box::new(r.duplicate())),
            Compare::Like(l, r) => Compare::Like(Box::new(l.duplicate()), Box::new(r.duplicate())),
            Compare::NotLike(l, r) => Compare::NotLike(Box::new(l.duplicate()), Box::new(r.duplicate())),
            Compare::In(l, r) => Compare::In(Box::new(l.duplicate()), Box::new(r.duplicate())),
            Compare::NotIn(l, r) => Compare::NotIn(Box::new(l.duplicate()), Box::new(r.duplicate())),
            Compare::Null(v) => Compare::Null(Box::new(v.duplicate())),
            Compare::NotNull(v) => Compare::NotNull(Box::new(v.duplicate())),
            Compare::Between(v, lo, hi) => Compare::Between(
                Box::new(v.duplicate()),
                Box::new(lo.duplicate()),
                Box::new(hi.duplicate()),
            ),
            Compare::NotBetween(v, lo, hi) => Compare::NotBetween(
                Box::new(v.duplicate()),
                Box::new(lo.duplicate()),
                Box::new(hi.duplicate()),
            ),
        }
    }
}

/// The character that stands for any run of characters in a pattern.
pub const C_WILDCARD: char = '%';

/// The character that stands for any run of characters in a pattern.
pub open spec fn wildcard_char() -> char {
    C_WILDCARD
}

/// The pattern that matches what holds the text anywhere.
pub open spec fn contains_pattern(t: Seq<char>) -> Seq<char> {
    seq![wildcard_char()] + t + seq![wildcard_char()]
}

/// The pattern that matches what begins with the text.
pub open spec fn prefix_pattern(t: Seq<char>) -> Seq<char> {
    t + seq![wildcard_char()]
}

/// The pattern that matches what ends with the text.
pub open spec fn suffix_pattern(t: Seq<char>) -> Seq<char> {
    seq![wildcard_char()] + t
}

/// A pattern as the right operand of a comparison: a text parameter.
pub open spec fn pattern_model(pattern: Seq<char>) -> DatabaseValueModel {
    DatabaseValueModel::Parameterized(Scalar::Text(pattern))
}

/// The condition that holds one comparison.
pub open spec fn single(c: CompareModel) -> ConditionTreeModel {
    ConditionTreeModel::Single(Box::new(c))
}

/// The pattern that matches what holds the text anywhere.
pub fn contains_of(t: &str) -> (out: String)
    ensures
        out@ == contains_pattern(t@),
{
    let mut out = String::new();
    out.push(C_WILDCARD);
    out.append(t);
    out.push(C_WILDCARD);
    assert(out@ =~= contains_pattern(t@));
    out
}

/// The pattern that matches what begins with the text.
pub fn prefix_of(t: &str) -> (out: String)
    ensures
        out@ == prefix_pattern(t@),
{
    let mut out = t.to_owned();
    out.push(C_WILDCARD);
    assert(out@ =~= prefix_pattern(t@));
    out
}

/// The pattern that matches what ends with the text.
pub fn suffix_of(t: &str) -> (out: String)
    ensures
        out@ == suffix_pattern(t@),
{
    let mut out = String::new();
    out.push(C_WILDCARD);
    out.append(t);
    assert(out@ =~= suffix_pattern(t@));
    out
}

/// A pattern as the right operand of a comparison.
pub fn pattern_value(pattern: String) -> (out: DatabaseValue)
    ensures
        out@ == pattern_model(pattern@),
{
    DatabaseValue::Parameterized(ParameterizedValue::Text(pattern))
}

/// The comparisons of a column with something else. Each gives the condition
/// that holds this one comparison.
pub trait Comparable: Sized {
    /// The left operand: the column.
    spec fn subject(&self) -> DatabaseValueModel;

    /// `self = comparison`
    fn equals<V: ValueLike>(self, comparison: V) -> (out: ConditionTree)
        ensures
            out@ == single(
                CompareModel::Equals(Box::new(self.subject()), Box::new(comparison.value_model())),
            ),
    ;

    /// `self <> comparison`
    fn not_equals<V: ValueLike>(self, comparison: V) -> (out: ConditionTree)
        ensures
            out@ == single(
                CompareModel::NotEquals(Box::new(self.subject()), Box::new(comparison.value_model())),
            ),
    ;

    /// `self < comparison`
    fn less_than<V: ValueLike>(self, comparison: V) -> (out: ConditionTree)
        ensures
            out@ == single(
                CompareModel::LessThan(Box::new(self.subject()), Box::new(comparison.value_model())),
            ),
    ;

    /// `self <= comparison`
    fn less_than_or_equals<V: ValueLike>(self, comparison: V) -> (out: ConditionTree)
        ensures
            out@ == single(
                CompareModel::LessThanOrEquals(Box::new(self.subject()), Box::new(comparison.value_model())),
            ),
    ;

    /// `self > comparison`
    fn greater_than<V: ValueLike>(self, comparison: V) -> (out: ConditionTree)
        ensures
            out@ == single(
                CompareModel::GreaterThan(Box::new(self.subject()), Box::new(comparison.value_model())),
            ),
    ;

    /// `self >= comparison`
    fn greater_than_or_equals<V: ValueLike>(self, comparison: V) -> (out: ConditionTree)
        ensures
            out@ == single(
                CompareModel::GreaterThanOrEquals(Box::new(self.subject()), Box::new(comparison.value_model())),
            ),
    ;

    /// `self IN selection`: the selection is a row of values or a select
    fn in_selection<V: ValueLike>(self, selection: V) -> (out: ConditionTree)
        ensures
            out@ == single(
                CompareModel::In(Box::new(self.subject()), Box::new(selection.value_model())),
            ),
    ;

    /// `self NOT IN selection`: the selection is a row of values or a select
    fn not_in_selection<V: ValueLike>(self, selection: V) -> (out: ConditionTree)
        ensures
            out@ == single(
                CompareModel::NotIn(Box::new(self.subject()), Box::new(selection.value_model())),
            ),
    ;

    /// `self LIKE '%pattern%'`: the pattern stands anywhere in the value.
    /// The pattern is sent as a parameter, with the wildcards in it.
    fn like<S: TextLike>(self, pattern: S) -> (out: ConditionTree)
        ensures
            out@ == single(
                CompareModel::Like(
                    Box::new(self.subject()),
                    Box::new(pattern_model(contains_pattern(pattern.characters()))),
                ),
            ),
    ;

    /// `self NOT LIKE '%pattern%'`: the pattern stands nowhere in the value.
    /// The pattern is sent as a parameter, with the wildcards in it.
    fn not_like<S: TextLike>(self, pattern: S) -> (out: ConditionTree)
        ensures
            out@ == single(
                CompareModel::NotLike(
                    Box::new(self.subject()),
                    Box::new(pattern_model(contains_pattern(pattern.characters()))),
                ),
            ),
    ;

    /// `self LIKE 'pattern%'`: the value begins with the pattern.
    /// The pattern is sent as a parameter, with the wildcards in it.
    fn begins_with<S: TextLike>(self, pattern: S) -> (out: ConditionTree)
        ensures
            out@ == single(
                CompareModel::Like(
                    Box::new(self.subject()),
                    Box::new(pattern_model(prefix_pattern(pattern.characters()))),
                ),
            ),
    ;

    /// `self NOT LIKE 'pattern%'`: the value does not begin with the pattern.
    /// The pattern is sent as a parameter, with the wildcards in it.
    fn not_begins_with<S: TextLike>(self, pattern: S) -> (out: ConditionTree)
        ensures
            out@ == single(
                CompareModel::NotLike(
                    Box::new(self.subject()),
                    Box::new(pattern_model(prefix_pattern(pattern.characters()))),
                ),
            ),
    ;

    /// `self LIKE '%pattern'`: the value ends with the pattern.
    /// The pattern is sent as a parameter, with the wildcards in it.
    fn ends_into<S: TextLike>(self, pattern: S) -> (out: ConditionTree)
        ensures
            out@ == single(
                CompareModel::Like(
                    Box::new(self.subject()),
                    Box::new(pattern_model(suffix_pattern(pattern.characters()))),
                ),
            ),
    ;

    /// `self NOT LIKE '%pattern'`: the value does not end with the pattern.
    /// The pattern is sent as a parameter, with the wildcards in it.
    fn not_ends_into<S: TextLike>(self, pattern: S) -> (out: ConditionTree)
        ensures
            out@ == single(
                CompareModel::NotLike(
                    Box::new(self.subject()),
                    Box::new(pattern_model(suffix_pattern(pattern.characters()))),
                ),
            ),
    ;

    /// `self IS NULL`
    fn is_null(self) -> (out: ConditionTree)
        ensures
            out@ == single(CompareModel::Null(Box::new(self.subject()))),
    ;

    /// `self IS NOT NULL`
    fn is_not_null(self) -> (out: ConditionTree)
        ensures
            out@ == single(CompareModel::NotNull(Box::new(self.subject()))),
    ;

    /// `self BETWEEN low AND high`
    fn between<L: ValueLike, H: ValueLike>(self, low: L, high: H) -> (out: ConditionTree)
        ensures
            out@ == single(
                CompareModel::Between(
                    Box::new(self.subject()),
                    Box::new(low.value_model()),
                    Box::new(high.value_model()),
                ),
            ),
    ;

    /// `self NOT BETWEEN low AND high`
    fn not_between<L: ValueLike, H: ValueLike>(self, low: L, high: H) -> (out: ConditionTree)
        ensures
            out@ == single(
                CompareModel::NotBetween(
                    Box::new(self.subject()),
                    Box::new(low.value_model()),
                    Box::new(high.value_model()),
                ),
            ),
    ;
}

impl<C: ColumnLike> Comparable for C {
    open spec fn subject(&self) -> DatabaseValueModel {
        DatabaseValueModel::Column(Box::new(self.column_model()))
    }

    fn equals<V: ValueLike>(self, comparison: V) -> (out: ConditionTree) {
        let left = self.into_column().into_value();
        let right = comparison.into_value();
        ConditionTree::single(Compare::Equals(Box::new(left), Box::new(right)))
    }

    fn not_equals<V: ValueLike>(self, comparison: V) -> (out: ConditionTree) {
        let left = self.into_column().into_value();
        let right = comparison.into_value();
        ConditionTree::single(Compare::NotEquals(Box::new(left), Box::new(right)))
    }

    fn less_than<V: ValueLike>(self, comparison: V) -> (out: ConditionTree) {
        let left = self.into_column().into_value();
        let right = comparison.into_value();
        ConditionTree::single(Compare::LessThan(Box::new(left), Box::new(right)))
    }

    fn less_than_or_equals<V: ValueLike>(self, comparison: V) -> (out: ConditionTree) {
        let left = self.into_column().into_value();
        let right = comparison.into_value();
        ConditionTree::single(Compare::LessThanOrEquals(Box::new(left), Box::new(right)))
    }

    fn greater_than<V: ValueLike>(self, comparison: V) -> (out: ConditionTree) {
        let left = self.into_column().into_value();
        let right = comparison.into_value();
        ConditionTree::single(Compare::GreaterThan(Box::new(left), Box::new(right)))
    }

    fn greater_than_or_equals<V: ValueLike>(self, comparison: V) -> (out: ConditionTree) {
        let left = self.into_column().into_value();
        let right = comparison.into_value();
        ConditionTree::single(Compare::GreaterThanOrEquals(Box::new(left), Box::new(right)))
    }

    fn in_selection<V: ValueLike>(self, selection: V) -> (out: ConditionTree) {
        let left = self.into_column().into_value();
        let right = selection.into_value();
        ConditionTree::single(Compare::In(Box::new(left), Box::new(right)))
    }

    fn not_in_selection<V: ValueLike>(self, selection: V) -> (out: ConditionTree) {
        let left = self.into_column().into_value();
        let right = selection.into_value();
        ConditionTree::single(Compare::NotIn(Box::new(left), Box::new(right)))
    }

    fn like<S: TextLike>(self, pattern: S) -> (out: ConditionTree) {
        let left = self.into_column().into_value();
        let right = pattern_value(contains_of(pattern.into_text().as_str()));
        ConditionTree::single(Compare::Like(Box::new(left), Box::new(right)))
    }

    fn not_like<S: TextLike>(self, pattern: S) -> (out: ConditionTree) {
        let left = self.into_column().into_value();
        let right = pattern_value(contains_of(pattern.into_text().as_str()));
        ConditionTree::single(Compare::NotLike(Box::new(left), Box::new(right)))
    }

    fn begins_with<S: TextLike>(self, pattern: S) -> (out: ConditionTree) {
        let left = self.into_column().into_value();
        let right = pattern_value(prefix_of(pattern.into_text().as_str()));
        ConditionTree::single(Compare::Like(Box::new(left), Box::new(right)))
    }

    fn not_begins_with<S: TextLike>(self, pattern: S) -> (out: ConditionTree) {
        let left = self.into_column().into_value();
        let right = pattern_value(prefix_of(pattern.into_text().as_str()));
        ConditionTree::single(Compare::NotLike(Box::new(left), Box::new(right)))
    }

    fn ends_into<S: TextLike>(self, pattern: S) -> (out: ConditionTree) {
        let left = self.into_column().into_value();
        let right = pattern_value(suffix_of(pattern.into_text().as_str()));
        ConditionTree::single(Compare::Like(Box::new(left), Box::new(right)))
    }

    fn not_ends_into<S: TextLike>(self, pattern: S) -> (out: ConditionTree) {
        let left = self.into_column().into_value();
        let right = pattern_value(suffix_of(pattern.into_text().as_str()));
        ConditionTree::single(Compare::NotLike(Box::new(left), Box::new(right)))
    }

    fn is_null(self) -> (out: ConditionTree) {
        let left = self.into_column().into_value();
        ConditionTree::single(Compare::Null(Box::new(left)))
    }

    fn is_not_null(self) -> (out: ConditionTree) {
        let left = self.into_column().into_value();
        ConditionTree::single(Compare::NotNull(Box::new(left)))
    }

    fn between<L: ValueLike, H: ValueLike>(self, low: L, high: H) -> (out: ConditionTree) {
        let left = self.into_column().into_value();
        let lower = low.into_value();
        let upper = high.into_value();
        ConditionTree::single(Compare::Between(Box::new(left), Box::new(lower), Box::new(upper)))
    }

    fn not_between<L: ValueLike, H: ValueLike>(self, low: L, high: H) -> (out: ConditionTree) {
        let left = self.into_column().into_value();
        let lower = low.into_value();
        let upper = high.into_value();
        ConditionTree::single(Compare::NotBetween(Box::new(left), Box::new(lower), Box::new(upper)))
    }
}

impl View for Compare {
    type V = CompareModel;

    open spec fn view(&self) -> CompareModel {
        self.model()
    }
}

} // verus!
