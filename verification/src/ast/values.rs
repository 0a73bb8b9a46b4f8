//! Scalar parameters and the expressions that may stand in a statement.

use crate::ast::column::{Column, ColumnLike, ColumnModel};
use crate::ast::function::{Function, FunctionModel};
use crate::ast::row::{Row, RowModel};
use crate::ast::select::{Select, SelectModel};
use crate::ast::table::{Table, TableLike, TableModel};
use vstd::prelude::*;

verus! {

/// The mathematical value of a bound parameter.
pub enum Scalar {
    Null,
    Integer(int),
    /// A 64-bit IEEE 754 number, given by its bit pattern.
    Real(u64),
    Text(Seq<char>),
    Boolean(bool),
    /// A JSON document.
    Json(serde_json::Value),
}

/// A value that is handed to the database beside the SQL text, never inside
/// it. `Real` holds the bit pattern of a 64-bit IEEE 754 number.
#[derive(Debug, PartialEq)]
pub enum ParameterizedValue {
    Null,
    Integer(i64),
    Real(u64),
    Text(String),
    Boolean(bool),
    Json(serde_json::Value),
}

impl View for ParameterizedValue {
    type V = Scalar;

    open spec fn view(&self) -> Scalar {
        match self {
            ParameterizedValue::Null => Scalar::Null,
            ParameterizedValue::Integer(i) => Scalar::Integer(*i as int),
            ParameterizedValue::Real(bits) => Scalar::Real(*bits),
            ParameterizedValue::Text(t) => Scalar::Text(t@),
            ParameterizedValue::Boolean(b) => Scalar::Boolean(*b),
            ParameterizedValue::Json(document) => Scalar::Json(*document),
        }
    }
}

/// The views of a run of parameters, in order.
pub open spec fn scalars(values: Seq<ParameterizedValue>) -> Seq<Scalar> {
    Seq::new(values.len(), |i: int| values[i]@)
}

/// The view of an optional name.
pub open spec fn optional_name(name: Option<String>) -> Option<Seq<char>> {
    match name {
        Some(n) => Some(n@),
        None => None,
    }
}

/// The view of an optional parameter.
pub open spec fn optional_scalar(value: Option<ParameterizedValue>) -> Option<Scalar> {
    match value {
        Some(v) => Some(v@),
        None => None,
    }
}

/// A text in either form, borrowed or owned.
pub trait TextLike: Sized {
    /// The characters of the text.
    spec fn characters(&self) -> Seq<char>;

    /// The text as an owned string.
    fn into_text(self) -> (out: String)
        ensures
            out@ == self.characters(),
    ;
}

impl<'a> TextLike for &'a str {
    open spec fn characters(&self) -> Seq<char> {
        self@
    }

    fn into_text(self) -> (out: String) {
        self.to_owned()
    }
}

impl TextLike for String {
    open spec fn characters(&self) -> Seq<char> {
        self@
    }

    fn into_text(self) -> (out: String) {
        self
    }
}

/// Anything that can be bound as a parameter.
pub trait ScalarLike: Sized {
    /// The parameter that this stands for.
    spec fn scalar(&self) -> Scalar;

    /// The parameter itself.
    fn into_scalar(self) -> (out: ParameterizedValue)
        ensures
            out@ == self.scalar(),
    ;
}

impl ScalarLike for ParameterizedValue {
    open spec fn scalar(&self) -> Scalar {
        self@
    }

    fn into_scalar(self) -> (out: ParameterizedValue) {
        self
    }
}

impl ScalarLike for i64 {
    open spec fn scalar(&self) -> Scalar {
        Scalar::Integer(*self as int)
    }

    fn into_scalar(self) -> (out: ParameterizedValue) {
        ParameterizedValue::Integer(self)
    }
}

impl ScalarLike for i32 {
    open spec fn scalar(&self) -> Scalar {
        Scalar::Integer(*self as int)
    }

    fn into_scalar(self) -> (out: ParameterizedValue) {
        ParameterizedValue::Integer(self as i64)
    }
}

impl ScalarLike for i16 {
    open spec fn scalar(&self) -> Scalar {
        Scalar::Integer(*self as int)
    }

    fn into_scalar(self) -> (out: ParameterizedValue) {
        ParameterizedValue::Integer(self as i64)
    }
}

impl ScalarLike for i8 {
    open spec fn scalar(&self) -> Scalar {
        Scalar::Integer(*self as int)
    }

    fn into_scalar(self) -> (out: ParameterizedValue) {
        ParameterizedValue::Integer(self as i64)
    }
}

impl ScalarLike for isize {
    open spec fn scalar(&self) -> Scalar {
        Scalar::Integer(*self as int)
    }

    fn into_scalar(self) -> (out: ParameterizedValue) {
        ParameterizedValue::Integer(self as i64)
    }
}

impl ScalarLike for u32 {
    open spec fn scalar(&self) -> Scalar {
        Scalar::Integer(*self as int)
    }

    fn into_scalar(self) -> (out: ParameterizedValue) {
        ParameterizedValue::Integer(self as i64)
    }
}

impl ScalarLike for u16 {
    open spec fn scalar(&self) -> Scalar {
        Scalar::Integer(*self as int)
    }

    fn into_scalar(self) -> (out: ParameterizedValue) {
        ParameterizedValue::Integer(self as i64)
    }
}

impl ScalarLike for u8 {
    open spec fn scalar(&self) -> Scalar {
        Scalar::Integer(*self as int)
    }

    fn into_scalar(self) -> (out: ParameterizedValue) {
        ParameterizedValue::Integer(self as i64)
    }
}

impl ScalarLike for bool {
    open spec fn scalar(&self) -> Scalar {
        Scalar::Boolean(*self)
    }

    fn into_scalar(self) -> (out: ParameterizedValue) {
        ParameterizedValue::Boolean(self)
    }
}

impl<'a> ScalarLike for &'a str {
    open spec fn scalar(&self) -> Scalar {
        Scalar::Text(self@)
    }

    fn into_scalar(self) -> (out: ParameterizedValue) {
        ParameterizedValue::Text(self.to_owned())
    }
}

impl ScalarLike for serde_json::Value {
    open spec fn scalar(&self) -> Scalar {
        Scalar::Json(*self)
    }

    fn into_scalar(self) -> (out: ParameterizedValue) {
        ParameterizedValue::Json(self)
    }
}

impl ScalarLike for String {
    open spec fn scalar(&self) -> Scalar {
        Scalar::Text(self@)
    }

    fn into_scalar(self) -> (out: ParameterizedValue) {
        ParameterizedValue::Text(self)
    }
}

impl ParameterizedValue {
    /// The parameter that a plain value stands for.
    pub fn from<S: ScalarLike>(value: S) -> (out: ParameterizedValue)
        ensures
            out@ == value.scalar(),
    {
        value.into_scalar()
    }

    /// The integer parameter of an unsigned number, where the number is
    /// within the 64-bit signed integers that a parameter holds.
    pub fn from_unsigned(value: u64) -> (out: Option<ParameterizedValue>)
        ensures
            value <= i64::MAX ==> out is Some && out->0@ == Scalar::Integer(value as int),
            value > i64::MAX ==> out is None,
    {
        if value <= i64::MAX as u64 {
            Some(ParameterizedValue::Integer(value as i64))
        } else {
            None
        }
    }

    /// A copy with the same view.
    pub fn duplicate(&self) -> (out: ParameterizedValue)
        ensures
            out@ == self@,
    {
        match self {
            ParameterizedValue::Null => ParameterizedValue::Null,
            ParameterizedValue::Integer(i) => ParameterizedValue::Integer(*i),
            ParameterizedValue::Real(bits) => ParameterizedValue::Real(*bits),
            ParameterizedValue::Text(t) => ParameterizedValue::Text(t.clone()),
            ParameterizedValue::Boolean(b) => ParameterizedValue::Boolean(*b),
            ParameterizedValue::Json(document) => ParameterizedValue::Json(document.clone()),
        }
    }
}

/// The operator of an arithmetic expression.
#[derive(Clone, Copy, Debug, PartialEq, Eq)]
pub enum ArithmeticOp {
    Plus,
    Minus,
    Times,
    Divide,
}

/// Anything that can stand where SQL expects an expression.
#[derive(Debug, PartialEq)]
pub enum DatabaseValue {
    /// A scalar, sent as a parameter.
    Parameterized(ParameterizedValue),
    /// A column reference, possibly qualified.
    Column(Box<Column>),
    /// A parenthesised tuple of values.
    Row(Row),
    /// A scalar subquery.
    Select(Box<Select>),
    /// A function call.
    Function(Function),
    /// `*`, or every column of one table.
    Asterisk(Option<Table>),
    /// Two operands and the operator between them.
    Arithmetic(Box<DatabaseValue>, ArithmeticOp, Box<DatabaseValue>),
    /// SQL text that is emitted as it stands. Nothing is quoted or
    /// parameterised in it: it must never hold data from outside.
    Raw(String),
}

/// The mathematical value of a value: texts as their characters, lists as
/// sequences.
pub enum DatabaseValueModel {
    Parameterized(Scalar),
    Column(Box<ColumnModel>),
    Row(RowModel),
    Select(Box<SelectModel>),
    Function(FunctionModel),
    Asterisk(Option<TableModel>),
    Arithmetic(Box<DatabaseValueModel>, ArithmeticOp, Box<DatabaseValueModel>),
    Raw(Seq<char>),
}

impl DatabaseValue {
    /// The mathematical value.
    pub open spec fn model(&self) -> DatabaseValueModel
        decreases self,
    {
        match self {
            DatabaseValue::Parameterized(v) => DatabaseValueModel::Parameterized(v@),
            DatabaseValue::Column(c) => DatabaseValueModel::Column(Box::new(c.model())),
            DatabaseValue::Row(r) => DatabaseValueModel::Row(r.model()),
            DatabaseValue::Select(s) => DatabaseValueModel::Select(Box::new(s.model())),
            DatabaseValue::Function(f) => DatabaseValueModel::Function(f.model()),
            DatabaseValue::Asterisk(t) => DatabaseValueModel::Asterisk(
                match t {
                    Some(t) => Some(t.model()),
                    None => None,
                },
            ),
            DatabaseValue::Arithmetic(l, op, r) => DatabaseValueModel::Arithmetic(
                Box::new(l.model()),
                *op,
                Box::new(r.model()),
            ),
            DatabaseValue::Raw(t) => DatabaseValueModel::Raw(t@),
        }
    }
}

impl DatabaseValue {
    /// A copy with the same view.
    pub fn duplicate(&self) -> (out: DatabaseValue)
        ensures
            out@ == self@,
        decreases self,
    {
        match self {
            DatabaseValue::Parameterized(v) => DatabaseValue::Parameterized(v.duplicate()),
            DatabaseValue::Column(c) => DatabaseValue::Column(Box::new(c.duplicate())),
            DatabaseValue::Row(r) => DatabaseValue::Row(r.duplicate()),
            DatabaseValue::Select(s) => DatabaseValue::Select(Box::new(s.duplicate())),
            DatabaseValue::Function(f) => DatabaseValue::Function(f.duplicate()),
            DatabaseValue::Asterisk(t) => DatabaseValue::Asterisk(
                match t {
                    Some(t) => Some(t.duplicate()),
                    None => None,
                },
            ),
            DatabaseValue::Arithmetic(l, op, r) => DatabaseValue::Arithmetic(
                Box::new(l.duplicate()),
                *op,
                Box::new(r.duplicate()),
            ),
            DatabaseValue::Raw(t) => DatabaseValue::Raw(t.clone()),
        }
    }
}

impl Clone for DatabaseValue {
    fn clone(&self) -> (out: DatabaseValue)
        ensures
            out@ == self@,
    {
        self.duplicate()
    }
}

impl Clone for ParameterizedValue {
    fn clone(&self) -> (out: ParameterizedValue)
        ensures
            out@ == self@,
    {
        self.duplicate()
    }
}

/// A copy of each value, in order.
pub fn duplicate_values(items: &Vec<DatabaseValue>) -> (out: Vec<DatabaseValue>)
    ensures
        value_models(out) == value_models(*items),
    decreases items,
{
    let mut out: Vec<DatabaseValue> = Vec::new();
    let mut i: usize = 0;
    while i < items.len()
        invariant
            i <= items.len(),
            out.len() == i,
            forall|k: int| 0 <= k < i ==> out[k]@ == items[k]@,
        decreases items.len() - i,
    {
        out.push(items[i].duplicate());
        i += 1;
    }
    assert(value_models(out) =~= value_models(*items));
    out
}

/// A copy of a name that may be absent.
pub fn duplicate_name(name: &Option<String>) -> (out: Option<String>)
    ensures
        out == *name,
{
    match name {
        Some(n) => Some(n.clone()),
        None => None,
    }
}

impl View for DatabaseValue {
    type V = DatabaseValueModel;

    open spec fn view(&self) -> DatabaseValueModel {
        self.model()
    }
}

/// Anything that can stand where SQL expects an expression.
pub trait ValueLike: Sized {
    /// The expression that this stands for.
    spec fn value_model(&self) -> DatabaseValueModel;

    /// The expression itself.
    fn into_value(self) -> (out: DatabaseValue)
        ensures
            out@ == self.value_model(),
    ;
}

impl<S: ScalarLike> ValueLike for S {
    open spec fn value_model(&self) -> DatabaseValueModel {
        DatabaseValueModel::Parameterized(self.scalar())
    }

    fn into_value(self) -> (out: DatabaseValue) {
        DatabaseValue::Parameterized(self.into_scalar())
    }
}

impl ValueLike for DatabaseValue {
    open spec fn value_model(&self) -> DatabaseValueModel {
        self@
    }

    fn into_value(self) -> (out: DatabaseValue) {
        self
    }
}

impl ValueLike for Column {
    open spec fn value_model(&self) -> DatabaseValueModel {
        DatabaseValueModel::Column(Box::new(self@))
    }

    fn into_value(self) -> (out: DatabaseValue) {
        DatabaseValue::Column(Box::new(self))
    }
}

impl ValueLike for Row {
    open spec fn value_model(&self) -> DatabaseValueModel {
        DatabaseValueModel::Row(self@)
    }

    fn into_value(self) -> (out: DatabaseValue) {
        DatabaseValue::Row(self)
    }
}

impl ValueLike for Select {
    open spec fn value_model(&self) -> DatabaseValueModel {
        DatabaseValueModel::Select(Box::new(self@))
    }

    fn into_value(self) -> (out: DatabaseValue) {
        DatabaseValue::Select(Box::new(self))
    }
}

impl ValueLike for Function {
    open spec fn value_model(&self) -> DatabaseValueModel {
        DatabaseValueModel::Function(self@)
    }

    fn into_value(self) -> (out: DatabaseValue) {
        DatabaseValue::Function(self)
    }
}

/// A table and a column of it: the qualified column.
impl<T: TableLike, C: ColumnLike> ValueLike for (T, C) {
    open spec fn value_model(&self) -> DatabaseValueModel {
        DatabaseValueModel::Column(Box::new(self.column_model()))
    }

    fn into_value(self) -> (out: DatabaseValue) {
        DatabaseValue::Column(Box::new(self.into_column()))
    }
}

impl DatabaseValue {
    /// The expression that a plain value, a column, a row, a select or a
    /// function stands for.
    pub fn from<V: ValueLike>(value: V) -> (out: DatabaseValue)
        ensures
            out@ == value.value_model(),
    {
        value.into_value()
    }

    /// SQL text that is written as it stands.
    pub fn raw<S: TextLike>(sql: S) -> (out: DatabaseValue)
        ensures
            out@ == DatabaseValueModel::Raw(sql.characters()),
    {
        DatabaseValue::Raw(sql.into_text())
    }

    /// `(self + other)`
    pub fn plus<V: ValueLike>(self, other: V) -> (out: DatabaseValue)
        ensures
            out@ == DatabaseValueModel::Arithmetic(
                Box::new(self@),
                ArithmeticOp::Plus,
                Box::new(other.value_model()),
            ),
    {
        DatabaseValue::Arithmetic(Box::new(self), ArithmeticOp::Plus, Box::new(other.into_value()))
    }

    /// `(self - other)`
    pub fn minus<V: ValueLike>(self, other: V) -> (out: DatabaseValue)
        ensures
            out@ == DatabaseValueModel::Arithmetic(
                Box::new(self@),
                ArithmeticOp::Minus,
                Box::new(other.value_model()),
            ),
    {
        DatabaseValue::Arithmetic(Box::new(self), ArithmeticOp::Minus, Box::new(other.into_value()))
    }

    /// `(self * other)`
    pub fn times<V: ValueLike>(self, other: V) -> (out: DatabaseValue)
        ensures
            out@ == DatabaseValueModel::Arithmetic(
                Box::new(self@),
                ArithmeticOp::Times,
                Box::new(other.value_model()),
            ),
    {
        DatabaseValue::Arithmetic(Box::new(self), ArithmeticOp::Times, Box::new(other.into_value()))
    }

    /// `(self / other)`
    pub fn divide<V: ValueLike>(self, other: V) -> (out: DatabaseValue)
        ensures
            out@ == DatabaseValueModel::Arithmetic(
                Box::new(self@),
                ArithmeticOp::Divide,
                Box::new(other.value_model()),
            ),
    {
        DatabaseValue::Arithmetic(
            Box::new(self),
            ArithmeticOp::Divide,
            Box::new(other.into_value()),
        )
    }
}

/// `*`: every column of every table of the select.
pub fn asterisk() -> (out: DatabaseValue)
    ensures
        out@ == DatabaseValueModel::Asterisk(None),
{
    DatabaseValue::Asterisk(None)
}

/// The models of a run of values, in order.
pub open spec fn value_models(values: Vec<DatabaseValue>) -> Seq<DatabaseValueModel>
    decreases values,
{
    Seq::new(
        values.len() as nat,
        |i: int|
            if 0 <= i < values.len() {
                values[i].model()
            } else {
                arbitrary()
            },
    )
}

} // verus!
