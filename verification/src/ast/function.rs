//! Function calls.

use crate::ast::values::{
    duplicate_name, duplicate_values, optional_name, value_models, DatabaseValue,
    DatabaseValueModel, TextLike, ValueLike,
};
use vstd::prelude::*;

verus! {

/// The function that is called, with its arguments.
#[derive(Debug, PartialEq)]
pub enum FunctionType {
    /// The number of rows, or of rows in which the arguments are not null.
    /// Without arguments it counts every row.
    Count(Vec<DatabaseValue>),
    /// The values of a group, joined into one string.
    AggregateToString(Box<DatabaseValue>),
}

/// The mathematical value of a called function: texts as their characters, lists as
/// sequences.
pub enum FunctionTypeModel {
    Count(Seq<DatabaseValueModel>),
    AggregateToString(Box<DatabaseValueModel>),
}

/// A function call, with the alias it has in a projection.
#[derive(Debug, PartialEq)]
pub struct Function {
    pub typ: FunctionType,
    pub alias: Option<String>,
}

/// The mathematical value of a function call: texts as their characters, lists as
/// sequences.
pub struct FunctionModel {
    pub typ: FunctionTypeModel,
    pub alias: Option<Seq<char>>,
}

impl Function {
    /// The mathematical value.
    pub open spec fn model(&self) -> FunctionModel
        decreases self,
    {
        FunctionModel {
            typ: match self.typ {
                FunctionType::Count(args) => FunctionTypeModel::Count(value_models(args)),
                FunctionType::AggregateToString(value) => FunctionTypeModel::AggregateToString(
                    Box::new(value.model()),
                ),
            },
            alias: optional_name(self.alias),
        }
    }
}

impl Clone for FunctionType {
    fn clone(&self) -> (out: FunctionType)
        ensures
            out.is_copy_of(*self),
    {
        match self {
            FunctionType::Count(args) => FunctionType::Count(duplicate_values(args)),
            FunctionType::AggregateToString(value) => FunctionType::AggregateToString(
                Box::new(value.duplicate()),
            ),
        }
    }
}

impl FunctionType {
    /// Whether the two are the same function of arguments with the same
    /// views.
    pub open spec fn is_copy_of(self, other: FunctionType) -> bool {
        match (self, other) {
            (FunctionType::Count(a), FunctionType::Count(b)) => value_models(a) == value_models(b),
            (FunctionType::AggregateToString(a), FunctionType::AggregateToString(b)) => a@ == b@,
            _ => false,
        }
    }
}

impl Clone for Function {
    fn clone(&self) -> (out: Function)
        ensures
            out@ == self@,
    {
        self.duplicate()
    }
}

impl Function {
    /// A copy with the same view.
    pub fn duplicate(&self) -> (out: Function)
        ensures
            out@ == self@,
        decreases self,
    {
        Function {
            typ: match &self.typ {
                FunctionType::Count(args) => FunctionType::Count(duplicate_values(args)),
                FunctionType::AggregateToString(value) => FunctionType::AggregateToString(
                    Box::new(value.duplicate()),
                ),
            },
            alias: duplicate_name(&self.alias),
        }
    }

    /// Give the function an alias in the query.
    pub fn alias<S: TextLike>(self, alias: S) -> (out: Function)
        ensures
            out@ == (FunctionModel { alias: Some(alias.characters()), ..self@ }),
    {
        let mut out = self;
        out.alias = Some(alias.into_text());
        out
    }
}

/// The number of rows in which the value is not null; of all rows for `*`.
pub fn count<V: ValueLike>(value: V) -> (out: Function)
    ensures
        out@ == (FunctionModel {
            typ: FunctionTypeModel::Count(seq![value.value_model()]),
            alias: None,
        }),
{
    let mut args: Vec<DatabaseValue> = Vec::new();
    args.push(value.into_value());
    assert(value_models(args) =~= seq![value.value_model()]);
    Function { typ: FunctionType::Count(args), alias: None }
}

/// The values of a group, joined into one string.
pub fn aggregate_to_string<V: ValueLike>(value: V) -> (out: Function)
    ensures
        out@ == (FunctionModel {
            typ: FunctionTypeModel::AggregateToString(Box::new(value.value_model())),
            alias: None,
        }),
{
    Function { typ: FunctionType::AggregateToString(Box::new(value.into_value())), alias: None }
}

impl View for Function {
    type V = FunctionModel;

    open spec fn view(&self) -> FunctionModel {
        self.model()
    }
}

} // verus!
