//! Values bound to a statement and values read back from a row.

use vstd::prelude::*;
use crate::text::opt_text;

verus! {

/// A value bound to one placeholder of a statement.
#[derive(Clone, Debug, PartialEq, Eq)]
pub enum ParameterValue {
    /// A text value.
    Str(String),
    /// The database null.
    DbNull,
}

/// What a `ParameterValue` stands for.
pub enum ParameterModel {
    Str(Seq<char>),
    DbNull,
}

impl View for ParameterValue {
    type V = ParameterModel;

    open spec fn view(&self) -> ParameterModel {
        match self {
            ParameterValue::Str(s) => ParameterModel::Str(s@),
            ParameterValue::DbNull => ParameterModel::DbNull,
        }
    }
}

/// A value found in one column of a row.
#[derive(Clone, Debug, PartialEq, Eq)]
pub enum DbValue {
    /// A text value.
    Str(String),
    /// The database null.
    DbNull,
    /// A value of any other type.
    Other,
}

/// What a `DbValue` stands for.
pub enum DbModel {
    Str(Seq<char>),
    DbNull,
    Other,
}

impl View for DbValue {
    type V = DbModel;

    open spec fn view(&self) -> DbModel {
        match self {
            DbValue::Str(s) => DbModel::Str(s@),
            DbValue::DbNull => DbModel::DbNull,
            DbValue::Other => DbModel::Other,
        }
    }
}

/// The models of a list of parameters.
pub open spec fn param_models(params: Seq<ParameterValue>) -> Seq<ParameterModel> {
    params.map_values(|p: ParameterValue| p@)
}

/// The models of the values of a row.
pub open spec fn row_models(row: Seq<DbValue>) -> Seq<DbModel> {
    row.map_values(|v: DbValue| v@)
}

/// The model of an optional parameter.
pub open spec fn opt_param_model(param: Option<ParameterValue>) -> Option<ParameterModel> {
    match param {
        Some(p) => Some(p@),
        None => None,
    }
}

/// The text parameter for a present value, nothing for an absent one.
pub open spec fn text_param(value: Option<Seq<char>>) -> Option<ParameterModel> {
    match value {
        Some(text) => Some(ParameterModel::Str(text)),
        None => None,
    }
}

/// The text parameter for a present value, the database null for an absent one.
pub open spec fn nullable_param(value: Option<Seq<char>>) -> ParameterModel {
    match value {
        Some(text) => ParameterModel::Str(text),
        None => ParameterModel::DbNull,
    }
}

/// Turns a present value into a text parameter; an absent value stays absent.
pub fn as_param(value: &Option<String>) -> (param: Option<ParameterValue>)
    ensures
        opt_param_model(param) == text_param(opt_text(*value)),
{
    match value {
        Some(text) => Some(ParameterValue::Str(text.clone())),
        None => None,
    }
}

/// Turns a present value into a text parameter and an absent one into the
/// database null.
pub fn as_nullable_param(value: &Option<String>) -> (param: ParameterValue)
    ensures
        param@ == nullable_param(opt_text(*value)),
{
    match as_param(value) {
        Some(param) => param,
        None => ParameterValue::DbNull,
    }
}

} // verus!
