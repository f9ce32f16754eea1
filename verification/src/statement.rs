//! Parameterised statements against the `profiles` table, in the two
//! placeholder styles that relational backends use.

use vstd::prelude::*;
use vstd::string::*;
use crate::param::{param_models, ParameterModel, ParameterValue};

verus! {

/// How a backend writes the placeholders of a statement.
#[derive(Clone, Copy, Debug, PartialEq, Eq)]
pub enum Placeholders {
    /// `$1`, `$2`, ... in binding order.
    Numbered,
    /// `?` for every parameter, bound by position.
    Positional,
}

/// The statements that the profile operations issue.
#[derive(Clone, Copy, Debug, PartialEq, Eq)]
pub enum StatementKind {
    /// Adds a row from `(id, handle, avatar)`.
    Insert,
    /// Reads the rows with a given handle.
    SelectByHandle,
    /// Rewrites handle and avatar of the row with a given id.
    UpdateById,
    /// Rewrites the avatar of the row with a given handle.
    UpdateAvatarByHandle,
    /// Removes the row with a given id.
    DeleteById,
    /// Removes the row with a given handle.
    DeleteByHandle,
}

/// The text of each statement in each placeholder style.
pub open spec fn sql_text(kind: StatementKind, style: Placeholders) -> Seq<char> {
    match (kind, style) {
        (StatementKind::Insert, Placeholders::Numbered) =>
            "INSERT INTO profiles (id, handle, avatar) VALUES ($1, $2, $3)"@,
        (StatementKind::Insert, Placeholders::Positional) =>
            "INSERT INTO profiles (id, handle, avatar) VALUES (?, ?, ?)"@,
        (StatementKind::SelectByHandle, Placeholders::Numbered) =>
            "SELECT id, handle, avatar from profiles WHERE handle=$1"@,
        (StatementKind::SelectByHandle, Placeholders::Positional) =>
            "SELECT id, handle, avatar from profiles WHERE handle=?"@,
        (StatementKind::UpdateById, Placeholders::Numbered) =>
            "UPDATE profiles SET handle=$1, avatar=$2 WHERE id=$3"@,
        (StatementKind::UpdateById, Placeholders::Positional) =>
            "UPDATE profiles SET handle=?, avatar=? WHERE id=?"@,
        (StatementKind::UpdateAvatarByHandle, Placeholders::Numbered) =>
            "UPDATE profiles SET avatar=$1 WHERE handle=$2"@,
        (StatementKind::UpdateAvatarByHandle, Placeholders::Positional) =>
            "UPDATE profiles SET avatar=? WHERE handle=?"@,
        (StatementKind::DeleteById, Placeholders::Numbered) =>
            "DELETE FROM profiles WHERE id=$1"@,
        (StatementKind::DeleteById, Placeholders::Positional) =>
            "DELETE FROM profiles WHERE id=?"@,
        (StatementKind::DeleteByHandle, Placeholders::Numbered) =>
            "DELETE FROM profiles WHERE handle=$1"@,
        (StatementKind::DeleteByHandle, Placeholders::Positional) =>
            "DELETE FROM profiles WHERE handle=?"@,
    }
}

/// A statement ready to be sent: its text and the values for its placeholders,
/// in binding order.
#[derive(Clone, Debug, PartialEq, Eq)]
pub struct Statement {
    pub sql: String,
    pub params: Vec<ParameterValue>,
}

/// What a `Statement` stands for.
pub struct StatementModel {
    pub sql: Seq<char>,
    pub params: Seq<ParameterModel>,
}

impl View for Statement {
    type V = StatementModel;

    open spec fn view(&self) -> StatementModel {
        StatementModel { sql: self.sql@, params: param_models(self.params@) }
    }
}

/// The statement of the given kind and style that binds `params`.
pub open spec fn statement_of(
    kind: StatementKind,
    style: Placeholders,
    params: Seq<ParameterModel>,
) -> StatementModel {
    StatementModel { sql: sql_text(kind, style), params }
}

impl Statement {
    /// Writes the text of the statement `kind` in the given style.
    pub fn text(kind: StatementKind, style: Placeholders) -> (sql: String)
        ensures
            sql@ == sql_text(kind, style),
    {
        let text = match (kind, style) {
            (StatementKind::Insert, Placeholders::Numbered) =>
                "INSERT INTO profiles (id, handle, avatar) VALUES ($1, $2, $3)",
            (StatementKind::Insert, Placeholders::Positional) =>
                "INSERT INTO profiles (id, handle, avatar) VALUES (?, ?, ?)",
            (StatementKind::SelectByHandle, Placeholders::Numbered) =>
                "SELECT id, handle, avatar from profiles WHERE handle=$1",
            (StatementKind::SelectByHandle, Placeholders::Positional) =>
                "SELECT id, handle, avatar from profiles WHERE handle=?",
            (StatementKind::UpdateById, Placeholders::Numbered) =>
                "UPDATE profiles SET handle=$1, avatar=$2 WHERE id=$3",
            (StatementKind::UpdateById, Placeholders::Positional) =>
                "UPDATE profiles SET handle=?, avatar=? WHERE id=?",
            (StatementKind::UpdateAvatarByHandle, Placeholders::Numbered) =>
                "UPDATE profiles SET avatar=$1 WHERE handle=$2",
            (StatementKind::UpdateAvatarByHandle, Placeholders::Positional) =>
                "UPDATE profiles SET avatar=? WHERE handle=?",
            (StatementKind::DeleteById, Placeholders::Numbered) =>
                "DELETE FROM profiles WHERE id=$1",
            (StatementKind::DeleteById, Placeholders::Positional) =>
                "DELETE FROM profiles WHERE id=?",
            (StatementKind::DeleteByHandle, Placeholders::Numbered) =>
                "DELETE FROM profiles WHERE handle=$1",
            (StatementKind::DeleteByHandle, Placeholders::Positional) =>
                "DELETE FROM profiles WHERE handle=?",
        };
        String::from_str(text)
    }

    /// Puts the text of `kind` together with the values to bind.
    pub(crate) fn new(
        kind: StatementKind,
        style: Placeholders,
        params: Vec<ParameterValue>,
    ) -> (statement: Statement)
        ensures
            statement@ == statement_of(kind, style, param_models(params@)),
    {
        Statement { sql: Statement::text(kind, style), params }
    }
}

} // verus!
