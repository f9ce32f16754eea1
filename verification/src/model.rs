//! The profile entity and the statements that persist it.

use vstd::prelude::*;
use vstd::string::*;
use crate::param::{
    as_nullable_param, as_param, nullable_param, param_models, row_models, DbModel, DbValue,
    ParameterModel, ParameterValue,
};
use crate::row::{ColumnAddressing, ColumnLookup, RowSet, RowSetModel};
use crate::route::{get_last_param_from_route, is_segment, last_param};
use crate::text::{opt_bytes, opt_text};
use crate::statement::{statement_of, Placeholders, Statement, StatementKind, StatementModel};
use vstd::utf8::{decode_utf8, encode_utf8_decode_utf8, valid_utf8};

verus! {

/// A profile: an optional id, a handle and an optional avatar.
#[derive(Clone, Debug, PartialEq, Eq)]
pub struct Profile {
    pub id: Option<String>,
    pub handle: String,
    pub avatar: Option<String>,
}

/// What a `Profile` stands for.
pub struct ProfileModel {
    pub id: Option<Seq<char>>,
    pub handle: Seq<char>,
    pub avatar: Option<Seq<char>>,
}

impl View for Profile {
    type V = ProfileModel;

    open spec fn view(&self) -> ProfileModel {
        ProfileModel { id: opt_text(self.id), handle: self.handle@, avatar: opt_text(self.avatar) }
    }
}

/// Why a data-access operation failed.
#[derive(Clone, Debug, PartialEq, Eq)]
pub enum DataError {
    /// An insert was asked for a profile without id.
    MissingId,
    /// No row has the handle that was asked for.
    NotFound,
    /// The handle of a row is absent or not text.
    Decode,
    /// A profile could not be written as JSON.
    Encode,
    /// The backend could not be reached or refused the statement; the text is
    /// its own account of the failure.
    Backend(String),
}

/// The insert of `p`, which needs an id.
pub open spec fn insert_statement(p: ProfileModel, style: Placeholders) -> StatementModel
    recommends
        p.id is Some,
{
    statement_of(
        StatementKind::Insert,
        style,
        seq![ParameterModel::Str(p.id->0), ParameterModel::Str(p.handle), nullable_param(p.avatar)],
    )
}

/// The read of the rows whose handle is `handle`.
pub open spec fn select_statement(handle: Seq<char>, style: Placeholders) -> StatementModel {
    statement_of(StatementKind::SelectByHandle, style, seq![ParameterModel::Str(handle)])
}

/// The update of `p`: by id, rewriting handle and avatar, when `p` has an id;
/// by handle, rewriting the avatar alone, when it has none.
pub open spec fn update_statement(p: ProfileModel, style: Placeholders) -> StatementModel {
    match p.id {
        Some(id) => statement_of(
            StatementKind::UpdateById,
            style,
            seq![ParameterModel::Str(p.handle), nullable_param(p.avatar), ParameterModel::Str(id)],
        ),
        None => statement_of(
            StatementKind::UpdateAvatarByHandle,
            style,
            seq![nullable_param(p.avatar), ParameterModel::Str(p.handle)],
        ),
    }
}

/// The removal of `p`: by id when `p` has one, by handle when it has none.
pub open spec fn delete_statement(p: ProfileModel, style: Placeholders) -> StatementModel {
    match p.id {
        Some(id) => statement_of(StatementKind::DeleteById, style, seq![ParameterModel::Str(id)]),
        None => statement_of(
            StatementKind::DeleteByHandle,
            style,
            seq![ParameterModel::Str(p.handle)],
        ),
    }
}

/// Why a request path names no profile.
#[derive(Clone, Copy, Debug, PartialEq, Eq)]
pub enum PathError {
    /// The request carries no path.
    Missing,
    /// The path is not UTF-8 text.
    NotText,
    /// Every segment of the path is empty.
    NoHandle,
}

/// The model of an outcome that holds a profile.
pub open spec fn outcome_model<E>(outcome: Result<Profile, E>) -> Result<ProfileModel, E> {
    match outcome {
        Ok(p) => Ok(p@),
        Err(e) => Err(e),
    }
}

/// The profile that a path names: its last non-empty segment is the handle,
/// and nothing else is known of it.
pub open spec fn path_profile(path: Option<Seq<u8>>) -> Result<ProfileModel, PathError> {
    match path {
        None => Err(PathError::Missing),
        Some(bytes) => if !valid_utf8(bytes) {
            Err(PathError::NotText)
        } else {
            match last_param(decode_utf8(bytes)) {
                Some(handle) => Ok(ProfileModel { id: None, handle, avatar: None }),
                None => Err(PathError::NoHandle),
            }
        },
    }
}

/// The text in the column at `at`, if the row reaches that far and holds text
/// there.
pub open spec fn cell_text(row: Seq<DbModel>, at: Option<usize>) -> Option<Seq<char>> {
    match at {
        Some(i) => if i < row.len() {
            match row[i as int] {
                DbModel::Str(text) => Some(text),
                _ => None,
            }
        } else {
            None
        },
        None => None,
    }
}

/// The profile that a row holds. Id and avatar are read as far as they are
/// there; a row without a text handle holds no profile.
pub open spec fn row_profile(row: Seq<DbModel>, columns: ColumnLookup) -> Result<
    ProfileModel,
    DataError,
> {
    match cell_text(row, columns.handle) {
        Some(handle) => Ok(
            ProfileModel {
                id: cell_text(row, columns.id),
                handle,
                avatar: cell_text(row, columns.avatar),
            },
        ),
        None => Err(DataError::Decode),
    }
}

/// The profile in the first row of a result set.
pub open spec fn first_profile(rows: RowSetModel, addressing: ColumnAddressing) -> Result<
    ProfileModel,
    DataError,
> {
    if rows.rows.len() == 0 {
        Err(DataError::NotFound)
    } else {
        row_profile(rows.rows[0], addressing.lookup_of(rows.columns))
    }
}

/// Reads the text in the column at `at`.
fn cell(row: &Vec<DbValue>, at: Option<usize>) -> (text: Option<String>)
    ensures
        opt_text(text) == cell_text(row_models(row@), at),
{
    match at {
        Some(i) => if i < row.len() {
            match &row[i] {
                DbValue::Str(text) => Some(text.clone()),
                _ => None,
            }
        } else {
            None
        },
        None => None,
    }
}

/// `core::str::from_utf8`, which std documents to give the bytes back as a
/// string slice exactly when they are valid UTF-8.
#[verifier::external_body]
fn text_of(bytes: &[u8]) -> (text: Option<&str>)
    ensures
        text is Some <==> valid_utf8(bytes@),
        text matches Some(t) ==> t.spec_bytes() == bytes@,
{
    core::str::from_utf8(bytes).ok()
}

impl Profile {
    /// The profile that the request path names, for a read or a removal by
    /// handle. Its handle is never empty and holds no `'/'`; it has neither id
    /// nor avatar.
    pub fn from_path(path: Option<&[u8]>) -> (outcome: Result<Profile, PathError>)
        ensures
            outcome_model(outcome) == path_profile(opt_bytes(path)),
            outcome matches Ok(p) ==> is_segment(p.handle@) && p.id is None && p.avatar is None,
    {
        let bytes = match path {
            Some(bytes) => bytes,
            None => {
                return Err(PathError::Missing);
            },
        };
        let text = match text_of(bytes) {
            Some(text) => text,
            None => {
                return Err(PathError::NotText);
            },
        };
        proof {
            encode_utf8_decode_utf8(text@);
        }
        match get_last_param_from_route(text) {
            Some(handle) => Ok(Profile { id: None, handle, avatar: None }),
            None => Err(PathError::NoHandle),
        }
    }

    /// The profile that a row of the `profiles` table holds.
    pub fn from_row(row: &Vec<DbValue>, columns: &ColumnLookup) -> (outcome: Result<
        Profile,
        DataError,
    >)
        ensures
            outcome_model(outcome) == row_profile(row_models(row@), *columns),
    {
        let id = cell(row, columns.id);
        let handle = match cell(row, columns.handle) {
            Some(handle) => handle,
            None => {
                return Err(DataError::Decode);
            },
        };
        let avatar = cell(row, columns.avatar);
        Ok(Profile { id, handle, avatar })
    }

    /// The profile in the first row of a result set; later rows are not
    /// looked at.
    pub fn from_rows(rows: &RowSet, addressing: ColumnAddressing) -> (found: Result<
        Profile,
        DataError,
    >)
        ensures
            outcome_model(found) == first_profile(rows@, addressing),
    {
        if rows.rows.len() == 0 {
            return Err(DataError::NotFound);
        }
        let lookup = addressing.lookup(&rows.columns);
        Profile::from_row(&rows.rows[0], &lookup)
    }

    /// The statement that adds this profile. A profile without id is refused,
    /// whatever its other fields hold.
    pub fn insert(&self, style: Placeholders) -> (outcome: Result<Statement, DataError>)
        ensures
            self.id is None ==> outcome matches Err(DataError::MissingId),
            self.id is Some ==> (outcome matches Ok(statement) && statement@ == insert_statement(
                self@,
                style,
            )),
    {
        let id = match as_param(&self.id) {
            Some(id) => id,
            None => {
                return Err(DataError::MissingId);
            },
        };
        let mut params: Vec<ParameterValue> = Vec::new();
        params.push(id);
        params.push(ParameterValue::Str(self.handle.clone()));
        params.push(as_nullable_param(&self.avatar));
        assert(param_models(params@) =~= insert_statement(self@, style).params);
        Ok(Statement::new(StatementKind::Insert, style, params))
    }

    /// The statement that reads the rows with the given handle.
    pub fn get_by_handle(handle: &str, style: Placeholders) -> (statement: Statement)
        ensures
            statement@ == select_statement(handle@, style),
    {
        let mut params: Vec<ParameterValue> = Vec::new();
        params.push(ParameterValue::Str(String::from_str(handle)));
        assert(param_models(params@) =~= select_statement(handle@, style).params);
        Statement::new(StatementKind::SelectByHandle, style, params)
    }

    /// The statement that updates this profile.
    pub fn update(&self, style: Placeholders) -> (statement: Statement)
        ensures
            statement@ == update_statement(self@, style),
            self.id matches Some(id) ==> statement@ == statement_of(
                StatementKind::UpdateById,
                style,
                seq![
                    ParameterModel::Str(self.handle@),
                    nullable_param(opt_text(self.avatar)),
                    ParameterModel::Str(id@),
                ],
            ),
            self.id is None ==> statement@ == statement_of(
                StatementKind::UpdateAvatarByHandle,
                style,
                seq![nullable_param(opt_text(self.avatar)), ParameterModel::Str(self.handle@)],
            ),
    {
        let mut params: Vec<ParameterValue> = Vec::new();
        match &self.id {
            Some(id) => {
                params.push(ParameterValue::Str(self.handle.clone()));
                params.push(as_nullable_param(&self.avatar));
                params.push(ParameterValue::Str(id.clone()));
                assert(param_models(params@) =~= update_statement(self@, style).params);
                Statement::new(StatementKind::UpdateById, style, params)
            },
            None => {
                params.push(as_nullable_param(&self.avatar));
                params.push(ParameterValue::Str(self.handle.clone()));
                assert(param_models(params@) =~= update_statement(self@, style).params);
                Statement::new(StatementKind::UpdateAvatarByHandle, style, params)
            },
        }
    }

    /// The statement that removes this profile.
    pub fn delete(&self, style: Placeholders) -> (statement: Statement)
        ensures
            statement@ == delete_statement(self@, style),
            self.id matches Some(id) ==> statement@ == statement_of(
                StatementKind::DeleteById,
                style,
                seq![ParameterModel::Str(id@)],
            ),
            self.id is None ==> statement@ == statement_of(
                StatementKind::DeleteByHandle,
                style,
                seq![ParameterModel::Str(self.handle@)],
            ),
    {
        let mut params: Vec<ParameterValue> = Vec::new();
        match &self.id {
            Some(id) => {
                params.push(ParameterValue::Str(id.clone()));
                assert(param_models(params@) =~= delete_statement(self@, style).params);
                Statement::new(StatementKind::DeleteById, style, params)
            },
            None => {
                params.push(ParameterValue::Str(self.handle.clone()));
                assert(param_models(params@) =~= delete_statement(self@, style).params);
                Statement::new(StatementKind::DeleteByHandle, style, params)
            },
        }
    }
}

} // verus!
