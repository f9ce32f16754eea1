//! Laws that hold across the operations of the service.

use vstd::prelude::*;
use vstd::string::*;
use crate::api::{classify, Method};
use crate::model::{insert_statement, path_profile, row_profile, DataError, ProfileModel};
use crate::param::{DbModel, ParameterModel};
use crate::response::bare;
use crate::row::{
    is_lookup_of, lemma_lookup_unique, lookup_by_name, ordinal_lookup, ColumnAddressing,
};
use crate::service::{
    first_step, step_after_execute, AfterExecuteModel, Backend, StepModel,
};
use crate::statement::Placeholders;

verus! {

/// The columns of the query by handle, in the order in which it lists them.
pub open spec fn profile_columns() -> Seq<Seq<char>> {
    seq!["id"@, "handle"@, "avatar"@]
}

/// What a row holds in a column to which a parameter was bound: the text for
/// a text, the null for the null.
pub open spec fn stored(param: ParameterModel) -> DbModel {
    match param {
        ParameterModel::Str(text) => DbModel::Str(text),
        ParameterModel::DbNull => DbModel::DbNull,
    }
}

/// On the columns of the query by handle, finding them by name and finding
/// them by ordinal give the same lookup.
pub proof fn lemma_addressings_agree()
    ensures
        lookup_by_name(profile_columns()) == ordinal_lookup(),
{
    reveal_strlit("id");
    reveal_strlit("handle");
    reveal_strlit("avatar");
    let columns = profile_columns();
    assert("id"@.len() == 2 && "handle"@.len() == 6 && "avatar"@.len() == 6);
    assert("handle"@[0] != "avatar"@[0]);
    assert(is_lookup_of(columns, ordinal_lookup()));
    lemma_lookup_unique(columns, ordinal_lookup(), lookup_by_name(columns));
}

/// A row that holds the values which `insert` binds for a profile reads back
/// as that profile: same id, same handle, same avatar. This holds for both
/// placeholder styles and both ways of finding the columns.
pub proof fn lemma_insert_then_read(
    p: ProfileModel,
    style: Placeholders,
    addressing: ColumnAddressing,
)
    requires
        p.id is Some,
    ensures
        row_profile(
            insert_statement(p, style).params.map_values(|v: ParameterModel| stored(v)),
            addressing.lookup_of(profile_columns()),
        ) == Ok::<ProfileModel, DataError>(p),
{
    lemma_addressings_agree();
}

/// A read or a removal is never answered as a bad request, whatever path and
/// body come with it: where the path names no profile the request is not
/// found, and is answered with 404.
pub proof fn lemma_path_requests_are_not_bad_requests(
    method: Method,
    path: Option<Seq<u8>>,
    body: Option<ProfileModel>,
    backend: Backend,
)
    requires
        method is Get || method is Delete,
    ensures
        classify(method, path, body) !is BadRequest,
        first_step(classify(method, path, body), backend) != StepModel::Respond(bare(400)),
        path_profile(path) is Err ==> classify(method, path, body) is NotFound && first_step(
            classify(method, path, body),
            backend,
        ) == StepModel::Respond(bare(404)),
{
}

/// A removal that the backend executed is answered with 204, however many
/// rows it removed, none included.
pub proof fn lemma_removal_of_nothing_succeeds(rows: u64, backend: Backend)
    ensures
        step_after_execute(AfterExecuteModel::Deleted, Ok(rows), backend) == StepModel::Respond(
            bare(204),
        ),
{
}

} // verus!
