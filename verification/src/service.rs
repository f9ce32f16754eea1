//! The service as a sequence of steps: each step either asks the caller to
//! run one statement against the database or ends the request.

use vstd::prelude::*;
use vstd::string::*;
use crate::api::{api_from_request, classify, opt_profile, Api, ApiModel, Method};
use crate::json::profile_json;
use crate::model::{
    delete_statement, first_profile, insert_statement, outcome_model, select_statement,
    update_statement, DataError, Profile, ProfileModel,
};
use crate::response::{
    bad_request, bare, created, internal_server_error, method_not_allowed, no_content, not_found,
    ok, typed, Response, ResponseModel,
};
use crate::row::{ColumnAddressing, RowSet, RowSetModel};
use crate::statement::{Placeholders, Statement, StatementModel};
use crate::text::opt_bytes;

verus! {

/// The backend that the statements are written for.
#[derive(Clone, Copy, Debug, PartialEq, Eq)]
pub struct Backend {
    pub placeholders: Placeholders,
    pub columns: ColumnAddressing,
}

/// What is left to do once a statement has been executed.
#[derive(Clone, Debug, PartialEq, Eq)]
pub enum AfterExecute {
    /// Answer that the profile with this handle was created.
    Created { handle: String },
    /// Read the profile with this handle back.
    Updated { handle: String },
    /// Answer that the profile is gone.
    Deleted,
}

/// What an `AfterExecute` stands for.
pub enum AfterExecuteModel {
    Created { handle: Seq<char> },
    Updated { handle: Seq<char> },
    Deleted,
}

impl View for AfterExecute {
    type V = AfterExecuteModel;

    open spec fn view(&self) -> AfterExecuteModel {
        match self {
            AfterExecute::Created { handle } => AfterExecuteModel::Created { handle: handle@ },
            AfterExecute::Updated { handle } => AfterExecuteModel::Updated { handle: handle@ },
            AfterExecute::Deleted => AfterExecuteModel::Deleted,
        }
    }
}

/// One step of a request.
#[derive(Clone, Debug, PartialEq, Eq)]
pub enum Step {
    /// Run `statement`, which gives no rows, and go on with `after_execute`.
    Execute { statement: Statement, then: AfterExecute },
    /// Run `statement`, which gives rows, and go on with `after_query`.
    Query { statement: Statement },
    /// The request is answered.
    Respond(Response),
    /// The request fails without a response of its own.
    Fail(DataError),
}

/// What a `Step` stands for.
pub enum StepModel {
    Execute { statement: StatementModel, then: AfterExecuteModel },
    Query { statement: StatementModel },
    Respond(ResponseModel),
    Fail(DataError),
}

impl View for Step {
    type V = StepModel;

    open spec fn view(&self) -> StepModel {
        match self {
            Step::Execute { statement, then } => StepModel::Execute {
                statement: statement@,
                then: then@,
            },
            Step::Query { statement } => StepModel::Query { statement: statement@ },
            Step::Respond(response) => StepModel::Respond(response@),
            Step::Fail(e) => StepModel::Fail(*e),
        }
    }
}

/// The first step of a create: the insert, or a failure for a profile
/// without id.
pub open spec fn create_step(p: ProfileModel, backend: Backend) -> StepModel {
    if p.id is Some {
        StepModel::Execute {
            statement: insert_statement(p, backend.placeholders),
            then: AfterExecuteModel::Created { handle: p.handle },
        }
    } else {
        StepModel::Fail(DataError::MissingId)
    }
}

/// The first step of an update: the update itself.
pub open spec fn update_step(p: ProfileModel, backend: Backend) -> StepModel {
    StepModel::Execute {
        statement: update_statement(p, backend.placeholders),
        then: AfterExecuteModel::Updated { handle: p.handle },
    }
}

/// The first step of a read: the query by handle.
pub open spec fn read_step(handle: Seq<char>, backend: Backend) -> StepModel {
    StepModel::Query { statement: select_statement(handle, backend.placeholders) }
}

/// The first step of a removal: the delete.
pub open spec fn delete_step(p: ProfileModel, backend: Backend) -> StepModel {
    StepModel::Execute {
        statement: delete_statement(p, backend.placeholders),
        then: AfterExecuteModel::Deleted,
    }
}

/// The first step of each operation.
pub open spec fn first_step(api: ApiModel, backend: Backend) -> StepModel {
    match api {
        ApiModel::BadRequest => StepModel::Respond(bare(400)),
        ApiModel::MethodNotAllowed => StepModel::Respond(bare(405)),
        ApiModel::Create(p) => create_step(p, backend),
        ApiModel::Update(p) => update_step(p, backend),
        ApiModel::ReadByHandle(handle) => read_step(handle, backend),
        ApiModel::Delete(p) => delete_step(p, backend),
        ApiModel::NotFound => StepModel::Respond(bare(404)),
    }
}

/// The path of the profile with the given handle.
pub open spec fn profile_location(handle: Seq<char>) -> Seq<char> {
    "/api/profile/"@ + handle
}

/// The step that follows an executed statement. `outcome` is the number of
/// rows that the statement touched, or the failure of the backend.
pub open spec fn step_after_execute(
    then: AfterExecuteModel,
    outcome: Result<u64, DataError>,
    backend: Backend,
) -> StepModel {
    match then {
        AfterExecuteModel::Created { handle } => match outcome {
            Ok(_) => StepModel::Respond(
                ResponseModel {
                    status: 201,
                    headers: seq![("location"@, profile_location(handle))],
                    body: Seq::empty(),
                },
            ),
            Err(e) => StepModel::Fail(e),
        },
        AfterExecuteModel::Updated { handle } => match outcome {
            Ok(_) => read_step(handle, backend),
            Err(e) => StepModel::Fail(e),
        },
        AfterExecuteModel::Deleted => match outcome {
            Ok(_) => StepModel::Respond(bare(204)),
            Err(_) => StepModel::Respond(typed(500, "text/plain"@, "Error while deleting profile"@)),
        },
    }
}

/// The step that ends a read, given what the lookup found.
pub open spec fn read_outcome_step(found: Result<ProfileModel, DataError>) -> StepModel {
    match found {
        Ok(p) => match profile_json(p) {
            Some(document) => StepModel::Respond(typed(200, "application/json"@, document)),
            None => StepModel::Fail(DataError::Encode),
        },
        Err(_) => StepModel::Respond(bare(404)),
    }
}

/// The step that follows a query.
pub open spec fn step_after_query(
    outcome: Result<RowSetModel, DataError>,
    backend: Backend,
) -> StepModel {
    match outcome {
        Ok(rows) => read_outcome_step(first_profile(rows, backend.columns)),
        Err(e) => read_outcome_step(Err(e)),
    }
}

/// The model of the outcome of a query.
pub open spec fn rows_model(outcome: Result<RowSet, DataError>) -> Result<RowSetModel, DataError> {
    match outcome {
        Ok(rows) => Ok(rows@),
        Err(e) => Err(e),
    }
}

/// Starts a create.
pub fn handle_create(model: Profile, backend: Backend) -> (step: Step)
    ensures
        step@ == create_step(model@, backend),
{
    match model.insert(backend.placeholders) {
        Ok(statement) => Step::Execute {
            statement,
            then: AfterExecute::Created { handle: model.handle },
        },
        Err(e) => Step::Fail(e),
    }
}

/// Starts a read.
pub fn handle_read_by_handle(handle: String, backend: Backend) -> (step: Step)
    ensures
        step@ == read_step(handle@, backend),
{
    Step::Query { statement: Profile::get_by_handle(handle.as_str(), backend.placeholders) }
}

/// Starts an update, which ends like a read of the same handle.
pub fn handle_update(model: Profile, backend: Backend) -> (step: Step)
    ensures
        step@ == update_step(model@, backend),
{
    let statement = model.update(backend.placeholders);
    Step::Execute { statement, then: AfterExecute::Updated { handle: model.handle } }
}

/// Starts a removal.
pub fn handle_delete_by_handle(model: Profile, backend: Backend) -> (step: Step)
    ensures
        step@ == delete_step(model@, backend),
{
    Step::Execute { statement: model.delete(backend.placeholders), then: AfterExecute::Deleted }
}

/// The first step of a request, from its method, the path that its routing
/// header carries, and the profile decoded from its body.
pub fn profile_api(
    method: &Method,
    path: Option<&[u8]>,
    body: Option<Profile>,
    backend: Backend,
) -> (step: Step)
    ensures
        step@ == first_step(classify(*method, opt_bytes(path), opt_profile(body)), backend),
{
    match api_from_request(method, path, body) {
        Api::BadRequest => Step::Respond(bad_request()),
        Api::MethodNotAllowed => Step::Respond(method_not_allowed()),
        Api::Create(model) => handle_create(model, backend),
        Api::Update(model) => handle_update(model, backend),
        Api::ReadByHandle(handle) => handle_read_by_handle(handle, backend),
        Api::Delete(model) => handle_delete_by_handle(model, backend),
        Api::NotFound => Step::Respond(not_found()),
    }
}

/// The step that follows an executed statement.
pub fn after_execute(
    then: AfterExecute,
    outcome: Result<u64, DataError>,
    backend: Backend,
) -> (step: Step)
    ensures
        step@ == step_after_execute(then@, outcome, backend),
{
    match then {
        AfterExecute::Created { handle } => match outcome {
            Ok(_) => {
                let location = String::from_str("/api/profile/").concat(handle.as_str());
                Step::Respond(created(location))
            },
            Err(e) => Step::Fail(e),
        },
        AfterExecute::Updated { handle } => match outcome {
            Ok(_) => handle_read_by_handle(handle, backend),
            Err(e) => Step::Fail(e),
        },
        AfterExecute::Deleted => match outcome {
            Ok(_) => Step::Respond(no_content()),
            Err(_) => Step::Respond(
                internal_server_error(String::from_str("Error while deleting profile")),
            ),
        },
    }
}

/// The step that ends a read: the profile as JSON, or 404 when none was
/// found, whatever the reason.
pub fn read_outcome(found: Result<Profile, DataError>) -> (step: Step)
    ensures
        step@ == read_outcome_step(outcome_model(found)),
{
    match found {
        Ok(model) => match model.to_json() {
            Ok(document) => Step::Respond(ok(document)),
            Err(e) => Step::Fail(e),
        },
        Err(_) => Step::Respond(not_found()),
    }
}

/// The step that follows a query.
pub fn after_query(outcome: Result<RowSet, DataError>, backend: Backend) -> (step: Step)
    ensures
        step@ == step_after_query(rows_model(outcome), backend),
{
    match outcome {
        Ok(rows) => read_outcome(Profile::from_rows(&rows, backend.columns)),
        Err(e) => read_outcome(Err(e)),
    }
}

} // verus!
