//! Classifying a request as one of the operations of the service.

use vstd::prelude::*;
use crate::model::{path_profile, Profile, ProfileModel};
use crate::text::opt_bytes;

verus! {

/// The method of a request.
#[derive(Clone, Debug, PartialEq, Eq)]
pub enum Method {
    Get,
    Head,
    Post,
    Put,
    Delete,
    Connect,
    Options,
    Trace,
    Patch,
    Other(String),
}

/// What a request asks for.
#[derive(Clone, Debug, PartialEq, Eq)]
pub enum Api {
    /// Store the profile.
    Create(Profile),
    /// Show the profile with this handle.
    ReadByHandle(String),
    /// Change the profile.
    Update(Profile),
    /// Remove the profile.
    Delete(Profile),
    /// The body is no profile.
    BadRequest,
    /// The path names no profile.
    NotFound,
    /// The method is none of POST, GET, PUT and DELETE.
    MethodNotAllowed,
}

/// What an `Api` stands for.
pub enum ApiModel {
    Create(ProfileModel),
    ReadByHandle(Seq<char>),
    Update(ProfileModel),
    Delete(ProfileModel),
    BadRequest,
    NotFound,
    MethodNotAllowed,
}

impl View for Api {
    type V = ApiModel;

    open spec fn view(&self) -> ApiModel {
        match self {
            Api::Create(p) => ApiModel::Create(p@),
            Api::ReadByHandle(handle) => ApiModel::ReadByHandle(handle@),
            Api::Update(p) => ApiModel::Update(p@),
            Api::Delete(p) => ApiModel::Delete(p@),
            Api::BadRequest => ApiModel::BadRequest,
            Api::NotFound => ApiModel::NotFound,
            Api::MethodNotAllowed => ApiModel::MethodNotAllowed,
        }
    }
}

/// The model of an optional profile.
pub open spec fn opt_profile(profile: Option<Profile>) -> Option<ProfileModel> {
    match profile {
        Some(p) => Some(p@),
        None => None,
    }
}

/// The operation that a request asks for. POST and PUT go by the body, which
/// is `None` when it holds no profile; GET and DELETE go by the path; every
/// other method is refused.
pub open spec fn classify(
    method: Method,
    path: Option<Seq<u8>>,
    body: Option<ProfileModel>,
) -> ApiModel {
    match method {
        Method::Post => match body {
            Some(p) => ApiModel::Create(p),
            None => ApiModel::BadRequest,
        },
        Method::Get => match path_profile(path) {
            Ok(p) => ApiModel::ReadByHandle(p.handle),
            Err(_) => ApiModel::NotFound,
        },
        Method::Put => match body {
            Some(p) => ApiModel::Update(p),
            None => ApiModel::BadRequest,
        },
        Method::Delete => match path_profile(path) {
            Ok(p) => ApiModel::Delete(p),
            Err(_) => ApiModel::NotFound,
        },
        _ => ApiModel::MethodNotAllowed,
    }
}

/// Classifies a request by its method, the path that its routing header
/// carries, and the profile decoded from its body, if the body holds one.
pub fn api_from_request(method: &Method, path: Option<&[u8]>, body: Option<Profile>) -> (api: Api)
    ensures
        api@ == classify(*method, opt_bytes(path), opt_profile(body)),
{
    match method {
        Method::Post => match body {
            Some(model) => Api::Create(model),
            None => Api::BadRequest,
        },
        Method::Get => match Profile::from_path(path) {
            Ok(model) => Api::ReadByHandle(model.handle),
            Err(_) => Api::NotFound,
        },
        Method::Put => match body {
            Some(model) => Api::Update(model),
            None => Api::BadRequest,
        },
        Method::Delete => match Profile::from_path(path) {
            Ok(model) => Api::Delete(model),
            Err(_) => Api::NotFound,
        },
        _ => Api::MethodNotAllowed,
    }
}

} // verus!
