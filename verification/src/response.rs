//! The fixed responses of the service.

use vstd::prelude::*;
use vstd::string::*;

verus! {

/// An HTTP response: status, headers in the order they were set, and body.
#[derive(Clone, Debug, PartialEq, Eq)]
pub struct Response {
    pub status: u16,
    pub headers: Vec<(String, String)>,
    pub body: String,
}

/// What a `Response` stands for.
pub struct ResponseModel {
    pub status: u16,
    pub headers: Seq<(Seq<char>, Seq<char>)>,
    pub body: Seq<char>,
}

/// The names and values of a list of headers.
pub open spec fn header_models(headers: Seq<(String, String)>) -> Seq<(Seq<char>, Seq<char>)> {
    headers.map_values(|h: (String, String)| (h.0@, h.1@))
}

impl View for Response {
    type V = ResponseModel;

    open spec fn view(&self) -> ResponseModel {
        ResponseModel {
            status: self.status,
            headers: header_models(self.headers@),
            body: self.body@,
        }
    }
}

/// A response of the given status without headers or body.
pub open spec fn bare(status: u16) -> ResponseModel {
    ResponseModel { status, headers: Seq::empty(), body: Seq::empty() }
}

/// A response of the given status whose body has the given content type.
pub open spec fn typed(status: u16, content_type: Seq<char>, body: Seq<char>) -> ResponseModel {
    ResponseModel { status, headers: seq![("content-type"@, content_type)], body }
}

/// `http::StatusCode::OK`, which the crate documents as 200, as `as_u16`
/// gives it.
#[verifier::external_body]
fn status_ok() -> (code: u16)
    ensures
        code == 200,
{
    http::StatusCode::OK.as_u16()
}

/// `http::StatusCode::CREATED`, which the crate documents as 201, as `as_u16`
/// gives it.
#[verifier::external_body]
fn status_created() -> (code: u16)
    ensures
        code == 201,
{
    http::StatusCode::CREATED.as_u16()
}

/// `http::StatusCode::NO_CONTENT`, which the crate documents as 204, as
/// `as_u16` gives it.
#[verifier::external_body]
fn status_no_content() -> (code: u16)
    ensures
        code == 204,
{
    http::StatusCode::NO_CONTENT.as_u16()
}

/// `http::StatusCode::BAD_REQUEST`, which the crate documents as 400, as
/// `as_u16` gives it.
#[verifier::external_body]
fn status_bad_request() -> (code: u16)
    ensures
        code == 400,
{
    http::StatusCode::BAD_REQUEST.as_u16()
}

/// `http::StatusCode::NOT_FOUND`, which the crate documents as 404, as
/// `as_u16` gives it.
#[verifier::external_body]
fn status_not_found() -> (code: u16)
    ensures
        code == 404,
{
    http::StatusCode::NOT_FOUND.as_u16()
}

/// `http::StatusCode::METHOD_NOT_ALLOWED`, which the crate documents as 405,
/// as `as_u16` gives it.
#[verifier::external_body]
fn status_method_not_allowed() -> (code: u16)
    ensures
        code == 405,
{
    http::StatusCode::METHOD_NOT_ALLOWED.as_u16()
}

/// `http::StatusCode::INTERNAL_SERVER_ERROR`, which the crate documents as
/// 500, as `as_u16` gives it.
#[verifier::external_body]
fn status_internal_server_error() -> (code: u16)
    ensures
        code == 500,
{
    http::StatusCode::INTERNAL_SERVER_ERROR.as_u16()
}

/// `http::header::CONTENT_TYPE`, whose `as_str` the crate defines as the
/// lower-case name `content-type`.
#[verifier::external_body]
fn content_type_name() -> (name: String)
    ensures
        name@ == "content-type"@,
{
    http::header::CONTENT_TYPE.as_str().to_string()
}

/// `http::header::LOCATION`, whose `as_str` the crate defines as the
/// lower-case name `location`.
#[verifier::external_body]
fn location_name() -> (name: String)
    ensures
        name@ == "location"@,
{
    http::header::LOCATION.as_str().to_string()
}

/// A response with one header.
fn with_header(status: u16, name: String, value: String, body: String) -> (response: Response)
    ensures
        response@ == (ResponseModel {
            status,
            headers: seq![(name@, value@)],
            body: body@,
        }),
{
    let mut headers: Vec<(String, String)> = Vec::new();
    headers.push((name, value));
    assert(header_models(headers@) =~= seq![(name@, value@)]);
    Response { status, headers, body }
}

/// A response that is its status alone.
pub fn quick_response(status: u16) -> (response: Response)
    ensures
        response@ == bare(status),
{
    let headers: Vec<(String, String)> = Vec::new();
    assert(header_models(headers@) =~= Seq::empty());
    Response { status, headers, body: String::new() }
}

/// 200 with `payload` as a JSON body.
pub fn ok(payload: String) -> (response: Response)
    ensures
        response@ == typed(200, "application/json"@, payload@),
{
    with_header(status_ok(), content_type_name(), String::from_str("application/json"), payload)
}

/// 500 with `err` as a plain-text body.
pub fn internal_server_error(err: String) -> (response: Response)
    ensures
        response@ == typed(500, "text/plain"@, err@),
{
    with_header(
        status_internal_server_error(),
        content_type_name(),
        String::from_str("text/plain"),
        err,
    )
}

/// 201 that points at `location`.
pub fn created(location: String) -> (response: Response)
    ensures
        response@ == (ResponseModel {
            status: 201,
            headers: seq![("location"@, location@)],
            body: Seq::empty(),
        }),
{
    with_header(status_created(), location_name(), location, String::new())
}

/// 405, for a method that the service does not offer.
pub fn method_not_allowed() -> (response: Response)
    ensures
        response@ == bare(405),
{
    quick_response(status_method_not_allowed())
}

/// 400, for a body that is no profile.
pub fn bad_request() -> (response: Response)
    ensures
        response@ == bare(400),
{
    quick_response(status_bad_request())
}

/// 404, for a profile that cannot be found.
pub fn not_found() -> (response: Response)
    ensures
        response@ == bare(404),
{
    quick_response(status_not_found())
}

/// 204, for a removal that went through.
pub fn no_content() -> (response: Response)
    ensures
        response@ == bare(204),
{
    quick_response(status_no_content())
}

} // verus!
