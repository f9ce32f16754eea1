use profile_api::response::{
    bad_request, created, internal_server_error, method_not_allowed, no_content, not_found, ok,
    quick_response, Response,
};

fn bare(status: u16) -> Response {
    Response { status, headers: vec![], body: String::new() }
}

#[test]
fn quick_response_is_the_status_alone() {
    assert_eq!(quick_response(418), bare(418));
    assert_eq!(quick_response(0), bare(0));
}

#[test]
fn fixed_responses_have_their_status_and_nothing_else() {
    assert_eq!(bad_request(), bare(400));
    assert_eq!(not_found(), bare(404));
    assert_eq!(method_not_allowed(), bare(405));
    assert_eq!(no_content(), bare(204));
}

#[test]
fn ok_carries_json() {
    assert_eq!(
        ok("{\"a\":1}".to_string()),
        Response {
            status: 200,
            headers: vec![("content-type".to_string(), "application/json".to_string())],
            body: "{\"a\":1}".to_string(),
        }
    );
}

#[test]
fn internal_server_error_carries_plain_text() {
    assert_eq!(
        internal_server_error("boom".to_string()),
        Response {
            status: 500,
            headers: vec![("content-type".to_string(), "text/plain".to_string())],
            body: "boom".to_string(),
        }
    );
}

#[test]
fn created_points_at_the_location() {
    assert_eq!(
        created("/api/profile/alice".to_string()),
        Response {
            status: 201,
            headers: vec![("location".to_string(), "/api/profile/alice".to_string())],
            body: String::new(),
        }
    );
}
