use profile_api::api::{api_from_request, Api, Method};
use profile_api::model::Profile;

fn alice() -> Profile {
    Profile { id: Some("1".to_string()), handle: "alice".to_string(), avatar: None }
}

fn by_path(handle: &str) -> Profile {
    Profile { id: None, handle: handle.to_string(), avatar: None }
}

#[test]
fn post_with_profile_creates() {
    assert_eq!(api_from_request(&Method::Post, None, Some(alice())), Api::Create(alice()));
    assert_eq!(
        api_from_request(&Method::Post, Some(b"/bob".as_slice()), Some(alice())),
        Api::Create(alice())
    );
}

#[test]
fn post_without_profile_is_a_bad_request() {
    assert_eq!(api_from_request(&Method::Post, None, None), Api::BadRequest);
    assert_eq!(api_from_request(&Method::Post, Some(b"/alice".as_slice()), None), Api::BadRequest);
}

#[test]
fn put_with_profile_updates() {
    assert_eq!(api_from_request(&Method::Put, None, Some(alice())), Api::Update(alice()));
}

#[test]
fn put_without_profile_is_a_bad_request() {
    assert_eq!(api_from_request(&Method::Put, Some(b"/alice".as_slice()), None), Api::BadRequest);
}

#[test]
fn get_reads_by_the_last_segment() {
    assert_eq!(
        api_from_request(&Method::Get, Some(b"/alice".as_slice()), None),
        Api::ReadByHandle("alice".to_string())
    );
    assert_eq!(
        api_from_request(&Method::Get, Some(b"/api/profile/bob".as_slice()), Some(alice())),
        Api::ReadByHandle("bob".to_string())
    );
}

#[test]
fn get_without_handle_is_not_found_and_never_a_bad_request() {
    let not_text: [u8; 2] = [b'/', 0xff];
    let paths: [Option<&[u8]>; 5] =
        [None, Some(b"".as_slice()), Some(b"/".as_slice()), Some(b"//".as_slice()), Some(&not_text)];
    for path in paths {
        assert_eq!(api_from_request(&Method::Get, path, None), Api::NotFound);
        assert_eq!(api_from_request(&Method::Get, path, Some(alice())), Api::NotFound);
    }
}

#[test]
fn delete_removes_the_profile_that_the_path_names() {
    assert_eq!(
        api_from_request(&Method::Delete, Some(b"/alice".as_slice()), None),
        Api::Delete(by_path("alice"))
    );
    assert_eq!(
        api_from_request(&Method::Delete, Some(b"/api/profile/alice/".as_slice()), Some(alice())),
        Api::Delete(by_path("alice"))
    );
}

#[test]
fn delete_without_handle_is_not_found() {
    assert_eq!(api_from_request(&Method::Delete, None, None), Api::NotFound);
    assert_eq!(api_from_request(&Method::Delete, Some(b"/".as_slice()), None), Api::NotFound);
}

#[test]
fn other_methods_are_not_allowed() {
    let others = [
        Method::Head,
        Method::Connect,
        Method::Options,
        Method::Trace,
        Method::Patch,
        Method::Other("PURGE".to_string()),
        Method::Other("GET".to_string()),
    ];
    for method in others {
        assert_eq!(
            api_from_request(&method, Some(b"/alice".as_slice()), Some(alice())),
            Api::MethodNotAllowed
        );
        assert_eq!(api_from_request(&method, None, None), Api::MethodNotAllowed);
    }
}
