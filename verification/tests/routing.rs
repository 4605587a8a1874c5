use fileserve::http::{no_route_response, HttpMethod, ResponseBody};
use fileserve::path::resolve_path;
use fileserve::router::{route_request, Route};

#[test]
fn get_list_routes_to_lister() {
    assert!(matches!(route_request(HttpMethod::Get, "/list"), Route::ListDir));
}

#[test]
fn get_other_path_routes_to_download() {
    match route_request(HttpMethod::Get, "/a.txt") {
        Route::Download { name } => assert_eq!(name, "a.txt"),
        _ => panic!("expected the download route"),
    }
}

#[test]
fn post_routes_to_upload() {
    match route_request(HttpMethod::Post, "/c.txt") {
        Route::Upload { name } => assert_eq!(name, "c.txt"),
        _ => panic!("expected the upload route"),
    }
}

#[test]
fn post_list_routes_to_upload_of_file_named_list() {
    match route_request(HttpMethod::Post, "/list") {
        Route::Upload { name } => assert_eq!(name, "list"),
        _ => panic!("expected the upload route"),
    }
}

#[test]
fn other_method_matches_nothing() {
    assert!(matches!(route_request(HttpMethod::Other, "/a.txt"), Route::NoRoute));
    assert!(matches!(route_request(HttpMethod::Other, "/list"), Route::NoRoute));
}

#[test]
fn unmatched_request_gets_404_with_empty_body() {
    let r = no_route_response();
    assert_eq!(r.status, 404);
    assert!(matches!(r.body, ResponseBody::Empty));
}

#[test]
fn resolve_strips_exactly_one_leading_slash() {
    assert_eq!(resolve_path("/a.txt"), "a.txt");
    assert_eq!(resolve_path("/"), "");
    assert_eq!(resolve_path("//x"), "/x");
}

#[test]
fn resolve_performs_no_normalization() {
    assert_eq!(resolve_path("/../escape"), "../escape");
    assert_eq!(resolve_path("/a/./b"), "a/./b");
}
