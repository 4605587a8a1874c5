//! One concrete end-to-end scenario over the core logic: a directory holding
//! `a.txt` ("hello") and `b.bin` (100,000 zero bytes), listed, downloaded,
//! and extended by an upload.

use fileserve::download::run_download;
use fileserve::http::{HttpMethod, ResponseBody};
use fileserve::listing::list_response;
use fileserve::router::{route_request, Route};
use fileserve::upload::run_upload;

#[test]
fn listing_contains_both_names_each_on_its_own_line() {
    let names = vec![Some("a.txt".to_string()), Some("b.bin".to_string())];
    let r = list_response(Some(&names));
    assert_eq!(r.status, 200);
    let body = match r.body {
        ResponseBody::Text(t) => t,
        _ => panic!("expected a text body"),
    };
    assert!(body.lines().any(|l| l == "a.txt"));
    assert!(body.lines().any(|l| l == "b.bin"));
}

#[test]
fn get_a_txt_returns_hello() {
    match route_request(HttpMethod::Get, "/a.txt") {
        Route::Download { name } => assert_eq!(name, "a.txt"),
        _ => panic!("expected the download route"),
    }
    let (body, _) = run_download(&vec![b"hello".to_vec()]);
    assert_eq!(body, b"hello".to_vec());
}

#[test]
fn get_b_bin_returns_exactly_one_hundred_thousand_zero_bytes() {
    let content = vec![0u8; 100_000];
    let chunks: Vec<Vec<u8>> = content.chunks(8192).map(|c| c.to_vec()).collect();
    let (body, _) = run_download(&chunks);
    assert_eq!(body.len(), 100_000);
    assert_eq!(body, content);
}

#[test]
fn post_c_txt_then_get_c_txt_returns_world() {
    match route_request(HttpMethod::Post, "/c.txt") {
        Route::Upload { name } => assert_eq!(name, "c.txt"),
        _ => panic!("expected the upload route"),
    }
    let (stored, resp) = run_upload(&vec![b"world".to_vec()]);
    assert_eq!(resp.status, 200);
    let (body, _) = run_download(&vec![stored]);
    assert_eq!(body, b"world".to_vec());
}
