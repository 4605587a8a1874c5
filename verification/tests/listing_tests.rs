use fileserve::listing::{build_listing, list_response};
use fileserve::http::ResponseBody;

#[test]
fn listing_puts_each_name_on_its_own_line() {
    let names = vec![Some("a.txt".to_string()), Some("b.bin".to_string())];
    assert_eq!(build_listing(&names), "a.txt\nb.bin\n");
}

#[test]
fn listing_of_empty_directory_is_empty() {
    let names: Vec<Option<String>> = Vec::new();
    assert_eq!(build_listing(&names), "");
}

#[test]
fn listing_skips_entries_without_a_text_name() {
    let names = vec![Some("a.txt".to_string()), None, Some("c".to_string())];
    assert_eq!(build_listing(&names), "a.txt\nc\n");
}

#[test]
fn listing_keeps_enumeration_order() {
    let names = vec![Some("z".to_string()), Some("a".to_string())];
    assert_eq!(build_listing(&names), "z\na\n");
}

#[test]
fn repeated_listing_of_same_snapshot_is_identical() {
    let names = vec![Some("a.txt".to_string()), Some("b.bin".to_string())];
    assert_eq!(build_listing(&names), build_listing(&names));
}

#[test]
fn list_response_carries_the_listing_with_status_200() {
    let names = vec![Some("a.txt".to_string())];
    let r = list_response(Some(&names));
    assert_eq!(r.status, 200);
    match r.body {
        ResponseBody::Text(t) => assert_eq!(t, "a.txt\n"),
        _ => panic!("expected a text body"),
    }
}

#[test]
fn unreadable_directory_gets_a_server_error() {
    let r = list_response(None);
    assert_eq!(r.status, 500);
    assert!(matches!(r.body, ResponseBody::Empty));
}
