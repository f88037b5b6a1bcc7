use ztm_shell::models::{FileInfo, ShareRequest, ShareResponse};
use ztm_shell::text::str_eq;

#[test]
fn a_default_file_is_empty() {
    let file = FileInfo::default();
    assert_eq!(file.name, "");
    assert_eq!(file.size, 0);
    assert_eq!(file.mime, "");
    assert!(file.data.is_empty());
}

#[test]
fn a_default_response_has_nothing_filled_in() {
    let response = ShareResponse::default();
    assert!(response.value.is_none());
    assert!(response.files.is_none());
    assert!(response.paths.is_none());
}

#[test]
fn a_request_carries_its_fields() {
    let request = ShareRequest {
        path: Some(String::from("/tmp/shared.txt")),
        mime: Some(String::from("text/plain")),
        group: None,
    };
    assert_eq!(request.path.as_deref(), Some("/tmp/shared.txt"));
    assert_eq!(request.mime.as_deref(), Some("text/plain"));
    assert!(request.group.is_none());
}

#[test]
fn string_equality_is_by_characters() {
    assert!(str_eq("", ""));
    assert!(str_eq("abc", "abc"));
    assert!(!str_eq("abc", "abd"));
    assert!(!str_eq("abc", "abcd"));
    assert!(str_eq("na\u{ef}ve", "na\u{ef}ve"));
    assert!(!str_eq("na\u{ef}ve", "naive"));
}
