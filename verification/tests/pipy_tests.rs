use ztm_shell::pipy::{pipy_args_valid, pipy_invocation_ok, str_c_safe};

#[test]
fn text_without_nul_can_cross_into_c() {
    assert!(str_c_safe("pipy"));
    assert!(str_c_safe(""));
    assert!(str_c_safe("repo://default/proxy"));
}

#[test]
fn text_with_nul_cannot_cross_into_c() {
    assert!(!str_c_safe("pi\0py"));
    assert!(!str_c_safe("\0"));
    assert!(!str_c_safe("trailing\0"));
}

#[test]
fn an_argument_list_is_checked_item_by_item() {
    assert!(pipy_args_valid(&vec![]));
    assert!(pipy_args_valid(&vec![String::from("pipy"), String::from("--log-level=info")]));
    assert!(!pipy_args_valid(&vec![String::from("pipy"), String::from("bad\0arg")]));
}

#[test]
fn an_invocation_needs_a_matching_count() {
    let args = vec![String::from("pipy"), String::from("main.js")];
    assert!(pipy_invocation_ok(&args, 2));
    assert!(!pipy_invocation_ok(&args, 1));
    assert!(!pipy_invocation_ok(&args, 3));
    assert!(!pipy_invocation_ok(&args, -1));
}

#[test]
fn an_invocation_with_a_nul_argument_is_refused() {
    let args = vec![String::from("pipy"), String::from("bad\0arg")];
    assert!(!pipy_invocation_ok(&args, 2));
}
