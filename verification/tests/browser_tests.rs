use ztm_shell::browser::{
    check_webview_urls, navigation_allowed, plan_proxy_webview, BrowseError, UrlParts,
    WebviewPlan, NAVIGATE_INJECT_ROUNDS,
};

fn parts(scheme: &str, host: Option<&str>) -> UrlParts {
    UrlParts { scheme: String::from(scheme), host: host.map(String::from) }
}

#[test]
fn http_https_and_tauri_pass_the_policy() {
    assert!(navigation_allowed(&parts("http", Some("example.com")), false));
    assert!(navigation_allowed(&parts("https", Some("example.com")), false));
    assert!(navigation_allowed(&parts("tauri", None), false));
}

#[test]
fn other_schemes_fail_the_policy() {
    assert!(!navigation_allowed(&parts("ftp", Some("example.com")), false));
    assert!(!navigation_allowed(&parts("file", None), false));
}

#[test]
fn localhost_passes_only_in_dev_builds() {
    assert!(navigation_allowed(&parts("ipc", Some("localhost")), true));
    assert!(!navigation_allowed(&parts("ipc", Some("localhost")), false));
    assert!(!navigation_allowed(&parts("ipc", Some("example.com")), true));
    assert!(!navigation_allowed(&parts("ipc", None), true));
}

#[test]
fn url_checks_accept_a_page_without_proxy() {
    assert_eq!(check_webview_urls("http://example.com/", ""), Ok(()));
}

#[test]
fn url_checks_refuse_a_bad_page_url() {
    assert_eq!(check_webview_urls("not a url", ""), Err(BrowseError::InvalidPageUrl));
    assert_eq!(
        check_webview_urls("not a url", "also bad"),
        Err(BrowseError::InvalidPageUrl)
    );
}

#[test]
fn url_checks_look_at_the_proxy_only_when_given() {
    assert_eq!(
        check_webview_urls("http://example.com/", "socks5://127.0.0.1:1080"),
        Ok(())
    );
    assert_eq!(
        check_webview_urls("http://example.com/", "not a url"),
        Err(BrowseError::InvalidProxyUrl)
    );
}

#[test]
fn planning_navigates_an_existing_webview() {
    let plan = plan_proxy_webview(
        true,
        String::from("http://example.com/"),
        String::from(""),
        true,
    )
    .unwrap();
    match plan {
        WebviewPlan::Navigate { url, inject_rounds } => {
            assert_eq!(url, "http://example.com/");
            assert_eq!(inject_rounds, NAVIGATE_INJECT_ROUNDS);
        }
        WebviewPlan::CreateChild { .. } => panic!("expected a navigation plan"),
    }
}

#[test]
fn planning_without_injection_asks_for_no_rounds() {
    let plan = plan_proxy_webview(
        true,
        String::from("http://example.com/"),
        String::from(""),
        false,
    )
    .unwrap();
    match plan {
        WebviewPlan::Navigate { inject_rounds, .. } => assert_eq!(inject_rounds, 0),
        WebviewPlan::CreateChild { .. } => panic!("expected a navigation plan"),
    }
}

#[test]
fn planning_creates_a_child_webview_with_the_proxy() {
    let plan = plan_proxy_webview(
        false,
        String::from("http://example.com/"),
        String::from("socks5://127.0.0.1:1080"),
        true,
    )
    .unwrap();
    match plan {
        WebviewPlan::CreateChild { url, proxy, inject } => {
            assert_eq!(url, "http://example.com/");
            assert_eq!(proxy.as_deref(), Some("socks5://127.0.0.1:1080"));
            assert!(inject);
        }
        WebviewPlan::Navigate { .. } => panic!("expected a child webview plan"),
    }
}

#[test]
fn planning_leaves_the_proxy_out_where_none_is_given() {
    let plan =
        plan_proxy_webview(false, String::from("http://example.com/"), String::from(""), false)
            .unwrap();
    match plan {
        WebviewPlan::CreateChild { proxy, inject, .. } => {
            assert!(proxy.is_none());
            assert!(!inject);
        }
        WebviewPlan::Navigate { .. } => panic!("expected a child webview plan"),
    }
}

#[test]
fn planning_refuses_bad_urls() {
    assert!(matches!(
        plan_proxy_webview(false, String::from("::"), String::from(""), false),
        Err(BrowseError::InvalidPageUrl)
    ));
    assert!(matches!(
        plan_proxy_webview(true, String::from("::"), String::from(""), false),
        Err(BrowseError::InvalidPageUrl)
    ));
    assert!(matches!(
        plan_proxy_webview(false, String::from("http://example.com/"), String::from("::"), false),
        Err(BrowseError::InvalidProxyUrl)
    ));
}

#[test]
fn an_existing_webview_navigates_whatever_the_proxy_string_holds() {
    let plan = plan_proxy_webview(
        true,
        String::from("http://example.com/"),
        String::from("::not a proxy url::"),
        true,
    )
    .unwrap();
    match plan {
        WebviewPlan::Navigate { url, inject_rounds } => {
            assert_eq!(url, "http://example.com/");
            assert_eq!(inject_rounds, NAVIGATE_INJECT_ROUNDS);
        }
        WebviewPlan::CreateChild { .. } => panic!("expected a navigation plan"),
    }
}
