use ztm_shell::chrome::{
    chrome_css, chrome_html, dom_script, init_script, nav_script, proxy_webview_script,
    CHROME_CSS, CHROME_HTML, DOM_SCRIPT_HEAD, DOM_SCRIPT_MID, DOM_SCRIPT_TAIL,
    INIT_SCRIPT_HEAD, INIT_SCRIPT_MID, INIT_SCRIPT_TAIL, NAV_SCRIPT_AFTER_LABEL,
    NAV_SCRIPT_AFTER_NAME, NAV_SCRIPT_HEAD, NAV_SCRIPT_TAIL,
};

#[test]
fn the_style_and_markup_are_the_fixed_texts() {
    assert_eq!(chrome_css(), CHROME_CSS);
    assert_eq!(chrome_html(), CHROME_HTML);
    assert!(CHROME_CSS.contains(".ztm-container"));
    assert!(CHROME_HTML.contains("go-back"));
    assert!(CHROME_HTML.contains("ztm-history"));
}

#[test]
fn the_dom_script_splices_style_and_markup() {
    let r = dom_script("MY-CSS", "MY-HTML");
    let expected = format!(
        "{}MY-CSS{}MY-HTML{}",
        DOM_SCRIPT_HEAD, DOM_SCRIPT_MID, DOM_SCRIPT_TAIL
    );
    assert_eq!(r, expected);
}

#[test]
fn the_nav_script_splices_name_label_and_proxy() {
    let r = nav_script("my_name", "my_label", "socks5://127.0.0.1:1080");
    let expected = format!(
        "{}my_name{}my_label{}socks5://127.0.0.1:1080{}",
        NAV_SCRIPT_HEAD, NAV_SCRIPT_AFTER_NAME, NAV_SCRIPT_AFTER_LABEL, NAV_SCRIPT_TAIL
    );
    assert_eq!(r, expected);
    assert!(r.contains(r#"name: name || "my_name""#));
    assert!(r.contains(r#"label: label || "my_label""#));
    assert!(r.contains(r#"proxy: "socks5://127.0.0.1:1080""#));
}

#[test]
fn the_outer_script_splices_its_two_parts() {
    let r = init_script("DOM-PART", "NAV-PART");
    let expected = format!(
        "{}DOM-PART{}NAV-PART{}",
        INIT_SCRIPT_HEAD, INIT_SCRIPT_MID, INIT_SCRIPT_TAIL
    );
    assert_eq!(r, expected);
}

#[test]
fn the_whole_chrome_script_is_the_full_assembly() {
    let r = proxy_webview_script("a_name", "a_label", "socks5://localhost:1080");
    let dom = format!(
        "{}{}{}{}{}",
        DOM_SCRIPT_HEAD, CHROME_CSS, DOM_SCRIPT_MID, CHROME_HTML, DOM_SCRIPT_TAIL
    );
    let nav = format!(
        "{}a_name{}a_label{}socks5://localhost:1080{}",
        NAV_SCRIPT_HEAD, NAV_SCRIPT_AFTER_NAME, NAV_SCRIPT_AFTER_LABEL, NAV_SCRIPT_TAIL
    );
    let expected = format!(
        "{}{}{}{}{}",
        INIT_SCRIPT_HEAD, dom, INIT_SCRIPT_MID, nav, INIT_SCRIPT_TAIL
    );
    assert_eq!(r, expected);
    assert!(r.contains("create_proxy_webview"));
    assert!(r.contains("get_store_list"));
    assert!(r.contains("push_store_list"));
    assert!(r.contains("set_store_list"));
}
