//! The in-app browser: navigation policy and webview planning.
//!
//! The shell opens proxied webviews over arbitrary URLs. The decisions the
//! host runtime asks of it — whether a navigation may go ahead, and what a
//! request to open a page in a named webview amounts to — are computed
//! here on plain values; the code around the library performs the window
//! and webview calls it is told to.

use vstd::prelude::*;

use crate::text::str_eq;

verus! {

/// What the navigation policy reads of a URL: its scheme and its host.
pub struct UrlParts {
    pub scheme: String,
    pub host: Option<String>,
}

/// Whether URL parsing accepts the string; what it accepts depends on the
/// string alone.
pub uninterp spec fn url_ok(s: Seq<char>) -> bool;

/// Relies on url::Url::parse, Url::scheme and Url::host_str: parsing
/// accepts a string iff it is a valid URL, and the accessors hand back the
/// URL's scheme and host.
#[verifier::external_body]
pub(crate) fn parse_url_parts(s: &str) -> (r: Option<UrlParts>)
    ensures
        r is Some <==> url_ok(s@),
{
    match url::Url::parse(s) {
        Ok(u) => Some(
            UrlParts {
                scheme: String::from(u.scheme()),
                host: u.host_str().map(|h| String::from(h)),
            },
        ),
        Err(_) => None,
    }
}

/// The navigation rule of the proxy webview: a page may load when its URL
/// is served over http or https or by the host's own scheme, and, in a
/// development build, when it comes from localhost.
pub open spec fn spec_navigation_allowed(
    scheme: Seq<char>,
    host: Option<Seq<char>>,
    is_dev: bool,
) -> bool {
    ||| scheme == "http"@
    ||| scheme == "https"@
    ||| scheme == "tauri"@
    ||| (is_dev && host == Some("localhost"@))
}

/// Decide whether a navigation may go ahead.
pub fn navigation_allowed(parts: &UrlParts, is_dev: bool) -> (r: bool)
    ensures
        r == spec_navigation_allowed(parts.scheme@, parts.host.deep_view(), is_dev),
{
    if str_eq(parts.scheme.as_str(), "http") {
        return true;
    }
    if str_eq(parts.scheme.as_str(), "https") {
        return true;
    }
    if str_eq(parts.scheme.as_str(), "tauri") {
        return true;
    }
    if is_dev {
        match &parts.host {
            Some(h) => str_eq(h.as_str(), "localhost"),
            None => false,
        }
    } else {
        false
    }
}

/// What is wrong with a request to open a webview.
#[derive(Debug, Clone, Copy, PartialEq, Eq)]
pub enum BrowseError {
    /// The page URL does not parse.
    InvalidPageUrl,
    /// A proxy was given and its URL does not parse.
    InvalidProxyUrl,
}

/// Check the URLs a new webview is created from: the page URL must parse,
/// and the proxy URL, looked at only when one is given, must parse too.
pub fn check_webview_urls(page_url: &str, proxy_url: &str) -> (r: Result<(), BrowseError>)
    ensures
        r is Ok <==> url_ok(page_url@) && (proxy_url@.len() == 0 || url_ok(proxy_url@)),
        !url_ok(page_url@) ==> r == Err::<(), BrowseError>(BrowseError::InvalidPageUrl),
        url_ok(page_url@) && proxy_url@.len() != 0 && !url_ok(proxy_url@) ==> r == Err::<
            (),
            BrowseError,
        >(BrowseError::InvalidProxyUrl),
{
    if parse_url_parts(page_url).is_none() {
        return Err(BrowseError::InvalidPageUrl);
    }
    if !proxy_url.is_empty() {
        if parse_url_parts(proxy_url).is_none() {
            return Err(BrowseError::InvalidProxyUrl);
        }
    }
    Ok(())
}

/// How often the chrome script is injected again after navigating an
/// existing webview, while the page settles.
pub const NAVIGATE_INJECT_ROUNDS: u8 = 5;

/// The plan for a request to open a page in a named webview.
pub enum WebviewPlan {
    /// The webview already exists: point it at the page, then inject the
    /// chrome script the given number of times.
    Navigate { url: String, inject_rounds: u8 },
    /// No webview of that name yet: create it as a child of the window,
    /// proxied where a proxy is given, and inject the chrome script once
    /// where asked to.
    CreateChild { url: String, proxy: Option<String>, inject: bool },
}

/// Plan a request to open `page_url` in a webview. The page URL must
/// parse in either branch. An existing webview is navigated as it stands —
/// its proxying was settled when it was created, so the proxy string is
/// not read there. Only the creation of a new webview reads `proxy_url`,
/// which, where nonempty, must parse too.
pub fn plan_proxy_webview(
    webview_exists: bool,
    page_url: String,
    proxy_url: String,
    inject: bool,
) -> (r: Result<WebviewPlan, BrowseError>)
    ensures
        r is Ok <==> url_ok(page_url@) && (webview_exists || proxy_url@.len() == 0 || url_ok(
            proxy_url@,
        )),
        !url_ok(page_url@) ==> r == Err::<WebviewPlan, BrowseError>(BrowseError::InvalidPageUrl),
        url_ok(page_url@) && !webview_exists && proxy_url@.len() != 0 && !url_ok(proxy_url@)
            ==> r == Err::<WebviewPlan, BrowseError>(BrowseError::InvalidProxyUrl),
        url_ok(page_url@) && webview_exists ==> r == Ok::<WebviewPlan, BrowseError>(
            (WebviewPlan::Navigate {
                url: page_url,
                inject_rounds: if inject {
                    NAVIGATE_INJECT_ROUNDS
                } else {
                    0
                },
            }),
        ),
        r is Ok && !webview_exists ==> r->Ok_0 == (WebviewPlan::CreateChild {
            url: page_url,
            proxy: if proxy_url@.len() == 0 {
                None
            } else {
                Some(proxy_url)
            },
            inject,
        }),
{
    if parse_url_parts(page_url.as_str()).is_none() {
        return Err(BrowseError::InvalidPageUrl);
    }
    if webview_exists {
        let rounds: u8 = if inject {
            NAVIGATE_INJECT_ROUNDS
        } else {
            0
        };
        return Ok(WebviewPlan::Navigate { url: page_url, inject_rounds: rounds });
    }
    if !proxy_url.as_str().is_empty() {
        if parse_url_parts(proxy_url.as_str()).is_none() {
            return Err(BrowseError::InvalidProxyUrl);
        }
    }
    let proxy = if proxy_url.as_str().is_empty() {
        None
    } else {
        Some(proxy_url)
    };
    Ok(WebviewPlan::CreateChild { url: page_url, proxy, inject })
}

} // verus!
