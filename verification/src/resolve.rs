//! Choosing the browser whose session the popup uses at start-up.
use vstd::prelude::*;
use vstd::string::StringExecFns;

use crate::browser::{browser_name, parse_browser, parse_browser_spec, BrowserKind};
use crate::cli::CliOptions;
use crate::cookie_jar::{session_cookie_name, CookieJar};
use crate::cookies::{cookie_error_text, CookieError};
use crate::platform::Platform;
use crate::usage_state::jar_view;

verus! {

/// How the start-up browser is to be found. In every case the cookies the
/// settings cached stay in use unless an explicit read replaces them.
#[derive(Clone, Copy, Debug, PartialEq, Eq, Structural)]
pub enum ResolvePlan {
    /// Read this browser's cookies (after asking for elevation, if
    /// `elevate_first`; a refusal ends the program) and hand the result to
    /// `finish_explicit_read`.
    ReadExplicit { browser: BrowserKind, elevate_first: bool },
    /// Use this browser.
    Use(BrowserKind),
    /// Detect a browser with a session; if there is none, the program ends
    /// with `no_session_message`.
    DetectOrExit,
    /// Detect a browser with a session; if there is none, use Firefox.
    DetectOrFirefox,
}

/// The message the program ends with when no browser holds a session for
/// `domain`.
pub fn no_session_message(domain: &str) -> (r: String)
    ensures
        r@ == "No "@ + domain@ + " session found in any supported browser."@,
{
    let mut m = String::from_str("No ");
    m.append(domain);
    m.append(" session found in any supported browser.");
    m
}

/// The browser the settings name, if `p` knows it.
pub open spec fn cached_browser_spec(p: Platform, cached: Option<String>) -> Option<BrowserKind> {
    match cached {
        Some(s) => match parse_browser_spec(p, s@) {
            Ok(b) => Some(b),
            Err(_) => None,
        },
        None => None,
    }
}

/// The cached cookies hold a session.
pub open spec fn has_cached_session(cached: Option<CookieJar>) -> bool {
    cached matches Some(j) && j@.contains_key(session_cookie_name())
}

/// The plan for `options` given the settings' cached cookies and browser
/// and whether OAuth credentials exist.
pub open spec fn plan_spec(
    p: Platform,
    browser: Option<BrowserKind>,
    cached_cookies: Option<CookieJar>,
    cached_browser: Option<String>,
    has_oauth: bool,
) -> ResolvePlan {
    let session = has_cached_session(cached_cookies);
    let cached = cached_browser_spec(p, cached_browser);
    match browser {
        Some(b) => if session {
            ResolvePlan::Use(b)
        } else {
            ResolvePlan::ReadExplicit {
                browser: b,
                elevate_first: p == Platform::Windows && (b == BrowserKind::Chrome || b
                    == BrowserKind::Brave || b == BrowserKind::Edge),
            }
        },
        None => if session {
            match cached {
                Some(c) => ResolvePlan::Use(c),
                None => ResolvePlan::DetectOrExit,
            }
        } else if has_oauth {
            match cached {
                Some(c) => ResolvePlan::Use(c),
                None => ResolvePlan::DetectOrFirefox,
            }
        } else {
            ResolvePlan::DetectOrExit
        },
    }
}

/// Decides how to find the start-up browser.
pub fn plan_browser(
    p: Platform,
    options: &CliOptions,
    cached_cookies: &Option<CookieJar>,
    cached_browser: &Option<String>,
    has_oauth: bool,
) -> (r: ResolvePlan)
    ensures
        r == plan_spec(p, options.browser, *cached_cookies, *cached_browser, has_oauth),
{
    let session = match cached_cookies {
        Some(j) => j.has_session(),
        None => false,
    };
    let cached = match cached_browser {
        Some(s) => match parse_browser(p, s.as_str()) {
            Ok(b) => Some(b),
            Err(_) => None,
        },
        None => None,
    };
    match options.browser {
        Some(b) => if session {
            ResolvePlan::Use(b)
        } else {
            ResolvePlan::ReadExplicit { browser: b, elevate_first: p == Platform::Windows && b.is_chromium() }
        },
        None => if session {
            match cached {
                Some(c) => ResolvePlan::Use(c),
                None => ResolvePlan::DetectOrExit,
            }
        } else if has_oauth {
            match cached {
                Some(c) => ResolvePlan::Use(c),
                None => ResolvePlan::DetectOrFirefox,
            }
        } else {
            ResolvePlan::DetectOrExit
        },
    }
}

/// The message the program ends with when the chosen browser has no session.
pub open spec fn no_session_in(domain: Seq<char>, b: BrowserKind) -> Seq<char> {
    "No "@ + domain + " session found in "@ + browser_name(b) + "."@
}

/// The message the program ends with when the chosen browser's store fails.
pub open spec fn read_failed_in(b: BrowserKind, e: CookieError) -> Seq<char> {
    "Error reading "@ + browser_name(b) + " cookies: "@ + cookie_error_text(e@)
}

/// Takes the result of reading an explicitly chosen browser's cookies for
/// `domain`. A session
/// found replaces the cached cookies. Without OAuth credentials to fall back
/// on, a store without a session or a failed read ends the program with the
/// returned message; with them, the cached cookies stay.
pub fn finish_explicit_read(
    browser: BrowserKind,
    domain: &str,
    has_oauth: bool,
    read: Result<CookieJar, CookieError>,
    cached_cookies: Option<CookieJar>,
) -> (r: Result<Option<CookieJar>, String>)
    ensures
        match read {
            Ok(j) => if j@.contains_key(session_cookie_name()) {
                r matches Ok(Some(k)) && k@ == j@
            } else if !has_oauth {
                r matches Err(m) && m@ == no_session_in(domain@, browser)
            } else {
                r matches Ok(c) && jar_view(c) == jar_view(cached_cookies)
            },
            Err(e) => if !has_oauth {
                r matches Err(m) && m@ == read_failed_in(browser, e)
            } else {
                r matches Ok(c) && jar_view(c) == jar_view(cached_cookies)
            },
        },
{
    match read {
        Ok(j) => {
            if j.has_session() {
                Ok(Some(j))
            } else if !has_oauth {
                let mut m = String::from_str("No ");
                m.append(domain);
                m.append(" session found in ");
                m.append(browser.name());
                m.append(".");
                Err(m)
            } else {
                Ok(cached_cookies)
            }
        },
        Err(e) => {
            if !has_oauth {
                let mut m = String::from_str("Error reading ");
                m.append(browser.name());
                m.append(" cookies: ");
                m.append(e.message().as_str());
                Err(m)
            } else {
                Ok(cached_cookies)
            }
        },
    }
}

/// An explicit read is planned only for the browser the user named, and
/// administrator rights are asked for first exactly when that browser is a
/// Chromium one (Chrome, Brave, Edge) on Windows: never for Firefox or
/// Safari, and never elsewhere.
pub proof fn lemma_plan_elevates_only_chromium_on_windows(
    p: Platform,
    browser: Option<BrowserKind>,
    cached_cookies: Option<CookieJar>,
    cached_browser: Option<String>,
    has_oauth: bool,
)
    ensures
        plan_spec(p, browser, cached_cookies, cached_browser, has_oauth) matches ResolvePlan::ReadExplicit {
            browser: b,
            elevate_first,
        } ==> browser == Some(b) && elevate_first == (p == Platform::Windows && b != BrowserKind::Firefox
            && b != BrowserKind::Safari),
        p != Platform::Windows ==> !(plan_spec(p, browser, cached_cookies, cached_browser, has_oauth) matches ResolvePlan::ReadExplicit {
            elevate_first: true,
            ..
        }),
{
}

} // verus!
