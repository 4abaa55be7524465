//! One background fetch of the usage data, with its fallbacks: OAuth
//! credentials first, then the cached browser cookies, then cookies read
//! afresh from the browser. The caller performs each action and reports
//! what happened; this module decides the next step.
use vstd::prelude::*;
use vstd::string::StringExecFns;

use crate::browser::{is_chromium_spec, BrowserKind};
use crate::cookie_jar::CookieJar;
use crate::cli::opt_view;
use crate::cookies::{is_read_of, read_cookies, CookieError, CookieRead};
use crate::platform::Platform;

verus! {

/// Which cookie jar an action uses.
#[derive(Clone, Copy, Debug, PartialEq, Eq, Structural)]
pub enum JarChoice {
    /// The cookies cached from an earlier run.
    Cached,
    /// The cookies just read from the browser.
    Fresh,
}

/// What the fetch is waiting for.
#[derive(Clone, Copy, Debug, PartialEq, Eq, Structural)]
pub enum FetchPhase {
    Token,
    OAuth,
    Cached,
    CachedName,
    Browser,
    Elevation,
    Fresh,
    FreshName,
    Done,
}

/// Progress of one fetch.
pub struct FetchState<R> {
    pub platform: Platform,
    pub browser: BrowserKind,
    /// The site whose cookies are read from the browser.
    pub domain: String,
    /// A browser data directory given in place of the defaults.
    pub data_dir: Option<String>,
    /// Whether to look up the account's display name.
    pub need_name: bool,
    pub cached: Option<CookieJar>,
    pub fresh: Option<CookieJar>,
    /// A response waiting for the account name lookup.
    pub pending: Option<Result<R, String>>,
    pub phase: FetchPhase,
}

/// What the caller reports after performing an action.
pub enum FetchEvent<R> {
    /// The OAuth access token, if credentials exist.
    TokenRead(Option<String>),
    /// The usage and e-mail address from the OAuth API, or `None` on failure.
    OAuthFetched(Option<(R, Option<String>)>),
    /// The usage from the cookie API, or the failure's description.
    CookieFetched(Result<R, String>),
    /// The account's display name, if the lookup succeeded.
    NameFetched(Option<String>),
    /// The cookies read from the browser.
    CookiesRead(Result<CookieJar, CookieError>),
    /// The elevation request was made.
    Elevated,
}

/// What the caller is to do next.
pub enum FetchAction<R> {
    /// Read the OAuth access token from the credentials directory.
    ReadOAuthToken,
    /// Fetch the usage with this OAuth token.
    FetchWithOAuth(String),
    /// Fetch the usage with this jar's cookies.
    FetchWithCookies(JarChoice),
    /// Look up the account's display name with this jar's cookies.
    FetchAccountName(JarChoice),
    /// Read the cookies this request names.
    ReadCookies(CookieRead),
    /// Explain and request elevation (Windows), then report `Elevated`.
    ElevateWithMessage(&'static str),
    /// The fetch is over: the response, the account name, and the cookies to
    /// cache when fresh cookies were read and accepted.
    Finish(Result<R, String>, Option<String>, Option<CookieJar>),
}

/// The message shown when elevation is needed to read the browser again.
pub open spec fn elevation_message_spec(had_cached: bool) -> Seq<char> {
    if had_cached {
        "Your session cookie has expired. Plan Usage needs administrator access to re-read cookies from the browser.\n\nThe app will restart with the required permissions."@
    } else {
        "Chrome, Edge, and Brave lock their cookie databases and use App-Bound Encryption. Plan Usage needs administrator access to read and decrypt them.\n\nWindows will prompt for permission next."@
    }
}

/// The explanation shown before elevating: the cached session expired, or
/// (with nothing cached) the first read of a Chromium store.
pub fn elevation_message(had_cached: bool) -> (r: &'static str)
    ensures
        r@ == elevation_message_spec(had_cached),
{
    if had_cached {
        "Your session cookie has expired. Plan Usage needs administrator access to re-read cookies from the browser.\n\nThe app will restart with the required permissions."
    } else {
        "Chrome, Edge, and Brave lock their cookie databases and use App-Bound Encryption. Plan Usage needs administrator access to read and decrypt them.\n\nWindows will prompt for permission next."
    }
}

/// The failure reported when the browser's cookies cannot be read.
pub open spec fn unreadable_message() -> Seq<char> {
    "Could not read cookies from browser"@
}

/// The event that phase `ph` waits for.
pub open spec fn fetch_expects<R>(ph: FetchPhase, e: FetchEvent<R>) -> bool {
    match (ph, e) {
        (FetchPhase::Token, FetchEvent::TokenRead(_)) => true,
        (FetchPhase::OAuth, FetchEvent::OAuthFetched(_)) => true,
        (FetchPhase::Cached, FetchEvent::CookieFetched(_)) => true,
        (FetchPhase::CachedName, FetchEvent::NameFetched(_)) => true,
        (FetchPhase::Browser, FetchEvent::CookiesRead(_)) => true,
        (FetchPhase::Elevation, FetchEvent::Elevated) => true,
        (FetchPhase::Fresh, FetchEvent::CookieFetched(_)) => true,
        (FetchPhase::FreshName, FetchEvent::NameFetched(_)) => true,
        _ => false,
    }
}

/// A state the fetch can be in.
pub open spec fn fetch_valid<R>(s: FetchState<R>) -> bool {
    &&& (s.phase == FetchPhase::Cached || s.phase == FetchPhase::CachedName) ==> s.cached is Some
    &&& (s.phase == FetchPhase::Fresh || s.phase == FetchPhase::FreshName) ==> s.fresh is Some
    &&& (s.phase == FetchPhase::CachedName || s.phase == FetchPhase::FreshName) ==> s.pending is Some
    &&& (s.phase == FetchPhase::CachedName || s.phase == FetchPhase::FreshName) ==> s.need_name
}

/// The state once the OAuth route is given up: the cached cookies are tried
/// next if there are any, else the browser's store.
pub open spec fn after_oauth_phase<R>(s: FetchState<R>) -> FetchPhase {
    if s.cached is Some {
        FetchPhase::Cached
    } else {
        FetchPhase::Browser
    }
}

/// `a` starts the route after OAuth in state `s`.
pub open spec fn is_after_oauth_action<R>(s: FetchState<R>, a: FetchAction<R>) -> bool {
    if s.cached is Some {
        a matches FetchAction::FetchWithCookies(JarChoice::Cached)
    } else {
        reads_for(s, a)
    }
}

/// `a` reads the browser's cookies of the fetch's domain, from its data
/// directory when one was given.
pub open spec fn reads_for<R>(s: FetchState<R>, a: FetchAction<R>) -> bool {
    a matches FetchAction::ReadCookies(r) && is_read_of(r, s.browser, s.domain@, opt_view(s.data_dir))
}

/// `t` keeps the fields of `s` that a step does not change.
pub open spec fn same_setup<R>(s: FetchState<R>, t: FetchState<R>) -> bool {
    &&& t.platform == s.platform
    &&& t.browser == s.browser
    &&& t.domain == s.domain
    &&& t.data_dir == s.data_dir
    &&& t.need_name == s.need_name
    &&& t.cached == s.cached
}

impl<R> FetchState<R> {
    /// A fetch for `browser` on `p`, starting from the cached cookies, if any.
    /// Its first action is `ReadOAuthToken`.
    pub fn new(
        p: Platform,
        browser: BrowserKind,
        domain: String,
        data_dir: Option<String>,
        need_name: bool,
        cached: Option<CookieJar>,
    ) -> (r: (Self, FetchAction<R>))
        ensures
            r.0.platform == p,
            r.0.browser == browser,
            r.0.domain == domain,
            r.0.data_dir == data_dir,
            r.0.need_name == need_name,
            r.0.cached == cached,
            r.0.fresh is None,
            r.0.pending is None,
            r.0.phase == FetchPhase::Token,
            r.1 matches FetchAction::ReadOAuthToken,
            fetch_valid(r.0),
    {
        (
            FetchState {
                platform: p,
                browser,
                domain,
                data_dir,
                need_name,
                cached,
                fresh: None,
                pending: None,
                phase: FetchPhase::Token,
            },
            FetchAction::ReadOAuthToken,
        )
    }

    /// The jar an action names.
    pub fn jar(&self, which: JarChoice) -> (r: &CookieJar)
        requires
            which == JarChoice::Cached ==> self.cached is Some,
            which == JarChoice::Fresh ==> self.fresh is Some,
        ensures
            which == JarChoice::Cached ==> Some(*r) == self.cached,
            which == JarChoice::Fresh ==> Some(*r) == self.fresh,
    {
        match which {
            JarChoice::Cached => self.cached.as_ref().unwrap(),
            JarChoice::Fresh => self.fresh.as_ref().unwrap(),
        }
    }

    fn read_action(&self) -> (a: FetchAction<R>)
        ensures
            reads_for(*self, a),
    {
        let data_dir = match &self.data_dir {
            Some(d) => Some(d.as_str()),
            None => None,
        };
        FetchAction::ReadCookies(read_cookies(self.browser, self.domain.as_str(), data_dir))
    }

    fn after_oauth(&mut self) -> (a: FetchAction<R>)
        ensures
            *final(self) == (FetchState { phase: after_oauth_phase(*old(self)), ..*old(self) }),
            is_after_oauth_action(*old(self), a),
    {
        if self.cached.is_some() {
            self.phase = FetchPhase::Cached;
            FetchAction::FetchWithCookies(JarChoice::Cached)
        } else {
            self.phase = FetchPhase::Browser;
            self.read_action()
        }
    }

    /// Takes the outcome of the last action; returns the next one.
    pub fn step(&mut self, e: FetchEvent<R>) -> (a: FetchAction<R>)
        requires
            fetch_valid(*old(self)),
            fetch_expects(old(self).phase, e),
        ensures
            fetch_valid(*final(self)),
            same_setup(*old(self), *final(self)),
            // Without a name to look up, no lookup is made and none is reported.
            !old(self).need_name ==> !(a is FetchAccountName),
            !old(self).need_name ==> (a matches FetchAction::Finish(_, n, _) ==> n is None),
            // Cookies read afresh are handed back only with a response they won.
            a matches FetchAction::Finish(res, _, Some(_)) ==> res is Ok,
            match e {
                FetchEvent::TokenRead(Some(tok)) => a == FetchAction::<R>::FetchWithOAuth(tok)
                    && final(self).phase == FetchPhase::OAuth,
                FetchEvent::TokenRead(None) => is_after_oauth_action(*old(self), a)
                    && final(self).phase == after_oauth_phase(*old(self)),
                FetchEvent::OAuthFetched(Some((d, email))) => a == FetchAction::Finish(
                    Ok::<R, String>(d),
                    if old(self).need_name {
                        email
                    } else {
                        None
                    },
                    None,
                ) && final(self).phase == FetchPhase::Done,
                FetchEvent::OAuthFetched(None) => is_after_oauth_action(*old(self), a)
                    && final(self).phase == after_oauth_phase(*old(self)),
                FetchEvent::CookieFetched(res) => if old(self).phase == FetchPhase::Cached {
                    match res {
                        Ok(d) => if old(self).need_name {
                            a == FetchAction::<R>::FetchAccountName(JarChoice::Cached)
                                && final(self).pending == Some(Ok::<R, String>(d))
                                && final(self).phase == FetchPhase::CachedName
                        } else {
                            a == FetchAction::Finish(Ok::<R, String>(d), None, None)
                                && final(self).phase == FetchPhase::Done
                        },
                        Err(_) => reads_for(*old(self), a) && final(self).phase == FetchPhase::Browser,
                    }
                } else if old(self).need_name {
                    a == FetchAction::<R>::FetchAccountName(JarChoice::Fresh) && final(self).pending
                        == Some(res) && final(self).fresh == old(self).fresh && final(self).phase
                        == FetchPhase::FreshName
                } else {
                    a == FetchAction::Finish(res, None, if res is Ok {
                        old(self).fresh
                    } else {
                        None
                    }) && final(self).phase == FetchPhase::Done
                },
                FetchEvent::NameFetched(n) => final(self).phase == FetchPhase::Done && if old(
                    self,
                ).phase == FetchPhase::CachedName {
                    a == FetchAction::Finish(old(self).pending->0, n, None)
                } else {
                    a == FetchAction::Finish(old(self).pending->0, n, if old(self).pending->0 is Ok {
                        old(self).fresh
                    } else {
                        None
                    })
                },
                FetchEvent::CookiesRead(Ok(jar)) => a == FetchAction::<R>::FetchWithCookies(
                    JarChoice::Fresh,
                ) && final(self).fresh == Some(jar) && final(self).phase == FetchPhase::Fresh,
                FetchEvent::CookiesRead(Err(_)) => if old(self).platform == Platform::Windows
                    && is_chromium_spec(old(self).browser) {
                    a matches FetchAction::ElevateWithMessage(m) && m@ == elevation_message_spec(
                        old(self).cached is Some,
                    ) && final(self).phase == FetchPhase::Elevation
                } else {
                    a matches FetchAction::Finish(Err(m), None, None) && m@ == unreadable_message()
                        && final(self).phase == FetchPhase::Done
                },
                FetchEvent::Elevated => a matches FetchAction::Finish(Err(m), None, None) && m@
                    == unreadable_message() && final(self).phase == FetchPhase::Done,
            },
    {
        match e {
            FetchEvent::TokenRead(t) => match t {
                Some(tok) => {
                    self.phase = FetchPhase::OAuth;
                    FetchAction::FetchWithOAuth(tok)
                },
                None => self.after_oauth(),
            },
            FetchEvent::OAuthFetched(o) => match o {
                Some((d, email)) => {
                    self.phase = FetchPhase::Done;
                    let name = if self.need_name {
                        email
                    } else {
                        None
                    };
                    FetchAction::Finish(Ok(d), name, None)
                },
                None => self.after_oauth(),
            },
            FetchEvent::CookieFetched(res) => {
                if self.phase == FetchPhase::Cached {
                    match res {
                        Ok(d) => {
                            if self.need_name {
                                self.pending = Some(Ok(d));
                                self.phase = FetchPhase::CachedName;
                                FetchAction::FetchAccountName(JarChoice::Cached)
                            } else {
                                self.phase = FetchPhase::Done;
                                FetchAction::Finish(Ok(d), None, None)
                            }
                        },
                        Err(_) => {
                            self.phase = FetchPhase::Browser;
                            self.read_action()
                        },
                    }
                } else if self.need_name {
                    self.pending = Some(res);
                    self.phase = FetchPhase::FreshName;
                    FetchAction::FetchAccountName(JarChoice::Fresh)
                } else {
                    self.phase = FetchPhase::Done;
                    let fresh = self.fresh.take();
                    let keep = if res.is_ok() {
                        fresh
                    } else {
                        None
                    };
                    FetchAction::Finish(res, None, keep)
                }
            },
            FetchEvent::NameFetched(n) => {
                let res = self.pending.take().unwrap();
                if self.phase == FetchPhase::CachedName {
                    self.phase = FetchPhase::Done;
                    FetchAction::Finish(res, n, None)
                } else {
                    self.phase = FetchPhase::Done;
                    let fresh = self.fresh.take();
                    let keep = if res.is_ok() {
                        fresh
                    } else {
                        None
                    };
                    FetchAction::Finish(res, n, keep)
                }
            },
            FetchEvent::CookiesRead(r) => match r {
                Ok(jar) => {
                    self.fresh = Some(jar);
                    self.phase = FetchPhase::Fresh;
                    FetchAction::FetchWithCookies(JarChoice::Fresh)
                },
                Err(_) => {
                    if self.platform == Platform::Windows && self.browser.is_chromium() {
                        self.phase = FetchPhase::Elevation;
                        FetchAction::ElevateWithMessage(elevation_message(self.cached.is_some()))
                    } else {
                        self.phase = FetchPhase::Done;
                        FetchAction::Finish(
                            Err(String::from_str("Could not read cookies from browser")),
                            None,
                            None,
                        )
                    }
                },
            },
            FetchEvent::Elevated => {
                self.phase = FetchPhase::Done;
                FetchAction::Finish(
                    Err(String::from_str("Could not read cookies from browser")),
                    None,
                    None,
                )
            },
        }
    }
}

} // verus!
