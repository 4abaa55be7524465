//! The usage model behind the popup: what it shows, when it refreshes, and
//! how a finished background fetch is taken in.
//!
//! Times are integers: wall-clock times are nanoseconds since the Unix epoch
//! (negative before it), monotonic times are nanoseconds since an arbitrary
//! fixed origin.
use vstd::prelude::*;

use crate::browser::BrowserKind;
use crate::cli::default_title;
use crate::config::Config;
use crate::cookie_jar::CookieJar;
use crate::text::str_eq;

verus! {

/// Refresh interval used when the settings name none.
pub const DEFAULT_REFRESH_SECS: u64 = 300;

/// Seconds without input after which the user counts as away.
pub const IDLE_THRESHOLD_SECS: u64 = 60;

/// Nanoseconds in a second.
pub const NANOS_PER_SEC: u64 = 1_000_000_000;

/// A cookie jar's contents, if there is one.
pub open spec fn jar_view(j: Option<CookieJar>) -> Option<Map<Seq<char>, Seq<char>>> {
    match j {
        Some(c) => Some(c@),
        None => None,
    }
}

/// The wall-clock time, in nanoseconds, of a Unix time in seconds.
pub open spec fn secs_to_nanos(secs: i64) -> int {
    secs * 1_000_000_000
}

/// A wall-clock time a system clock can hold: its seconds fit in an `i64`.
pub open spec fn valid_wall_time(t: i128) -> bool {
    i64::MIN as int * 1_000_000_000 <= t < (i64::MAX as int + 1) * 1_000_000_000
}

/// The Unix seconds stored for a wall-clock time: none before the epoch.
pub open spec fn stored_secs(t: i128) -> Option<i64> {
    if t >= 0 {
        Some((t / 1_000_000_000) as i64)
    } else {
        None
    }
}

/// `d` holds a successful response.
pub open spec fn is_success<R>(d: Option<Result<R, String>>) -> bool {
    d matches Some(Ok(_))
}

/// What a background fetch leaves for the model to take in. The tray host
/// keeps it behind a lock shared with the fetching thread.
pub struct SharedState<R> {
    pub data: Option<Result<R, String>>,
    pub fetching: bool,
    pub account_name: Option<String>,
    pub fresh_cookies: Option<CookieJar>,
}

impl<R> SharedState<R> {
    /// Nothing fetched, no fetch running.
    pub fn new() -> (r: Self)
        ensures
            r.data is None,
            !r.fetching,
            r.account_name is None,
            r.fresh_cookies is None,
    {
        SharedState { data: None, fetching: false, account_name: None, fresh_cookies: None }
    }

    /// Stores what a finished fetch produced and marks the fetch as over.
    pub fn finish_fetch(
        &mut self,
        result: Result<R, String>,
        account_name: Option<String>,
        fresh_cookies: Option<CookieJar>,
    )
        ensures
            final(self).data == Some(result),
            final(self).account_name == account_name,
            final(self).fresh_cookies == fresh_cookies,
            !final(self).fetching,
    {
        self.data = Some(result);
        self.account_name = account_name;
        self.fresh_cookies = fresh_cookies;
        self.fetching = false;
    }
}

/// What the popup learns from one poll, and what the settings should record.
pub struct PollOutcome<R> {
    /// The account's display name, when a fetch looked it up.
    pub account_name: Option<String>,
    /// The first successful response has just arrived.
    pub received_first_success: bool,
    /// Cookies to record as the cached session for the model's browser.
    pub cookies_to_save: Option<CookieJar>,
    /// A response to record as the last snapshot, with its Unix time.
    pub snapshot_to_save: Option<(R, Option<i64>)>,
}

/// What a fetching thread needs to know.
pub struct FetchRequest {
    pub cached_cookies: Option<CookieJar>,
    pub browser: BrowserKind,
    pub data_dir: Option<String>,
    pub oauth_dir: Option<String>,
    pub need_account_name: bool,
}

/// The popup's usage state.
pub struct UsageModel<R> {
    pub browser: BrowserKind,
    pub data_dir: Option<String>,
    pub oauth_dir: Option<String>,
    /// Last response: a success stays until the next success replaces it.
    pub cached_data: Option<Result<R, String>>,
    pub cached_cookies: Option<CookieJar>,
    /// Wall-clock time of the last success, in nanoseconds since the epoch.
    pub last_fetch: Option<i128>,
    /// Monotonic time at which the last fetch started, in nanoseconds.
    pub last_fetch_start: Option<u128>,
    pub refresh_secs: u64,
}

impl<R: Clone> UsageModel<R> {
    /// A model that starts from the snapshot and cookies the settings kept.
    pub fn new(
        browser: BrowserKind,
        data_dir: Option<String>,
        oauth_dir: Option<String>,
        config: &Config<R>,
        initial_cookies: Option<CookieJar>,
    ) -> (r: Self)
        requires
            config.last_usage_fetched_at matches Some(s) ==> s >= 0,
        ensures
            r.browser == browser,
            r.data_dir == data_dir,
            r.oauth_dir == oauth_dir,
            jar_view(r.cached_cookies) == jar_view(initial_cookies),
            match config.last_usage_snapshot {
                Some(s) => r.cached_data matches Some(Ok(d)) && cloned(s, d),
                None => r.cached_data is None,
            },
            match config.last_usage_fetched_at {
                Some(s) => r.last_fetch == Some(secs_to_nanos(s) as i128),
                None => r.last_fetch is None,
            },
            r.last_fetch_start is None,
            r.refresh_secs == match config.refresh_secs {
                Some(s) => s,
                None => DEFAULT_REFRESH_SECS,
            },
    {
        let cached_data = match &config.last_usage_snapshot {
            Some(s) => Some(Ok(s.clone())),
            None => None,
        };
        let last_fetch = match config.last_usage_fetched_at {
            Some(secs) => Some(secs as i128 * 1_000_000_000i128),
            None => None,
        };
        let refresh_secs = match config.refresh_secs {
            Some(s) => s,
            None => DEFAULT_REFRESH_SECS,
        };
        UsageModel {
            browser,
            data_dir,
            oauth_dir,
            cached_data,
            cached_cookies: initial_cookies,
            last_fetch,
            last_fetch_start: None,
            refresh_secs,
        }
    }

    /// Sets the refresh interval; the caller records it in the settings with
    /// `Config::record_refresh_secs`.
    pub fn set_refresh_secs(&mut self, refresh_secs: u64)
        ensures
            final(self).refresh_secs == refresh_secs,
            final(self).cached_data == old(self).cached_data,
            final(self).last_fetch == old(self).last_fetch,
            final(self).browser == old(self).browser,
            final(self).data_dir == old(self).data_dir,
            final(self).oauth_dir == old(self).oauth_dir,
            jar_view(final(self).cached_cookies) == jar_view(old(self).cached_cookies),
            final(self).last_fetch_start == old(self).last_fetch_start,
    {
        self.refresh_secs = refresh_secs;
    }

    /// Starts a fetch at monotonic time `now` unless one is already running.
    /// Returns whether the caller should launch it; it then runs the request
    /// from `fetch_request` and hands the outcome to `SharedState::finish_fetch`.
    pub fn start_fetch(&mut self, shared: &mut SharedState<R>, now: u128) -> (started: bool)
        ensures
            started == !old(shared).fetching,
            final(shared).fetching,
            final(shared).data == old(shared).data,
            final(shared).account_name == old(shared).account_name,
            final(shared).fresh_cookies == old(shared).fresh_cookies,
            final(self).last_fetch_start == if started {
                Some(now)
            } else {
                old(self).last_fetch_start
            },
            final(self).refresh_secs == old(self).refresh_secs,
            final(self).cached_data == old(self).cached_data,
            final(self).last_fetch == old(self).last_fetch,
            final(self).browser == old(self).browser,
            final(self).data_dir == old(self).data_dir,
            final(self).oauth_dir == old(self).oauth_dir,
            jar_view(final(self).cached_cookies) == jar_view(old(self).cached_cookies),
    {
        if shared.fetching {
            return false;
        }
        shared.fetching = true;
        self.last_fetch_start = Some(now);
        true
    }

    /// What a fetch started now needs: the cached cookies, the browser and
    /// directories, and whether to look up the account's name.
    pub fn fetch_request(&self, need_account_name: bool) -> (r: FetchRequest)
        ensures
            jar_view(r.cached_cookies) == jar_view(self.cached_cookies),
            r.browser == self.browser,
            r.data_dir == self.data_dir,
            r.oauth_dir == self.oauth_dir,
            r.need_account_name == need_account_name,
    {
        let cached_cookies = match &self.cached_cookies {
            Some(j) => Some(j.duplicate()),
            None => None,
        };
        FetchRequest {
            cached_cookies,
            browser: self.browser,
            data_dir: self.data_dir.clone(),
            oauth_dir: self.oauth_dir.clone(),
            need_account_name,
        }
    }

    /// Takes in what a finished fetch left in `shared`, at wall-clock time `now`.
    pub fn poll_result(&mut self, shared: &mut SharedState<R>, now: i128) -> (out: PollOutcome<R>)
        requires
            valid_wall_time(now),
        ensures
            out.account_name == old(shared).account_name,
            final(shared).account_name is None,
            final(shared).fresh_cookies is None,
            final(shared).data is None,
            final(shared).fetching == old(shared).fetching,
            jar_view(out.cookies_to_save) == jar_view(old(shared).fresh_cookies),
            jar_view(final(self).cached_cookies) == match old(shared).fresh_cookies {
                Some(j) => Some(j@),
                None => jar_view(old(self).cached_cookies),
            },
            match old(shared).data {
                Some(Ok(d)) => {
                    &&& final(self).cached_data == Some(Ok::<R, String>(d))
                    &&& final(self).last_fetch == Some(now)
                    &&& out.received_first_success == !is_success(old(self).cached_data)
                    &&& out.snapshot_to_save matches Some((s, at)) && cloned(d, s) && at
                        == stored_secs(now)
                },
                Some(Err(e)) => {
                    &&& final(self).cached_data == if is_success(old(self).cached_data) {
                        old(self).cached_data
                    } else {
                        Some(Err::<R, String>(e))
                    }
                    &&& final(self).last_fetch == old(self).last_fetch
                    &&& !out.received_first_success
                    &&& out.snapshot_to_save is None
                },
                None => {
                    &&& final(self).cached_data == old(self).cached_data
                    &&& final(self).last_fetch == old(self).last_fetch
                    &&& !out.received_first_success
                    &&& out.snapshot_to_save is None
                },
            },
            is_success(old(self).cached_data) ==> is_success(final(self).cached_data),
            final(self).refresh_secs == old(self).refresh_secs,
            final(self).browser == old(self).browser,
            final(self).data_dir == old(self).data_dir,
            final(self).oauth_dir == old(self).oauth_dir,
            final(self).last_fetch_start == old(self).last_fetch_start,
    {
        let account_name = shared.account_name.take();
        let mut cookies_to_save: Option<CookieJar> = None;
        if let Some(jar) = shared.fresh_cookies.take() {
            self.cached_cookies = Some(jar.duplicate());
            cookies_to_save = Some(jar);
        }
        let mut received_first_success = false;
        let mut snapshot_to_save: Option<(R, Option<i64>)> = None;
        if let Some(result) = shared.data.take() {
            match result {
                Ok(data) => {
                    let had_success = match &self.cached_data {
                        Some(Ok(_)) => true,
                        _ => false,
                    };
                    let copy = data.clone();
                    self.cached_data = Some(Ok(data));
                    self.last_fetch = Some(now);
                    if !had_success {
                        received_first_success = true;
                    }
                    let fetched_at = if now >= 0 {
                        Some((now / 1_000_000_000i128) as i64)
                    } else {
                        None
                    };
                    snapshot_to_save = Some((copy, fetched_at));
                },
                Err(err) => {
                    let keep_success = match &self.cached_data {
                        Some(Ok(_)) => true,
                        _ => false,
                    };
                    if !keep_success {
                        self.cached_data = Some(Err(err));
                    }
                },
            }
        }
        PollOutcome { account_name, received_first_success, cookies_to_save, snapshot_to_save }
    }

    /// A fetch is due: the user is not idle past the threshold, and either no
    /// fetch has started yet or the refresh interval has passed since the
    /// last one started. `idle_secs` is the system's idle time, if known;
    /// `now` is monotonic time.
    pub fn should_refresh(&self, idle_secs: Option<u64>, now: u128) -> (r: bool)
        ensures
            r == (!(idle_secs matches Some(i) && i > IDLE_THRESHOLD_SECS) && match self.last_fetch_start {
                Some(start) => (if now >= start {
                    now - start
                } else {
                    0
                }) >= self.refresh_secs * NANOS_PER_SEC,
                None => true,
            }),
    {
        if let Some(idle) = idle_secs {
            if idle > IDLE_THRESHOLD_SECS {
                return false;
            }
        }
        match self.last_fetch_start {
            Some(start) => {
                let elapsed: u128 = if now >= start {
                    now - start
                } else {
                    0
                };
                elapsed >= self.refresh_secs as u128 * NANOS_PER_SEC as u128
            },
            None => true,
        }
    }
}

/// Whether a fetch should also look up the account's display name for the
/// popup's title: only while the title is still the default one. A title
/// the user gave is never replaced, so no lookup is made for it.
pub fn needs_account_name(title: &str, title_explicit: bool) -> (r: bool)
    ensures
        r == (!title_explicit && title@ == default_title()),
{
    !title_explicit && str_eq(title, "Plan Usage")
}

/// A success taken in at a wall-clock time at or after the epoch is recorded
/// with Unix seconds that `UsageModel::new` accepts, and the model built
/// from them dates the data to the start of that same second.
pub proof fn lemma_snapshot_time_round_trip(now: i128)
    requires
        valid_wall_time(now),
        now >= 0,
    ensures
        stored_secs(now) matches Some(s) && s >= 0 && secs_to_nanos(s) <= now < secs_to_nanos(s)
            + 1_000_000_000,
{
}

} // verus!
