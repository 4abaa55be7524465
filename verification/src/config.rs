//! Persisted settings and where they live.
use vstd::prelude::*;

use crate::browser::{browser_name, BrowserKind};
use crate::cookie_jar::CookieJar;
use crate::platform::{join_path, join_spec, Platform};

verus! {

/// Settings kept between runs. `R` is the usage response kept as the last
/// snapshot; the library never looks inside it.
pub struct Config<R> {
    pub refresh_secs: Option<u64>,
    pub always_on_top: Option<bool>,
    pub all_workspaces: Option<bool>,
    /// Executable path that last showed the Chromium permission explanation,
    /// so it is not shown again to the same binary.
    pub chromium_prompted_exe: Option<String>,
    /// Browser cookies kept so the browser store need not be read again on
    /// every launch; read again only when the server rejects them.
    pub cached_cookies: Option<CookieJar>,
    /// Which browser the cached cookies came from.
    pub cached_browser: Option<String>,
    /// Last successful usage response, shown at once when the popup opens.
    pub last_usage_snapshot: Option<R>,
    /// Unix time in seconds of the last successful usage response.
    pub last_usage_fetched_at: Option<i64>,
}

impl<R> Default for Config<R> {
    fn default() -> (r: Self)
        ensures
            r.refresh_secs is None,
            r.always_on_top is None,
            r.all_workspaces is None,
            r.chromium_prompted_exe is None,
            r.cached_cookies is None,
            r.cached_browser is None,
            r.last_usage_snapshot is None,
            r.last_usage_fetched_at is None,
    {
        Config {
            refresh_secs: None,
            always_on_top: None,
            all_workspaces: None,
            chromium_prompted_exe: None,
            cached_cookies: None,
            cached_browser: None,
            last_usage_snapshot: None,
            last_usage_fetched_at: None,
        }
    }
}

impl<R> Config<R> {
    /// Records the chosen refresh interval.
    pub fn record_refresh_secs(&mut self, secs: u64)
        ensures
            final(self).refresh_secs == Some(secs),
            final(self).always_on_top == old(self).always_on_top,
            final(self).all_workspaces == old(self).all_workspaces,
            final(self).chromium_prompted_exe == old(self).chromium_prompted_exe,
            final(self).cached_cookies == old(self).cached_cookies,
            final(self).cached_browser == old(self).cached_browser,
            final(self).last_usage_snapshot == old(self).last_usage_snapshot,
            final(self).last_usage_fetched_at == old(self).last_usage_fetched_at,
    {
        self.refresh_secs = Some(secs);
    }

    /// Records cookies that the server accepted and the browser they came from.
    pub fn record_cookies(&mut self, jar: CookieJar, browser: BrowserKind)
        ensures
            final(self).cached_cookies == Some(jar),
            final(self).cached_browser matches Some(b) && b@ == browser_name(browser),
            final(self).refresh_secs == old(self).refresh_secs,
            final(self).always_on_top == old(self).always_on_top,
            final(self).all_workspaces == old(self).all_workspaces,
            final(self).chromium_prompted_exe == old(self).chromium_prompted_exe,
            final(self).last_usage_snapshot == old(self).last_usage_snapshot,
            final(self).last_usage_fetched_at == old(self).last_usage_fetched_at,
    {
        self.cached_cookies = Some(jar);
        self.cached_browser = Some(browser.to_string());
    }

    /// Records a successful usage response and when it arrived.
    pub fn record_snapshot(&mut self, data: R, fetched_at: Option<i64>)
        ensures
            final(self).last_usage_snapshot == Some(data),
            final(self).last_usage_fetched_at == fetched_at,
            final(self).refresh_secs == old(self).refresh_secs,
            final(self).always_on_top == old(self).always_on_top,
            final(self).all_workspaces == old(self).all_workspaces,
            final(self).chromium_prompted_exe == old(self).chromium_prompted_exe,
            final(self).cached_cookies == old(self).cached_cookies,
            final(self).cached_browser == old(self).cached_browser,
    {
        self.last_usage_snapshot = Some(data);
        self.last_usage_fetched_at = fetched_at;
    }

    /// Records the executable that showed the Chromium permission explanation.
    pub fn record_prompted_exe(&mut self, exe: Option<String>)
        ensures
            final(self).chromium_prompted_exe == exe,
            final(self).refresh_secs == old(self).refresh_secs,
            final(self).always_on_top == old(self).always_on_top,
            final(self).all_workspaces == old(self).all_workspaces,
            final(self).cached_cookies == old(self).cached_cookies,
            final(self).cached_browser == old(self).cached_browser,
            final(self).last_usage_snapshot == old(self).last_usage_snapshot,
            final(self).last_usage_fetched_at == old(self).last_usage_fetched_at,
    {
        self.chromium_prompted_exe = exe;
    }
}

/// Environment values that locate the per-user directories.
pub struct EnvDirs {
    /// `HOME` (not consulted on Windows).
    pub home: Option<String>,
    /// `XDG_CONFIG_HOME`, when set to valid Unicode.
    pub xdg_config_home: Option<String>,
    /// `XDG_DATA_HOME`, when set to valid Unicode.
    pub xdg_data_home: Option<String>,
    /// `APPDATA` (Windows).
    pub app_data: Option<String>,
    /// `LOCALAPPDATA` (Windows).
    pub local_app_data: Option<String>,
}

/// An optional base path with `rel` joined on.
pub open spec fn join_opt(p: Platform, base: Option<String>, rel: Seq<char>) -> Option<Seq<char>> {
    match base {
        Some(b) => Some(join_spec(p, b@, rel)),
        None => None,
    }
}

/// The per-user configuration directory on `p`.
pub open spec fn config_dir_spec(p: Platform, env: EnvDirs) -> Option<Seq<char>> {
    match p {
        Platform::Linux => match env.xdg_config_home {
            Some(x) => Some(x@),
            None => join_opt(p, env.home, ".config"@),
        },
        Platform::MacOs => join_opt(p, env.home, "Library/Application Support"@),
        Platform::Windows => match env.app_data {
            Some(a) => Some(a@),
            None => None,
        },
        Platform::Other => None,
    }
}

/// The widget's own directory inside the configuration directory.
pub open spec fn config_root_spec(p: Platform, env: EnvDirs) -> Option<Seq<char>> {
    match config_dir_spec(p, env) {
        Some(d) => Some(join_spec(p, d, "SmartAppsCo/plan-usage-widget"@)),
        None => None,
    }
}

/// `rel` inside the widget's directory.
pub open spec fn in_config_root(p: Platform, env: EnvDirs, rel: Seq<char>) -> Option<Seq<char>> {
    match config_root_spec(p, env) {
        Some(d) => Some(join_spec(p, d, rel)),
        None => None,
    }
}

/// The text of an optional result path.
pub open spec fn path_view(o: Option<String>) -> Option<Seq<char>> {
    match o {
        Some(s) => Some(s@),
        None => None,
    }
}

fn join_opt_exec(p: Platform, base: &Option<String>, rel: &str) -> (r: Option<String>)
    ensures
        path_view(r) == join_opt(p, *base, rel@),
{
    match base {
        Some(b) => Some(join_path(p, b.as_str(), rel)),
        None => None,
    }
}

/// The per-user configuration directory: `XDG_CONFIG_HOME` or `~/.config` on
/// Linux, `~/Library/Application Support` on macOS, `APPDATA` on Windows.
pub fn config_dir(p: Platform, env: &EnvDirs) -> (r: Option<String>)
    ensures
        path_view(r) == config_dir_spec(p, *env),
{
    match p {
        Platform::Linux => match &env.xdg_config_home {
            Some(x) => Some(x.clone()),
            None => join_opt_exec(p, &env.home, ".config"),
        },
        Platform::MacOs => join_opt_exec(p, &env.home, "Library/Application Support"),
        Platform::Windows => match &env.app_data {
            Some(a) => Some(a.clone()),
            None => None,
        },
        Platform::Other => None,
    }
}

/// The widget's directory inside the configuration directory.
pub fn config_root_dir(p: Platform, env: &EnvDirs) -> (r: Option<String>)
    ensures
        path_view(r) == config_root_spec(p, *env),
{
    match config_dir(p, env) {
        Some(d) => Some(join_path(p, d.as_str(), "SmartAppsCo/plan-usage-widget")),
        None => None,
    }
}

/// The settings file.
pub fn config_path(p: Platform, env: &EnvDirs) -> (r: Option<String>)
    ensures
        path_view(r) == in_config_root(p, *env, "config.json"@),
{
    match config_root_dir(p, env) {
        Some(d) => Some(join_path(p, d.as_str(), "config.json")),
        None => None,
    }
}

/// The socket through which a second launch reaches the running tray host.
pub fn tray_socket_path(p: Platform, env: &EnvDirs) -> (r: Option<String>)
    ensures
        path_view(r) == in_config_root(p, *env, "tray.sock"@),
{
    match config_root_dir(p, env) {
        Some(d) => Some(join_path(p, d.as_str(), "tray.sock")),
        None => None,
    }
}

} // verus!
