//! Where browsers keep their profiles, and other per-user locations.
//!
//! Which directories exist is read by the caller and passed in as
//! `existing`: the functions here decide which locations to consider and in
//! what order.
use vstd::prelude::*;

use crate::config::{path_view, EnvDirs};
use crate::platform::{join_path, join_spec, Platform};

verus! {

/// The paths' texts.
pub open spec fn paths_view(v: Seq<String>) -> Seq<Seq<char>> {
    v.map_values(|s: String| s@)
}

/// The candidates that are among the existing directories, in order.
pub open spec fn keep_existing(c: Seq<Seq<char>>, existing: Seq<Seq<char>>) -> Seq<Seq<char>>
    decreases c.len(),
{
    if c.len() == 0 {
        Seq::empty()
    } else if existing.contains(c.last()) {
        keep_existing(c.drop_last(), existing).push(c.last())
    } else {
        keep_existing(c.drop_last(), existing)
    }
}

/// Each relative path joined onto the home directory; none without a home.
pub open spec fn under_home(p: Platform, home: Option<String>, rels: Seq<Seq<char>>) -> Seq<Seq<char>> {
    match home {
        Some(h) => rels.map_values(|r: Seq<char>| join_spec(p, h@, r)),
        None => Seq::empty(),
    }
}

/// Firefox profile roots on Linux: the classic, Snap and Flatpak installs.
pub open spec fn firefox_linux_rels() -> Seq<Seq<char>> {
    seq![
        ".mozilla/firefox"@,
        "snap/firefox/common/.mozilla/firefox"@,
        ".var/app/org.mozilla.firefox/.mozilla/firefox"@,
    ]
}

/// Chrome and Chromium data directories on Linux.
pub open spec fn chrome_linux_rels() -> Seq<Seq<char>> {
    seq![
        ".config/google-chrome"@,
        ".config/chromium"@,
        "snap/chromium/common/chromium"@,
        ".var/app/com.google.Chrome/config/google-chrome"@,
        ".var/app/org.chromium.Chromium/config/chromium"@,
    ]
}

/// Brave data directories on Linux.
pub open spec fn brave_linux_rels() -> Seq<Seq<char>> {
    seq![
        ".config/BraveSoftware/Brave-Browser"@,
        "snap/brave/current/.config/BraveSoftware/Brave-Browser"@,
        ".var/app/com.brave.Browser/config/BraveSoftware/Brave-Browser"@,
    ]
}

/// Edge's data directory on Linux.
pub open spec fn edge_linux_rels() -> Seq<Seq<char>> {
    seq![".config/microsoft-edge"@]
}

/// A Chromium browser's data directory under `LOCALAPPDATA` on Windows.
pub open spec fn windows_chromium_dir(local: Seq<char>, vendor: Seq<char>, product: Seq<char>) -> Seq<
    char,
> {
    join_spec(
        Platform::Windows,
        join_spec(Platform::Windows, join_spec(Platform::Windows, local, vendor), product),
        "User Data"@,
    )
}

/// A single candidate directory, kept only if it exists.
pub open spec fn single_existing(c: Option<Seq<char>>, existing: Seq<Seq<char>>) -> Seq<Seq<char>> {
    match c {
        Some(d) => if existing.contains(d) {
            seq![d]
        } else {
            Seq::empty()
        },
        None => Seq::empty(),
    }
}

/// The one candidate for a Chromium browser on macOS or Windows.
pub open spec fn chromium_single(
    p: Platform,
    env: EnvDirs,
    mac_rel: Seq<char>,
    vendor: Seq<char>,
    product: Seq<char>,
) -> Option<Seq<char>> {
    match p {
        Platform::MacOs => match env.home {
            Some(h) => Some(join_spec(p, h@, mac_rel)),
            None => None,
        },
        Platform::Windows => match env.local_app_data {
            Some(l) => Some(windows_chromium_dir(l@, vendor, product)),
            None => None,
        },
        _ => None,
    }
}

/// The existing data directories of a browser on `p`: on Linux every
/// existing one of `linux_rels` under the home directory, elsewhere the one
/// standard location if it exists.
pub open spec fn browser_dirs_spec(
    p: Platform,
    env: EnvDirs,
    existing: Seq<Seq<char>>,
    linux_rels: Seq<Seq<char>>,
    mac_rel: Seq<char>,
    vendor: Seq<char>,
    product: Seq<char>,
) -> Seq<Seq<char>> {
    if p == Platform::Linux {
        keep_existing(under_home(p, env.home, linux_rels), existing)
    } else {
        single_existing(chromium_single(p, env, mac_rel, vendor, product), existing)
    }
}

fn contains_path(existing: &Vec<String>, c: &String) -> (r: bool)
    ensures
        r == paths_view(existing@).contains(c@),
{
    let n = existing.len();
    let mut i: usize = 0;
    while i < n
        invariant
            n == existing@.len(),
            i <= n,
            forall|j: int| 0 <= j < i ==> existing@[j]@ != c@,
        decreases n - i,
    {
        if existing[i] == *c {
            assert(paths_view(existing@)[i as int] == c@);
            return true;
        }
        i = i + 1;
    }
    assert forall|j: int| 0 <= j < paths_view(existing@).len() implies paths_view(existing@)[j]
        != c@ by {
        assert(paths_view(existing@)[j] == existing@[j]@);
    }
    false
}

/// The existing directories among `rels` joined onto `home`, in order.
fn existing_under_home(p: Platform, home: &Option<String>, rels: &[&str], existing: &Vec<String>) -> (r:
    Vec<String>)
    ensures
        paths_view(r@) == keep_existing(
            under_home(p, *home, rels@.map_values(|s: &str| s@)),
            paths_view(existing@),
        ),
{
    let ghost rv = rels@.map_values(|s: &str| s@);
    let mut out: Vec<String> = Vec::new();
    match home {
        None => {
            assert(paths_view(out@) =~= Seq::<Seq<char>>::empty());
            out
        },
        Some(h) => {
            let ghost cands = under_home(p, *home, rv);
            let n = rels.len();
            let mut i: usize = 0;
            while i < n
                invariant
                    n == rels@.len(),
                    i <= n,
                    rv == rels@.map_values(|s: &str| s@),
                    cands == under_home(p, *home, rv),
                    *home == Some(*h),
                    paths_view(out@) == keep_existing(cands.take(i as int), paths_view(existing@)),
                decreases n - i,
            {
                let c = join_path(p, h.as_str(), rels[i]);
                proof {
                    assert(cands.take(i + 1).drop_last() =~= cands.take(i as int));
                    assert(cands.take(i + 1).last() == c@);
                }
                if contains_path(existing, &c) {
                    out.push(c);
                    assert(paths_view(out@) =~= keep_existing(cands.take(i as int), paths_view(existing@)).push(c@));
                }
                i = i + 1;
            }
            assert(cands.take(n as int) =~= cands);
            out
        },
    }
}

fn single_existing_exec(c: Option<String>, existing: &Vec<String>) -> (r: Vec<String>)
    ensures
        paths_view(r@) == single_existing(path_view(c), paths_view(existing@)),
{
    let mut out: Vec<String> = Vec::new();
    if let Some(d) = c {
        if contains_path(existing, &d) {
            out.push(d);
        }
    }
    assert(paths_view(out@) =~= single_existing(path_view(c), paths_view(existing@)));
    out
}

fn chromium_single_exec(p: Platform, env: &EnvDirs, mac_rel: &str, vendor: &str, product: &str) -> (r:
    Option<String>)
    ensures
        path_view(r) == chromium_single(p, *env, mac_rel@, vendor@, product@),
{
    match p {
        Platform::MacOs => match &env.home {
            Some(h) => Some(join_path(p, h.as_str(), mac_rel)),
            None => None,
        },
        Platform::Windows => match &env.local_app_data {
            Some(l) => {
                let a = join_path(p, l.as_str(), vendor);
                let b = join_path(p, a.as_str(), product);
                Some(join_path(p, b.as_str(), "User Data"))
            },
            None => None,
        },
        _ => None,
    }
}

/// Firefox's existing profile roots on Linux, in order of preference.
pub fn firefox_default_dirs(env: &EnvDirs, existing: &Vec<String>) -> (r: Vec<String>)
    ensures
        paths_view(r@) == keep_existing(
            under_home(Platform::Linux, env.home, firefox_linux_rels()),
            paths_view(existing@),
        ),
{
    let rels: [&str; 3] = [
        ".mozilla/firefox",
        "snap/firefox/common/.mozilla/firefox",
        ".var/app/org.mozilla.firefox/.mozilla/firefox",
    ];
    assert(rels@.map_values(|s: &str| s@) =~= firefox_linux_rels());
    existing_under_home(Platform::Linux, &env.home, &rels, existing)
}

/// Firefox's profile root on `p`: the first existing one on Linux,
/// `~/Library/Application Support/Firefox/Profiles` on macOS and
/// `%APPDATA%\Mozilla/Firefox/Profiles` on Windows (whether or not they exist).
pub fn firefox_default_dir(p: Platform, env: &EnvDirs, existing: &Vec<String>) -> (r: Option<String>)
    ensures
        path_view(r) == match p {
            Platform::Linux => {
                let all = keep_existing(
                    under_home(Platform::Linux, env.home, firefox_linux_rels()),
                    paths_view(existing@),
                );
                if all.len() > 0 {
                    Some(all[0])
                } else {
                    None
                }
            },
            Platform::MacOs => match env.home {
                Some(h) => Some(join_spec(p, h@, "Library/Application Support/Firefox/Profiles"@)),
                None => None,
            },
            Platform::Windows => match env.app_data {
                Some(a) => Some(join_spec(p, a@, "Mozilla/Firefox/Profiles"@)),
                None => None,
            },
            Platform::Other => None,
        },
{
    match p {
        Platform::Linux => {
            let mut all = firefox_default_dirs(env, existing);
            if all.len() > 0 {
                let first = all.remove(0);
                Some(first)
            } else {
                None
            }
        },
        Platform::MacOs => match &env.home {
            Some(h) => Some(join_path(p, h.as_str(), "Library/Application Support/Firefox/Profiles")),
            None => None,
        },
        Platform::Windows => match &env.app_data {
            Some(a) => Some(join_path(p, a.as_str(), "Mozilla/Firefox/Profiles")),
            None => None,
        },
        Platform::Other => None,
    }
}

fn browser_dirs(
    p: Platform,
    env: &EnvDirs,
    existing: &Vec<String>,
    linux_rels: &[&str],
    mac_rel: &str,
    vendor: &str,
    product: &str,
) -> (r: Vec<String>)
    ensures
        paths_view(r@) == browser_dirs_spec(
            p,
            *env,
            paths_view(existing@),
            linux_rels@.map_values(|s: &str| s@),
            mac_rel@,
            vendor@,
            product@,
        ),
{
    if p == Platform::Linux {
        existing_under_home(p, &env.home, linux_rels, existing)
    } else {
        single_existing_exec(chromium_single_exec(p, env, mac_rel, vendor, product), existing)
    }
}

/// Chrome's existing data directories on `p`.
pub fn chrome_default_dirs(p: Platform, env: &EnvDirs, existing: &Vec<String>) -> (r: Vec<String>)
    ensures
        paths_view(r@) == browser_dirs_spec(
            p,
            *env,
            paths_view(existing@),
            chrome_linux_rels(),
            "Library/Application Support/Google/Chrome"@,
            "Google"@,
            "Chrome"@,
        ),
{
    let rels: [&str; 5] = [
        ".config/google-chrome",
        ".config/chromium",
        "snap/chromium/common/chromium",
        ".var/app/com.google.Chrome/config/google-chrome",
        ".var/app/org.chromium.Chromium/config/chromium",
    ];
    assert(rels@.map_values(|s: &str| s@) =~= chrome_linux_rels());
    browser_dirs(p, env, existing, &rels, "Library/Application Support/Google/Chrome", "Google", "Chrome")
}

/// Brave's existing data directories on `p`.
pub fn brave_default_dirs(p: Platform, env: &EnvDirs, existing: &Vec<String>) -> (r: Vec<String>)
    ensures
        paths_view(r@) == browser_dirs_spec(
            p,
            *env,
            paths_view(existing@),
            brave_linux_rels(),
            "Library/Application Support/BraveSoftware/Brave-Browser"@,
            "BraveSoftware"@,
            "Brave-Browser"@,
        ),
{
    let rels: [&str; 3] = [
        ".config/BraveSoftware/Brave-Browser",
        "snap/brave/current/.config/BraveSoftware/Brave-Browser",
        ".var/app/com.brave.Browser/config/BraveSoftware/Brave-Browser",
    ];
    assert(rels@.map_values(|s: &str| s@) =~= brave_linux_rels());
    browser_dirs(
        p,
        env,
        existing,
        &rels,
        "Library/Application Support/BraveSoftware/Brave-Browser",
        "BraveSoftware",
        "Brave-Browser",
    )
}

/// Edge's existing data directories on `p`.
pub fn edge_default_dirs(p: Platform, env: &EnvDirs, existing: &Vec<String>) -> (r: Vec<String>)
    ensures
        paths_view(r@) == browser_dirs_spec(
            p,
            *env,
            paths_view(existing@),
            edge_linux_rels(),
            "Library/Application Support/Microsoft Edge"@,
            "Microsoft"@,
            "Edge"@,
        ),
{
    let rels: [&str; 1] = [".config/microsoft-edge"];
    assert(rels@.map_values(|s: &str| s@) =~= edge_linux_rels());
    browser_dirs(p, env, existing, &rels, "Library/Application Support/Microsoft Edge", "Microsoft", "Edge")
}

/// A present optional path as a one-element sequence.
pub open spec fn opt_seq(c: Option<Seq<char>>) -> Seq<Seq<char>> {
    match c {
        Some(d) => seq![d],
        None => Seq::empty(),
    }
}

/// Every location the browser default-directory functions consider on `p`.
pub open spec fn all_candidates(p: Platform, env: EnvDirs) -> Seq<Seq<char>> {
    if p == Platform::Linux {
        under_home(
            p,
            env.home,
            firefox_linux_rels() + chrome_linux_rels() + brave_linux_rels() + edge_linux_rels(),
        )
    } else {
        opt_seq(
            chromium_single(
                p,
                env,
                "Library/Application Support/Google/Chrome"@,
                "Google"@,
                "Chrome"@,
            ),
        ) + opt_seq(
            chromium_single(
                p,
                env,
                "Library/Application Support/BraveSoftware/Brave-Browser"@,
                "BraveSoftware"@,
                "Brave-Browser"@,
            ),
        ) + opt_seq(
            chromium_single(
                p,
                env,
                "Library/Application Support/Microsoft Edge"@,
                "Microsoft"@,
                "Edge"@,
            ),
        )
    }
}

fn push_opt(all: &mut Vec<String>, c: Option<String>)
    ensures
        paths_view(final(all)@) == paths_view(old(all)@) + opt_seq(path_view(c)),
{
    if let Some(s) = c {
        all.push(s);
    }
    assert(paths_view(all@) =~= paths_view(old(all)@) + opt_seq(path_view(c)));
}

/// Every location the browser default-directory functions consider on `p`;
/// the caller checks which of them exist.
pub fn candidate_dirs(p: Platform, env: &EnvDirs) -> (r: Vec<String>)
    ensures
        paths_view(r@) == all_candidates(p, *env),
{
    if p == Platform::Linux {
        let rels: [&str; 12] = [
            ".mozilla/firefox",
            "snap/firefox/common/.mozilla/firefox",
            ".var/app/org.mozilla.firefox/.mozilla/firefox",
            ".config/google-chrome",
            ".config/chromium",
            "snap/chromium/common/chromium",
            ".var/app/com.google.Chrome/config/google-chrome",
            ".var/app/org.chromium.Chromium/config/chromium",
            ".config/BraveSoftware/Brave-Browser",
            "snap/brave/current/.config/BraveSoftware/Brave-Browser",
            ".var/app/com.brave.Browser/config/BraveSoftware/Brave-Browser",
            ".config/microsoft-edge",
        ];
        assert(rels@.map_values(|s: &str| s@) =~= firefox_linux_rels() + chrome_linux_rels()
            + brave_linux_rels() + edge_linux_rels());
        let mut all: Vec<String> = Vec::new();
        if let Some(h) = &env.home {
            let mut i: usize = 0;
            while i < 12
                invariant
                    i <= 12,
                    all@.len() == i,
                    forall|j: int| 0 <= j < i ==> #[trigger] all@[j]@ == join_spec(p, h@, rels@[j]@),
                decreases 12 - i,
            {
                all.push(join_path(p, h.as_str(), rels[i]));
                i = i + 1;
            }
        }
        assert(paths_view(all@) =~= all_candidates(p, *env));
        all
    } else {
        let mut all: Vec<String> = Vec::new();
        push_opt(
            &mut all,
            chromium_single_exec(p, env, "Library/Application Support/Google/Chrome", "Google", "Chrome"),
        );
        push_opt(
            &mut all,
            chromium_single_exec(
                p,
                env,
                "Library/Application Support/BraveSoftware/Brave-Browser",
                "BraveSoftware",
                "Brave-Browser",
            ),
        );
        push_opt(
            &mut all,
            chromium_single_exec(p, env, "Library/Application Support/Microsoft Edge", "Microsoft", "Edge"),
        );
        assert(paths_view(all@) =~= all_candidates(p, *env));
        all
    }
}

/// Where desktop entries and icons are installed: `XDG_DATA_HOME`, else
/// `.local/share` under the home directory (or under `/tmp` without one).
pub fn xdg_data_dir(env: &EnvDirs) -> (r: String)
    ensures
        r@ == match env.xdg_data_home {
            Some(x) => x@,
            None => join_spec(
                Platform::Linux,
                match env.home {
                    Some(h) => h@,
                    None => "/tmp"@,
                },
                ".local/share"@,
            ),
        },
{
    match &env.xdg_data_home {
        Some(x) => x.clone(),
        None => match &env.home {
            Some(h) => join_path(Platform::Linux, h.as_str(), ".local/share"),
            None => join_path(Platform::Linux, "/tmp", ".local/share"),
        },
    }
}

/// The desktop entry file.
pub fn desktop_file_path(env: &EnvDirs) -> (r: String)
    ensures
        r@ == join_spec(Platform::Linux, xdg_data_dir_spec(*env), "applications/plan-usage.desktop"@),
{
    let d = xdg_data_dir(env);
    join_path(Platform::Linux, d.as_str(), "applications/plan-usage.desktop")
}

/// The installed icon.
pub fn icon_install_path(env: &EnvDirs) -> (r: String)
    ensures
        r@ == join_spec(
            Platform::Linux,
            xdg_data_dir_spec(*env),
            "icons/hicolor/256x256/apps/plan-usage.png"@,
        ),
{
    let d = xdg_data_dir(env);
    join_path(Platform::Linux, d.as_str(), "icons/hicolor/256x256/apps/plan-usage.png")
}

/// What `xdg_data_dir` gives.
pub open spec fn xdg_data_dir_spec(env: EnvDirs) -> Seq<char> {
    match env.xdg_data_home {
        Some(x) => x@,
        None => join_spec(
            Platform::Linux,
            match env.home {
                Some(h) => h@,
                None => "/tmp"@,
            },
            ".local/share"@,
        ),
    }
}

} // verus!
