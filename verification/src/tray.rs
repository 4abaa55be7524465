//! The tray host: the options it passes on to popups, where a popup opens,
//! and the commands it accepts on its socket.
use vstd::prelude::*;
use vstd::string::StrSliceExecFns;
use vstd::string::StringExecFns;

use crate::browser::{available_on, browser_name, lemma_browser_name_round_trip, BrowserKind};
use crate::cli::{default_cli, default_title, finish_spec, opt_view, parse_args_spec, parse_from, CliOptions, CliView};
use crate::platform::Platform;
use crate::text::{i32_text, int_text, lemma_int_text_round_trip, str_eq};

verus! {

/// Popup width in pixels.
pub const POPUP_WIDTH: i32 = 186;

/// Popup height in pixels.
pub const POPUP_HEIGHT: i32 = 274;

/// Gap between the tray icon and the popup in pixels.
pub const POPUP_MARGIN: i32 = 12;

/// The options the tray host hands to every popup it opens.
pub struct TrayOptions {
    pub browser: Option<BrowserKind>,
    pub data_dir: Option<String>,
    pub oauth_dir: Option<String>,
    /// The title, when one was given explicitly.
    pub title: Option<String>,
}

/// Tray options as plain values.
pub struct TrayView {
    pub browser: Option<BrowserKind>,
    pub data_dir: Option<Seq<char>>,
    pub oauth_dir: Option<Seq<char>>,
    pub title: Option<Seq<char>>,
}

impl View for TrayOptions {
    type V = TrayView;

    open spec fn view(&self) -> TrayView {
        TrayView {
            browser: self.browser,
            data_dir: opt_view(self.data_dir),
            oauth_dir: opt_view(self.oauth_dir),
            title: opt_view(self.title),
        }
    }
}

impl TrayOptions {
    /// The options the command line gave; the title is passed on only when it
    /// was given explicitly.
    pub fn from_cli(options: &CliOptions) -> (r: Self)
        ensures
            r@ == (TrayView {
                browser: options@.browser,
                data_dir: options@.data_dir,
                oauth_dir: options@.oauth_dir,
                title: if options@.title_explicit {
                    Some(options@.title)
                } else {
                    None
                },
            }),
    {
        TrayOptions {
            browser: options.browser,
            data_dir: options.data_dir.clone(),
            oauth_dir: options.oauth_dir.clone(),
            title: if options.title_explicit {
                Some(options.title.clone())
            } else {
                None
            },
        }
    }
}

/// Where a popup opens for a click at (`x`, `y`): left of the click by the
/// popup's width less the margin, below the click near the top of the
/// screen and above it elsewhere, never at a negative coordinate.
pub open spec fn popup_origin_spec(x: int, y: int) -> (int, int) {
    let px = x - POPUP_WIDTH + POPUP_MARGIN;
    let py = if y < POPUP_HEIGHT {
        y + POPUP_MARGIN
    } else {
        y - POPUP_HEIGHT - POPUP_MARGIN
    };
    (if px < 0 {
        0
    } else {
        px
    }, if py < 0 {
        0
    } else {
        py
    })
}

/// The popup's top-left corner for a click at (`x`, `y`).
pub fn popup_origin(x: i32, y: i32) -> (r: (i32, i32))
    requires
        x >= i32::MIN + POPUP_WIDTH,
    ensures
        (r.0 as int, r.1 as int) == popup_origin_spec(x as int, y as int),
        r.0 >= 0 && r.1 >= 0,
{
    let px = x - POPUP_WIDTH + POPUP_MARGIN;
    let popup_x = if px < 0 {
        0
    } else {
        px
    };
    let py = if y < POPUP_HEIGHT {
        y + POPUP_MARGIN
    } else {
        y - POPUP_HEIGHT - POPUP_MARGIN
    };
    let popup_y = if py < 0 {
        0
    } else {
        py
    };
    (popup_x, popup_y)
}

/// A flag followed by its value, when there is a value.
pub open spec fn flag_arg(flag: Seq<char>, value: Option<Seq<char>>) -> Seq<Seq<char>> {
    match value {
        Some(v) => seq![flag, v],
        None => Seq::empty(),
    }
}

/// The position arguments for a click at `position`.
pub open spec fn position_args(position: Option<(i32, i32)>) -> Seq<Seq<char>> {
    match position {
        Some((x, y)) => {
            let o = popup_origin_spec(x as int, y as int);
            seq!["--popup-x"@, int_text(o.0), "--popup-y"@, int_text(o.1)]
        },
        None => Seq::empty(),
    }
}

/// The arguments a popup is started with.
pub open spec fn popup_args_spec(t: TrayView, position: Option<(i32, i32)>) -> Seq<Seq<char>> {
    seq!["--popup"@] + flag_arg(
        "--browser"@,
        match t.browser {
            Some(b) => Some(browser_name(b)),
            None => None,
        },
    ) + flag_arg("--data-dir"@, t.data_dir) + flag_arg("--oauth-dir"@, t.oauth_dir) + flag_arg(
        "--title"@,
        t.title,
    ) + position_args(position)
}

/// The arguments' texts.
pub open spec fn strings_view(v: Seq<String>) -> Seq<Seq<char>> {
    v.map_values(|s: String| s@)
}

fn push_flag(args: &mut Vec<String>, flag: &str, value: &Option<String>)
    ensures
        strings_view(final(args)@) == strings_view(old(args)@) + flag_arg(flag@, opt_view(*value)),
{
    if let Some(v) = value {
        args.push(String::from_str(flag));
        args.push(v.clone());
    }
    assert(strings_view(args@) =~= strings_view(old(args)@) + flag_arg(flag@, opt_view(*value)));
}

/// The command-line arguments for a popup opened by a click at `position`
/// (none for a popup opened from the menu).
pub fn popup_command_args(options: &TrayOptions, position: Option<(i32, i32)>) -> (r: Vec<String>)
    requires
        position matches Some((x, y)) ==> x >= i32::MIN + POPUP_WIDTH,
    ensures
        strings_view(r@) == popup_args_spec(options@, position),
{
    let mut args: Vec<String> = Vec::new();
    args.push(String::from_str("--popup"));
    let browser = match options.browser {
        Some(b) => Some(b.to_string()),
        None => None,
    };
    push_flag(&mut args, "--browser", &browser);
    push_flag(&mut args, "--data-dir", &options.data_dir);
    push_flag(&mut args, "--oauth-dir", &options.oauth_dir);
    push_flag(&mut args, "--title", &options.title);
    let ghost before = strings_view(args@);
    if let Some((x, y)) = position {
        let (px, py) = popup_origin(x, y);
        args.push(String::from_str("--popup-x"));
        args.push(i32_text(px));
        args.push(String::from_str("--popup-y"));
        args.push(i32_text(py));
    }
    assert(strings_view(args@) =~= before + position_args(position));
    assert(strings_view(args@) =~= popup_args_spec(options@, position));
    args
}

/// The flags a popup is started with differ from each other and from the
/// other flags the parser knows.
proof fn lemma_flags_distinct()
    ensures
        "--popup"@ != "--help"@,
        "--popup"@ != "-h"@,
        "--popup"@ != "--uninstall"@,
        "--browser"@ != "--help"@,
        "--browser"@ != "-h"@,
        "--browser"@ != "--uninstall"@,
        "--browser"@ != "--popup"@,
        "--data-dir"@ != "--help"@,
        "--data-dir"@ != "-h"@,
        "--data-dir"@ != "--uninstall"@,
        "--data-dir"@ != "--popup"@,
        "--data-dir"@ != "--browser"@,
        "--oauth-dir"@ != "--help"@,
        "--oauth-dir"@ != "-h"@,
        "--oauth-dir"@ != "--uninstall"@,
        "--oauth-dir"@ != "--popup"@,
        "--oauth-dir"@ != "--browser"@,
        "--oauth-dir"@ != "--data-dir"@,
        "--title"@ != "--help"@,
        "--title"@ != "-h"@,
        "--title"@ != "--uninstall"@,
        "--title"@ != "--popup"@,
        "--title"@ != "--browser"@,
        "--title"@ != "--data-dir"@,
        "--title"@ != "--oauth-dir"@,
        "--popup-x"@ != "--help"@,
        "--popup-x"@ != "-h"@,
        "--popup-x"@ != "--uninstall"@,
        "--popup-x"@ != "--popup"@,
        "--popup-x"@ != "--browser"@,
        "--popup-x"@ != "--data-dir"@,
        "--popup-x"@ != "--oauth-dir"@,
        "--popup-x"@ != "--title"@,
        "--popup-y"@ != "--help"@,
        "--popup-y"@ != "-h"@,
        "--popup-y"@ != "--uninstall"@,
        "--popup-y"@ != "--popup"@,
        "--popup-y"@ != "--browser"@,
        "--popup-y"@ != "--data-dir"@,
        "--popup-y"@ != "--oauth-dir"@,
        "--popup-y"@ != "--title"@,
        "--popup-y"@ != "--popup-x"@,
{
    reveal_strlit("--help");
    reveal_strlit("-h");
    reveal_strlit("--uninstall");
    reveal_strlit("--popup");
    reveal_strlit("--browser");
    reveal_strlit("--data-dir");
    reveal_strlit("--oauth-dir");
    reveal_strlit("--title");
    reveal_strlit("--popup-x");
    reveal_strlit("--popup-y");
    assert("--help"@.len() == 6);
    assert("-h"@.len() == 2);
    assert("--uninstall"@.len() == 11);
    assert("--popup"@.len() == 7);
    assert("--browser"@.len() == 9);
    assert("--data-dir"@.len() == 10);
    assert("--oauth-dir"@.len() == 11);
    assert("--title"@.len() == 7);
    assert("--popup-x"@.len() == 9);
    assert("--popup-y"@.len() == 9);
    assert("--oauth-dir"@[2] != "--uninstall"@[2]);
    assert("--title"@[2] != "--popup"@[2]);
    assert("--popup-x"@[2] != "--browser"@[2]);
    assert("--popup-y"@[2] != "--browser"@[2]);
    assert("--popup-y"@[8] != "--popup-x"@[8]);
}

/// The options a popup started with `popup_args_spec(t, position)` reads.
pub open spec fn popup_options(t: TrayView, position: Option<(i32, i32)>) -> CliView {
    CliView {
        browser: t.browser,
        data_dir: t.data_dir,
        oauth_dir: t.oauth_dir,
        title: match t.title {
            Some(s) => s,
            None => default_title(),
        },
        title_explicit: t.title is Some,
        uninstall: false,
        popup: true,
        popup_x: match position {
            Some((x, y)) => Some(popup_origin_spec(x as int, y as int).0 as i32),
            None => None,
        },
        popup_y: match position {
            Some((x, y)) => Some(popup_origin_spec(x as int, y as int).1 as i32),
            None => None,
        },
        help: false,
    }
}

/// A flag with a value, met at position `i`, is taken in and parsing goes
/// on after its value.
proof fn lemma_value_step(
    p: Platform,
    a: Seq<Seq<char>>,
    i: int,
    o: CliView,
    flag: Seq<char>,
    value: Option<Seq<char>>,
)
    requires
        0 <= i,
        i + flag_arg(flag, value).len() <= a.len(),
        value matches Some(v) ==> a[i] == flag && a[i + 1] == v,
        flag == "--data-dir"@ || flag == "--oauth-dir"@ || flag == "--title"@,
    ensures
        parse_from(p, a, i, o) == parse_from(
            p,
            a,
            i + flag_arg(flag, value).len(),
            match value {
                Some(v) => if flag == "--data-dir"@ {
                    CliView { data_dir: Some(v), ..o }
                } else if flag == "--oauth-dir"@ {
                    CliView { oauth_dir: Some(v), ..o }
                } else {
                    CliView { title: v, title_explicit: true, ..o }
                },
                None => o,
            },
        ),
{
    lemma_flags_distinct();
    if let Some(v) = value {
        assert(i + 1 < a.len());
    } else {
        assert(flag_arg(flag, value).len() == 0);
    }
}

/// The browser flag, met at position `i`, is taken in when the name is one
/// the platform knows.
proof fn lemma_browser_step(
    p: Platform,
    a: Seq<Seq<char>>,
    i: int,
    o: CliView,
    browser: Option<BrowserKind>,
)
    requires
        0 <= i,
        browser matches Some(b) ==> available_on(p, b) && i + 2 <= a.len() && a[i] == "--browser"@
            && a[i + 1] == browser_name(b),
    ensures
        parse_from(p, a, i, o) == parse_from(
            p,
            a,
            i + if browser is Some {
                2int
            } else {
                0int
            },
            match browser {
                Some(b) => CliView { browser: Some(b), ..o },
                None => o,
            },
        ),
{
    lemma_flags_distinct();
    if let Some(b) = browser {
        lemma_browser_name_round_trip(p, b);
    }
}

/// The position flags, ending the arguments at position `i`, are taken in
/// and the final checks pass for a popup.
proof fn lemma_position_step(p: Platform, a: Seq<Seq<char>>, i: int, o: CliView, position: Option<(i32, i32)>)
    requires
        0 <= i,
        a.len() == i + position_args(position).len(),
        forall|k: int| 0 <= k < position_args(position).len() ==> a[i + k] == #[trigger] position_args(position)[k],
        o.popup,
        o.popup_x is None,
        o.popup_y is None,
        o.data_dir is Some ==> o.browser is Some,
        position matches Some((x, y)) ==> x >= i32::MIN + POPUP_WIDTH,
    ensures
        parse_from(p, a, i, o) == Ok::<CliView, Seq<char>>(
            CliView {
                popup_x: match position {
                    Some((x, y)) => Some(popup_origin_spec(x as int, y as int).0 as i32),
                    None => None,
                },
                popup_y: match position {
                    Some((x, y)) => Some(popup_origin_spec(x as int, y as int).1 as i32),
                    None => None,
                },
                ..o
            },
        ),
{
    lemma_flags_distinct();
    if let Some((x, y)) = position {
        let org = popup_origin_spec(x as int, y as int);
        lemma_int_text_round_trip(org.0 as i32);
        lemma_int_text_round_trip(org.1 as i32);
        let seg = position_args(position);
        assert(a.len() == i + 4);
        assert(a[i + 0] == seg[0]);
        assert(a[i + 1] == seg[1]);
        assert(a[i + 2] == seg[2]);
        assert(a[i + 3] == seg[3]);
        let o6 = CliView { popup_x: Some(org.0 as i32), ..o };
        let o7 = CliView { popup_y: Some(org.1 as i32), ..o6 };
        assert(parse_from(p, a, i, o) == parse_from(p, a, i + 2, o6));
        assert(parse_from(p, a, i + 2, o6) == parse_from(p, a, i + 4, o7));
    }
}

/// A popup reads back exactly the options the tray host passed on: its
/// browser, directories and title, the popup flag, and the position the
/// click gave. This holds whenever a data directory comes with a browser (the
/// host's own command line was checked for that) and the browser exists on
/// the platform.
pub proof fn lemma_popup_args_round_trip(p: Platform, t: TrayView, position: Option<(i32, i32)>)
    requires
        t.browser matches Some(b) ==> available_on(p, b),
        t.data_dir is Some ==> t.browser is Some,
        position matches Some((x, y)) ==> x >= i32::MIN + POPUP_WIDTH,
    ensures
        parse_args_spec(p, popup_args_spec(t, position)) == Ok::<CliView, Seq<char>>(
            popup_options(t, position),
        ),
{
    lemma_flags_distinct();
    let bname = match t.browser {
        Some(b) => Some(browser_name(b)),
        None => None,
    };
    let s1 = flag_arg("--browser"@, bname);
    let s2 = flag_arg("--data-dir"@, t.data_dir);
    let s3 = flag_arg("--oauth-dir"@, t.oauth_dir);
    let s4 = flag_arg("--title"@, t.title);
    let s5 = position_args(position);
    let a = popup_args_spec(t, position);
    let o0 = default_cli();
    let o1 = CliView { popup: true, ..o0 };
    let q1 = seq!["--popup"@] + s1;
    let q2 = q1 + s2;
    let q3 = q2 + s3;
    let q4 = q3 + s4;
    assert(a == q4 + s5);
    assert(a[0] == "--popup"@) by {
        assert(q1[0] == "--popup"@);
    }
    assert(parse_from(p, a, 0, o0) == parse_from(p, a, 1, o1));
    let i2: int = q1.len() as int;
    let i3: int = q2.len() as int;
    let i4: int = q3.len() as int;
    let i5: int = q4.len() as int;
    assert forall|k: int| 0 <= k < q1.len() implies a[k] == q1[k] by {
        assert(q2[k] == q1[k]);
        assert(q3[k] == q2[k]);
        assert(q4[k] == q3[k]);
    }
    assert forall|k: int| 0 <= k < s2.len() implies a[i2 + k] == s2[k] by {
        assert(q2[i2 + k] == s2[k]);
        assert(q3[i2 + k] == q2[i2 + k]);
        assert(q4[i2 + k] == q3[i2 + k]);
    }
    assert forall|k: int| 0 <= k < s3.len() implies a[i3 + k] == s3[k] by {
        assert(q3[i3 + k] == s3[k]);
        assert(q4[i3 + k] == q3[i3 + k]);
    }
    assert forall|k: int| 0 <= k < s4.len() implies a[i4 + k] == s4[k] by {
        assert(q4[i4 + k] == s4[k]);
    }
    if let Some(b) = t.browser {
        assert(a[1] == q1[1]);
        assert(a[2] == q1[2]);
    }
    lemma_browser_step(p, a, 1, o1, t.browser);
    let o2 = match t.browser {
        Some(b) => CliView { browser: Some(b), ..o1 },
        None => o1,
    };
    if t.data_dir is Some {
        assert(a[i2] == s2[0]);
        assert(a[i2 + 1] == s2[1]);
    }
    lemma_value_step(p, a, i2, o2, "--data-dir"@, t.data_dir);
    let o3 = match t.data_dir {
        Some(v) => CliView { data_dir: Some(v), ..o2 },
        None => o2,
    };
    if t.oauth_dir is Some {
        assert(a[i3] == s3[0]);
        assert(a[i3 + 1] == s3[1]);
    }
    lemma_value_step(p, a, i3, o3, "--oauth-dir"@, t.oauth_dir);
    let o4 = match t.oauth_dir {
        Some(v) => CliView { oauth_dir: Some(v), ..o3 },
        None => o3,
    };
    if t.title is Some {
        assert(a[i4] == s4[0]);
        assert(a[i4 + 1] == s4[1]);
    }
    lemma_value_step(p, a, i4, o4, "--title"@, t.title);
    let o5 = match t.title {
        Some(v) => CliView { title: v, title_explicit: true, ..o4 },
        None => o4,
    };
    assert forall|k: int| 0 <= k < s5.len() implies a[i5 + k] == #[trigger] s5[k] by {}
    lemma_position_step(p, a, i5, o5, position);
}

/// A command sent to the tray host's socket.
#[derive(Clone, Copy, Debug, PartialEq, Eq, Structural)]
pub enum SocketCommand {
    /// Open the popup, or close it when it is open.
    Toggle,
    /// Close the popup and stop the host.
    Quit,
    /// Anything else, which is ignored.
    Unknown,
}

/// A Unicode `White_Space` character, as `char::is_whitespace` tells them.
pub open spec fn is_space(c: char) -> bool {
    ||| ('\t' <= c && c <= '\r')
    ||| c == ' '
    ||| c == '\u{85}'
    ||| c == '\u{a0}'
    ||| c == '\u{1680}'
    ||| ('\u{2000}' <= c && c <= '\u{200a}')
    ||| c == '\u{2028}'
    ||| c == '\u{2029}'
    ||| c == '\u{202f}'
    ||| c == '\u{205f}'
    ||| c == '\u{3000}'
}

/// The text with surrounding whitespace removed, as `str::trim` does.
pub open spec fn trimmed(s: Seq<char>) -> Seq<char>
    decreases s.len(),
{
    if s.len() > 0 && is_space(s[0]) {
        trimmed(s.drop_first())
    } else if s.len() > 0 && is_space(s.last()) {
        trimmed(s.drop_last())
    } else {
        s
    }
}

/// The command a message holds, surrounding whitespace ignored.
pub open spec fn socket_command_spec(msg: Seq<char>) -> SocketCommand {
    let t = trimmed(msg);
    if t == "toggle"@ {
        SocketCommand::Toggle
    } else if t == "quit"@ {
        SocketCommand::Quit
    } else {
        SocketCommand::Unknown
    }
}

/// The message a second launch sends to toggle the popup.
pub fn toggle_message() -> (r: &'static str)
    ensures
        r@ == "toggle\n"@,
{
    "toggle\n"
}

/// Reads the command in a message sent to the tray host.
pub fn parse_socket_command(msg: &str) -> (r: SocketCommand)
    ensures
        r == socket_command_spec(msg@),
{
    let n = msg.unicode_len();
    let mut lo: usize = 0;
    let mut hi: usize = n;
    assert(msg@.subrange(0, n as int) =~= msg@);
    while lo < hi && is_space_exec(msg.get_char(lo))
        invariant
            n == msg@.len(),
            lo <= hi <= n,
            hi == n,
            trimmed(msg@) == trimmed(msg@.subrange(lo as int, hi as int)),
        decreases hi - lo,
    {
        assert(msg@.subrange(lo as int, hi as int).drop_first() =~= msg@.subrange(lo + 1, hi as int));
        lo = lo + 1;
    }
    while lo < hi && is_space_exec(msg.get_char(hi - 1))
        invariant
            n == msg@.len(),
            lo <= hi <= n,
            trimmed(msg@) == trimmed(msg@.subrange(lo as int, hi as int)),
            lo < hi ==> !is_space(msg@[lo as int]),
        decreases hi - lo,
    {
        let ghost sub = msg@.subrange(lo as int, hi as int);
        assert(sub.drop_last() =~= msg@.subrange(lo as int, hi - 1));
        assert(sub[0] == msg@[lo as int]);
        hi = hi - 1;
    }
    let t = msg.substring_char(lo, hi);
    assert(t@ == msg@.subrange(lo as int, hi as int));
    assert(trimmed(t@) == t@) by {
        if t@.len() > 0 {
            assert(t@[0] == msg@[lo as int]);
            assert(t@.last() == msg@[hi - 1]);
        }
    }
    if str_eq(t, "toggle") {
        SocketCommand::Toggle
    } else if str_eq(t, "quit") {
        SocketCommand::Quit
    } else {
        SocketCommand::Unknown
    }
}

fn is_space_exec(c: char) -> (r: bool)
    ensures
        r == is_space(c),
{
    ('\t' <= c && c <= '\r') || c == ' ' || c == '\u{85}' || c == '\u{a0}' || c == '\u{1680}' || (
    '\u{2000}' <= c && c <= '\u{200a}') || c == '\u{2028}' || c == '\u{2029}' || c == '\u{202f}'
        || c == '\u{205f}' || c == '\u{3000}'
}

} // verus!
