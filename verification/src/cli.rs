//! Command-line options and their parser.
use vstd::prelude::*;
use vstd::string::StringExecFns;

use crate::browser::{parse_browser, parse_browser_spec, BrowserKind};
use crate::platform::Platform;
use crate::text::{parse_i32, parse_i32_spec, str_eq};

verus! {

/// The text of an optional string.
pub open spec fn opt_view(o: Option<String>) -> Option<Seq<char>> {
    match o {
        Some(s) => Some(s@),
        None => None,
    }
}

/// Command-line options as plain values.
pub struct CliView {
    pub browser: Option<BrowserKind>,
    pub data_dir: Option<Seq<char>>,
    pub oauth_dir: Option<Seq<char>>,
    pub title: Seq<char>,
    pub title_explicit: bool,
    pub uninstall: bool,
    pub popup: bool,
    pub popup_x: Option<i32>,
    pub popup_y: Option<i32>,
    pub help: bool,
}

/// Options as given on the command line.
#[derive(Clone, Debug, PartialEq, Eq)]
pub struct CliOptions {
    pub browser: Option<BrowserKind>,
    pub data_dir: Option<String>,
    pub oauth_dir: Option<String>,
    pub title: String,
    pub title_explicit: bool,
    pub uninstall: bool,
    pub popup: bool,
    pub popup_x: Option<i32>,
    pub popup_y: Option<i32>,
    /// `--help` or `-h` was given: print the usage text and exit.
    pub help: bool,
}

impl View for CliOptions {
    type V = CliView;

    open spec fn view(&self) -> CliView {
        CliView {
            browser: self.browser,
            data_dir: opt_view(self.data_dir),
            oauth_dir: opt_view(self.oauth_dir),
            title: self.title@,
            title_explicit: self.title_explicit,
            uninstall: self.uninstall,
            popup: self.popup,
            popup_x: self.popup_x,
            popup_y: self.popup_y,
            help: self.help,
        }
    }
}

/// The popup title used when none is given.
pub open spec fn default_title() -> Seq<char> {
    "Plan Usage"@
}

/// The options before any argument is read.
pub open spec fn default_cli() -> CliView {
    CliView {
        browser: None,
        data_dir: None,
        oauth_dir: None,
        title: default_title(),
        title_explicit: false,
        uninstall: false,
        popup: false,
        popup_x: None,
        popup_y: None,
        help: false,
    }
}

impl Default for CliOptions {
    fn default() -> (r: Self)
        ensures
            r@ == default_cli(),
    {
        CliOptions {
            browser: None,
            data_dir: None,
            oauth_dir: None,
            title: String::from_str("Plan Usage"),
            title_explicit: false,
            uninstall: false,
            popup: false,
            popup_x: None,
            popup_y: None,
            help: false,
        }
    }
}

/// The message for a flag given as the last argument, with no value after it.
pub open spec fn missing_value_message(flag: Seq<char>) -> Seq<char> {
    "Error: "@ + flag + " requires a value"@
}

/// The message for a flag whose value is not an integer.
pub open spec fn not_integer_message(flag: Seq<char>) -> Seq<char> {
    "Error: "@ + flag + " requires an integer value"@
}

/// The message for an argument that is not a known flag.
pub open spec fn unknown_argument_message(arg: Seq<char>) -> Seq<char> {
    "Error: unknown argument '"@ + arg + "'"@
}

/// What `parse_i32_arg` gives for `value`.
pub open spec fn parse_i32_arg_spec(flag: Seq<char>, value: Seq<char>) -> Result<i32, Seq<char>> {
    match parse_i32_spec(value) {
        Some(n) => Ok(n),
        None => Err(not_integer_message(flag)),
    }
}

/// The checks made once every argument is read.
pub open spec fn finish_spec(o: CliView) -> Result<CliView, Seq<char>> {
    if o.data_dir is Some && o.browser is None {
        Err("Error: --data-dir requires --browser"@)
    } else if (o.popup_x is Some || o.popup_y is Some) && !o.popup {
        Err("Error: --popup-x/--popup-y require --popup"@)
    } else {
        Ok(o)
    }
}

/// Reading the arguments from position `i` on, with `o` the options so far.
pub open spec fn parse_from(p: Platform, args: Seq<Seq<char>>, i: int, o: CliView) -> Result<
    CliView,
    Seq<char>,
>
    decreases args.len() - i,
{
    if i < 0 || i >= args.len() {
        finish_spec(o)
    } else {
        let a = args[i];
        let has_value = i + 1 < args.len();
        if a == "--help"@ || a == "-h"@ {
            Ok(CliView { help: true, ..o })
        } else if a == "--uninstall"@ {
            parse_from(p, args, i + 1, CliView { uninstall: true, ..o })
        } else if a == "--popup"@ {
            parse_from(p, args, i + 1, CliView { popup: true, ..o })
        } else if a == "--browser"@ {
            if !has_value {
                Err(missing_value_message(a))
            } else {
                match parse_browser_spec(p, args[i + 1]) {
                    Ok(b) => parse_from(p, args, i + 2, CliView { browser: Some(b), ..o }),
                    Err(m) => Err(m),
                }
            }
        } else if a == "--data-dir"@ {
            if !has_value {
                Err(missing_value_message(a))
            } else {
                parse_from(p, args, i + 2, CliView { data_dir: Some(args[i + 1]), ..o })
            }
        } else if a == "--oauth-dir"@ {
            if !has_value {
                Err(missing_value_message(a))
            } else {
                parse_from(p, args, i + 2, CliView { oauth_dir: Some(args[i + 1]), ..o })
            }
        } else if a == "--title"@ {
            if !has_value {
                Err(missing_value_message(a))
            } else {
                parse_from(p, args, i + 2, CliView { title: args[i + 1], title_explicit: true, ..o })
            }
        } else if a == "--popup-x"@ {
            if !has_value {
                Err(missing_value_message(a))
            } else {
                match parse_i32_arg_spec(a, args[i + 1]) {
                    Ok(n) => parse_from(p, args, i + 2, CliView { popup_x: Some(n), ..o }),
                    Err(m) => Err(m),
                }
            }
        } else if a == "--popup-y"@ {
            if !has_value {
                Err(missing_value_message(a))
            } else {
                match parse_i32_arg_spec(a, args[i + 1]) {
                    Ok(n) => parse_from(p, args, i + 2, CliView { popup_y: Some(n), ..o }),
                    Err(m) => Err(m),
                }
            }
        } else {
            Err(unknown_argument_message(a))
        }
    }
}

/// `--help` and `-h` ask for the usage text: given first, whatever follows,
/// the parse succeeds with `help` set and nothing else read.
pub proof fn lemma_help_flag_succeeds(p: Platform, args: Seq<Seq<char>>)
    requires
        args.len() > 0,
        args[0] == "--help"@ || args[0] == "-h"@,
    ensures
        parse_args_spec(p, args) matches Ok(v) && v.help && v.browser is None && v.data_dir is None
            && v.oauth_dir is None && !v.title_explicit && !v.uninstall && !v.popup && v.popup_x is None
            && v.popup_y is None,
{
}

/// Options read before `--help` are kept, and what follows it is not read:
/// the parse succeeds wherever the flag is reached.
pub proof fn lemma_help_flag_stops_parsing(p: Platform, args: Seq<Seq<char>>, i: int, o: CliView)
    requires
        0 <= i < args.len(),
        args[i] == "--help"@ || args[i] == "-h"@,
    ensures
        parse_from(p, args, i, o) == Ok::<CliView, Seq<char>>(CliView { help: true, ..o }),
{
}

/// The arguments' texts.
pub open spec fn args_view(args: Seq<String>) -> Seq<Seq<char>> {
    args.map_values(|s: String| s@)
}

/// What `parse_args` gives for the arguments `args` (program name excluded).
pub open spec fn parse_args_spec(p: Platform, args: Seq<Seq<char>>) -> Result<CliView, Seq<char>> {
    parse_from(p, args, 0, default_cli())
}

/// Parses the integer value of `flag`.
pub fn parse_i32_arg(flag: &str, value: &str) -> (r: Result<i32, String>)
    ensures
        match (r, parse_i32_arg_spec(flag@, value@)) {
            (Ok(a), Ok(b)) => a == b,
            (Err(m), Err(n)) => m@ == n,
            _ => false,
        },
{
    match parse_i32(value) {
        Some(n) => Ok(n),
        None => {
            let mut m = String::from_str("Error: ");
            m.append(flag);
            m.append(" requires an integer value");
            Err(m)
        },
    }
}

fn missing_value(flag: &str) -> (r: String)
    ensures
        r@ == missing_value_message(flag@),
{
    let mut m = String::from_str("Error: ");
    m.append(flag);
    m.append(" requires a value");
    m
}

/// Parses the command-line arguments (program name excluded) on platform `p`.
pub fn parse_args(p: Platform, args: &[String]) -> (r: Result<CliOptions, String>)
    ensures
        match (r, parse_args_spec(p, args_view(args@))) {
            (Ok(o), Ok(v)) => o@ == v,
            (Err(m), Err(n)) => m@ == n,
            _ => false,
        },
{
    let ghost av = args_view(args@);
    let mut options = CliOptions::default();
    let mut i: usize = 0;
    let n = args.len();
    while i < n
        invariant
            n == args@.len(),
            av == args_view(args@),
            av.len() == n,
            i <= n,
            parse_args_spec(p, av) == parse_from(p, av, i as int, options@),
        decreases n - i,
    {
        let a = args[i].as_str();
        assert(av[i as int] == a@);
        let has_value = i + 1 < n;
        if str_eq(a, "--help") || str_eq(a, "-h") {
            options.help = true;
            return Ok(options);
        } else if str_eq(a, "--uninstall") {
            options.uninstall = true;
        } else if str_eq(a, "--popup") {
            options.popup = true;
        } else if str_eq(a, "--browser") {
            if !has_value {
                return Err(missing_value(a));
            }
            i = i + 1;
            assert(av[i as int] == args@[i as int]@);
            match parse_browser(p, args[i].as_str()) {
                Ok(b) => {
                    options.browser = Some(b);
                },
                Err(m) => {
                    return Err(m);
                },
            }
        } else if str_eq(a, "--data-dir") {
            if !has_value {
                return Err(missing_value(a));
            }
            i = i + 1;
            assert(av[i as int] == args@[i as int]@);
            options.data_dir = Some(args[i].clone());
        } else if str_eq(a, "--oauth-dir") {
            if !has_value {
                return Err(missing_value(a));
            }
            i = i + 1;
            assert(av[i as int] == args@[i as int]@);
            options.oauth_dir = Some(args[i].clone());
        } else if str_eq(a, "--title") {
            if !has_value {
                return Err(missing_value(a));
            }
            i = i + 1;
            assert(av[i as int] == args@[i as int]@);
            options.title = args[i].clone();
            options.title_explicit = true;
        } else if str_eq(a, "--popup-x") {
            if !has_value {
                return Err(missing_value(a));
            }
            i = i + 1;
            assert(av[i as int] == args@[i as int]@);
            match parse_i32_arg(a, args[i].as_str()) {
                Ok(v) => {
                    options.popup_x = Some(v);
                },
                Err(m) => {
                    return Err(m);
                },
            }
        } else if str_eq(a, "--popup-y") {
            if !has_value {
                return Err(missing_value(a));
            }
            i = i + 1;
            assert(av[i as int] == args@[i as int]@);
            match parse_i32_arg(a, args[i].as_str()) {
                Ok(v) => {
                    options.popup_y = Some(v);
                },
                Err(m) => {
                    return Err(m);
                },
            }
        } else {
            let mut m = String::from_str("Error: unknown argument '");
            m.append(a);
            m.append("'");
            return Err(m);
        }
        i = i + 1;
    }
    if options.data_dir.is_some() && options.browser.is_none() {
        return Err(String::from_str("Error: --data-dir requires --browser"));
    }
    if (options.popup_x.is_some() || options.popup_y.is_some()) && !options.popup {
        return Err(String::from_str("Error: --popup-x/--popup-y require --popup"));
    }
    Ok(options)
}

} // verus!
