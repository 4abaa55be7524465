//! Texts the program writes: the desktop entry, the usage summary, and the
//! SQLite URI that opens a browser's cookie database read-only.
use vstd::prelude::*;
use vstd::string::StrSliceExecFns;
use vstd::string::StringExecFns;

use crate::text::{contains_seq, push_char, str_contains};

verus! {

/// The desktop entry that starts the tray app `exe`.
pub open spec fn desktop_entry_spec(exe: Seq<char>) -> Seq<char> {
    "[Desktop Entry]\nType=Application\nName=Plan Usage\nComment=Tray app for plan usage stats\nExec="@
        + exe
        + "\nIcon=plan-usage\nTerminal=false\nStartupWMClass=plan-usage\nStartupNotify=false\nCategories=Utility;\n"@
}

/// The desktop entry that starts the tray app `exe`.
pub fn desktop_entry_content(exe: &str) -> (r: String)
    ensures
        r@ == desktop_entry_spec(exe@),
{
    let mut s = String::from_str(
        "[Desktop Entry]\nType=Application\nName=Plan Usage\nComment=Tray app for plan usage stats\nExec=",
    );
    s.append(exe);
    s.append(
        "\nIcon=plan-usage\nTerminal=false\nStartupWMClass=plan-usage\nStartupNotify=false\nCategories=Utility;\n",
    );
    s
}

/// The desktop entry and icon must be (re)written: one of them is missing,
/// or the entry does not start `exe`. `entry` is the entry's text, read
/// when both files exist.
pub open spec fn needs_install_spec(
    entry_exists: bool,
    icon_exists: bool,
    entry: Option<Seq<char>>,
    exe: Seq<char>,
) -> bool {
    !(entry_exists && icon_exists && (entry matches Some(c) && contains_seq(c, "Exec="@ + exe)))
}

/// Whether the desktop entry and icon must be written.
pub fn desktop_entry_needs_install(
    entry_exists: bool,
    icon_exists: bool,
    entry: Option<&str>,
    exe: &str,
) -> (r: bool)
    ensures
        r == needs_install_spec(
            entry_exists,
            icon_exists,
            match entry {
                Some(c) => Some(c@),
                None => None,
            },
            exe@,
        ),
{
    if entry_exists && icon_exists {
        if let Some(c) = entry {
            let mut pat = String::from_str("Exec=");
            pat.append(exe);
            if str_contains(c, pat.as_str()) {
                return false;
            }
        }
    }
    true
}

/// The command-line summary `--help` prints.
pub fn usage_text() -> (r: &'static str)
    ensures
        r@ == "Usage: plan-usage [OPTIONS]\n\nOptions:\n  --browser <BROWSER>         Browser to read cookies from\n                              (firefox, chrome, brave, edge, safari)\n  --data-dir <PATH>           Browser data directory\n  --oauth-dir <PATH>          OAuth credentials directory\n                              (default: the one in your home)\n  --title <NAME>              Popup title (default: Plan Usage)\n  --uninstall                 Remove desktop entry and icon\n  --help                      Show this help\n"@,
{
    "Usage: plan-usage [OPTIONS]\n\nOptions:\n  --browser <BROWSER>         Browser to read cookies from\n                              (firefox, chrome, brave, edge, safari)\n  --data-dir <PATH>           Browser data directory\n  --oauth-dir <PATH>          OAuth credentials directory\n                              (default: the one in your home)\n  --title <NAME>              Popup title (default: Plan Usage)\n  --uninstall                 Remove desktop entry and icon\n  --help                      Show this help\n"
}

/// A path character as it appears in a SQLite URI: `%`, space, `?` and `#`
/// are percent-encoded.
pub open spec fn uri_char(c: char) -> Seq<char> {
    if c == '%' {
        seq!['%', '2', '5']
    } else if c == ' ' {
        seq!['%', '2', '0']
    } else if c == '?' {
        seq!['%', '3', 'F']
    } else if c == '#' {
        seq!['%', '2', '3']
    } else {
        seq![c]
    }
}

/// A path with the characters that mean something in a URI encoded.
pub open spec fn uri_escape(s: Seq<char>) -> Seq<char>
    decreases s.len(),
{
    if s.len() == 0 {
        Seq::empty()
    } else {
        uri_escape(s.drop_last()) + uri_char(s.last())
    }
}

/// The URI that opens the database at `path` read-only and immutable, so that
/// a browser's lock on it does not block the read.
pub open spec fn sqlite_uri_spec(path: Seq<char>) -> Seq<char> {
    "file:"@ + uri_escape(path) + "?immutable=1"@
}

/// A SQLite URI path with its percent-escapes decoded.
pub open spec fn uri_unescape(s: Seq<char>) -> Seq<char>
    decreases s.len(),
{
    if s.len() == 0 {
        Seq::empty()
    } else if s.len() >= 3 && s[0] == '%' && s[1] == '2' && s[2] == '5' {
        seq!['%'] + uri_unescape(s.subrange(3, s.len() as int))
    } else if s.len() >= 3 && s[0] == '%' && s[1] == '2' && s[2] == '0' {
        seq![' '] + uri_unescape(s.subrange(3, s.len() as int))
    } else if s.len() >= 3 && s[0] == '%' && s[1] == '3' && s[2] == 'F' {
        seq!['?'] + uri_unescape(s.subrange(3, s.len() as int))
    } else if s.len() >= 3 && s[0] == '%' && s[1] == '2' && s[2] == '3' {
        seq!['#'] + uri_unescape(s.subrange(3, s.len() as int))
    } else {
        seq![s[0]] + uri_unescape(s.drop_first())
    }
}

proof fn lemma_uri_escape_append(a: Seq<char>, b: Seq<char>)
    ensures
        uri_escape(a + b) == uri_escape(a) + uri_escape(b),
    decreases b.len(),
{
    if b.len() == 0 {
        assert(a + b =~= a);
        assert(uri_escape(a) + uri_escape(b) =~= uri_escape(a));
    } else {
        lemma_uri_escape_append(a, b.drop_last());
        assert((a + b).drop_last() =~= a + b.drop_last());
        assert((a + b).last() == b.last());
        assert(uri_escape(a + b) =~= uri_escape(a) + uri_escape(b));
    }
}

proof fn lemma_uri_escape_front(s: Seq<char>)
    requires
        s.len() > 0,
    ensures
        uri_escape(s) == uri_char(s[0]) + uri_escape(s.drop_first()),
{
    let head = seq![s[0]];
    assert(head + s.drop_first() =~= s);
    lemma_uri_escape_append(head, s.drop_first());
    assert(head.drop_last() =~= Seq::<char>::empty());
    assert(head.last() == s[0]);
    assert(uri_escape(Seq::<char>::empty()) =~= Seq::<char>::empty());
    assert(uri_escape(head) =~= uri_char(s[0]));
}

proof fn lemma_uri_unescape_escape(s: Seq<char>)
    ensures
        uri_unescape(uri_escape(s)) == s,
        forall|i: int| 0 <= i < uri_escape(s).len() ==> uri_escape(s)[i] != '?' && uri_escape(s)[i] != '#',
    decreases s.len(),
{
    if s.len() > 0 {
        let c = s[0];
        let rest = uri_escape(s.drop_first());
        lemma_uri_unescape_escape(s.drop_first());
        lemma_uri_escape_front(s);
        let e = uri_char(c) + rest;
        if c == '%' || c == ' ' || c == '?' || c == '#' {
            assert(e.subrange(3, e.len() as int) =~= rest);
        } else {
            assert(e.drop_first() =~= rest);
        }
        assert(uri_unescape(e) =~= s);
    }
}

/// A SQLite URI names exactly the database it was made for: between `file:`
/// and `?immutable=1` it holds no `?` or `#`, so SQLite takes all of that
/// text as the file name, and that text percent-decodes back to the path.
pub proof fn lemma_sqlite_uri_names_path(path: Seq<char>)
    ensures
        ({
            let u = sqlite_uri_spec(path);
            let name = u.subrange(5, u.len() - 12);
            &&& u.subrange(0, 5) == "file:"@
            &&& u.subrange(u.len() - 12, u.len() as int) == "?immutable=1"@
            &&& forall|i: int| 0 <= i < name.len() ==> name[i] != '?' && name[i] != '#'
            &&& uri_unescape(name) == path
        }),
{
    reveal_strlit("file:");
    reveal_strlit("?immutable=1");
    lemma_uri_unescape_escape(path);
    let u = sqlite_uri_spec(path);
    let e = uri_escape(path);
    assert(u.subrange(5, u.len() - 12) =~= e);
    assert(u.subrange(0, 5) =~= "file:"@);
    assert(u.subrange(u.len() - 12, u.len() as int) =~= "?immutable=1"@);
}

/// The URI that opens the database at `path` read-only and immutable.
pub fn sqlite_readonly_uri(path: &str) -> (r: String)
    ensures
        r@ == sqlite_uri_spec(path@),
{
    let mut out = String::from_str("file:");
    let n = path.unicode_len();
    let mut i: usize = 0;
    while i < n
        invariant
            n == path@.len(),
            i <= n,
            out@ == "file:"@ + uri_escape(path@.take(i as int)),
        decreases n - i,
    {
        let c = path.get_char(i);
        if c == '%' {
            out.append("%25");
        } else if c == ' ' {
            out.append("%20");
        } else if c == '?' {
            out.append("%3F");
        } else if c == '#' {
            out.append("%23");
        } else {
            push_char(&mut out, c);
        }
        proof {
            reveal_strlit("%25");
            reveal_strlit("%20");
            reveal_strlit("%3F");
            reveal_strlit("%23");
            let t = path@.take(i + 1);
            assert(t.drop_last() =~= path@.take(i as int));
            assert(t.last() == c);
            assert(out@ =~= "file:"@ + uri_escape(path@.take(i as int)) + uri_char(c));
        }
        i = i + 1;
    }
    assert(path@.take(n as int) =~= path@);
    out.append("?immutable=1");
    out
}

} // verus!
