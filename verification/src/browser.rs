//! The browsers whose cookie stores the widget can read.
use vstd::prelude::*;
use vstd::string::StringExecFns;

use crate::platform::Platform;
use crate::text::str_eq;

verus! {

/// A browser whose cookie store can be read.
#[derive(Clone, Copy, Debug, PartialEq, Eq, Hash, Structural)]
pub enum BrowserKind {
    Firefox,
    Chrome,
    Brave,
    Edge,
    /// Only available on macOS.
    Safari,
}

/// The browser's name as printed and as accepted on the command line.
pub open spec fn browser_name(b: BrowserKind) -> Seq<char> {
    match b {
        BrowserKind::Firefox => "firefox"@,
        BrowserKind::Chrome => "chrome"@,
        BrowserKind::Brave => "brave"@,
        BrowserKind::Edge => "edge"@,
        BrowserKind::Safari => "safari"@,
    }
}

/// `b` exists on `p`: Safari only on macOS, the others everywhere.
pub open spec fn available_on(p: Platform, b: BrowserKind) -> bool {
    b != BrowserKind::Safari || p == Platform::MacOs
}

/// Chrome, Brave and Edge share the Chromium cookie format.
pub open spec fn is_chromium_spec(b: BrowserKind) -> bool {
    b == BrowserKind::Chrome || b == BrowserKind::Brave || b == BrowserKind::Edge
}

/// The message for a browser name that is not recognised.
pub open spec fn unknown_browser_message(value: Seq<char>) -> Seq<char> {
    "Error: unknown browser '"@ + value + "'"@
}

/// The browser named `value` on `p`, or the error message for an unknown name.
pub open spec fn parse_browser_spec(p: Platform, value: Seq<char>) -> Result<BrowserKind, Seq<char>> {
    if value == "firefox"@ {
        Ok(BrowserKind::Firefox)
    } else if value == "chrome"@ {
        Ok(BrowserKind::Chrome)
    } else if value == "brave"@ {
        Ok(BrowserKind::Brave)
    } else if value == "edge"@ {
        Ok(BrowserKind::Edge)
    } else if p == Platform::MacOs && value == "safari"@ {
        Ok(BrowserKind::Safari)
    } else {
        Err(unknown_browser_message(value))
    }
}

/// The order in which browsers are probed for a session on `p`: those that
/// read without a prompt first, Safari (which needs Full Disk Access) last.
pub open spec fn detection_order_spec(p: Platform) -> Seq<BrowserKind> {
    if p == Platform::MacOs {
        seq![
            BrowserKind::Firefox,
            BrowserKind::Chrome,
            BrowserKind::Brave,
            BrowserKind::Edge,
            BrowserKind::Safari,
        ]
    } else {
        seq![BrowserKind::Firefox, BrowserKind::Chrome, BrowserKind::Brave, BrowserKind::Edge]
    }
}

impl BrowserKind {
    /// The browser's name, as its `Display` form writes it.
    pub fn name(&self) -> (r: &'static str)
        ensures
            r@ == browser_name(*self),
    {
        match self {
            BrowserKind::Firefox => "firefox",
            BrowserKind::Chrome => "chrome",
            BrowserKind::Brave => "brave",
            BrowserKind::Edge => "edge",
            BrowserKind::Safari => "safari",
        }
    }

    /// The browser's name as an owned string.
    pub fn to_string(&self) -> (r: String)
        ensures
            r@ == browser_name(*self),
    {
        String::from_str(self.name())
    }

    /// Chrome, Brave and Edge keep Chromium-format cookie stores.
    pub fn is_chromium(&self) -> (r: bool)
        ensures
            r == is_chromium_spec(*self),
    {
        match self {
            BrowserKind::Chrome | BrowserKind::Brave | BrowserKind::Edge => true,
            _ => false,
        }
    }
}

/// Parses a browser name given on the command line.
pub fn parse_browser(p: Platform, value: &str) -> (r: Result<BrowserKind, String>)
    ensures
        match (r, parse_browser_spec(p, value@)) {
            (Ok(b), Ok(c)) => b == c,
            (Err(m), Err(n)) => m@ == n,
            _ => false,
        },
{
    if str_eq(value, "firefox") {
        Ok(BrowserKind::Firefox)
    } else if str_eq(value, "chrome") {
        Ok(BrowserKind::Chrome)
    } else if str_eq(value, "brave") {
        Ok(BrowserKind::Brave)
    } else if str_eq(value, "edge") {
        Ok(BrowserKind::Edge)
    } else if p == Platform::MacOs && str_eq(value, "safari") {
        Ok(BrowserKind::Safari)
    } else {
        let mut m = String::from_str("Error: unknown browser '");
        m.append(value);
        m.append("'");
        Err(m)
    }
}

/// The browsers to probe for a session on `p`, in order.
pub fn detection_order(p: Platform) -> (r: Vec<BrowserKind>)
    ensures
        r@ == detection_order_spec(p),
{
    let mut v: Vec<BrowserKind> = Vec::new();
    v.push(BrowserKind::Firefox);
    v.push(BrowserKind::Chrome);
    v.push(BrowserKind::Brave);
    v.push(BrowserKind::Edge);
    if p == Platform::MacOs {
        v.push(BrowserKind::Safari);
    }
    assert(v@ =~= detection_order_spec(p));
    v
}

/// A name that `BrowserKind` prints is parsed back to the same browser on
/// every platform where that browser exists.
pub proof fn lemma_browser_name_round_trip(p: Platform, b: BrowserKind)
    requires
        available_on(p, b),
    ensures
        parse_browser_spec(p, browser_name(b)) == Ok::<BrowserKind, Seq<char>>(b),
{
    reveal_strlit("firefox");
    reveal_strlit("chrome");
    reveal_strlit("brave");
    reveal_strlit("edge");
    reveal_strlit("safari");
    assert("firefox"@.len() == 7);
    assert("chrome"@.len() == 6);
    assert("brave"@.len() == 5);
    assert("edge"@.len() == 4);
    assert("safari"@.len() == 6);
    assert("chrome"@[0] != "safari"@[0]);
}

} // verus!
