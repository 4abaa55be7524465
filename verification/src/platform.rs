//! Operating-system conventions: which platform the program runs on and how
//! it joins path components.
use vstd::prelude::*;
use vstd::string::StrSliceExecFns;
use vstd::string::StringExecFns;

verus! {

/// The operating systems whose conventions the library follows.
#[derive(Clone, Copy, Debug, PartialEq, Eq, Structural)]
pub enum Platform {
    Linux,
    MacOs,
    Windows,
    /// Any other system: no browser locations or idle clock are known there.
    Other,
}

/// `c` separates path components on `p`.
pub open spec fn is_separator(p: Platform, c: char) -> bool {
    c == '/' || (p == Platform::Windows && c == '\\')
}

/// The separator that joining inserts on `p`.
pub open spec fn separator(p: Platform) -> char {
    if p == Platform::Windows {
        '\\'
    } else {
        '/'
    }
}

/// `base` with the relative component `rel` appended, a separator put
/// between them unless `base` is empty or already ends in one.
pub open spec fn join_spec(p: Platform, base: Seq<char>, rel: Seq<char>) -> Seq<char> {
    if base.len() == 0 || is_separator(p, base.last()) {
        base + rel
    } else {
        base.push(separator(p)) + rel
    }
}

/// Appends the relative component `rel` to the path `base`.
pub fn join_path(p: Platform, base: &str, rel: &str) -> (r: String)
    ensures
        r@ == join_spec(p, base@, rel@),
{
    let mut out = String::from_str(base);
    let n = base.unicode_len();
    let needs_sep = if n == 0 {
        false
    } else {
        let last = base.get_char(n - 1);
        !(last == '/' || (p == Platform::Windows && last == '\\'))
    };
    if needs_sep {
        let sep = if p == Platform::Windows {
            '\\'
        } else {
            '/'
        };
        crate::text::push_char(&mut out, sep);
    }
    out.append(rel);
    out
}

} // verus!
