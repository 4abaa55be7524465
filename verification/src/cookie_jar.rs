//! A cookie jar: cookie names mapped to their values for one site.
use vstd::prelude::*;
use vstd::string::StrSliceExecFns;

use crate::text::str_eq;

verus! {

/// Name/value pairs as plain character sequences.
pub open spec fn pairs_view(s: Seq<(String, String)>) -> Seq<(Seq<char>, Seq<char>)> {
    s.map_values(|p: (String, String)| (p.0@, p.1@))
}

/// The value the last pair named `k` gives, if any pair does.
pub open spec fn lookup(s: Seq<(Seq<char>, Seq<char>)>, k: Seq<char>) -> Option<Seq<char>>
    decreases s.len(),
{
    if s.len() == 0 {
        None
    } else if s.last().0 == k {
        Some(s.last().1)
    } else {
        lookup(s.drop_last(), k)
    }
}

/// The map that a sequence of pairs builds when later pairs replace earlier
/// ones of the same name.
pub open spec fn pairs_map(s: Seq<(Seq<char>, Seq<char>)>) -> Map<Seq<char>, Seq<char>> {
    Map::new(|k: Seq<char>| lookup(s, k) is Some, |k: Seq<char>| lookup(s, k)->0)
}

/// The name of the cookie that holds a logged-in session.
pub open spec fn session_cookie_name() -> Seq<char> {
    "sessionKey"@
}

/// Cookies of one site, by name. A later `insert` of a name replaces the
/// value an earlier one gave.
#[derive(Clone, Debug)]
pub struct CookieJar {
    entries: Vec<(String, String)>,
}

impl View for CookieJar {
    type V = Map<Seq<char>, Seq<char>>;

    open spec fn view(&self) -> Map<Seq<char>, Seq<char>> {
        pairs_map(self.entry_view())
    }
}

/// A pair named `k` exists exactly when the lookup of `k` finds a value.
proof fn lemma_lookup_some(s: Seq<(Seq<char>, Seq<char>)>, k: Seq<char>)
    ensures
        (lookup(s, k) is Some) == (exists|i: int| 0 <= i < s.len() && #[trigger] s[i].0 == k),
    decreases s.len(),
{
    if s.len() > 0 {
        lemma_lookup_some(s.drop_last(), k);
        if lookup(s.drop_last(), k) is Some {
            let i = choose|i: int| 0 <= i < s.drop_last().len() && #[trigger] s.drop_last()[i].0 == k;
            assert(s[i].0 == k);
        }
        if s.last().0 != k {
            assert forall|i: int| 0 <= i < s.len() && #[trigger] s[i].0 == k implies lookup(
                s.drop_last(),
                k,
            ) is Some by {
                assert(i < s.len() - 1);
                assert(s.drop_last()[i].0 == k);
            }
        }
    }
}

impl CookieJar {
    /// The pairs in the order they were inserted.
    pub closed spec fn entry_view(&self) -> Seq<(Seq<char>, Seq<char>)> {
        pairs_view(self.entries@)
    }

    /// An empty jar.
    pub fn new() -> (r: Self)
        ensures
            r@ == Map::<Seq<char>, Seq<char>>::empty(),
    {
        let r = CookieJar { entries: Vec::new() };
        assert(r@ =~= Map::<Seq<char>, Seq<char>>::empty());
        r
    }

    /// Sets cookie `name` to `value`.
    pub fn insert(&mut self, name: String, value: String)
        ensures
            final(self)@ == old(self)@.insert(name@, value@),
    {
        let ghost before = self.entry_view();
        self.entries.push((name, value));
        proof {
            let after = self.entry_view();
            assert(after.drop_last() =~= before);
            assert(after.last() == (name@, value@));
            assert forall|k: Seq<char>| true implies #[trigger] lookup(after, k) == (if k == name@ {
                Some(value@)
            } else {
                lookup(before, k)
            }) by {}
            assert(self@ =~= old(self)@.insert(name@, value@));
        }
    }

    /// The jar holds a cookie named `name`.
    pub fn contains_key(&self, name: &str) -> (r: bool)
        ensures
            r == self@.contains_key(name@),
    {
        let n = self.entries.len();
        let mut i: usize = 0;
        while i < n
            invariant
                n == self.entries@.len(),
                i <= n,
                forall|j: int| 0 <= j < i ==> #[trigger] self.entries@[j].0@ != name@,
            decreases n - i,
        {
            if str_eq(self.entries[i].0.as_str(), name) {
                proof {
                    lemma_lookup_some(self.entry_view(), name@);
                    assert(self.entry_view()[i as int].0 == name@);
                }
                return true;
            }
            i = i + 1;
        }
        proof {
            lemma_lookup_some(self.entry_view(), name@);
            assert forall|j: int| 0 <= j < self.entry_view().len() implies #[trigger] self.entry_view()[j].0
                != name@ by {
                assert(self.entry_view()[j].0 == self.entries@[j].0@);
            }
        }
        false
    }

    /// The value of cookie `name`, if the jar holds one.
    pub fn get(&self, name: &str) -> (r: Option<String>)
        ensures
            match r {
                Some(v) => self@.contains_key(name@) && self@[name@] == v@,
                None => !self@.contains_key(name@),
            },
    {
        let n = self.entries.len();
        let mut i: usize = n;
        assert(self.entry_view().take(n as int) =~= self.entry_view());
        while i > 0
            invariant
                n == self.entries@.len(),
                i <= n,
                lookup(self.entry_view(), name@) == lookup(self.entry_view().take(i as int), name@),
            decreases i,
        {
            let ghost t = self.entry_view().take(i as int);
            assert(t.last() == (self.entries@[i - 1].0@, self.entries@[i - 1].1@));
            assert(t.drop_last() =~= self.entry_view().take(i - 1));
            if str_eq(self.entries[i - 1].0.as_str(), name) {
                return Some(self.entries[i - 1].1.clone());
            }
            i = i - 1;
        }
        assert(self.entry_view().take(0) =~= Seq::<(Seq<char>, Seq<char>)>::empty());
        None
    }

    /// The jar holds a logged-in session cookie.
    pub fn has_session(&self) -> (r: bool)
        ensures
            r == self@.contains_key(session_cookie_name()),
    {
        self.contains_key("sessionKey")
    }

    /// The name/value pairs, in insertion order; collecting them into a map
    /// in this order rebuilds the jar.
    pub fn pairs(&self) -> (r: Vec<(String, String)>)
        ensures
            pairs_map(pairs_view(r@)) == self@,
    {
        let n = self.entries.len();
        let mut out: Vec<(String, String)> = Vec::new();
        let mut i: usize = 0;
        while i < n
            invariant
                n == self.entries@.len(),
                i <= n,
                out@ =~= self.entries@.take(i as int),
            decreases n - i,
        {
            let name = self.entries[i].0.clone();
            let value = self.entries[i].1.clone();
            out.push((name, value));
            i = i + 1;
        }
        assert(out@ =~= self.entries@);
        out
    }

    /// A jar with the same cookies.
    pub fn duplicate(&self) -> (r: Self)
        ensures
            r@ == self@,
    {
        CookieJar { entries: self.pairs() }
    }
}

} // verus!
