//! A header-like carrier: a multi-valued, case-insensitively keyed mapping of
//! text keys to text values, as found in HTTP headers and RPC call metadata.
//!
//! Keys compare case-insensitively over ASCII letters. The carrier is
//! multi-valued; a written entry shadows earlier entries under the same key,
//! and reading returns the most recently written value.

use vstd::prelude::*;
use vstd::string::*;

verus! {

/// Case-insensitive character equality: ASCII letters of either case compare
/// equal, every other character only to itself.
pub open spec fn chars_eq_ci(a: char, b: char) -> bool {
    ||| a == b
    ||| (65 <= a as int <= 90 && b as int == a as int + 32)
    ||| (65 <= b as int <= 90 && a as int == b as int + 32)
}

/// Case-insensitive key equality.
pub open spec fn keys_eq_ci(a: Seq<char>, b: Seq<char>) -> bool {
    a.len() == b.len() && forall|i: int| 0 <= i < a.len() ==> chars_eq_ci(a[i], b[i])
}

/// The value under `key`: that of the first entry whose key matches
/// case-insensitively, shadowing any later ones.
pub open spec fn lookup(entries: Seq<(Seq<char>, Seq<char>)>, key: Seq<char>) -> Option<Seq<char>>
    decreases entries.len(),
{
    if entries.len() == 0 {
        None
    } else if keys_eq_ci(entries.first().0, key) {
        Some(entries.first().1)
    } else {
        lookup(entries.drop_first(), key)
    }
}

fn char_eq_ci(a: char, b: char) -> (r: bool)
    ensures
        r == chars_eq_ci(a, b),
{
    let ua: u32 = a as u32;
    let ub: u32 = b as u32;
    ua == ub || (65 <= ua && ua <= 90 && ub == ua + 32) || (65 <= ub && ub <= 90 && ua == ub + 32)
}

/// Compare two keys case-insensitively.
pub fn str_eq_ci(a: &str, b: &str) -> (r: bool)
    ensures
        r == keys_eq_ci(a@, b@),
{
    let na: usize = a.unicode_len();
    let nb: usize = b.unicode_len();
    if na != nb {
        return false;
    }
    let mut i: usize = 0;
    while i < na
        invariant
            i <= na,
            na == a@.len(),
            na == b@.len(),
            forall|t: int| 0 <= t < i ==> chars_eq_ci(#[trigger] a@[t], b@[t]),
        decreases na - i,
    {
        if !char_eq_ci(a.get_char(i), b.get_char(i)) {
            return false;
        }
        i = i + 1;
    }
    true
}

/// A carrier of keyed text entries, newest first.
#[derive(Clone, Debug)]
pub struct HeaderCarrier {
    entries: Vec<(String, String)>,
}

impl View for HeaderCarrier {
    type V = Seq<(Seq<char>, Seq<char>)>;

    closed spec fn view(&self) -> Seq<(Seq<char>, Seq<char>)> {
        self.entries@.map_values(|e: (String, String)| (e.0@, e.1@))
    }
}

impl HeaderCarrier {
    /// A carrier with no entries.
    pub fn new() -> (r: HeaderCarrier)
        ensures
            r@ =~= Seq::<(Seq<char>, Seq<char>)>::empty(),
    {
        HeaderCarrier { entries: Vec::new() }
    }

    /// Write `value` under `key`, shadowing any earlier entry whose key
    /// matches case-insensitively; entries under other keys keep their values.
    pub fn set(&mut self, key: String, value: String)
        ensures
            final(self)@ =~= seq![(key@, value@)] + old(self)@,
            lookup(final(self)@, key@) == Some(value@),
            forall|k: Seq<char>|
                !keys_eq_ci(key@, k) ==> lookup(final(self)@, k) == lookup(old(self)@, k),
    {
        self.entries.insert(0, (key, value));
        proof {
            assert(final(self)@ =~= seq![(final(self)@[0].0, final(self)@[0].1)] + old(self)@);
            assert forall|k: Seq<char>| !keys_eq_ci(final(self)@[0].0, k) implies lookup(
                final(self)@,
                k,
            ) == lookup(old(self)@, k) by {
                assert(final(self)@.drop_first() =~= old(self)@);
            }
        }
    }

    /// Read the value under `key`, if any entry's key matches
    /// case-insensitively.
    pub fn get(&self, key: &str) -> (r: Option<String>)
        ensures
            match r {
                Some(v) => lookup(self@, key@) == Some(v@),
                None => lookup(self@, key@) is None,
            },
    {
        let n: usize = self.entries.len();
        let mut i: usize = 0;
        proof {
            assert(self@.skip(0) =~= self@);
        }
        while i < n
            invariant
                i <= n,
                n == self.entries.len(),
                lookup(self@, key@) == lookup(self@.skip(i as int), key@),
            decreases n - i,
        {
            let matched: bool = str_eq_ci(self.entries[i].0.as_str(), key);
            proof {
                assert(self@.skip(i as int).first() == self@[i as int]);
                assert(self@.skip(i as int).drop_first() =~= self@.skip(i + 1));
            }
            if matched {
                return Some(self.entries[i].1.clone());
            }
            i = i + 1;
        }
        None
    }

    /// Every key in the carrier, newest entry first.
    pub fn keys(&self) -> (r: Vec<String>)
        ensures
            r@.len() == self@.len(),
            forall|i: int| 0 <= i < r@.len() ==> (#[trigger] r@[i])@ == self@[i].0,
    {
        let n: usize = self.entries.len();
        let mut r: Vec<String> = Vec::new();
        let mut i: usize = 0;
        while i < n
            invariant
                i <= n,
                n == self.entries.len(),
                r@.len() == i,
                forall|t: int| 0 <= t < i ==> (#[trigger] r@[t])@ == self@[t].0,
            decreases n - i,
        {
            r.push(self.entries[i].0.clone());
            i = i + 1;
        }
        r
    }

    /// The number of entries.
    pub fn len(&self) -> (r: usize)
        ensures
            r == self@.len(),
    {
        self.entries.len()
    }
}

} // verus!
