//! Searching text by characters: what the label and address rules need.

use vstd::prelude::*;
use vstd::string::StrSliceExecFns;

verus! {

/// `needle` stands in `hay` at character `k`.
pub open spec fn occurs_at(hay: Seq<char>, needle: Seq<char>, k: int) -> bool {
    &&& 0 <= k
    &&& k + needle.len() <= hay.len()
    &&& hay.subrange(k, k + needle.len()) == needle
}

/// `needle` stands somewhere in `hay`. The empty text stands in every text.
pub open spec fn contains_text(hay: Seq<char>, needle: Seq<char>) -> bool {
    exists|k: int| occurs_at(hay, needle, k)
}

/// `hay` begins with `prefix`.
pub open spec fn starts_with_text(hay: Seq<char>, prefix: Seq<char>) -> bool {
    occurs_at(hay, prefix, 0)
}

/// The characters of `s`, in order.
pub fn to_chars(s: &str) -> (chars: Vec<char>)
    ensures
        chars@ == s@,
{
    let n: usize = s.unicode_len();
    let mut chars: Vec<char> = Vec::new();
    let mut i: usize = 0;
    while i < n
        invariant
            i <= n,
            n == s@.len(),
            chars@ == s@.subrange(0, i as int),
        decreases n - i,
    {
        let c: char = s.get_char(i);
        chars.push(c);
        assert(chars@ =~= s@.subrange(0, i + 1));
        i = i + 1;
    }
    assert(s@.subrange(0, n as int) =~= s@);
    chars
}

/// Whether `needle` stands in `hay` at character `k`.
fn matches_at(hay: &Vec<char>, needle: &Vec<char>, k: usize) -> (found: bool)
    requires
        k + needle@.len() <= hay@.len(),
    ensures
        found == occurs_at(hay@, needle@, k as int),
{
    let m: usize = needle.len();
    let mut j: usize = 0;
    while j < m
        invariant
            j <= m,
            m == needle@.len(),
            k + m <= hay.len(),
            forall|t: int| 0 <= t < j ==> hay@[k + t] == needle@[t],
        decreases m - j,
    {
        if hay[k + j] != needle[j] {
            assert(hay@.subrange(k as int, k + m)[j as int] == hay@[k + j]);
            return false;
        }
        j = j + 1;
    }
    assert(hay@.subrange(k as int, k + m) =~= needle@);
    true
}

/// Whether `needle` stands somewhere in `hay`.
pub fn text_contains(hay: &str, needle: &str) -> (found: bool)
    ensures
        found == contains_text(hay@, needle@),
{
    let h: Vec<char> = to_chars(hay);
    let p: Vec<char> = to_chars(needle);
    if p.len() > h.len() {
        return false;
    }
    let last: usize = h.len() - p.len();
    let mut k: usize = 0;
    loop
        invariant
            k <= last,
            last + p@.len() == h@.len(),
            h@ == hay@,
            p@ == needle@,
            forall|t: int| 0 <= t < k ==> !occurs_at(hay@, needle@, t),
        decreases last - k,
    {
        if matches_at(&h, &p, k) {
            return true;
        }
        if k == last {
            return false;
        }
        k = k + 1;
    }
}

/// What follows `prefix` in `hay`, if `hay` begins with it.
pub fn text_after_prefix<'a>(hay: &'a str, prefix: &str) -> (rest: Option<&'a str>)
    ensures
        match rest {
            Some(tail) => starts_with_text(hay@, prefix@) && tail@ == hay@.subrange(
                prefix@.len() as int,
                hay@.len() as int,
            ),
            None => !starts_with_text(hay@, prefix@),
        },
{
    let h: Vec<char> = to_chars(hay);
    let p: Vec<char> = to_chars(prefix);
    if p.len() > h.len() {
        return None;
    }
    if matches_at(&h, &p, 0) {
        Some(hay.substring_char(p.len(), h.len()))
    } else {
        None
    }
}

} // verus!
