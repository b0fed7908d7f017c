//! Plain text helpers: prefix and substring tests, locating a separator, and
//! capitalization, each proved against a direct sequence-level statement.

use vstd::prelude::*;

verus! {

/// `p` is a prefix of `s`.
pub open spec fn is_prefix_of(p: Seq<char>, s: Seq<char>) -> bool {
    p.len() <= s.len() && forall|i: int| 0 <= i < p.len() ==> s[i] == p[i]
}

/// `sub` occurs in `s` starting at position `k`.
pub open spec fn matches_at(s: Seq<char>, sub: Seq<char>, k: int) -> bool {
    &&& 0 <= k
    &&& k + sub.len() <= s.len()
    &&& forall|i: int| 0 <= i < sub.len() ==> s[k + i] == sub[i]
}

/// `sub` occurs somewhere in `s`.
pub open spec fn contains_seq(s: Seq<char>, sub: Seq<char>) -> bool {
    exists|k: int| matches_at(s, sub, k)
}

/// Character-wise equality of two string slices.
pub fn str_eq(a: &str, b: &str) -> (r: bool)
    ensures
        r == (a@ == b@),
{
    let alen = a.unicode_len();
    let blen = b.unicode_len();
    if alen != blen {
        return false;
    }
    let mut i: usize = 0;
    while i < alen
        invariant
            alen == a@.len(),
            blen == b@.len(),
            alen == blen,
            i <= alen,
            forall|j: int| 0 <= j < i ==> a@[j] == b@[j],
        decreases alen - i,
    {
        if a.get_char(i) != b.get_char(i) {
            return false;
        }
        i += 1;
    }
    proof {
        assert(a@ =~= b@);
    }
    true
}

/// `s` starts with `p`.
pub fn starts_with(s: &str, p: &str) -> (r: bool)
    ensures
        r == is_prefix_of(p@, s@),
{
    let slen = s.unicode_len();
    let plen = p.unicode_len();
    if plen > slen {
        return false;
    }
    let mut i: usize = 0;
    while i < plen
        invariant
            slen == s@.len(),
            plen == p@.len(),
            plen <= slen,
            i <= plen,
            forall|j: int| 0 <= j < i ==> s@[j] == p@[j],
        decreases plen - i,
    {
        if s.get_char(i) != p.get_char(i) {
            return false;
        }
        i += 1;
    }
    true
}

/// `sub` occurs in `s` starting at position `k`.
fn matches_at_exec(s: &str, sub: &str, k: usize) -> (r: bool)
    requires
        k + sub@.len() <= s@.len(),
    ensures
        r == matches_at(s@, sub@, k as int),
{
    let slen = s.unicode_len();
    let sublen = sub.unicode_len();
    let mut i: usize = 0;
    while i < sublen
        invariant
            slen == s@.len(),
            sublen == sub@.len(),
            k + sublen <= slen,
            i <= sublen,
            forall|j: int| 0 <= j < i ==> s@[k + j] == sub@[j],
        decreases sublen - i,
    {
        if s.get_char(k + i) != sub.get_char(i) {
            return false;
        }
        i += 1;
    }
    true
}

/// `s` holds `sub` as a contiguous substring.
pub fn contains_substr(s: &str, sub: &str) -> (r: bool)
    ensures
        r == contains_seq(s@, sub@),
{
    let slen = s.unicode_len();
    let sublen = sub.unicode_len();
    if sublen > slen {
        assert(forall|k: int| !matches_at(s@, sub@, k));
        return false;
    }
    let mut k: usize = 0;
    while k <= slen - sublen
        invariant
            slen == s@.len(),
            sublen == sub@.len(),
            sublen <= slen,
            k <= slen - sublen + 1,
            forall|k2: int| 0 <= k2 < k ==> !matches_at(s@, sub@, k2),
        decreases slen - sublen + 1 - k,
    {
        if matches_at_exec(s, sub, k) {
            return true;
        }
        k += 1;
    }
    assert(forall|k2: int| matches_at(s@, sub@, k2) ==> 0 <= k2 <= slen - sublen);
    false
}

/// Index of the first occurrence of `sep` in `s`; the length of `s` when
/// `sep` does not occur.
pub fn find_char(s: &str, sep: char) -> (i: usize)
    ensures
        i <= s@.len(),
        forall|j: int| 0 <= j < i ==> s@[j] != sep,
        i < s@.len() ==> s@[i as int] == sep,
{
    let len = s.unicode_len();
    let mut i: usize = 0;
    while i < len
        invariant
            len == s@.len(),
            i <= len,
            forall|j: int| 0 <= j < i ==> s@[j] != sep,
        decreases len - i,
    {
        if s.get_char(i) == sep {
            return i;
        }
        i += 1;
    }
    i
}

/// The ASCII uppercase form of `c`: a lowercase ASCII letter is mapped to its
/// uppercase counterpart, every other character is unchanged.
pub open spec fn upper_char(c: char) -> char {
    if 'a' <= c && c <= 'z' {
        (((c as u32) - 32) as u8) as char
    } else {
        c
    }
}

fn upper_char_exec(c: char) -> (r: char)
    ensures
        r == upper_char(c),
{
    if 'a' <= c && c <= 'z' {
        let n: u32 = c as u32;
        ((n - 32) as u8) as char
    } else {
        c
    }
}

/// `s` with its first character mapped to ASCII uppercase.
pub open spec fn capitalize_spec(s: Seq<char>) -> Seq<char> {
    if s.len() == 0 {
        s
    } else {
        seq![upper_char(s[0])] + s.skip(1)
    }
}

/// Relies on String::push: appends the given character to the end of the
/// string.
#[verifier::external_body]
fn push_char(s: &mut String, c: char)
    ensures
        final(s)@ == old(s)@.push(c),
{
    s.push(c);
}

/// A copy of `s` with its first character mapped to ASCII uppercase.
pub fn capitalize(s: &str) -> (r: String)
    ensures
        r@ == capitalize_spec(s@),
{
    let len = s.unicode_len();
    if len == 0 {
        let r = String::new();
        proof {
            assert(r@ =~= capitalize_spec(s@));
        }
        return r;
    }
    let c = s.get_char(0);
    let mut r = String::new();
    push_char(&mut r, upper_char_exec(c));
    let rest = s.substring_char(1, len);
    r.append(rest);
    proof {
        assert(r@ =~= capitalize_spec(s@));
    }
    r
}

} // verus!
