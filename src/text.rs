//! Character-level helpers on strings: conversion to and from `Vec<char>`,
//! trimming of white space, searching, and ASCII lower-casing.
use vstd::prelude::*;
use vstd::string::StrSliceExecFns;

verus! {

/// Characters with the Unicode `White_Space` property.
pub open spec fn is_white_space(c: char) -> bool {
    ('\u{9}' <= c && c <= '\u{d}') || c == ' ' || c == '\u{85}' || c == '\u{a0}'
        || c == '\u{1680}' || ('\u{2000}' <= c && c <= '\u{200a}') || c == '\u{2028}'
        || c == '\u{2029}' || c == '\u{202f}' || c == '\u{205f}' || c == '\u{3000}'
}

/// The length of `s` once white space is removed from the end of its first
/// `n` characters.
pub open spec fn trim_end_len(s: Seq<char>, n: nat) -> nat
    decreases n,
{
    if n > 0 && n <= s.len() && is_white_space(s[n - 1]) {
        trim_end_len(s, (n - 1) as nat)
    } else {
        n
    }
}

/// The index of the first character at or after `i` that is not white space
/// (or the length of `s`).
pub open spec fn trim_start_from(s: Seq<char>, i: nat) -> nat
    decreases s.len() - i,
{
    if i < s.len() && is_white_space(s[i as int]) {
        trim_start_from(s, i + 1)
    } else {
        i
    }
}

/// `s` without trailing white space.
pub open spec fn trim_end(s: Seq<char>) -> Seq<char> {
    s.subrange(0, trim_end_len(s, s.len()) as int)
}

/// `s` without leading white space.
pub open spec fn trim_start(s: Seq<char>) -> Seq<char> {
    s.subrange(trim_start_from(s, 0) as int, s.len() as int)
}

/// `s` without leading and trailing white space.
pub open spec fn trim(s: Seq<char>) -> Seq<char> {
    trim_start(trim_end(s))
}

/// The first index at or after `i` where `c` stands in `s`.
pub open spec fn find_from(s: Seq<char>, c: char, i: nat) -> Option<nat>
    decreases s.len() - i,
{
    if i >= s.len() {
        None
    } else if s[i as int] == c {
        Some(i)
    } else {
        find_from(s, c, i + 1)
    }
}

/// The first index where `c` stands in `s`.
pub open spec fn find_char(s: Seq<char>, c: char) -> Option<nat> {
    find_from(s, c, 0)
}

/// The last index below `n` where `c` stands in `s`.
pub open spec fn rfind_below(s: Seq<char>, c: char, n: nat) -> Option<nat>
    decreases n,
{
    if n == 0 || n > s.len() {
        None
    } else if s[n - 1] == c {
        Some((n - 1) as nat)
    } else {
        rfind_below(s, c, (n - 1) as nat)
    }
}

/// The last index where `c` stands in `s`.
pub open spec fn rfind_char(s: Seq<char>, c: char) -> Option<nat> {
    rfind_below(s, c, s.len())
}

/// `c` with an ASCII upper-case letter mapped to its lower-case form.
pub open spec fn ascii_lower(c: char) -> char {
    if 'A' <= c && c <= 'Z' {
        ((c as u32) + 32) as char
    } else {
        c
    }
}

/// The first character of `s`, or the NUL character when `s` is empty.
pub open spec fn first_or_nul(s: Seq<char>) -> char {
    if s.len() > 0 { s[0] } else { '\0' }
}

/// Relies on `FromIterator<char>` for `String`: the characters are collected in
/// order.
#[verifier::external_body]
pub(crate) fn string_from_chars(chars: &[char]) -> (r: String)
    ensures
        r@ == chars@,
{
    chars.iter().collect()
}

/// The characters of `s`, in order.
pub fn chars_of(s: &str) -> (r: Vec<char>)
    ensures
        r@ == s@,
{
    let n = s.unicode_len();
    let mut r: Vec<char> = Vec::new();
    let mut i: usize = 0;
    while i < n
        invariant
            n == s@.len(),
            i <= n,
            r@ == s@.subrange(0, i as int),
        decreases n - i,
    {
        r.push(s.get_char(i));
        i = i + 1;
    }
    assert(r@ == s@);
    r
}

/// Whether `c` is white space.
pub fn is_white_space_char(c: char) -> (r: bool)
    ensures
        r == is_white_space(c),
{
    ('\u{9}' <= c && c <= '\u{d}') || c == ' ' || c == '\u{85}' || c == '\u{a0}'
        || c == '\u{1680}' || ('\u{2000}' <= c && c <= '\u{200a}') || c == '\u{2028}'
        || c == '\u{2029}' || c == '\u{202f}' || c == '\u{205f}' || c == '\u{3000}'
}

/// `c` with an ASCII upper-case letter lower-cased.
pub fn to_ascii_lower(c: char) -> (r: char)
    ensures
        r == ascii_lower(c),
{
    if 'A' <= c && c <= 'Z' {
        ((c as u8) + 32) as char
    } else {
        c
    }
}

/// The length of `s[..n]` without its trailing white space.
pub fn trim_end_index(s: &Vec<char>, n: usize) -> (r: usize)
    requires
        n <= s@.len(),
    ensures
        r == trim_end_len(s@, n as nat),
        r <= n,
{
    let mut m = n;
    while m > 0 && is_white_space_char(s[m - 1])
        invariant
            m <= n <= s@.len(),
            trim_end_len(s@, m as nat) == trim_end_len(s@, n as nat),
        decreases m,
    {
        m = m - 1;
    }
    m
}

/// The first index at or after `i` that holds no white space, or `end`.
pub fn trim_start_index(s: &Vec<char>, i: usize, end: usize) -> (r: usize)
    requires
        i <= end <= s@.len(),
    ensures
        r == trim_start_from(s@.subrange(0, end as int), i as nat),
        i <= r <= end,
{
    let ghost t = s@.subrange(0, end as int);
    let mut k = i;
    while k < end && is_white_space_char(s[k])
        invariant
            i <= k <= end <= s@.len(),
            t == s@.subrange(0, end as int),
            trim_start_from(t, k as nat) == trim_start_from(t, i as nat),
        decreases end - k,
    {
        k = k + 1;
    }
    k
}

/// The first index where `c` stands in `s`.
pub fn find_index(s: &Vec<char>, c: char) -> (r: Option<usize>)
    ensures
        r matches Some(i) ==> find_char(s@, c) == Some(i as nat),
        r is None ==> find_char(s@, c) is None,
{
    let mut i: usize = 0;
    while i < s.len()
        invariant
            i <= s@.len(),
            find_from(s@, c, i as nat) == find_char(s@, c),
        decreases s@.len() - i,
    {
        if s[i] == c {
            return Some(i);
        }
        i = i + 1;
    }
    None
}

/// The last index below `n` where `c` stands in `s`.
pub fn rfind_index(s: &Vec<char>, c: char, n: usize) -> (r: Option<usize>)
    requires
        n <= s@.len(),
    ensures
        r matches Some(i) ==> rfind_below(s@, c, n as nat) == Some(i as nat),
        r is None ==> rfind_below(s@, c, n as nat) is None,
{
    let mut m = n;
    while m > 0
        invariant
            m <= n <= s@.len(),
            rfind_below(s@, c, m as nat) == rfind_below(s@, c, n as nat),
        decreases m,
    {
        if s[m - 1] == c {
            return Some(m - 1);
        }
        m = m - 1;
    }
    None
}

/// `s[a..b]` as a vector of its own.
pub fn sub_vec(s: &Vec<char>, a: usize, b: usize) -> (r: Vec<char>)
    requires
        a <= b <= s@.len(),
    ensures
        r@ == s@.subrange(a as int, b as int),
{
    let mut r: Vec<char> = Vec::new();
    let mut i = a;
    while i < b
        invariant
            a <= i <= b <= s@.len(),
            r@ == s@.subrange(a as int, i as int),
        decreases b - i,
    {
        r.push(s[i]);
        i = i + 1;
    }
    r
}

/// `s` without trailing white space.
pub fn trimmed_end(s: &Vec<char>) -> (r: Vec<char>)
    ensures
        r@ == trim_end(s@),
{
    let e = trim_end_index(s, s.len());
    sub_vec(s, 0, e)
}

/// `s` without leading and trailing white space.
pub fn trimmed(s: &Vec<char>) -> (r: Vec<char>)
    ensures
        r@ == trim(s@),
{
    let t = trimmed_end(s);
    let a = trim_start_index(&t, 0, t.len());
    assert(t@.subrange(0, t@.len() as int) == t@);
    sub_vec(&t, a, t.len())
}

/// A hit of `rfind_below` lies below `n` and holds `c`.
pub proof fn lemma_rfind_below(s: Seq<char>, c: char, n: nat)
    ensures
        rfind_below(s, c, n) matches Some(i) ==> i < n && n <= s.len() && s[i as int] == c,
    decreases n,
{
    if n > 0 && n <= s.len() && s[n - 1] != c {
        lemma_rfind_below(s, c, (n - 1) as nat);
    }
}

/// A hit of `find_from` holds `c`.
pub proof fn lemma_find_from(s: Seq<char>, c: char, i: nat)
    ensures
        find_from(s, c, i) matches Some(k) ==> i <= k < s.len() && s[k as int] == c,
    decreases s.len() - i,
{
    if i < s.len() && s[i as int] != c {
        lemma_find_from(s, c, i + 1);
    }
}

/// Whether two texts hold the same characters.
pub fn same_text(a: &str, b: &str) -> (r: bool)
    ensures
        r == (a@ == b@),
{
    let x = chars_of(a);
    let y = chars_of(b);
    if x.len() != y.len() {
        return false;
    }
    let mut i: usize = 0;
    while i < x.len()
        invariant
            x@ == a@,
            y@ == b@,
            x@.len() == y@.len(),
            i <= x@.len(),
            x@.subrange(0, i as int) == y@.subrange(0, i as int),
        decreases x@.len() - i,
    {
        if x[i] != y[i] {
            assert(x@[i as int] != y@[i as int]);
            return false;
        }
        assert(x@.subrange(0, i + 1) =~= y@.subrange(0, i + 1));
        i = i + 1;
    }
    assert(x@ =~= x@.subrange(0, i as int));
    assert(y@ =~= y@.subrange(0, i as int));
    true
}

} // verus!
