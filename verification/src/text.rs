//! Substring, prefix and suffix tests on text, stated over sequences of
//! characters.
//!
//! Every rule of the agent that looks inside a path, a process name, a command
//! line or a domain name is phrased with the three predicates of this module.
//! They speak of Unicode scalar values, not of bytes; since UTF-8 never lets one
//! character's encoding begin inside another's, that is the same relation the
//! byte-wise tests of `str` decide.

use vstd::prelude::*;

verus! {

/// `p` stands in `s` at position `at`.
pub open spec fn occurs_at(s: Seq<char>, p: Seq<char>, at: int) -> bool {
    0 <= at && at + p.len() <= s.len() && s.subrange(at, at + p.len()) == p
}

/// `p` is a contiguous part of `s`. The empty text is part of every text.
pub open spec fn occurs_in(s: Seq<char>, p: Seq<char>) -> bool {
    exists|at: int| occurs_at(s, p, at)
}

/// `s` begins with `p`.
pub open spec fn is_prefix(s: Seq<char>, p: Seq<char>) -> bool {
    occurs_at(s, p, 0)
}

/// `s` ends with `p`.
pub open spec fn is_suffix(s: Seq<char>, p: Seq<char>) -> bool {
    occurs_at(s, p, s.len() - p.len())
}

/// The lowercase form of a text, as `str::to_lowercase` of the standard library
/// computes it from the Unicode character database. It is a function of the
/// text alone; nothing else is assumed of it.
pub uninterp spec fn lowercase_of(s: Seq<char>) -> Seq<char>;

/// Calls `str::to_lowercase`. The contract only gives the result its name,
/// `lowercase_of`: the library proves nothing from the case mapping itself.
#[verifier::external_body]
pub(crate) fn to_lowercase(s: &str) -> (lower: String)
    ensures
        lower@ == lowercase_of(s@),
{
    s.to_lowercase()
}

/// The characters of `s`, in order.
pub fn chars_of(s: &str) -> (out: Vec<char>)
    ensures
        out@ == s@,
{
    let mut out: Vec<char> = Vec::new();
    for c in it: s.chars()
        invariant
            out@ == it.seq().take(it.index() as int),
            it.seq() == s@,
    {
        out.push(c);
    }
    out
}

/// Whether `p` stands in `s` at position `at`.
pub fn matches_at(s: &[char], p: &[char], at: usize) -> (hit: bool)
    ensures
        hit == occurs_at(s@, p@, at as int),
{
    if p.len() > s.len() || at > s.len() - p.len() {
        return false;
    }
    let mut k: usize = 0;
    while k < p.len()
        invariant
            k <= p.len(),
            at + p.len() <= s.len(),
            forall|j: int| 0 <= j < k ==> s@[at + j] == p@[j],
        decreases p.len() - k,
    {
        if s[at + k] != p[k] {
            assert(s@.subrange(at as int, at + p.len())[k as int] != p@[k as int]);
            return false;
        }
        k += 1;
    }
    assert(s@.subrange(at as int, at + p.len()) =~= p@);
    true
}

/// Whether the characters `s` begin with `p`.
pub fn starts_with_chars(s: &[char], p: &[char]) -> (hit: bool)
    ensures
        hit == is_prefix(s@, p@),
{
    matches_at(s, p, 0)
}

/// Whether the characters `s` end with `p`.
pub fn ends_with_chars(s: &[char], p: &[char]) -> (hit: bool)
    ensures
        hit == is_suffix(s@, p@),
{
    if p.len() > s.len() {
        return false;
    }
    matches_at(s, p, s.len() - p.len())
}

/// Whether `p` is a contiguous part of the characters `s`.
pub fn contains_chars(s: &[char], p: &[char]) -> (hit: bool)
    ensures
        hit == occurs_in(s@, p@),
{
    if p.len() > s.len() {
        return false;
    }
    let last: usize = s.len() - p.len();
    let mut at: usize = 0;
    loop
        invariant
            at <= last,
            last == s.len() - p.len(),
            forall|j: int| 0 <= j < at ==> !occurs_at(s@, p@, j),
        decreases last - at,
    {
        if matches_at(s, p, at) {
            return true;
        }
        if at == last {
            return false;
        }
        at += 1;
    }
}

/// Whether `s` begins with `p`, as `str::starts_with` decides it.
pub fn has_prefix(s: &str, p: &str) -> (hit: bool)
    ensures
        hit == is_prefix(s@, p@),
{
    let text = chars_of(s);
    let part = chars_of(p);
    starts_with_chars(text.as_slice(), part.as_slice())
}

/// Whether `s` ends with `p`, as `str::ends_with` decides it.
pub fn has_suffix(s: &str, p: &str) -> (hit: bool)
    ensures
        hit == is_suffix(s@, p@),
{
    let text = chars_of(s);
    let part = chars_of(p);
    ends_with_chars(text.as_slice(), part.as_slice())
}

/// Whether `p` is a contiguous part of `s`, as `str::contains` decides it.
pub fn has_substring(s: &str, p: &str) -> (hit: bool)
    ensures
        hit == occurs_in(s@, p@),
{
    let text = chars_of(s);
    let part = chars_of(p);
    contains_chars(text.as_slice(), part.as_slice())
}

/// Whether the characters `s` begin with the text `p`.
pub fn slice_has_prefix(s: &[char], p: &str) -> (hit: bool)
    ensures
        hit == is_prefix(s@, p@),
{
    let part = chars_of(p);
    starts_with_chars(s, part.as_slice())
}

/// Whether the characters `s` end with the text `p`.
pub fn slice_has_suffix(s: &[char], p: &str) -> (hit: bool)
    ensures
        hit == is_suffix(s@, p@),
{
    let part = chars_of(p);
    ends_with_chars(s, part.as_slice())
}

/// Whether the text `p` is a contiguous part of the characters `s`.
pub fn slice_has_substring(s: &[char], p: &str) -> (hit: bool)
    ensures
        hit == occurs_in(s@, p@),
{
    let part = chars_of(p);
    contains_chars(s, part.as_slice())
}

/// A part of a part is a part of the whole.
pub proof fn lemma_occurs_in_longer(s: Seq<char>, p: Seq<char>, q: Seq<char>)
    requires
        occurs_in(s, p),
        occurs_in(p, q),
    ensures
        occurs_in(s, q),
{
    let i = choose|i: int| occurs_at(s, p, i);
    let j = choose|j: int| occurs_at(p, q, j);
    assert(s.subrange(i + j, i + j + q.len()) =~= p.subrange(j, j + q.len()));
    assert(occurs_at(s, q, i + j));
}

} // verus!
