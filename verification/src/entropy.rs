//! The Shannon entropy of a text, compared with a bound without rounding.
//!
//! Write `n` for the length of a text `s` and `c(x)` for the number of times
//! the character `x` stands in it. The entropy of `s`, in bits per character,
//! is the sum over the distinct characters `x` of `s` of
//! `-(c(x)/n) * log2(c(x)/n)`, which is the mean over the positions `i` of
//! `log2(n / c(s[i]))`. So for a bound `num/den`
//!
//! ```text
//!     entropy(s) > num/den
//! <=> den * sum_i log2(n / c(s[i])) > num * n
//! <=> n^(den*n) > 2^(num*n) * (prod_i c(s[i]))^den
//! ```
//!
//! and the last line speaks of natural numbers only. That line is the
//! definition used here. It is decided exactly; no logarithm is computed, so
//! the same text always gets the same answer.

use crate::bignat::BigNat;
use vstd::arithmetic::power::{
    lemma_pow0, lemma_pow_adds, lemma_pow_distributes, lemma_pow_multiplies, lemma_pow_positive,
    pow,
};
use vstd::prelude::*;

verus! {

/// How many times `c` stands in `s`.
pub open spec fn occurrences(s: Seq<char>, c: char) -> nat
    decreases s.len(),
{
    if s.len() == 0 {
        0
    } else {
        occurrences(s.drop_last(), c) + if s.last() == c {
            1nat
        } else {
            0nat
        }
    }
}

/// The product, over the first `k` positions of `s`, of how many times the
/// character at that position stands in `s`.
pub open spec fn repetition(s: Seq<char>, k: nat) -> nat
    decreases k,
{
    if k == 0 {
        1
    } else {
        repetition(s, (k - 1) as nat) * occurrences(s, s[k - 1])
    }
}

/// The entropy of `s`, in bits per character, is greater than `num/den`.
/// The empty text has entropy zero. With `den == 0` the bound counts as
/// unbounded and nothing exceeds it.
pub open spec fn entropy_exceeds(s: Seq<char>, num: nat, den: nat) -> bool {
    pow(s.len() as int, den * s.len()) > pow(2, num * s.len()) * pow(
        repetition(s, s.len()) as int,
        den,
    )
}

/// Every character of `s` is the same.
pub open spec fn is_uniform(s: Seq<char>) -> bool {
    forall|i: int, j: int| 0 <= i < s.len() && 0 <= j < s.len() ==> s[i] == s[j]
}

/// No character stands in a text more often than the text is long.
pub proof fn lemma_occurrences_bound(s: Seq<char>, c: char)
    ensures
        occurrences(s, c) <= s.len(),
    decreases s.len(),
{
    if s.len() > 0 {
        lemma_occurrences_bound(s.drop_last(), c);
    }
}

/// In a text of one repeated character, that character stands as often as the
/// text is long.
pub proof fn lemma_uniform_occurrences(s: Seq<char>, c: char)
    requires
        forall|i: int| 0 <= i < s.len() ==> s[i] == c,
    ensures
        occurrences(s, c) == s.len(),
    decreases s.len(),
{
    if s.len() > 0 {
        lemma_uniform_occurrences(s.drop_last(), c);
    }
}

/// In a text of length `n` of one repeated character, the product over the
/// first `k` positions is the `k`-th power of `n`.
pub proof fn lemma_uniform_repetition(s: Seq<char>, k: nat)
    requires
        is_uniform(s),
        k <= s.len(),
    ensures
        repetition(s, k) == pow(s.len() as int, k),
    decreases k,
{
    if k == 0 {
        lemma_pow0(s.len() as int);
    } else {
        let j = (k - 1) as nat;
        lemma_uniform_repetition(s, j);
        lemma_uniform_occurrences(s, s[k - 1]);
        lemma_pow_adds(s.len() as int, j, 1);
        vstd::arithmetic::power::lemma_pow1(s.len() as int);
    }
}

/// A text of one repeated character has entropy zero: it exceeds no bound.
pub proof fn lemma_uniform_never_exceeds(s: Seq<char>, num: nat, den: nat)
    requires
        is_uniform(s),
    ensures
        !entropy_exceeds(s, num, den),
{
    let n = s.len();
    lemma_uniform_repetition(s, n);
    lemma_pow_multiplies(n as int, n, den);
    assert(n * den == den * n) by (nonlinear_arith);
    lemma_pow_positive(2, num * n);
    let big = pow(n as int, den * n);
    let two = pow(2, num * n);
    if n == 0 {
        lemma_pow0(0);
        assert(den * n == 0) by (nonlinear_arith)
            requires
                n == 0,
        ;
    } else {
        lemma_pow_positive(n as int, den * n);
    }
    assert(two * big >= big) by (nonlinear_arith)
        requires
            two >= 1,
            big >= 0,
    ;
}

/// How many times `c` stands in `s`.
pub fn count_char(s: &[char], c: char) -> (count: usize)
    ensures
        count == occurrences(s@, c),
{
    let mut count: usize = 0;
    let mut i: usize = 0;
    while i < s.len()
        invariant
            i <= s.len(),
            count == occurrences(s@.take(i as int), c),
            count <= i,
        decreases s.len() - i,
    {
        proof {
            assert(s@.take(i + 1).drop_last() =~= s@.take(i as int));
            lemma_occurrences_bound(s@.take(i as int), c);
        }
        if s[i] == c {
            count += 1;
        }
        i += 1;
    }
    assert(s@.take(i as int) =~= s@);
    count
}

/// Whether the entropy of `s`, in bits per character, is greater than
/// `num/den`.
pub fn exceeds(s: &[char], num: u32, den: u32) -> (above: bool)
    ensures
        above == entropy_exceeds(s@, num as nat, den as nat),
{
    let n: usize = s.len();
    let mut whole = BigNat::one();
    let mut parts = BigNat::one();
    let mut i: usize = 0;
    proof {
        lemma_pow0(n as int);
        lemma_pow0(2);
        lemma_pow0(1);
        lemma_one_to_any(den as nat);
        assert(den * 0 == 0 && num * 0 == 0);
    }
    while i < n
        invariant
            i <= n,
            n == s@.len(),
            whole.value() == pow(n as int, (den * i) as nat),
            parts.value() == pow(2, (num * i) as nat) * pow(repetition(s@, i as nat) as int, den as nat),
        decreases n - i,
    {
        let count: usize = count_char(s, s[i]);
        let ghost whole_before = whole.value();
        let ghost parts_before = parts.value();
        whole = whole.times_pow(n as u64, den);
        parts = parts.times_pow(count as u64, den);
        parts = parts.times_pow(2, num);
        proof {
            let r = repetition(s@, i as nat) as int;
            let c = count as int;
            let twos = pow(2, (num * i) as nat);
            lemma_pow_adds(n as int, (den * i) as nat, den as nat);
            assert(den * i + den == den * (i + 1)) by (nonlinear_arith);
            lemma_pow_adds(2, (num * i) as nat, num as nat);
            assert(num * i + num == num * (i + 1)) by (nonlinear_arith);
            lemma_pow_distributes(r, c, den as nat);
            assert(repetition(s@, (i + 1) as nat) == r * c);
            let rd = pow(r, den as nat);
            let cd = pow(c, den as nat);
            let nd = pow(2, num as nat);
            assert(twos * rd * cd * nd == (twos * nd) * (rd * cd)) by (nonlinear_arith);
        }
        i += 1;
    }
    whole.exceeds(&parts)
}

/// Every power of one is one.
proof fn lemma_one_to_any(e: nat)
    ensures
        pow(1, e) == 1,
    decreases e,
{
    if e == 0 {
        lemma_pow0(1);
    } else {
        lemma_one_to_any((e - 1) as nat);
        lemma_pow_adds(1, (e - 1) as nat, 1);
        vstd::arithmetic::power::lemma_pow1(1);
    }
}

} // verus!
