//! Natural numbers without an upper bound, as far as the entropy test needs
//! them: multiplied by a machine word, and told apart by size.

use vstd::arithmetic::power::{lemma_pow0, lemma_pow_adds, pow};
use vstd::prelude::*;

verus! {

/// The base of the notation: one more than the largest limb.
pub open spec fn radix() -> nat {
    0x1_0000_0000_0000_0000
}

/// The limb at position `i`, and zero beyond the last limb.
pub open spec fn limb_at(limbs: Seq<u64>, i: int) -> nat {
    if 0 <= i < limbs.len() {
        limbs[i] as nat
    } else {
        0
    }
}

/// What one unit at position `i` is worth: the `i`-th power of the base.
pub open spec fn weight(i: nat) -> nat
    decreases i,
{
    if i == 0 {
        1
    } else {
        radix() * weight((i - 1) as nat)
    }
}

/// The number that the lowest `n` limbs write, the lowest limb first.
pub open spec fn low_value(limbs: Seq<u64>, n: nat) -> nat
    decreases n,
{
    if n == 0 {
        0
    } else {
        low_value(limbs, (n - 1) as nat) + limb_at(limbs, n - 1) * weight((n - 1) as nat)
    }
}

/// `n` limbs write a number below the `n`-th power of the base.
pub proof fn lemma_low_value_bound(limbs: Seq<u64>, n: nat)
    ensures
        low_value(limbs, n) < weight(n),
    decreases n,
{
    if n > 0 {
        let m = (n - 1) as nat;
        lemma_low_value_bound(limbs, m);
        let w = weight(m);
        let l = limb_at(limbs, m as int);
        assert(l <= radix() - 1);
        assert(l * w <= (radix() - 1) * w) by (nonlinear_arith)
            requires
                l <= radix() - 1,
                w >= 0,
        ;
        assert((radix() - 1) * w + w == radix() * w) by (nonlinear_arith);
    }
}

/// The lowest `n` limbs alone decide what they write.
pub proof fn lemma_low_value_agrees(a: Seq<u64>, b: Seq<u64>, n: nat)
    requires
        forall|i: int| 0 <= i < n ==> limb_at(a, i) == limb_at(b, i),
    ensures
        low_value(a, n) == low_value(b, n),
    decreases n,
{
    if n > 0 {
        lemma_low_value_agrees(a, b, (n - 1) as nat);
    }
}

/// Positions beyond the last limb add nothing.
pub proof fn lemma_low_value_beyond(limbs: Seq<u64>, n: nat)
    requires
        n >= limbs.len(),
    ensures
        low_value(limbs, n) == low_value(limbs, limbs.len()),
    decreases n,
{
    if n > limbs.len() {
        lemma_low_value_beyond(limbs, (n - 1) as nat);
        assert(limb_at(limbs, n - 1) == 0);
        assert(0 * weight((n - 1) as nat) == 0);
    }
}

/// A natural number of any size.
pub struct BigNat {
    limbs: Vec<u64>,
}

impl BigNat {
    /// The number that this value stands for.
    pub closed spec fn value(&self) -> nat {
        low_value(self.limbs@, self.limbs@.len())
    }

    /// The number one.
    pub fn one() -> (n: BigNat)
        ensures
            n.value() == 1,
    {
        let mut limbs: Vec<u64> = Vec::new();
        limbs.push(1);
        proof {
            assert(weight(0) == 1);
            assert(limb_at(limbs@, 0) == 1);
            assert(low_value(limbs@, 0) == 0);
            assert(low_value(limbs@, 1) == low_value(limbs@, 0) + limb_at(limbs@, 0) * weight(0));
        }
        BigNat { limbs }
    }

    /// The product of this number and `k`.
    pub fn times(&self, k: u64) -> (product: BigNat)
        ensures
            product.value() == self.value() * k,
    {
        let mut out: Vec<u64> = Vec::new();
        let mut carry: u64 = 0;
        let mut i: usize = 0;
        let n: usize = self.limbs.len();
        proof {
            assert(low_value(out@, 0) == 0);
            assert(low_value(self.limbs@, 0) == 0);
            assert(0 * weight(0) == 0);
            assert(0 * k == 0);
        }
        while i < n
            invariant
                i <= n,
                n == self.limbs@.len(),
                out@.len() == i,
                low_value(out@, i as nat) + carry * weight(i as nat) == low_value(
                    self.limbs@,
                    i as nat,
                ) * k,
            decreases n - i,
        {
            let limb: u64 = self.limbs[i];
            assert(limb as u128 * k as u128 + carry as u128 <= u128::MAX) by (nonlinear_arith)
                requires
                    limb <= u64::MAX,
                    k <= u64::MAX,
                    carry <= u64::MAX,
            ;
            let total: u128 = limb as u128 * k as u128 + carry as u128;
            assert(total / 0x1_0000_0000_0000_0000u128 <= u64::MAX) by (nonlinear_arith)
                requires
                    total == limb as u128 * k as u128 + carry as u128,
                    limb <= u64::MAX,
                    k <= u64::MAX,
                    carry <= u64::MAX,
            ;
            let low: u64 = (total % 0x1_0000_0000_0000_0000u128) as u64;
            let high: u64 = (total / 0x1_0000_0000_0000_0000u128) as u64;
            let ghost before = out@;
            out.push(low);
            proof {
                let w = weight(i as nat);
                let prior = low_value(self.limbs@, i as nat);
                assert(low as nat + high as nat * radix() == total as nat);
                lemma_low_value_agrees(before, out@, i as nat);
                assert(limb_at(out@, i as int) == low);
                assert(limb_at(self.limbs@, i as int) == limb);
                assert(weight((i + 1) as nat) == radix() * w);
                assert(low_value(out@, (i + 1) as nat) == low_value(before, i as nat) + low * w);
                assert(low_value(self.limbs@, (i + 1) as nat) == prior + limb * w);
                assert(low_value(before, i as nat) + low * w + high * (radix() * w) == (prior + limb
                    * w) * k) by (nonlinear_arith)
                    requires
                        low_value(before, i as nat) + carry * w == prior * k,
                        low as nat + high as nat * radix() == limb as nat * k as nat + carry as nat,
                ;
            }
            carry = high;
            i += 1;
        }
        if carry != 0 {
            let ghost before = out@;
            out.push(carry);
            proof {
                lemma_low_value_agrees(before, out@, n as nat);
                assert(limb_at(out@, n as int) == carry);
            }
        } else {
            assert(0 * weight(n as nat) == 0);
        }
        BigNat { limbs: out }
    }

    /// The product of this number and the `e`-th power of `k`.
    pub fn times_pow(self, k: u64, e: u32) -> (product: BigNat)
        ensures
            product.value() == self.value() * pow(k as int, e as nat),
    {
        let ghost start = self.value();
        let mut product = self;
        let mut done: u32 = 0;
        proof {
            lemma_pow0(k as int);
        }
        while done < e
            invariant
                done <= e,
                product.value() == start * pow(k as int, done as nat),
            decreases e - done,
        {
            product = product.times(k);
            proof {
                let p = pow(k as int, done as nat);
                lemma_pow_adds(k as int, done as nat, 1);
                vstd::arithmetic::power::lemma_pow1(k as int);
                assert(start * p * k == start * (p * k)) by (nonlinear_arith);
            }
            done += 1;
        }
        product
    }

    /// Whether this number is greater than `other`.
    pub fn exceeds(&self, other: &BigNat) -> (greater: bool)
        ensures
            greater == (self.value() > other.value()),
    {
        let top: usize = if self.limbs.len() > other.limbs.len() {
            self.limbs.len()
        } else {
            other.limbs.len()
        };
        proof {
            lemma_low_value_beyond(self.limbs@, top as nat);
            lemma_low_value_beyond(other.limbs@, top as nat);
        }
        let mut i: usize = top;
        while i > 0
            invariant
                i <= top,
                self.value() == low_value(self.limbs@, top as nat),
                other.value() == low_value(other.limbs@, top as nat),
                low_value(self.limbs@, top as nat) - low_value(self.limbs@, i as nat) == low_value(
                    other.limbs@,
                    top as nat,
                ) - low_value(other.limbs@, i as nat),
            decreases i,
        {
            i -= 1;
            let mine: u64 = if i < self.limbs.len() {
                self.limbs[i]
            } else {
                0
            };
            let theirs: u64 = if i < other.limbs.len() {
                other.limbs[i]
            } else {
                0
            };
            proof {
                assert(limb_at(self.limbs@, i as int) == mine);
                assert(limb_at(other.limbs@, i as int) == theirs);
                assert(low_value(self.limbs@, (i + 1) as nat) == low_value(self.limbs@, i as nat)
                    + mine * weight(i as nat));
                assert(low_value(other.limbs@, (i + 1) as nat) == low_value(other.limbs@, i as nat)
                    + theirs * weight(i as nat));
            }
            if mine != theirs {
                proof {
                    let w = weight(i as nat);
                    lemma_low_value_bound(self.limbs@, i as nat);
                    lemma_low_value_bound(other.limbs@, i as nat);
                    if mine > theirs {
                        assert(mine * w >= theirs * w + w) by (nonlinear_arith)
                            requires
                                mine >= theirs + 1,
                                w >= 0,
                        ;
                    } else {
                        assert(theirs * w >= mine * w + w) by (nonlinear_arith)
                            requires
                                theirs >= mine + 1,
                                w >= 0,
                        ;
                    }
                }
                return mine > theirs;
            }
        }
        false
    }
}

} // verus!
