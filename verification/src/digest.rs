//! The content digest of a file: the 64-bit FNV-1a hash of its bytes, written
//! as `hash_` and sixteen hexadecimal digits.
//!
//! The digest tells files apart; it does not resist an attacker who wants two
//! files to agree.

use vstd::prelude::*;

verus! {

/// The value that the hash starts from.
pub const FNV_OFFSET: u64 = 0xcbf2_9ce4_8422_2325;

/// The multiplier of each step.
pub const FNV_PRIME: u64 = 0x0000_0100_0000_01b3;

/// One step of the hash: the byte is folded into the low bits, then the
/// whole is multiplied, modulo 2^64.
pub open spec fn fnv_step(hash: u64, byte: u8) -> u64 {
    (hash ^ (byte as u64)).wrapping_mul(FNV_PRIME)
}

/// The FNV-1a hash of `bytes`.
pub open spec fn fnv1a(bytes: Seq<u8>) -> u64
    decreases bytes.len(),
{
    if bytes.len() == 0 {
        FNV_OFFSET
    } else {
        fnv_step(fnv1a(bytes.drop_last()), bytes.last())
    }
}

/// The `i`-th of the sixteen four-bit groups of `hash`, the highest first.
pub open spec fn nibble(hash: u64, i: int) -> u64 {
    (hash >> ((60 - 4 * i) as u64)) & 0xf
}

/// The digit that stands for a value below sixteen.
pub open spec fn hex_digit(value: int) -> char {
    "0123456789abcdef"@[value]
}

/// The first `count` hexadecimal digits of `hash`.
pub open spec fn hex_digits(hash: u64, count: int) -> Seq<char> {
    Seq::new(count as nat, |i: int| hex_digit(nibble(hash, i) as int))
}

/// The digest of `bytes` as it is recorded.
pub open spec fn digest_text(bytes: Seq<u8>) -> Seq<char> {
    "hash_"@ + hex_digits(fnv1a(bytes), 16)
}

/// One step of the hash tells any two bytes apart: multiplying by the odd
/// prime loses nothing modulo 2^64.
pub proof fn lemma_step_tells_bytes_apart(hash: u64, a: u8, b: u8)
    requires
        a != b,
    ensures
        fnv_step(hash, a) != fnv_step(hash, b),
{
    let x = hash ^ (a as u64);
    let y = hash ^ (b as u64);
    assert(x != y) by (bit_vector)
        requires
            a != b,
            x == hash ^ (a as u64),
            y == hash ^ (b as u64),
    ;
    if fnv_step(hash, a) == fnv_step(hash, b) {
        let m: int = 0x1_0000_0000_0000_0000;
        let p: int = FNV_PRIME as int;
        // the inverse of the prime modulo 2^64: p * inverse == 1 + k * m
        let inverse: int = 0xce96_5057_aff6_957b;
        let k: int = 887_285_111_055;
        assert(p * inverse == 1 + k * m) by (nonlinear_arith)
            requires
                p == 0x0000_0100_0000_01b3,
                inverse == 0xce96_5057_aff6_957b,
                k == 887_285_111_055,
                m == 0x1_0000_0000_0000_0000,
        ;
        let r = ((x as int) * p) % m;
        assert(r == ((y as int) * p) % m);
        let qx = ((x as int) * p) / m;
        let qy = ((y as int) * p) / m;
        assert((x as int) * p == qx * m + r) by (nonlinear_arith)
            requires
                qx == ((x as int) * p) / m,
                r == ((x as int) * p) % m,
                m > 0,
        ;
        assert((y as int) * p == qy * m + r) by (nonlinear_arith)
            requires
                qy == ((y as int) * p) / m,
                r == ((y as int) * p) % m,
                m > 0,
        ;
        let d = x as int - y as int;
        let t = (qx - qy) * inverse - d * k;
        assert(d == t * m) by (nonlinear_arith)
            requires
                d == x as int - y as int,
                (x as int) * p == qx * m + r,
                (y as int) * p == qy * m + r,
                p * inverse == 1 + k * m,
                t == (qx - qy) * inverse - d * k,
        ;
        assert(-m < d < m);
        assert(t == 0) by (nonlinear_arith)
            requires
                d == t * m,
                -m < d < m,
                m > 0,
        ;
        assert(d == 0);
    }
}

/// Two contents that differ in their last byte only have different hashes.
pub proof fn lemma_last_byte_counts(bytes: Seq<u8>, a: u8, b: u8)
    requires
        a != b,
    ensures
        fnv1a(bytes.push(a)) != fnv1a(bytes.push(b)),
{
    assert(bytes.push(a).drop_last() =~= bytes);
    assert(bytes.push(b).drop_last() =~= bytes);
    lemma_step_tells_bytes_apart(fnv1a(bytes), a, b);
}

/// The FNV-1a hash of `bytes`.
pub fn hash_bytes(bytes: &[u8]) -> (hash: u64)
    ensures
        hash == fnv1a(bytes@),
{
    let mut hash: u64 = FNV_OFFSET;
    let mut i: usize = 0;
    while i < bytes.len()
        invariant
            i <= bytes.len(),
            hash == fnv1a(bytes@.take(i as int)),
        decreases bytes.len() - i,
    {
        assert(bytes@.take(i + 1).drop_last() =~= bytes@.take(i as int));
        hash = (hash ^ (bytes[i] as u64)).wrapping_mul(FNV_PRIME);
        i += 1;
    }
    assert(bytes@.take(i as int) =~= bytes@);
    hash
}

/// The digest of `bytes`: a function of the bytes alone, so that the same
/// content always gets the same digest.
pub fn content_digest(bytes: &[u8]) -> (digest: String)
    ensures
        digest@ == digest_text(bytes@),
{
    let hash: u64 = hash_bytes(bytes);
    let digits = "0123456789abcdef";
    let mut digest = String::from_str("hash_");
    let mut i: u64 = 0;
    proof {
        reveal_strlit("0123456789abcdef");
    }
    while i < 16
        invariant
            i <= 16,
            digits@ == "0123456789abcdef"@,
            digits@.len() == 16,
            digest@ == "hash_"@ + hex_digits(hash, i as int),
        decreases 16 - i,
    {
        let shift: u64 = 60 - 4 * i;
        let value: u64 = (hash >> shift) & 0xf;
        assert(value < 16) by (bit_vector)
            requires
                value == (hash >> shift) & 0xf,
        ;
        let from: usize = value as usize;
        let digit = digits.substring_char(from, from + 1);
        digest.append(digit);
        assert(digest@ =~= "hash_"@ + hex_digits(hash, i + 1));
        i += 1;
    }
    digest
}

} // verus!
