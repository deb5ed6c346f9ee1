//! The integer core of approximate normal sampling: one 128-bit draw becomes
//! a sum of a binomial and a triangular variable, both centred on zero.

use vstd::arithmetic::power2::{lemma2_to64, lemma_pow2_unfold, pow2};
use vstd::prelude::*;

use crate::BaseRng;

verus! {

/// The number of ones among the lowest `n` bits of `x`.
pub open spec fn low_ones(x: nat, n: nat) -> nat
    decreases n,
{
    if n == 0 {
        0
    } else {
        x % 2 + low_ones(x / 2, (n - 1) as nat)
    }
}

/// The offset that a 128-bit draw `u` stands for. Its lowest 64 bits give a
/// binomial variable, their count of ones less 32; the next two 32-bit lanes
/// `c` and `d` give a triangular one, `c - d`. The binomial part counts in
/// units of 2^32.
pub open spec fn offset_of(u: u128) -> int {
    let binomial = low_ones(u as nat % 0x1_0000_0000_0000_0000, 64) - 32;
    let c = (u as nat / 0x1_0000_0000_0000_0000) % 0x1_0000_0000;
    let d = u as nat / 0x1_0000_0000_0000_0000_0000_0000;
    binomial * 0x1_0000_0000 + c - d
}

/// The largest offset, which a draw of all ones gives; the smallest, which a
/// draw of all zeros gives, is its negation.
pub open spec fn max_offset() -> int {
    33 * 0x1_0000_0000 - 1
}

/// Counts the ones of `x`.
fn count_ones(x: u64) -> (r: u32)
    ensures
        r == low_ones(x as nat, 64),
{
    let mut y: u64 = x;
    let mut c: u32 = 0;
    let mut i: u32 = 0;
    while i < 64
        invariant
            i <= 64,
            c <= i,
            c + low_ones(y as nat, (64 - i) as nat) == low_ones(x as nat, 64),
        decreases 64 - i,
    {
        assert(y & 1 == y % 2) by (bit_vector);
        assert(y >> 1 == y / 2) by (bit_vector);
        c = c + (y & 1) as u32;
        y = y >> 1;
        i = i + 1;
    }
    c
}

proof fn lemma_low_ones_bound(x: nat, n: nat)
    ensures
        low_ones(x, n) <= n,
    decreases n,
{
    if n > 0 {
        lemma_low_ones_bound(x / 2, (n - 1) as nat);
    }
}

/// Complementing the lowest `n` bits complements their count of ones.
proof fn lemma_low_ones_complement(x: nat, n: nat)
    requires
        x < pow2(n),
    ensures
        low_ones((pow2(n) - 1 - x) as nat, n) == n - low_ones(x, n),
    decreases n,
{
    if n > 0 {
        lemma_pow2_unfold(n);
        let h = pow2((n - 1) as nat);
        let y = (pow2(n) - 1 - x) as nat;
        assert(y % 2 == 1 - x % 2 && y / 2 == h - 1 - x / 2) by {
            assert(y == 2 * (h - 1 - x / 2) + (1 - x % 2));
        }
        lemma_low_ones_complement(x / 2, (n - 1) as nat);
    }
}

/// The offset of the complement of a draw is the negated offset of the draw.
/// Complementing is a bijection on draws, so the offsets, and the samples
/// around the mean, are symmetric.
pub proof fn lemma_offset_antisymmetric(u: u128)
    ensures
        offset_of(!u) == -offset_of(u),
{
    let v = !u;
    assert(v % 0x1_0000_0000_0000_0000 == 0xffff_ffff_ffff_ffff - u % 0x1_0000_0000_0000_0000)
        by (bit_vector)
        requires
            v == !u,
    ;
    assert((v / 0x1_0000_0000_0000_0000) % 0x1_0000_0000 == 0xffff_ffff - (u
        / 0x1_0000_0000_0000_0000) % 0x1_0000_0000) by (bit_vector)
        requires
            v == !u,
    ;
    assert(v / 0x1_0000_0000_0000_0000_0000_0000 == 0xffff_ffff - u
        / 0x1_0000_0000_0000_0000_0000_0000) by (bit_vector)
        requires
            v == !u,
    ;
    lemma2_to64();
    lemma_low_ones_complement(u as nat % 0x1_0000_0000_0000_0000, 64);
}

/// The offset that the 128-bit draw `u` stands for.
pub fn offset_from_bits(u: u128) -> (r: i64)
    ensures
        r == offset_of(u),
        -max_offset() <= r <= max_offset(),
{
    let low = u as u64;
    assert(low == u % 0x1_0000_0000_0000_0000) by (bit_vector)
        requires
            low == u as u64,
    ;
    let ones = count_ones(low);
    proof {
        lemma_low_ones_bound(low as nat, 64);
    }
    let binomial: i64 = ones as i64 - 32;

    let c = ((u >> 64) & 0xffff_ffff) as i64;
    let d = (u >> 96) as i64;
    assert((u >> 64) & 0xffff_ffff == (u / 0x1_0000_0000_0000_0000) % 0x1_0000_0000)
        by (bit_vector);
    assert(u >> 96 == u / 0x1_0000_0000_0000_0000_0000_0000) by (bit_vector);
    assert(u >> 96 <= 0xffff_ffff) by (bit_vector);
    let triangular: i64 = c - d;

    // The binomial part shifted up by 32 bits.
    binomial * 0x1_0000_0000 + triangular
}

/// Draws the offset of one approximately normal sample from `rng`.
pub fn normal_approx_offset<R: BaseRng>(rng: &mut R) -> (r: i64)
    ensures
        -max_offset() <= r <= max_offset(),
{
    let u = rng.u128();
    offset_from_bits(u)
}

} // verus!
