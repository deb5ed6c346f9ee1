//! The largest unit draw: the float just below one, as a bit pattern.

use vstd::arithmetic::power2::{lemma2_to64, lemma2_to64_rest, lemma_pow2_pos, pow2};
use vstd::bits::lemma_u64_shl_is_mul;
use vstd::prelude::*;

verus! {

/// Bits in the fraction field of a 32-bit float.
pub const F32_FRACTION_BITS: u64 = 23;

/// The exponent bias of a 32-bit float.
pub const F32_EXPONENT_BIAS: u64 = 127;

/// Bits in the fraction field of a 64-bit float.
pub const F64_FRACTION_BITS: u64 = 52;

/// The exponent bias of a 64-bit float.
pub const F64_EXPONENT_BIAS: u64 = 1023;

/// The bit pattern of a positive float with biased exponent `exponent` and
/// fraction `fraction`, in a format whose fraction field has `fraction_bits`
/// bits.
pub open spec fn float_pattern(exponent: nat, fraction: nat, fraction_bits: nat) -> nat {
    exponent * pow2(fraction_bits) + fraction
}

/// The pattern of the largest float below one, in the format with the given
/// fraction width and exponent bias. One has the biased exponent `bias` and
/// fraction zero; positive floats order as their patterns, so the float just
/// below it has the pattern one less: exponent `bias - 1` and every fraction
/// bit set, the value `1 - 2^-(fraction_bits + 1)`.
pub fn below_one_bits(fraction_bits: u64, exponent_bias: u64) -> (r: u64)
    requires
        0 < fraction_bits < 64,
        exponent_bias >= 1,
        exponent_bias * pow2(fraction_bits as nat) <= u64::MAX,
    ensures
        r + 1 == float_pattern(exponent_bias as nat, 0, fraction_bits as nat),
        r == float_pattern(
            (exponent_bias - 1) as nat,
            (pow2(fraction_bits as nat) - 1) as nat,
            fraction_bits as nat,
        ),
{
    proof {
        lemma_u64_shl_is_mul(exponent_bias, fraction_bits);
        lemma_pow2_pos(fraction_bits as nat);
        let p = pow2(fraction_bits as nat);
        assert(exponent_bias * p == (exponent_bias - 1) * p + p) by (nonlinear_arith);
        assert(exponent_bias * p >= 1) by (nonlinear_arith)
            requires
                exponent_bias >= 1,
                p > 0,
        ;
    }
    (exponent_bias << fraction_bits) - 1
}

/// The pattern of the largest 32-bit float below one.
pub fn max_rand_bits_f32() -> (r: u32)
    ensures
        r + 1 == float_pattern(F32_EXPONENT_BIAS as nat, 0, F32_FRACTION_BITS as nat),
        r == float_pattern(
            (F32_EXPONENT_BIAS - 1) as nat,
            (pow2(F32_FRACTION_BITS as nat) - 1) as nat,
            F32_FRACTION_BITS as nat,
        ),
{
    proof {
        lemma2_to64();
    }
    below_one_bits(F32_FRACTION_BITS, F32_EXPONENT_BIAS) as u32
}

/// The pattern of the largest 64-bit float below one.
pub fn max_rand_bits_f64() -> (r: u64)
    ensures
        r + 1 == float_pattern(F64_EXPONENT_BIAS as nat, 0, F64_FRACTION_BITS as nat),
        r == float_pattern(
            (F64_EXPONENT_BIAS - 1) as nat,
            (pow2(F64_FRACTION_BITS as nat) - 1) as nat,
            F64_FRACTION_BITS as nat,
        ),
{
    proof {
        lemma2_to64_rest();
        assert(F64_EXPONENT_BIAS * pow2(F64_FRACTION_BITS as nat) == 0x3ff0_0000_0000_0000);
    }
    below_one_bits(F64_FRACTION_BITS, F64_EXPONENT_BIAS)
}

} // verus!
