//! Extra sampling for `fastrand` generators: the integer and decision logic of
//! uniform sampling over float ranges and of approximate normal sampling.

mod float_normal;
mod float_range;
mod unit_bits;

pub use fastrand::Rng;

pub use float_normal::{
    lemma_offset_antisymmetric, low_ones, max_offset, normal_approx_offset, offset_from_bits,
    offset_of,
};
pub use float_range::{
    choose_half, lemma_plan_matches_bounds, BoundKind, HalfPlan, Inclusive, UnitDraw,
};
pub use unit_bits::{
    below_one_bits, float_pattern, max_rand_bits_f32, max_rand_bits_f64, F32_EXPONENT_BIAS,
    F32_FRACTION_BITS, F64_EXPONENT_BIAS, F64_FRACTION_BITS,
};

use vstd::prelude::*;

verus! {

/// Marks the generator types that the sampling extensions are offered on.
pub trait Sealed {
}

/// `fastrand`'s generator, carried through as an opaque value.
#[verifier::external_type_specification]
#[verifier::external_body]
pub struct ExRng(fastrand::Rng);

impl Sealed for Rng {
}

/// The draws of a generator that the samplers make outside floating point.
pub trait BaseRng {
    /// A fair coin.
    fn bool(&mut self) -> bool;

    /// A value uniform over all of `u128`.
    fn u128(&mut self) -> u128;
}

impl BaseRng for Rng {
    fn bool(&mut self) -> bool {
        rng_bool(self)
    }

    fn u128(&mut self) -> u128 {
        rng_u128(self)
    }
}

/// The thread-local generator of `fastrand`.
pub struct GlobalRng;

impl BaseRng for GlobalRng {
    fn bool(&mut self) -> bool {
        global_bool()
    }

    fn u128(&mut self) -> u128 {
        global_u128()
    }
}

/// Relies on `fastrand::Rng::bool`; nothing is known of the coin's side.
#[verifier::external_body]
fn rng_bool(rng: &mut Rng) -> bool {
    rng.bool()
}

/// Relies on `fastrand::Rng::u128` over the full range, which is never empty
/// and so does not panic; nothing is known of the value.
#[verifier::external_body]
fn rng_u128(rng: &mut Rng) -> u128 {
    rng.u128(..)
}

/// Relies on `fastrand::bool`, on the thread-local generator; nothing is
/// known of the coin's side.
#[verifier::external_body]
fn global_bool() -> bool {
    fastrand::bool()
}

/// Relies on `fastrand::u128` over the full range, on the thread-local
/// generator, which does not panic; nothing is known of the value.
#[verifier::external_body]
fn global_u128() -> u128 {
    fastrand::u128(..)
}

} // verus!
