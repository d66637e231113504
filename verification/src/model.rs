//! The prediction model: a single coefficient.
//!
//! The coefficient is an IEEE 754 binary64 number. The library stores and
//! hands on its 64 bits and never computes with them.

use vstd::arithmetic::power2::{lemma2_to64, pow2};
use vstd::prelude::*;

verus! {

/// The multiplier of a model that is made without naming one: 2.5.
pub const DEFAULT_MULTIPLIER: u64 = 0x4004_0000_0000_0000;

/// The sign of a binary64 number: its topmost bit.
pub open spec fn sign_field(bits: u64) -> u64 {
    bits >> 63
}

/// The biased exponent of a binary64 number: the eleven bits below the sign.
pub open spec fn exponent_field(bits: u64) -> u64 {
    (bits >> 52) & 0x7ff
}

/// The fraction of a binary64 number: its lowest 52 bits.
pub open spec fn fraction_field(bits: u64) -> u64 {
    bits & 0x000f_ffff_ffff_ffff
}

/// A normal binary64 number whose magnitude is at least one: the exponent
/// field lies from the bias, 1023, up to 2046.
pub open spec fn is_normal_from_one(bits: u64) -> bool {
    1023 <= exponent_field(bits) <= 2046
}

/// For a number that `is_normal_from_one`, its magnitude times 2^52: the
/// fraction with the implicit leading one, times two to the unbiased exponent.
pub open spec fn scaled_magnitude(bits: u64) -> nat {
    ((0x0010_0000_0000_0000 + fraction_field(bits)) * pow2(
        (exponent_field(bits) - 1023) as nat,
    )) as nat
}

/// The multiplier that an initialization installs: the one named, or the
/// default.
pub open spec fn chosen_multiplier(multiplier: Option<u64>) -> u64 {
    match multiplier {
        Some(bits) => bits,
        None => DEFAULT_MULTIPLIER,
    }
}

/// A loaded model.
#[derive(Clone, Copy, Debug, PartialEq, Eq)]
pub struct TestModel {
    /// The bits of the coefficient by which an input is multiplied.
    pub multiplier: u64,
}

impl TestModel {
    /// A model with the given coefficient.
    pub fn new(multiplier: u64) -> (model: Self)
        ensures
            model == (TestModel { multiplier }),
    {
        TestModel { multiplier }
    }
}

/// The default multiplier is the positive number five halves: twice its
/// magnitude, scaled by 2^52, is five times 2^52.
pub proof fn default_multiplier_is_five_halves()
    ensures
        sign_field(DEFAULT_MULTIPLIER) == 0,
        is_normal_from_one(DEFAULT_MULTIPLIER),
        2 * scaled_magnitude(DEFAULT_MULTIPLIER) == 5 * 0x0010_0000_0000_0000,
{
    assert(sign_field(0x4004_0000_0000_0000) == 0) by (bit_vector);
    assert(exponent_field(0x4004_0000_0000_0000) == 1024) by (bit_vector);
    assert(fraction_field(0x4004_0000_0000_0000) == 0x0004_0000_0000_0000) by (bit_vector);
    lemma2_to64();
}

} // verus!
