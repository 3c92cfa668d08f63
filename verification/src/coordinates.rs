//! Geographic bounds on latitude and longitude.
//!
//! Both coordinates are degrees in binary32 encoding. A latitude is valid
//! from ninety degrees south to ninety degrees north, a longitude from one
//! hundred and eighty degrees west to as many east, the ends included. An
//! infinity or a NaN is no coordinate.

use vstd::prelude::*;
use vstd::arithmetic::power2::{lemma2_to64, lemma_pow2_adds, pow2};
use crate::binary32::{
    is_finite,
    lemma_magnitude_order,
    magnitude,
    magnitude_at_most,
    magnitude_bits,
    scale,
    within,
};

verus! {

/// Largest absolute latitude, in whole degrees.
pub open spec fn latitude_limit() -> nat {
    90
}

/// Largest absolute longitude, in whole degrees.
pub open spec fn longitude_limit() -> nat {
    180
}

/// The encoding of ninety degrees.
pub const MAX_LATITUDE: u32 = 0x42b4_0000;

/// The encoding of one hundred and eighty degrees.
pub const MAX_LONGITUDE: u32 = 0x4334_0000;

/// Whether an encoding is a latitude between the poles.
pub open spec fn valid_latitude(bits: u32) -> bool {
    within(bits, latitude_limit())
}

/// Whether an encoding is a longitude between the two sides of the
/// antimeridian.
pub open spec fn valid_longitude(bits: u32) -> bool {
    within(bits, longitude_limit())
}

/// `MAX_LATITUDE` is finite and stands for exactly ninety.
pub proof fn lemma_max_latitude()
    ensures
        is_finite(MAX_LATITUDE),
        magnitude(MAX_LATITUDE) == latitude_limit() * pow2(scale()),
{
    assert(0x42b4_0000u32 / 0x80_0000 % 0x100 == 133) by (bit_vector);
    assert(0x42b4_0000u32 % 0x80_0000 == 0x34_0000) by (bit_vector);
    lemma2_to64();
    lemma_pow2_adds(17, 132);
    let p: nat = pow2(132);
    assert(0xb4_0000 * p == 90 * (0x2_0000 * p)) by (nonlinear_arith);
}

/// `MAX_LONGITUDE` is finite and stands for exactly one hundred and eighty.
pub proof fn lemma_max_longitude()
    ensures
        is_finite(MAX_LONGITUDE),
        magnitude(MAX_LONGITUDE) == longitude_limit() * pow2(scale()),
{
    assert(0x4334_0000u32 / 0x80_0000 % 0x100 == 134) by (bit_vector);
    assert(0x4334_0000u32 % 0x80_0000 == 0x34_0000) by (bit_vector);
    lemma2_to64();
    lemma_pow2_adds(16, 133);
    let p: nat = pow2(133);
    assert(0xb4_0000 * p == 180 * (0x1_0000 * p)) by (nonlinear_arith);
}

/// A latitude is valid exactly when its bits below the sign do not exceed
/// those of ninety degrees.
pub proof fn lemma_valid_latitude_bits(bits: u32)
    ensures
        valid_latitude(bits) <==> magnitude_bits(bits) <= MAX_LATITUDE,
{
    lemma_max_latitude();
    lemma_magnitude_order(bits, MAX_LATITUDE);
}

/// A longitude is valid exactly when its bits below the sign do not exceed
/// those of one hundred and eighty degrees.
pub proof fn lemma_valid_longitude_bits(bits: u32)
    ensures
        valid_longitude(bits) <==> magnitude_bits(bits) <= MAX_LONGITUDE,
{
    lemma_max_longitude();
    lemma_magnitude_order(bits, MAX_LONGITUDE);
}

/// Decides whether `bits` is a valid latitude.
pub fn latitude_in_range(bits: u32) -> (r: bool)
    ensures
        r == valid_latitude(bits),
{
    proof {
        lemma_max_latitude();
    }
    magnitude_at_most(bits, MAX_LATITUDE)
}

/// Decides whether `bits` is a valid longitude.
pub fn longitude_in_range(bits: u32) -> (r: bool)
    ensures
        r == valid_longitude(bits),
{
    proof {
        lemma_max_longitude();
    }
    magnitude_at_most(bits, MAX_LONGITUDE)
}

} // verus!
