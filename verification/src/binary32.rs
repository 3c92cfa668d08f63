//! Single-precision values in their IEEE 754 interchange encoding.
//!
//! Coordinates reach this library as the 32 bits of a binary32 number: one
//! sign bit, eight bits of biased exponent, twenty-three bits of fraction.
//! A finite encoding stands for a whole multiple of `2^-149`: its magnitude,
//! a natural number, with the sign that the sign bit gives. Bounds on a
//! coordinate are stated over these whole numbers and decided on the bits.

use vstd::prelude::*;
use vstd::arithmetic::power2::{
    lemma2_to64,
    lemma_pow2_adds,
    lemma_pow2_pos,
    lemma_pow2_strictly_increases,
    pow2,
};

verus! {

/// Clears the sign bit of an encoding.
pub const MAGNITUDE_MASK: u32 = 0x7fff_ffff;

/// Number of binary places behind the point of a magnitude.
pub open spec fn scale() -> nat {
    149
}

/// The encoding with its sign bit cleared.
pub open spec fn magnitude_bits(bits: u32) -> nat {
    (bits % 0x8000_0000) as nat
}

/// The biased exponent held in an encoding.
pub open spec fn exponent(bits: u32) -> nat {
    (bits / 0x80_0000 % 0x100) as nat
}

/// The fraction held in an encoding.
pub open spec fn fraction(bits: u32) -> nat {
    (bits % 0x80_0000) as nat
}

/// Whether an encoding stands for a number at all, that is for neither an
/// infinity nor a NaN.
pub open spec fn is_finite(bits: u32) -> bool {
    exponent(bits) < 0xff
}

/// The absolute value of a finite encoding, counted in units of `2^-149`.
///
/// With a zero exponent the value is subnormal and the fraction is the
/// magnitude as it stands; otherwise the fraction gets its leading one and
/// is shifted by the exponent. Of an encoding that is not finite this is no
/// value: the formula then gives a number above every finite magnitude.
pub open spec fn magnitude(bits: u32) -> nat {
    if exponent(bits) == 0 {
        fraction(bits)
    } else {
        (0x80_0000 + fraction(bits)) * pow2((exponent(bits) - 1) as nat)
    }
}

/// Whether the sign bit of an encoding is set.
pub open spec fn is_negative(bits: u32) -> bool {
    bits >= 0x8000_0000
}

/// The number that a finite encoding stands for, counted in units of
/// `2^-149`.
pub open spec fn scaled(bits: u32) -> int {
    if is_negative(bits) {
        -(magnitude(bits) as int)
    } else {
        magnitude(bits) as int
    }
}

/// Whether an encoding stands for a number from `-limit` to `limit`, the
/// ends included.
pub open spec fn within(bits: u32, limit: nat) -> bool {
    is_finite(bits) && -(limit * pow2(scale())) <= scaled(bits) <= limit * pow2(scale())
}

/// An encoding without its sign bit is its exponent followed by its fraction.
pub proof fn lemma_fields(bits: u32)
    ensures
        magnitude_bits(bits) == exponent(bits) * 0x80_0000 + fraction(bits),
        exponent(bits) < 0x100,
        fraction(bits) < 0x80_0000,
{
}

/// A magnitude lies between the powers of two that its exponent names.
proof fn lemma_magnitude_range(bits: u32)
    ensures
        magnitude(bits) < 0x80_0000 * pow2(exponent(bits)),
        exponent(bits) > 0 ==> 0x80_0000 * pow2((exponent(bits) - 1) as nat) <= magnitude(bits),
{
    let e: nat = exponent(bits);
    let f: nat = fraction(bits);
    lemma_fields(bits);
    if e == 0 {
        lemma2_to64();
    } else {
        let p: nat = pow2((e - 1) as nat);
        lemma_pow2_pos((e - 1) as nat);
        lemma_pow2_adds(1, (e - 1) as nat);
        lemma2_to64();
        assert((0x80_0000 + f) * p < 0x100_0000 * p) by (nonlinear_arith)
            requires
                f < 0x80_0000,
                p > 0,
        ;
        assert(0x80_0000 * p <= (0x80_0000 + f) * p) by (nonlinear_arith)
            requires
                f >= 0,
                p > 0,
        ;
    }
}

/// Among encodings with one exponent, the larger fraction is the larger
/// magnitude.
proof fn lemma_same_exponent(a: u32, b: u32)
    requires
        exponent(a) == exponent(b),
    ensures
        fraction(a) <= fraction(b) <==> magnitude(a) <= magnitude(b),
{
    let e: nat = exponent(a);
    if e > 0 {
        let p: nat = pow2((e - 1) as nat);
        let fa: nat = fraction(a);
        let fb: nat = fraction(b);
        lemma_pow2_pos((e - 1) as nat);
        assert(fa <= fb <==> (0x80_0000 + fa) * p <= (0x80_0000 + fb) * p) by (nonlinear_arith)
            requires
                p > 0,
        ;
    }
}

/// An encoding with the smaller exponent has the smaller magnitude.
proof fn lemma_smaller_exponent(a: u32, b: u32)
    requires
        exponent(a) < exponent(b),
    ensures
        magnitude(a) < magnitude(b),
{
    let ea: nat = exponent(a);
    let eb: nat = exponent(b);
    lemma_magnitude_range(a);
    lemma_magnitude_range(b);
    if ea < eb - 1 {
        lemma_pow2_strictly_increases(ea, (eb - 1) as nat);
    }
    assert(0x80_0000 * pow2(ea) <= 0x80_0000 * pow2((eb - 1) as nat)) by (nonlinear_arith)
        requires
            pow2(ea) <= pow2((eb - 1) as nat),
    ;
}

/// The encoding orders absolute values: of two encodings, the one whose bits
/// below the sign are the smaller number stands for the smaller magnitude.
pub proof fn lemma_magnitude_order(a: u32, b: u32)
    ensures
        magnitude_bits(a) <= magnitude_bits(b) <==> magnitude(a) <= magnitude(b),
{
    lemma_fields(a);
    lemma_fields(b);
    if exponent(a) == exponent(b) {
        lemma_same_exponent(a, b);
    } else if exponent(a) < exponent(b) {
        lemma_smaller_exponent(a, b);
    } else {
        lemma_smaller_exponent(b, a);
    }
}

/// Decides whether the bits of `bits` below the sign are at most those of
/// `bound`. Where `bound` is finite, that is whether `bits` stands for a
/// number whose absolute value does not exceed that of `bound`.
pub fn magnitude_at_most(bits: u32, bound: u32) -> (r: bool)
    ensures
        r == (magnitude_bits(bits) <= magnitude_bits(bound)),
        is_finite(bound) ==> r == (is_finite(bits) && magnitude(bits) <= magnitude(bound)),
{
    let cleared: u32 = bits & MAGNITUDE_MASK;
    let limit: u32 = bound & MAGNITUDE_MASK;
    proof {
        assert(bits & 0x7fff_ffff == bits % 0x8000_0000) by (bit_vector);
        assert(bound & 0x7fff_ffff == bound % 0x8000_0000) by (bit_vector);
        lemma_magnitude_order(bits, bound);
    }
    cleared <= limit
}

} // verus!
