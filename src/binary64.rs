//! IEEE 754 binary64 encodings, the form in which the sensors backend hands
//! measurements over. A value is carried as its 64-bit encoding; this module
//! reads the fields of that encoding and rounds a finite value to an integer.

use vstd::arithmetic::power2::{lemma2_to64, lemma2_to64_rest, lemma_pow2_strictly_increases, lemma_pow2_unfold, pow2};
use vstd::prelude::*;

verus! {

/// Encoding of `0.0`.
pub const ZERO_BITS: u64 = 0;
/// Encoding of `1.0`.
pub const ONE_BITS: u64 = 0x3FF0_0000_0000_0000;

const FRACTION_MASK: u64 = 0x000F_FFFF_FFFF_FFFF;
const MAGNITUDE_MASK: u64 = 0x7FFF_FFFF_FFFF_FFFF;
const EXPONENT_MAX: u64 = 0x7FF;

/// The sign bit: 1 for a negative encoding.
pub open spec fn sign_bit(b: u64) -> u64 {
    b >> 63u64
}

/// The biased exponent field.
pub open spec fn exponent_field(b: u64) -> u64 {
    (b >> 52u64) & 0x7FFu64
}

/// The fraction field.
pub open spec fn fraction_field(b: u64) -> u64 {
    b & 0x000F_FFFF_FFFF_FFFFu64
}

/// The encoding is a NaN.
pub open spec fn is_nan(b: u64) -> bool {
    exponent_field(b) == 0x7FF && fraction_field(b) != 0
}

/// The encoding is an infinity of either sign.
pub open spec fn is_infinite(b: u64) -> bool {
    exponent_field(b) == 0x7FF && fraction_field(b) == 0
}

/// The encoding compares unequal to zero (`+0.0` and `-0.0` are the two that
/// compare equal; every NaN compares unequal).
pub open spec fn is_nonzero(b: u64) -> bool {
    b & 0x7FFF_FFFF_FFFF_FFFFu64 != 0
}

/// The integer significand of a finite encoding.
pub open spec fn significand(b: u64) -> nat {
    if exponent_field(b) == 0 {
        fraction_field(b) as nat
    } else {
        fraction_field(b) as nat + pow2(52)
    }
}

/// The magnitude of a finite encoding, rounded to the nearest integer with
/// halves rounded away from zero. The magnitude is `significand * 2^(e - 1075)`
/// for a biased exponent `e` (taken as 1 for subnormals).
pub open spec fn rounded_magnitude(b: u64) -> nat {
    let e = exponent_field(b) as int;
    let m = significand(b);
    if e >= 1075 {
        m * pow2((e - 1075) as nat)
    } else {
        let shift: nat = if e == 0 { 1074 } else { (1075 - e) as nat };
        (2 * m + pow2(shift)) / (2 * pow2(shift))
    }
}

/// `1.0` compares unequal to zero and `0.0` does not.
pub proof fn lemma_one_and_zero()
    ensures
        is_nonzero(ONE_BITS),
        !is_nonzero(ZERO_BITS),
        !is_nan(ONE_BITS),
        !is_nan(ZERO_BITS),
{
    assert(0x3FF0_0000_0000_0000u64 & 0x7FFF_FFFF_FFFF_FFFFu64 != 0) by (bit_vector);
    assert(0u64 & 0x7FFF_FFFF_FFFF_FFFFu64 == 0) by (bit_vector);
    assert((0x3FF0_0000_0000_0000u64 >> 52u64) & 0x7FFu64 == 0x3FF) by (bit_vector);
    assert((0u64 >> 52u64) & 0x7FFu64 == 0) by (bit_vector);
}

/// Return whether an encoding compares unequal to zero.
pub fn nonzero(b: u64) -> (r: bool)
    ensures
        r == is_nonzero(b),
{
    b & MAGNITUDE_MASK != 0
}

/// Return whether an encoding is a NaN.
pub fn nan(b: u64) -> (r: bool)
    ensures
        r == is_nan(b),
{
    (b >> 52u64) & EXPONENT_MAX == EXPONENT_MAX && b & FRACTION_MASK != 0
}

/// Return whether an encoding is an infinity.
pub fn infinite(b: u64) -> (r: bool)
    ensures
        r == is_infinite(b),
{
    (b >> 52u64) & EXPONENT_MAX == EXPONENT_MAX && b & FRACTION_MASK == 0
}

/// Return whether an encoding has its sign bit set.
pub fn negative(b: u64) -> (r: bool)
    ensures
        r == (sign_bit(b) == 1),
{
    assert(b >> 63u64 <= 1) by (bit_vector);
    b >> 63u64 == 1
}

/// Return the rounded magnitude of a finite encoding, saturated at `limit + 1`:
/// every magnitude above `limit` gives `limit + 1`.
pub fn rounded_magnitude_saturating(b: u64, limit: u64) -> (r: u64)
    requires
        !is_nan(b),
        !is_infinite(b),
        limit < 0x10_0000_0000_0000,
    ensures
        rounded_magnitude(b) <= limit ==> r == rounded_magnitude(b),
        rounded_magnitude(b) > limit ==> r == limit + 1,
{
    proof {
        lemma2_to64();
        lemma2_to64_rest();
    }
    let e: u64 = (b >> 52u64) & EXPONENT_MAX;
    let frac: u64 = b & FRACTION_MASK;
    assert(frac < 0x10_0000_0000_0000) by (bit_vector)
        requires
            frac == b & 0x000F_FFFF_FFFF_FFFFu64,
    ;
    assert(e <= 0x7FF) by (bit_vector)
        requires
            e == (b >> 52u64) & 0x7FFu64,
    ;
    let m: u64 = if e == 0 { frac } else { frac + 0x10_0000_0000_0000 };
    assert(m as nat == significand(b));
    if e >= 1075 {
        proof {
            let p: int = pow2((e - 1075) as nat) as int;
            let mm: int = m as int;
            vstd::arithmetic::power2::lemma_pow2_pos((e - 1075) as nat);
            assert(mm * p >= mm) by (nonlinear_arith)
                requires
                    p >= 1,
                    mm >= 0,
            ;
        }
        return limit + 1;
    }
    let shift: u64 = if e == 0 { 1074 } else { 1075 - e };
    if shift >= 54 {
        proof {
            if shift > 54 {
                lemma_pow2_strictly_increases(54, shift as nat);
            }
            let p: int = pow2(shift as nat) as int;
            let mm: int = m as int;
            vstd::arithmetic::div_mod::lemma_basic_div(2 * mm + p, 2 * p);
        }
        return 0;
    }
    let mut p: u64 = 1;
    let mut i: u64 = 0;
    while i < shift
        invariant
            i <= shift,
            shift <= 53,
            pow2(52) == 0x10_0000_0000_0000,
            p as nat == pow2(i as nat),
        decreases shift - i,
    {
        proof {
            lemma_pow2_unfold((i + 1) as nat);
            if i < 52 {
                lemma_pow2_strictly_increases(i as nat, 52);
            }
        }
        p = p * 2;
        i = i + 1;
    }
    proof {
        if shift < 53 {
            lemma_pow2_strictly_increases(shift as nat, 53);
        }
    }
    let r = (2 * m + p) / (2 * p);
    if r > limit {
        limit + 1
    } else {
        r
    }
}

} // verus!
