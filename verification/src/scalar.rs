//! The scalar type: an IEEE-754 binary32 value carried as its bit pattern.
//!
//! A `Scalar` stores the 32 raw bits of a binary32 floating-point number.
//! Sign, magnitude, NaN-ness and the ordering are plain integer functions of
//! the pattern and are implemented and verified here directly.  Rounding
//! arithmetic (addition, multiplication, division, square root) is delegated
//! to softfloat routines behind trusted wrappers; each wrapper names its
//! result with an uninterpreted spec function, so every contract downstream
//! is exact relative to those names.

use vstd::prelude::*;

verus! {

/// Bit pattern of the sign bit of a binary32 value.
pub const SIGN_BIT: u32 = 0x8000_0000;

/// Magnitude (sign bit cleared) of an infinity; magnitudes above are NaNs,
/// magnitudes below are finite values.
pub const INF_MAGNITUDE: u32 = 0x7f80_0000;

/// Bit pattern of `1.0`.
pub const ONE_BITS: u32 = 0x3f80_0000;

/// Bit pattern of `-1.0`.
pub const NEG_ONE_BITS: u32 = 0xbf80_0000;

/// The magnitude of a pattern: its 31 low bits, i.e. the pattern with the
/// sign bit cleared.
pub open spec fn mag_bits(b: u32) -> u32 {
    if b >= SIGN_BIT {
        (b - SIGN_BIT) as u32
    } else {
        b
    }
}

/// Whether the sign bit of a pattern is set.
pub open spec fn sign_bits(b: u32) -> bool {
    b >= SIGN_BIT
}

/// Whether a pattern is a NaN: exponent all ones and a nonzero mantissa.
pub open spec fn is_nan_bits(b: u32) -> bool {
    mag_bits(b) > INF_MAGNITUDE
}

/// Whether a pattern is finite (neither an infinity nor a NaN).
pub open spec fn is_finite_bits(b: u32) -> bool {
    mag_bits(b) < INF_MAGNITUDE
}

/// IEEE-754 negation: the same pattern with the sign bit flipped.
pub open spec fn neg_bits(b: u32) -> u32 {
    if b >= SIGN_BIT {
        (b - SIGN_BIT) as u32
    } else {
        (b + SIGN_BIT) as u32
    }
}

/// The key of a pattern: the integer whose ordering is the IEEE-754 ordering
/// of the values.  Both zeros have key 0; NaNs have no meaningful key.
pub open spec fn float_key(b: u32) -> int {
    if sign_bits(b) {
        -(mag_bits(b) as int)
    } else {
        mag_bits(b) as int
    }
}

/// IEEE-754 equality on patterns: neither is a NaN and the keys agree
/// (so `-0.0 == +0.0`, and a NaN equals nothing).
pub open spec fn feq_bits(a: u32, b: u32) -> bool {
    &&& !is_nan_bits(a)
    &&& !is_nan_bits(b)
    &&& float_key(a) == float_key(b)
}

/// IEEE-754 `<=` on patterns: neither is a NaN and the keys are ordered.
pub open spec fn fle_bits(a: u32, b: u32) -> bool {
    &&& !is_nan_bits(a)
    &&& !is_nan_bits(b)
    &&& float_key(a) <= float_key(b)
}

/// The pattern of the IEEE-754 binary32 sum (round to nearest, ties to even)
/// of the values with the given patterns.
pub uninterp spec fn add_bits(a: u32, b: u32) -> u32;

/// The pattern of the IEEE-754 binary32 product of the values with the given
/// patterns.
pub uninterp spec fn mul_bits(a: u32, b: u32) -> u32;

/// The pattern of the IEEE-754 binary32 quotient of the values with the given
/// patterns.
pub uninterp spec fn div_bits(a: u32, b: u32) -> u32;

/// The pattern of the IEEE-754 binary32 square root of the value with the
/// given pattern.
pub uninterp spec fn sqrt_bits(a: u32) -> u32;

/// IEEE-754 subtraction is addition of the negated second operand.
pub open spec fn sub_bits(a: u32, b: u32) -> u32 {
    add_bits(a, neg_bits(b))
}

/// Relies on `const_soft_float`'s `SoftF32::add`: IEEE-754 binary32 addition
/// (round to nearest, ties to even) on the bit patterns, a function of the
/// two patterns alone.  The extra clauses record facts its source shows
/// directly: a NaN operand gives a NaN, `0 + 0` is `0`, a finite value plus
/// its own negation is `+0`, and negating both operands negates a non-NaN
/// sum up to the sign of zero.
#[verifier::external_body]
pub(crate) fn scalar_add_bits(a: u32, b: u32) -> (r: u32)
    ensures
        r == add_bits(a, b),
        (is_nan_bits(a) || is_nan_bits(b)) ==> is_nan_bits(r),
        (a == 0 && b == 0) ==> r == 0,
        (b == neg_bits(a) && is_finite_bits(a)) ==> r == 0,
        !is_nan_bits(r) ==> feq_bits(neg_bits(r), add_bits(neg_bits(b), neg_bits(a))),
{
    const_soft_float::soft_f32::SoftF32::from_bits(a)
        .add(const_soft_float::soft_f32::SoftF32::from_bits(b))
        .to_bits()
}

/// Relies on `const_soft_float`'s `SoftF32::mul`: IEEE-754 binary32
/// multiplication on the bit patterns, a function of the two patterns alone.
/// The extra clauses record facts its source shows directly: a NaN operand
/// gives a NaN, the product of non-NaN operands does not depend on their
/// order, `0 * 0` is `0`, and a non-NaN value times itself is non-NaN and
/// non-negative.
#[verifier::external_body]
pub(crate) fn scalar_mul_bits(a: u32, b: u32) -> (r: u32)
    ensures
        r == mul_bits(a, b),
        (is_nan_bits(a) || is_nan_bits(b)) ==> is_nan_bits(r),
        (!is_nan_bits(a) && !is_nan_bits(b)) ==> r == mul_bits(b, a),
        (a == 0 && b == 0) ==> r == 0,
        (a == b && !is_nan_bits(a)) ==> (!is_nan_bits(r) && !sign_bits(r)),
{
    const_soft_float::soft_f32::SoftF32::from_bits(a)
        .mul(const_soft_float::soft_f32::SoftF32::from_bits(b))
        .to_bits()
}

/// Relies on `const_soft_float`'s `SoftF32::div`: IEEE-754 binary32 division
/// on the bit patterns, a function of the two patterns alone.
#[verifier::external_body]
pub(crate) fn scalar_div_bits(a: u32, b: u32) -> (r: u32)
    ensures
        r == div_bits(a, b),
        (is_nan_bits(a) || is_nan_bits(b)) ==> is_nan_bits(r),
{
    const_soft_float::soft_f32::SoftF32::from_bits(a)
        .div(const_soft_float::soft_f32::SoftF32::from_bits(b))
        .to_bits()
}

/// Relies on `const_soft_float`'s `SoftF32::sqrt`: the IEEE-754 binary32
/// square root of the bit pattern, a function of the pattern alone.
#[verifier::external_body]
pub(crate) fn scalar_sqrt_bits(a: u32) -> (r: u32)
    ensures
        r == sqrt_bits(a),
{
    const_soft_float::soft_f32::SoftF32::from_bits(a).sqrt().to_bits()
}

/// Negation of a pattern: flip the sign bit.
pub(crate) fn scalar_neg_bits(b: u32) -> (r: u32)
    ensures
        r == neg_bits(b),
{
    if b >= SIGN_BIT {
        b - SIGN_BIT
    } else {
        b + SIGN_BIT
    }
}

/// Subtraction, as addition of the negated second operand; its symmetry
/// facts follow from the trusted facts about addition.
pub(crate) fn scalar_sub_bits(a: u32, b: u32) -> (r: u32)
    ensures
        r == sub_bits(a, b),
        (is_nan_bits(a) || is_nan_bits(b)) ==> is_nan_bits(r),
        (a == b && is_finite_bits(a)) ==> r == 0,
        !is_nan_bits(r) ==> feq_bits(neg_bits(r), sub_bits(b, a)),
{
    let nb: u32 = scalar_neg_bits(b);
    let r: u32 = scalar_add_bits(a, nb);
    proof {
        assert(neg_bits(neg_bits(b)) == b);
        assert(is_nan_bits(neg_bits(b)) == is_nan_bits(b));
    }
    r
}

/// The magnitude of a pattern, executably.
pub(crate) fn scalar_mag_bits(b: u32) -> (r: u32)
    ensures
        r == mag_bits(b),
{
    if b >= SIGN_BIT {
        b - SIGN_BIT
    } else {
        b
    }
}

/// IEEE-754 equality on patterns, executably.
pub(crate) fn scalar_feq_bits(a: u32, b: u32) -> (r: bool)
    ensures
        r == feq_bits(a, b),
{
    let ma: u32 = scalar_mag_bits(a);
    let mb: u32 = scalar_mag_bits(b);
    if ma > INF_MAGNITUDE || mb > INF_MAGNITUDE {
        false
    } else {
        a == b || (ma == 0 && mb == 0)
    }
}

/// IEEE-754 `<=` on patterns, executably.
pub(crate) fn scalar_fle_bits(a: u32, b: u32) -> (r: bool)
    ensures
        r == fle_bits(a, b),
{
    let ma: u32 = scalar_mag_bits(a);
    let mb: u32 = scalar_mag_bits(b);
    if ma > INF_MAGNITUDE || mb > INF_MAGNITUDE {
        false
    } else if a >= SIGN_BIT {
        if b >= SIGN_BIT {
            mb <= ma
        } else {
            true
        }
    } else {
        if b >= SIGN_BIT {
            ma == 0 && mb == 0
        } else {
            ma <= mb
        }
    }
}

/// A floating-point scalar, stored as the bit pattern of an IEEE-754
/// binary32 value.
///
/// Equality is IEEE-754 equality: the two zeros are equal, and a NaN is
/// equal to nothing, itself included.
#[derive(Clone, Copy, Debug)]
pub struct Scalar {
    /// The IEEE-754 binary32 bit pattern of this value.
    pub bits: u32,
}

impl Scalar {
    /// The scalar with the given IEEE-754 binary32 bit pattern.
    pub fn from_bits(bits: u32) -> (r: Scalar)
        ensures
            r.bits == bits,
    {
        Scalar { bits }
    }

    /// The IEEE-754 binary32 bit pattern of this scalar.
    pub fn to_bits(self) -> (r: u32)
        ensures
            r == self.bits,
    {
        self.bits
    }

    /// The scalar `0.0`.
    pub fn zero() -> (r: Scalar)
        ensures
            r.bits == 0,
    {
        Scalar { bits: 0 }
    }

    /// The scalar `1.0`.
    pub fn one() -> (r: Scalar)
        ensures
            r.bits == ONE_BITS,
    {
        Scalar { bits: ONE_BITS }
    }
}

impl PartialEq for Scalar {
    fn eq(&self, other: &Scalar) -> bool {
        scalar_feq_bits(self.bits, other.bits)
    }
}

impl vstd::std_specs::cmp::PartialEqSpecImpl for Scalar {
    open spec fn obeys_eq_spec() -> bool {
        true
    }

    open spec fn eq_spec(&self, other: &Scalar) -> bool {
        feq_bits(self.bits, other.bits)
    }
}

impl Default for Scalar {
    fn default() -> (r: Scalar)
        ensures
            r.bits == 0,
    {
        Scalar { bits: 0 }
    }
}

} // verus!
