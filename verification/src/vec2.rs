//! A 2D vector using `x/y`.

use vstd::prelude::*;

use crate::scalar::{
    Scalar, add_bits, div_bits, feq_bits, fle_bits, is_nan_bits, mul_bits, scalar_add_bits,
    scalar_div_bits, scalar_feq_bits, scalar_fle_bits, scalar_mul_bits, scalar_sqrt_bits,
    scalar_sub_bits, sqrt_bits, sub_bits, ONE_BITS,
};
use crate::vec3::Vec3;

verus! {

/// A 2-dimensional vector over `Scalar`.
#[derive(Clone, Copy, Debug)]
pub struct Vec2 {
    /// The first component.
    pub x: Scalar,
    /// The second component.
    pub y: Scalar,
}

/// The vector with the two given bit patterns.
pub open spec fn vec2_bits(x: u32, y: u32) -> Vec2 {
    Vec2 { x: Scalar { bits: x }, y: Scalar { bits: y } }
}

/// No component of the vector is a NaN.
pub open spec fn no_nan2(v: Vec2) -> bool {
    &&& !is_nan_bits(v.x.bits)
    &&& !is_nan_bits(v.y.bits)
}

/// The pattern of the dot product: the rounded sum of the rounded
/// componentwise products.
pub open spec fn dot2_bits(a: Vec2, b: Vec2) -> u32 {
    add_bits(mul_bits(a.x.bits, b.x.bits), mul_bits(a.y.bits, b.y.bits))
}

/// The pattern of the squared length: the dot product of the vector with
/// itself.
pub open spec fn length_sq2_bits(v: Vec2) -> u32 {
    dot2_bits(v, v)
}

/// The pattern of the squared distance: the squared length of the
/// componentwise difference `other - self`.
pub open spec fn distance_sq2_bits(a: Vec2, b: Vec2) -> u32 {
    length_sq2_bits(vec2_bits(sub_bits(b.x.bits, a.x.bits), sub_bits(b.y.bits, a.y.bits)))
}

/// What `try_normalize` returns: no value when the squared length is at or
/// below the squared epsilon (or either is a NaN), else the vector scaled by
/// the reciprocal of its length.
pub open spec fn try_normalize2_spec(v: Vec2, eps: u32) -> Option<Vec2> {
    let ls = length_sq2_bits(v);
    if fle_bits(ls, mul_bits(eps, eps)) {
        None
    } else {
        let len = sqrt_bits(ls);
        Some(vec2_bits(div_bits(v.x.bits, len), div_bits(v.y.bits, len)))
    }
}

impl Vec2 {
    /// The vector with the given components.
    pub fn new(x: Scalar, y: Scalar) -> (r: Vec2)
        ensures
            r == (Vec2 { x, y }),
    {
        Vec2 { x, y }
    }

    /// The zero vector `(0, 0)`.
    pub fn zero() -> (r: Vec2)
        ensures
            r == vec2_bits(0, 0),
    {
        Vec2 { x: Scalar { bits: 0 }, y: Scalar { bits: 0 } }
    }

    /// The vector `(1, 1)`.
    pub fn one() -> (r: Vec2)
        ensures
            r == vec2_bits(ONE_BITS, ONE_BITS),
    {
        Vec2 { x: Scalar { bits: ONE_BITS }, y: Scalar { bits: ONE_BITS } }
    }

    /// Extend this vector into 3D by inserting `y` and treating this vector
    /// as XZ.  Projecting the result back onto its XZ components reproduces
    /// this vector exactly.
    pub fn extend_y(&self, y: Scalar) -> (r: Vec3)
        ensures
            r == (Vec3 { x: self.x, y, z: self.y }),
    {
        Vec3 { x: self.x, y, z: self.y }
    }

    /// Extend this vector into 3D by inserting `z` and treating this vector
    /// as XY.  Projecting the result back onto its XY components reproduces
    /// this vector exactly.
    pub fn extend_z(&self, z: Scalar) -> (r: Vec3)
        ensures
            r == (Vec3 { x: self.x, y: self.y, z }),
    {
        Vec3 { x: self.x, y: self.y, z }
    }

    /// The dot product of this vector and `other`.
    ///
    /// The dot product does not depend on the order of the operands; the
    /// second clause states this exactly, away from NaN components.
    pub fn dot(&self, other: Vec2) -> (r: Scalar)
        ensures
            r.bits == dot2_bits(*self, other),
            (no_nan2(*self) && no_nan2(other)) ==> r.bits == dot2_bits(other, *self),
            (self.x.bits == 0 && self.y.bits == 0 && other.x.bits == 0 && other.y.bits == 0)
                ==> r.bits == 0,
    {
        let mx: u32 = scalar_mul_bits(self.x.bits, other.x.bits);
        let my: u32 = scalar_mul_bits(self.y.bits, other.y.bits);
        Scalar { bits: scalar_add_bits(mx, my) }
    }

    /// The squared length of this vector.
    pub fn length_squared(&self) -> (r: Scalar)
        ensures
            r.bits == length_sq2_bits(*self),
            (self.x.bits == 0 && self.y.bits == 0) ==> r.bits == 0,
    {
        self.dot(*self)
    }

    /// The length of this vector: the square root of its squared length.
    pub fn length(&self) -> (r: Scalar)
        ensures
            r.bits == sqrt_bits(length_sq2_bits(*self)),
    {
        Scalar { bits: scalar_sqrt_bits(self.length_squared().bits) }
    }

    /// The squared distance between this vector and `other`.
    pub fn distance_squared(&self, other: Vec2) -> (r: Scalar)
        ensures
            r.bits == distance_sq2_bits(*self, other),
    {
        let dx: u32 = scalar_sub_bits(other.x.bits, self.x.bits);
        let dy: u32 = scalar_sub_bits(other.y.bits, self.y.bits);
        let mx: u32 = scalar_mul_bits(dx, dx);
        let my: u32 = scalar_mul_bits(dy, dy);
        Scalar { bits: scalar_add_bits(mx, my) }
    }

    /// The distance between this vector and `other`.
    pub fn distance(&self, other: Vec2) -> (r: Scalar)
        ensures
            r.bits == sqrt_bits(distance_sq2_bits(*self, other)),
    {
        Scalar { bits: scalar_sqrt_bits(self.distance_squared(other).bits) }
    }

    /// Attempts to normalize this vector; no value when its squared length
    /// is at or below `epsilon` squared.
    ///
    /// The second clause is the failure rule by itself: no value exactly
    /// when the squared length compares at or below the squared epsilon.
    /// The third: the zero vector is always rejected under a non-NaN
    /// epsilon.
    pub fn try_normalize(&self, epsilon: Scalar) -> (r: Option<Vec2>)
        ensures
            r == try_normalize2_spec(*self, epsilon.bits),
            r is None <==> fle_bits(length_sq2_bits(*self), mul_bits(epsilon.bits, epsilon.bits)),
            (self.x.bits == 0 && self.y.bits == 0 && !is_nan_bits(epsilon.bits)) ==> r is None,
    {
        let len_sq: u32 = self.length_squared().bits;
        let epsilon_sq: u32 = scalar_mul_bits(epsilon.bits, epsilon.bits);
        if scalar_fle_bits(len_sq, epsilon_sq) {
            None
        } else {
            let len: u32 = scalar_sqrt_bits(len_sq);
            Some(
                Vec2 {
                    x: Scalar { bits: scalar_div_bits(self.x.bits, len) },
                    y: Scalar { bits: scalar_div_bits(self.y.bits, len) },
                },
            )
        }
    }

    /// A normalized copy of this vector, or `fallback` when its squared
    /// length is at or below `epsilon` squared.  In particular the zero
    /// vector gives `fallback` under any non-NaN epsilon.
    pub fn normalize_or(&self, epsilon: Scalar, fallback: Vec2) -> (r: Vec2)
        ensures
            r == (match try_normalize2_spec(*self, epsilon.bits) {
                Option::None => fallback,
                Option::Some(v) => v,
            }),
            (self.x.bits == 0 && self.y.bits == 0 && !is_nan_bits(epsilon.bits)) ==> r == fallback,
    {
        match self.try_normalize(epsilon) {
            Option::None => fallback,
            Option::Some(v) => v,
        }
    }

    /// A normalized copy of this vector, or the zero vector when its
    /// squared length is at or below `epsilon` squared.
    pub fn normalize_or_zero(&self, epsilon: Scalar) -> (r: Vec2)
        ensures
            r == (match try_normalize2_spec(*self, epsilon.bits) {
                Option::None => vec2_bits(0, 0),
                Option::Some(v) => v,
            }),
            (self.x.bits == 0 && self.y.bits == 0 && !is_nan_bits(epsilon.bits)) ==> r == vec2_bits(
                0,
                0,
            ),
    {
        self.normalize_or(epsilon, Vec2::zero())
    }
}

impl PartialEq for Vec2 {
    fn eq(&self, other: &Vec2) -> bool {
        scalar_feq_bits(self.x.bits, other.x.bits) && scalar_feq_bits(self.y.bits, other.y.bits)
    }
}

impl vstd::std_specs::cmp::PartialEqSpecImpl for Vec2 {
    open spec fn obeys_eq_spec() -> bool {
        true
    }

    open spec fn eq_spec(&self, other: &Vec2) -> bool {
        &&& feq_bits(self.x.bits, other.x.bits)
        &&& feq_bits(self.y.bits, other.y.bits)
    }
}

impl Default for Vec2 {
    fn default() -> (r: Vec2)
        ensures
            r == vec2_bits(0, 0),
    {
        Vec2::zero()
    }
}

} // verus!
