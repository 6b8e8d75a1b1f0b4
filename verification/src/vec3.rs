//! A 3-dimensional vector in a right-handed, Y-up coordinate system.

use vstd::prelude::*;

use crate::scalar::{
    Scalar, add_bits, div_bits, feq_bits, fle_bits, is_finite_bits, is_nan_bits, mul_bits,
    neg_bits, scalar_add_bits, scalar_div_bits, scalar_feq_bits, scalar_fle_bits, scalar_mul_bits,
    scalar_sqrt_bits, scalar_sub_bits, sqrt_bits, sub_bits, ONE_BITS, NEG_ONE_BITS,
};

verus! {

/// A 3-dimensional vector over `Scalar`.
///
/// +X is "right", -X is "left"; +Y is "up", -Y is "down"; +Z is "backward",
/// -Z is "forward".  The constants below encode this world convention.
#[derive(Clone, Copy, Debug)]
pub struct Vec3 {
    /// +X is "right", -X is "left"
    pub x: Scalar,
    /// +Y is "up", -Y is "down"
    pub y: Scalar,
    /// +Z is "backward", -Z is "forward"
    pub z: Scalar,
}

/// The vector with the three given bit patterns.
pub open spec fn vec3_bits(x: u32, y: u32, z: u32) -> Vec3 {
    Vec3 { x: Scalar { bits: x }, y: Scalar { bits: y }, z: Scalar { bits: z } }
}

/// No component of the vector is a NaN.
pub open spec fn no_nan3(v: Vec3) -> bool {
    &&& !is_nan_bits(v.x.bits)
    &&& !is_nan_bits(v.y.bits)
    &&& !is_nan_bits(v.z.bits)
}

/// The pattern of the dot product: the rounded sum, folded left, of the
/// rounded componentwise products.
pub open spec fn dot3_bits(a: Vec3, b: Vec3) -> u32 {
    add_bits(
        add_bits(mul_bits(a.x.bits, b.x.bits), mul_bits(a.y.bits, b.y.bits)),
        mul_bits(a.z.bits, b.z.bits),
    )
}

/// The pattern of the squared length: the dot product of the vector with
/// itself.
pub open spec fn length_sq3_bits(v: Vec3) -> u32 {
    dot3_bits(v, v)
}

/// The pattern of the squared distance: the squared length of the
/// componentwise difference `other - self`.
pub open spec fn distance_sq3_bits(a: Vec3, b: Vec3) -> u32 {
    length_sq3_bits(
        vec3_bits(
            sub_bits(b.x.bits, a.x.bits),
            sub_bits(b.y.bits, a.y.bits),
            sub_bits(b.z.bits, a.z.bits),
        ),
    )
}

/// The standard 3D cross product, componentwise over the rounded products
/// and differences.
pub open spec fn cross_bits(a: Vec3, b: Vec3) -> Vec3 {
    vec3_bits(
        sub_bits(mul_bits(a.y.bits, b.z.bits), mul_bits(a.z.bits, b.y.bits)),
        sub_bits(mul_bits(a.z.bits, b.x.bits), mul_bits(a.x.bits, b.z.bits)),
        sub_bits(mul_bits(a.x.bits, b.y.bits), mul_bits(a.y.bits, b.x.bits)),
    )
}

/// What `try_normalize` returns: no value when the squared length is at or
/// below the squared epsilon (or either is a NaN), else the vector scaled by
/// the reciprocal of its length.
pub open spec fn try_normalize3_spec(v: Vec3, eps: u32) -> Option<Vec3> {
    let ls = length_sq3_bits(v);
    if fle_bits(ls, mul_bits(eps, eps)) {
        None
    } else {
        let len = sqrt_bits(ls);
        Some(
            vec3_bits(
                div_bits(v.x.bits, len),
                div_bits(v.y.bits, len),
                div_bits(v.z.bits, len),
            ),
        )
    }
}

impl Vec3 {
    /// The vector with the given components.
    pub fn new(x: Scalar, y: Scalar, z: Scalar) -> (r: Vec3)
        ensures
            r == (Vec3 { x, y, z }),
    {
        Vec3 { x, y, z }
    }

    /// The zero vector `(0, 0, 0)`.
    pub fn zero() -> (r: Vec3)
        ensures
            r == vec3_bits(0, 0, 0),
    {
        Vec3 { x: Scalar { bits: 0 }, y: Scalar { bits: 0 }, z: Scalar { bits: 0 } }
    }

    /// The vector `(1, 1, 1)`.
    pub fn one() -> (r: Vec3)
        ensures
            r == vec3_bits(ONE_BITS, ONE_BITS, ONE_BITS),
    {
        Vec3 {
            x: Scalar { bits: ONE_BITS },
            y: Scalar { bits: ONE_BITS },
            z: Scalar { bits: ONE_BITS },
        }
    }

    /// The up direction `(0, 1, 0)`.
    pub fn up() -> (r: Vec3)
        ensures
            r == vec3_bits(0, ONE_BITS, 0),
    {
        Vec3 { x: Scalar { bits: 0 }, y: Scalar { bits: ONE_BITS }, z: Scalar { bits: 0 } }
    }

    /// The down direction `(0, -1, 0)`.
    pub fn down() -> (r: Vec3)
        ensures
            r == vec3_bits(0, NEG_ONE_BITS, 0),
    {
        Vec3 { x: Scalar { bits: 0 }, y: Scalar { bits: NEG_ONE_BITS }, z: Scalar { bits: 0 } }
    }

    /// The right direction `(1, 0, 0)`.
    pub fn right() -> (r: Vec3)
        ensures
            r == vec3_bits(ONE_BITS, 0, 0),
    {
        Vec3 { x: Scalar { bits: ONE_BITS }, y: Scalar { bits: 0 }, z: Scalar { bits: 0 } }
    }

    /// The left direction `(-1, 0, 0)`.
    pub fn left() -> (r: Vec3)
        ensures
            r == vec3_bits(NEG_ONE_BITS, 0, 0),
    {
        Vec3 { x: Scalar { bits: NEG_ONE_BITS }, y: Scalar { bits: 0 }, z: Scalar { bits: 0 } }
    }

    /// The backward direction `(0, 0, 1)`.
    pub fn backward() -> (r: Vec3)
        ensures
            r == vec3_bits(0, 0, ONE_BITS),
    {
        Vec3 { x: Scalar { bits: 0 }, y: Scalar { bits: 0 }, z: Scalar { bits: ONE_BITS } }
    }

    /// The forward direction `(0, 0, -1)`.
    pub fn forward() -> (r: Vec3)
        ensures
            r == vec3_bits(0, 0, NEG_ONE_BITS),
    {
        Vec3 { x: Scalar { bits: 0 }, y: Scalar { bits: 0 }, z: Scalar { bits: NEG_ONE_BITS } }
    }

    /// The dot product of this vector and `other`.
    ///
    /// The dot product does not depend on the order of the operands; the
    /// second clause states this exactly, away from NaN components.
    pub fn dot(&self, other: Vec3) -> (r: Scalar)
        ensures
            r.bits == dot3_bits(*self, other),
            (no_nan3(*self) && no_nan3(other)) ==> r.bits == dot3_bits(other, *self),
            (self.x.bits == 0 && self.y.bits == 0 && self.z.bits == 0 && other.x.bits == 0
                && other.y.bits == 0 && other.z.bits == 0) ==> r.bits == 0,
    {
        let mx: u32 = scalar_mul_bits(self.x.bits, other.x.bits);
        let my: u32 = scalar_mul_bits(self.y.bits, other.y.bits);
        let mz: u32 = scalar_mul_bits(self.z.bits, other.z.bits);
        Scalar { bits: scalar_add_bits(scalar_add_bits(mx, my), mz) }
    }

    /// The squared length of this vector.
    pub fn length_squared(&self) -> (r: Scalar)
        ensures
            r.bits == length_sq3_bits(*self),
            (self.x.bits == 0 && self.y.bits == 0 && self.z.bits == 0) ==> r.bits == 0,
    {
        self.dot(*self)
    }

    /// The length of this vector: the square root of its squared length.
    pub fn length(&self) -> (r: Scalar)
        ensures
            r.bits == sqrt_bits(length_sq3_bits(*self)),
    {
        Scalar { bits: scalar_sqrt_bits(self.length_squared().bits) }
    }

    /// The squared distance between this vector and `other`.
    pub fn distance_squared(&self, other: Vec3) -> (r: Scalar)
        ensures
            r.bits == distance_sq3_bits(*self, other),
    {
        let dx: u32 = scalar_sub_bits(other.x.bits, self.x.bits);
        let dy: u32 = scalar_sub_bits(other.y.bits, self.y.bits);
        let dz: u32 = scalar_sub_bits(other.z.bits, self.z.bits);
        let mx: u32 = scalar_mul_bits(dx, dx);
        let my: u32 = scalar_mul_bits(dy, dy);
        let mz: u32 = scalar_mul_bits(dz, dz);
        Scalar { bits: scalar_add_bits(scalar_add_bits(mx, my), mz) }
    }

    /// The distance between this vector and `other`.
    pub fn distance(&self, other: Vec3) -> (r: Scalar)
        ensures
            r.bits == sqrt_bits(distance_sq3_bits(*self, other)),
    {
        Scalar { bits: scalar_sqrt_bits(self.distance_squared(other).bits) }
    }

    /// The cross product of this vector and `other`.
    ///
    /// The second group of clauses states anti-commutativity exactly: each
    /// non-NaN component of `self x other` is, up to the sign of zero, the
    /// negation of the same component of `other x self`.  The last clause:
    /// the cross product of a vector with itself is the zero vector whenever
    /// the three componentwise products are finite.
    pub fn cross(&self, other: Vec3) -> (r: Vec3)
        ensures
            r == cross_bits(*self, other),
            !is_nan_bits(r.x.bits) ==> feq_bits(
                neg_bits(r.x.bits),
                cross_bits(other, *self).x.bits,
            ),
            !is_nan_bits(r.y.bits) ==> feq_bits(
                neg_bits(r.y.bits),
                cross_bits(other, *self).y.bits,
            ),
            !is_nan_bits(r.z.bits) ==> feq_bits(
                neg_bits(r.z.bits),
                cross_bits(other, *self).z.bits,
            ),
            (*self == other && is_finite_bits(mul_bits(self.y.bits, self.z.bits))
                && is_finite_bits(mul_bits(self.z.bits, self.x.bits))
                && is_finite_bits(mul_bits(self.x.bits, self.y.bits))) ==> r == vec3_bits(0, 0, 0),
    {
        let cx: u32 = scalar_sub_bits(
            scalar_mul_bits(self.y.bits, other.z.bits),
            scalar_mul_bits(self.z.bits, other.y.bits),
        );
        let cy: u32 = scalar_sub_bits(
            scalar_mul_bits(self.z.bits, other.x.bits),
            scalar_mul_bits(self.x.bits, other.z.bits),
        );
        let cz: u32 = scalar_sub_bits(
            scalar_mul_bits(self.x.bits, other.y.bits),
            scalar_mul_bits(self.y.bits, other.x.bits),
        );
        Vec3 { x: Scalar { bits: cx }, y: Scalar { bits: cy }, z: Scalar { bits: cz } }
    }

    /// Attempts to normalize this vector; no value when its squared length
    /// is at or below `epsilon` squared.
    ///
    /// The second clause is the failure rule by itself: no value exactly
    /// when the squared length compares at or below the squared epsilon.
    /// The third: the zero vector is always rejected under a non-NaN
    /// epsilon.
    pub fn try_normalize(&self, epsilon: Scalar) -> (r: Option<Vec3>)
        ensures
            r == try_normalize3_spec(*self, epsilon.bits),
            r is None <==> fle_bits(length_sq3_bits(*self), mul_bits(epsilon.bits, epsilon.bits)),
            (self.x.bits == 0 && self.y.bits == 0 && self.z.bits == 0 && !is_nan_bits(
                epsilon.bits,
            )) ==> r is None,
    {
        let len_sq: u32 = self.length_squared().bits;
        let epsilon_sq: u32 = scalar_mul_bits(epsilon.bits, epsilon.bits);
        if scalar_fle_bits(len_sq, epsilon_sq) {
            None
        } else {
            let len: u32 = scalar_sqrt_bits(len_sq);
            Some(
                Vec3 {
                    x: Scalar { bits: scalar_div_bits(self.x.bits, len) },
                    y: Scalar { bits: scalar_div_bits(self.y.bits, len) },
                    z: Scalar { bits: scalar_div_bits(self.z.bits, len) },
                },
            )
        }
    }

    /// A normalized copy of this vector, or `fallback` when its squared
    /// length is at or below `epsilon` squared.
    pub fn normalize_or(&self, epsilon: Scalar, fallback: Vec3) -> (r: Vec3)
        ensures
            r == (match try_normalize3_spec(*self, epsilon.bits) {
                Option::None => fallback,
                Option::Some(v) => v,
            }),
            (self.x.bits == 0 && self.y.bits == 0 && self.z.bits == 0 && !is_nan_bits(
                epsilon.bits,
            )) ==> r == fallback,
    {
        match self.try_normalize(epsilon) {
            Option::None => fallback,
            Option::Some(v) => v,
        }
    }

    /// A normalized copy of this vector, or the zero vector when its squared
    /// length is at or below `epsilon` squared.
    pub fn normalize_or_zero(&self, epsilon: Scalar) -> (r: Vec3)
        ensures
            r == (match try_normalize3_spec(*self, epsilon.bits) {
                Option::None => vec3_bits(0, 0, 0),
                Option::Some(v) => v,
            }),
            (self.x.bits == 0 && self.y.bits == 0 && self.z.bits == 0 && !is_nan_bits(
                epsilon.bits,
            )) ==> r == vec3_bits(0, 0, 0),
    {
        self.normalize_or(epsilon, Vec3::zero())
    }
}

impl PartialEq for Vec3 {
    fn eq(&self, other: &Vec3) -> bool {
        scalar_feq_bits(self.x.bits, other.x.bits) && scalar_feq_bits(self.y.bits, other.y.bits)
            && scalar_feq_bits(self.z.bits, other.z.bits)
    }
}

impl vstd::std_specs::cmp::PartialEqSpecImpl for Vec3 {
    open spec fn obeys_eq_spec() -> bool {
        true
    }

    open spec fn eq_spec(&self, other: &Vec3) -> bool {
        &&& feq_bits(self.x.bits, other.x.bits)
        &&& feq_bits(self.y.bits, other.y.bits)
        &&& feq_bits(self.z.bits, other.z.bits)
    }
}

impl Default for Vec3 {
    fn default() -> (r: Vec3)
        ensures
            r == vec3_bits(0, 0, 0),
    {
        Vec3::zero()
    }
}

} // verus!
