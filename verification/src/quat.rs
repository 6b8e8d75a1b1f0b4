//! A quaternion representing 3D rotation (orientation) in a right-handed,
//! Y-up coordinate system.

use vstd::prelude::*;

use crate::scalar::{Scalar, feq_bits, scalar_feq_bits, ONE_BITS};

verus! {

/// A quaternion orientation carrier: four scalars `(x, y, z, w)`, where
/// `(x, y, z)` is the vector part and `w` the real part.
///
/// In this kernel it carries no algebra beyond construction and equality;
/// the identity aligns local forward to world -Z and local up to world +Y.
#[derive(Clone, Copy, Debug)]
pub struct Quat {
    /// Vector part (imaginary i)
    pub x: Scalar,
    /// Vector part (imaginary j)
    pub y: Scalar,
    /// Vector part (imaginary k)
    pub z: Scalar,
    /// Scalar part (real); 1.0 for the identity
    pub w: Scalar,
}

/// The quaternion with the four given bit patterns.
pub open spec fn quat_bits(x: u32, y: u32, z: u32, w: u32) -> Quat {
    Quat {
        x: Scalar { bits: x },
        y: Scalar { bits: y },
        z: Scalar { bits: z },
        w: Scalar { bits: w },
    }
}

impl Quat {
    /// The quaternion with the given components.
    pub fn new(x: Scalar, y: Scalar, z: Scalar, w: Scalar) -> (r: Quat)
        ensures
            r == (Quat { x, y, z, w }),
    {
        Quat { x, y, z, w }
    }

    /// The "no rotation" quaternion `(0, 0, 0, 1)`: local forward aligned to
    /// world -Z, local up to world +Y.
    pub fn identity() -> (r: Quat)
        ensures
            r == quat_bits(0, 0, 0, ONE_BITS),
    {
        Quat {
            x: Scalar { bits: 0 },
            y: Scalar { bits: 0 },
            z: Scalar { bits: 0 },
            w: Scalar { bits: ONE_BITS },
        }
    }
}

impl PartialEq for Quat {
    fn eq(&self, other: &Quat) -> bool {
        scalar_feq_bits(self.x.bits, other.x.bits) && scalar_feq_bits(self.y.bits, other.y.bits)
            && scalar_feq_bits(self.z.bits, other.z.bits)
            && scalar_feq_bits(self.w.bits, other.w.bits)
    }
}

impl vstd::std_specs::cmp::PartialEqSpecImpl for Quat {
    open spec fn obeys_eq_spec() -> bool {
        true
    }

    open spec fn eq_spec(&self, other: &Quat) -> bool {
        &&& feq_bits(self.x.bits, other.x.bits)
        &&& feq_bits(self.y.bits, other.y.bits)
        &&& feq_bits(self.z.bits, other.z.bits)
        &&& feq_bits(self.w.bits, other.w.bits)
    }
}

impl Default for Quat {
    /// The default orientation is the identity, `(0, 0, 0, 1)` exactly.
    fn default() -> (r: Quat)
        ensures
            r == quat_bits(0, 0, 0, ONE_BITS),
    {
        Quat::identity()
    }
}

} // verus!
