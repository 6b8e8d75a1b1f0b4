//! Coordinate system conventions and axis presets.

use vstd::prelude::*;

use crate::scalar::{Scalar, feq_bits, ONE_BITS, NEG_ONE_BITS};
use crate::vec3::{Vec3, cross_bits, try_normalize3_spec, vec3_bits};

verus! {

/// Orthonormal axes describing a coordinate system's orientation.
#[derive(Clone, Copy, Debug)]
pub struct Axes {
    /// The up direction.
    pub up: Vec3,
    /// The forward direction.
    pub forward: Vec3,
    /// The right direction.
    pub right: Vec3,
}

/// What `try_right_handed` returns: normalize `up`, then `forward`, then the
/// cross product `forward x up` as the right axis, failing at whichever step
/// is degenerate; the stored forward axis is re-derived as `up x right`, so
/// the three axes are mutually orthogonal even when the caller's `forward`
/// was not perpendicular to `up`.
pub open spec fn try_right_handed_spec(up: Vec3, forward: Vec3, eps: u32) -> Option<Axes> {
    match try_normalize3_spec(up, eps) {
        Option::None => None,
        Option::Some(u) => match try_normalize3_spec(forward, eps) {
            Option::None => None,
            Option::Some(f) => match try_normalize3_spec(cross_bits(f, u), eps) {
                Option::None => None,
                Option::Some(r) => Some(Axes { up: u, forward: cross_bits(u, r), right: r }),
            },
        },
    }
}

/// What `try_left_handed` returns: the same structure with the handedness
/// flipped, the right axis from `up x forward` and the stored forward axis
/// from `right x up`.
pub open spec fn try_left_handed_spec(up: Vec3, forward: Vec3, eps: u32) -> Option<Axes> {
    match try_normalize3_spec(up, eps) {
        Option::None => None,
        Option::Some(u) => match try_normalize3_spec(forward, eps) {
            Option::None => None,
            Option::Some(f) => match try_normalize3_spec(cross_bits(u, f), eps) {
                Option::None => None,
                Option::Some(r) => Some(Axes { up: u, forward: cross_bits(r, u), right: r }),
            },
        },
    }
}

impl Axes {
    /// Builds a right-handed orthonormal basis from `up` and `forward`.
    /// No value when either input or their cross product is at or below
    /// `epsilon` in length: too small, or too nearly parallel, to define a
    /// stable frame.
    pub fn try_right_handed(up: Vec3, forward: Vec3, epsilon: Scalar) -> (r: Option<Axes>)
        ensures
            r == try_right_handed_spec(up, forward, epsilon.bits),
    {
        let u: Vec3 = match up.try_normalize(epsilon) {
            Option::Some(v) => v,
            Option::None => {
                return None;
            },
        };
        let f: Vec3 = match forward.try_normalize(epsilon) {
            Option::Some(v) => v,
            Option::None => {
                return None;
            },
        };
        let right: Vec3 = match f.cross(u).try_normalize(epsilon) {
            Option::Some(v) => v,
            Option::None => {
                return None;
            },
        };
        let forward: Vec3 = u.cross(right);
        Some(Axes { up: u, forward, right })
    }

    /// Builds a left-handed orthonormal basis from `up` and `forward`.
    /// No value when either input or their cross product is at or below
    /// `epsilon` in length.
    pub fn try_left_handed(up: Vec3, forward: Vec3, epsilon: Scalar) -> (r: Option<Axes>)
        ensures
            r == try_left_handed_spec(up, forward, epsilon.bits),
    {
        let u: Vec3 = match up.try_normalize(epsilon) {
            Option::Some(v) => v,
            Option::None => {
                return None;
            },
        };
        let f: Vec3 = match forward.try_normalize(epsilon) {
            Option::Some(v) => v,
            Option::None => {
                return None;
            },
        };
        let right: Vec3 = match u.cross(f).try_normalize(epsilon) {
            Option::Some(v) => v,
            Option::None => {
                return None;
            },
        };
        let forward: Vec3 = right.cross(u);
        Some(Axes { up: u, forward, right })
    }
}

/// Default coordinate convention: Y-up, right-handed, forward = -Z,
/// matching the `Vec3` world constants.
pub fn default_convention() -> (r: Axes)
    ensures
        r == (Axes {
            up: vec3_bits(0, ONE_BITS, 0),
            forward: vec3_bits(0, 0, NEG_ONE_BITS),
            right: vec3_bits(ONE_BITS, 0, 0),
        }),
{
    y_up_right_handed_fwd_neg_z()
}

/// Right-handed, Y-up convention with forward = -Z.
/// Common in Bevy and Godot.
pub fn y_up_right_handed_fwd_neg_z() -> (r: Axes)
    ensures
        r == (Axes {
            up: vec3_bits(0, ONE_BITS, 0),
            forward: vec3_bits(0, 0, NEG_ONE_BITS),
            right: vec3_bits(ONE_BITS, 0, 0),
        }),
{
    Axes {
        up: Vec3::new(Scalar::from_bits(0), Scalar::from_bits(ONE_BITS), Scalar::from_bits(0)),
        forward: Vec3::new(
            Scalar::from_bits(0),
            Scalar::from_bits(0),
            Scalar::from_bits(NEG_ONE_BITS),
        ),
        right: Vec3::new(Scalar::from_bits(ONE_BITS), Scalar::from_bits(0), Scalar::from_bits(0)),
    }
}

/// Right-handed, Y-up convention with forward = +Z.
pub fn y_up_right_handed_fwd_pos_z() -> (r: Axes)
    ensures
        r == (Axes {
            up: vec3_bits(0, ONE_BITS, 0),
            forward: vec3_bits(0, 0, ONE_BITS),
            right: vec3_bits(NEG_ONE_BITS, 0, 0),
        }),
{
    Axes {
        up: Vec3::new(Scalar::from_bits(0), Scalar::from_bits(ONE_BITS), Scalar::from_bits(0)),
        forward: Vec3::new(
            Scalar::from_bits(0),
            Scalar::from_bits(0),
            Scalar::from_bits(ONE_BITS),
        ),
        right: Vec3::new(
            Scalar::from_bits(NEG_ONE_BITS),
            Scalar::from_bits(0),
            Scalar::from_bits(0),
        ),
    }
}

/// Left-handed, Y-up convention with forward = +Z.
/// Common in Unity.
pub fn y_up_left_handed_fwd_pos_z() -> (r: Axes)
    ensures
        r == (Axes {
            up: vec3_bits(0, ONE_BITS, 0),
            forward: vec3_bits(0, 0, ONE_BITS),
            right: vec3_bits(ONE_BITS, 0, 0),
        }),
{
    Axes {
        up: Vec3::new(Scalar::from_bits(0), Scalar::from_bits(ONE_BITS), Scalar::from_bits(0)),
        forward: Vec3::new(
            Scalar::from_bits(0),
            Scalar::from_bits(0),
            Scalar::from_bits(ONE_BITS),
        ),
        right: Vec3::new(Scalar::from_bits(ONE_BITS), Scalar::from_bits(0), Scalar::from_bits(0)),
    }
}

/// Right-handed, Z-up convention with forward = +Y.
/// Common in Blender; also used by some editors, depending on the game.
pub fn z_up_right_handed_fwd_pos_y() -> (r: Axes)
    ensures
        r == (Axes {
            up: vec3_bits(0, 0, ONE_BITS),
            forward: vec3_bits(0, ONE_BITS, 0),
            right: vec3_bits(ONE_BITS, 0, 0),
        }),
{
    Axes {
        up: Vec3::new(Scalar::from_bits(0), Scalar::from_bits(0), Scalar::from_bits(ONE_BITS)),
        forward: Vec3::new(
            Scalar::from_bits(0),
            Scalar::from_bits(ONE_BITS),
            Scalar::from_bits(0),
        ),
        right: Vec3::new(Scalar::from_bits(ONE_BITS), Scalar::from_bits(0), Scalar::from_bits(0)),
    }
}

/// Left-handed, Z-up convention with forward = +X.
/// Common in Unreal.
pub fn z_up_left_handed_fwd_pos_x() -> (r: Axes)
    ensures
        r == (Axes {
            up: vec3_bits(0, 0, ONE_BITS),
            forward: vec3_bits(ONE_BITS, 0, 0),
            right: vec3_bits(0, ONE_BITS, 0),
        }),
{
    Axes {
        up: Vec3::new(Scalar::from_bits(0), Scalar::from_bits(0), Scalar::from_bits(ONE_BITS)),
        forward: Vec3::new(
            Scalar::from_bits(ONE_BITS),
            Scalar::from_bits(0),
            Scalar::from_bits(0),
        ),
        right: Vec3::new(Scalar::from_bits(0), Scalar::from_bits(ONE_BITS), Scalar::from_bits(0)),
    }
}

impl PartialEq for Axes {
    fn eq(&self, other: &Axes) -> bool {
        self.up == other.up && self.forward == other.forward && self.right == other.right
    }
}

impl vstd::std_specs::cmp::PartialEqSpecImpl for Axes {
    open spec fn obeys_eq_spec() -> bool {
        true
    }

    open spec fn eq_spec(&self, other: &Axes) -> bool {
        &&& feq_bits(self.up.x.bits, other.up.x.bits)
        &&& feq_bits(self.up.y.bits, other.up.y.bits)
        &&& feq_bits(self.up.z.bits, other.up.z.bits)
        &&& feq_bits(self.forward.x.bits, other.forward.x.bits)
        &&& feq_bits(self.forward.y.bits, other.forward.y.bits)
        &&& feq_bits(self.forward.z.bits, other.forward.z.bits)
        &&& feq_bits(self.right.x.bits, other.right.x.bits)
        &&& feq_bits(self.right.y.bits, other.right.y.bits)
        &&& feq_bits(self.right.z.bits, other.right.z.bits)
    }
}

} // verus!
