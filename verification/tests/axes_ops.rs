use spacetime_math::conventions::{
    default_convention, y_up_left_handed_fwd_pos_z, y_up_right_handed_fwd_neg_z,
    y_up_right_handed_fwd_pos_z, z_up_left_handed_fwd_pos_x, z_up_right_handed_fwd_pos_y,
};
use spacetime_math::{Axes, Scalar, Vec3};

fn sc(x: f32) -> Scalar {
    Scalar::from_bits(x.to_bits())
}

fn assert_axes_orthonormal(axes: Axes) {
    assert_eq!(axes.up.dot(axes.forward), sc(0.0));
    assert_eq!(axes.up.dot(axes.right), sc(0.0));
    assert_eq!(axes.forward.dot(axes.right), sc(0.0));
    assert_eq!(axes.up.length_squared(), sc(1.0));
    assert_eq!(axes.forward.length_squared(), sc(1.0));
    assert_eq!(axes.right.length_squared(), sc(1.0));
}

#[test]
fn presets_are_orthonormal() {
    assert_axes_orthonormal(y_up_right_handed_fwd_neg_z());
    assert_axes_orthonormal(y_up_right_handed_fwd_pos_z());
    assert_axes_orthonormal(y_up_left_handed_fwd_pos_z());
    assert_axes_orthonormal(z_up_right_handed_fwd_pos_y());
    assert_axes_orthonormal(z_up_left_handed_fwd_pos_x());
}

#[test]
fn default_convention_is_y_up_right_handed_fwd_neg_z() {
    assert_eq!(default_convention(), y_up_right_handed_fwd_neg_z());
}

#[test]
fn try_right_handed_matches_preset() {
    let axes = Axes::try_right_handed(
        Vec3::new(sc(0.0), sc(1.0), sc(0.0)),
        Vec3::new(sc(0.0), sc(0.0), sc(-1.0)),
        sc(1.0e-6),
    )
    .expect("expected axes");
    assert_eq!(axes, y_up_right_handed_fwd_neg_z());
}

#[test]
fn try_left_handed_matches_preset() {
    let axes = Axes::try_left_handed(
        Vec3::new(sc(0.0), sc(1.0), sc(0.0)),
        Vec3::new(sc(0.0), sc(0.0), sc(1.0)),
        sc(1.0e-6),
    )
    .expect("expected axes");
    assert_eq!(axes, y_up_left_handed_fwd_pos_z());
}

#[test]
fn try_right_handed_matches_pos_z_preset() {
    let axes = Axes::try_right_handed(
        Vec3::new(sc(0.0), sc(1.0), sc(0.0)),
        Vec3::new(sc(0.0), sc(0.0), sc(1.0)),
        sc(1.0e-6),
    )
    .expect("expected axes");
    assert_eq!(axes, y_up_right_handed_fwd_pos_z());
}

#[test]
fn try_right_handed_matches_z_up_preset() {
    let axes = Axes::try_right_handed(
        Vec3::new(sc(0.0), sc(0.0), sc(1.0)),
        Vec3::new(sc(0.0), sc(1.0), sc(0.0)),
        sc(1.0e-6),
    )
    .expect("expected axes");
    assert_eq!(axes, z_up_right_handed_fwd_pos_y());
}

#[test]
fn try_left_handed_matches_z_up_preset() {
    let axes = Axes::try_left_handed(
        Vec3::new(sc(0.0), sc(0.0), sc(1.0)),
        Vec3::new(sc(1.0), sc(0.0), sc(0.0)),
        sc(1.0e-6),
    )
    .expect("expected axes");
    assert_eq!(axes, z_up_left_handed_fwd_pos_x());
}

#[test]
fn try_right_handed_rejects_parallel_vectors() {
    let axes = Axes::try_right_handed(
        Vec3::new(sc(0.0), sc(1.0), sc(0.0)),
        Vec3::new(sc(0.0), sc(1.0), sc(0.0)),
        sc(1.0e-6),
    );
    assert!(axes.is_none());
}

#[test]
fn try_left_handed_rejects_parallel_vectors() {
    let axes = Axes::try_left_handed(
        Vec3::new(sc(0.0), sc(1.0), sc(0.0)),
        Vec3::new(sc(0.0), sc(1.0), sc(0.0)),
        sc(1.0e-6),
    );
    assert!(axes.is_none());
}

#[test]
fn try_right_handed_rejects_short_inputs() {
    let tiny = Vec3::new(sc(0.0), sc(1.0e-8), sc(0.0));
    let forward = Vec3::new(sc(0.0), sc(0.0), sc(-1.0));
    assert!(Axes::try_right_handed(tiny, forward, sc(1.0e-6)).is_none());
    assert!(Axes::try_right_handed(forward, tiny, sc(1.0e-6)).is_none());
}

#[test]
fn try_right_handed_end_to_end() {
    let axes = Axes::try_right_handed(
        Vec3::new(sc(0.0), sc(1.0), sc(0.0)),
        Vec3::new(sc(0.0), sc(0.0), sc(-1.0)),
        sc(1.0e-6),
    )
    .expect("expected axes");
    assert_eq!(axes.up, Vec3::new(sc(0.0), sc(1.0), sc(0.0)));
    assert_eq!(axes.forward, Vec3::new(sc(0.0), sc(0.0), sc(-1.0)));
    assert_eq!(axes.right, Vec3::new(sc(1.0), sc(0.0), sc(0.0)));
}

#[test]
fn try_right_handed_corrects_forward() {
    // A forward not perpendicular to up: the stored forward is re-derived,
    // so the frame is orthogonal anyway.
    let axes = Axes::try_right_handed(
        Vec3::new(sc(0.0), sc(1.0), sc(0.0)),
        Vec3::new(sc(0.0), sc(1.0), sc(-1.0)),
        sc(1.0e-6),
    )
    .expect("expected axes");
    assert_eq!(axes.up.dot(axes.forward), sc(0.0));
    assert_eq!(axes.up.dot(axes.right), sc(0.0));
    assert_eq!(axes.forward.dot(axes.right), sc(0.0));
}
