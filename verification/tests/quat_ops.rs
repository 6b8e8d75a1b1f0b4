use spacetime_math::{Quat, Scalar};

fn sc(x: f32) -> Scalar {
    Scalar::from_bits(x.to_bits())
}

#[test]
fn default_is_identity() {
    assert_eq!(Quat::default(), Quat::identity());
}

#[test]
fn identity_is_zero_zero_zero_one() {
    let q = Quat::identity();
    assert_eq!(q.x, sc(0.0));
    assert_eq!(q.y, sc(0.0));
    assert_eq!(q.z, sc(0.0));
    assert_eq!(q.w, sc(1.0));
}

#[test]
fn quat_new_sets_components() {
    let q = Quat::new(sc(0.1), sc(0.2), sc(0.3), sc(0.9));
    assert_eq!(q.x, sc(0.1));
    assert_eq!(q.y, sc(0.2));
    assert_eq!(q.z, sc(0.3));
    assert_eq!(q.w, sc(0.9));
}
