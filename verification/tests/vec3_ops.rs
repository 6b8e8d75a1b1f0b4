use spacetime_math::{Scalar, Vec3};

fn sc(x: f32) -> Scalar {
    Scalar::from_bits(x.to_bits())
}

fn fl(s: Scalar) -> f32 {
    f32::from_bits(s.to_bits())
}

#[test]
fn constants_match_constructor() {
    assert_eq!(Vec3::zero(), Vec3::new(sc(0.0), sc(0.0), sc(0.0)));
    assert_eq!(Vec3::one(), Vec3::new(sc(1.0), sc(1.0), sc(1.0)));
    assert_eq!(Vec3::up(), Vec3::new(sc(0.0), sc(1.0), sc(0.0)));
    assert_eq!(Vec3::down(), Vec3::new(sc(0.0), sc(-1.0), sc(0.0)));
    assert_eq!(Vec3::right(), Vec3::new(sc(1.0), sc(0.0), sc(0.0)));
    assert_eq!(Vec3::left(), Vec3::new(sc(-1.0), sc(0.0), sc(0.0)));
    assert_eq!(Vec3::backward(), Vec3::new(sc(0.0), sc(0.0), sc(1.0)));
    assert_eq!(Vec3::forward(), Vec3::new(sc(0.0), sc(0.0), sc(-1.0)));
}

#[test]
fn vec3_dot_is_sum_of_component_products() {
    let a = Vec3::new(sc(1.0), sc(2.0), sc(3.0));
    let b = Vec3::new(sc(4.0), sc(5.0), sc(6.0));
    assert_eq!(a.dot(b), sc(32.0));
}

#[test]
fn vec3_dot_is_symmetric() {
    let a = Vec3::new(sc(1.5), sc(-2.25), sc(0.5));
    let b = Vec3::new(sc(0.375), sc(7.0), sc(-3.5));
    assert_eq!(a.dot(b), b.dot(a));
    assert_eq!(a.dot(b).to_bits(), b.dot(a).to_bits());
}

#[test]
fn vec3_length_and_distance() {
    let v = Vec3::new(sc(2.0), sc(3.0), sc(6.0));
    assert_eq!(v.length_squared(), sc(49.0));
    assert_eq!(v.length(), sc(7.0));
    let a = Vec3::new(sc(1.0), sc(1.0), sc(1.0));
    let b = Vec3::new(sc(3.0), sc(4.0), sc(7.0));
    assert_eq!(a.distance_squared(b), sc(49.0));
    assert_eq!(a.distance(b), sc(7.0));
}

#[test]
fn vec3_length_positive_for_nonzero() {
    let v = Vec3::new(sc(0.1), sc(-0.2), sc(0.05));
    assert!(fl(v.length()) > 0.0);
    let ls = fl(v.length_squared());
    let len = fl(v.length());
    assert!((ls - len * len).abs() <= 1.0e-6);
}

#[test]
fn vec3_cross_matches_formula() {
    let a = Vec3::new(sc(1.0), sc(2.0), sc(3.0));
    let b = Vec3::new(sc(4.0), sc(5.0), sc(6.0));
    // (2*6 - 3*5, 3*4 - 1*6, 1*5 - 2*4)
    assert_eq!(a.cross(b), Vec3::new(sc(-3.0), sc(6.0), sc(-3.0)));
}

#[test]
fn vec3_cross_is_anti_commutative() {
    let a = Vec3::new(sc(1.0), sc(2.0), sc(3.0));
    let b = Vec3::new(sc(-4.0), sc(0.5), sc(6.0));
    let ab = a.cross(b);
    let ba = b.cross(a);
    assert_eq!(ab, Vec3::new(sc(-fl(ba.x)), sc(-fl(ba.y)), sc(-fl(ba.z))));
}

#[test]
fn vec3_cross_of_parallel_is_zero() {
    let a = Vec3::new(sc(1.0), sc(2.0), sc(3.0));
    assert_eq!(a.cross(a), Vec3::zero());
    let b = Vec3::new(sc(2.0), sc(4.0), sc(6.0));
    assert_eq!(a.cross(b), Vec3::zero());
}

#[test]
fn vec3_normalize_or_zero_handles_zero_length() {
    assert_eq!(Vec3::zero().normalize_or_zero(sc(1.0e-5)), Vec3::zero());
}

#[test]
fn vec3_normalize_or_uses_fallback_when_too_small() {
    let fallback = Vec3::new(sc(0.0), sc(1.0), sc(0.0));
    assert_eq!(Vec3::zero().normalize_or(sc(1.0e-5), fallback), fallback);
}

#[test]
fn vec3_try_normalize_rejects_up_to_epsilon() {
    let v = Vec3::new(sc(2.0), sc(3.0), sc(6.0));
    // length_squared is exactly 49 = 7^2: the comparison is inclusive.
    assert!(v.try_normalize(sc(7.0)).is_none());
    assert!(v.try_normalize(sc(6.9)).is_some());
}

#[test]
fn vec3_try_normalize_produces_unit_length() {
    let v = Vec3::new(sc(2.0), sc(3.0), sc(6.0));
    let n = v.try_normalize(sc(1.0e-5)).expect("expected unit vector");
    assert!((fl(n.length()) - 1.0).abs() <= 1.0e-5);
    assert!(fl(n.dot(v)) > 0.0);
}
