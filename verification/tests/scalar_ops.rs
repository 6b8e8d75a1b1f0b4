use spacetime_math::{Scalar, Vec2};

fn sc(x: f32) -> Scalar {
    Scalar::from_bits(x.to_bits())
}

#[test]
fn scalar_bits_round_trip() {
    let s = Scalar::from_bits(0x3f19_999a);
    assert_eq!(s.to_bits(), 0x3f19_999a);
    assert_eq!(s, sc(0.6));
}

#[test]
fn scalar_zero_signs_are_equal() {
    assert_eq!(sc(0.0), sc(-0.0));
    assert_ne!(sc(0.0).to_bits(), sc(-0.0).to_bits());
}

#[test]
fn scalar_nan_equals_nothing() {
    let nan = sc(f32::NAN);
    assert!(nan != nan);
    assert!(nan != sc(0.0));
}

#[test]
fn scalar_zero_and_one() {
    assert_eq!(Scalar::zero(), sc(0.0));
    assert_eq!(Scalar::one(), sc(1.0));
    assert_eq!(Scalar::default(), sc(0.0));
}

#[test]
fn normalize_or_with_nan_epsilon_takes_no_fallback() {
    // A NaN epsilon fails the degeneracy comparison, so even the zero vector
    // goes down the normalizing path and comes out as NaNs.
    let fallback = Vec2::new(sc(1.0), sc(0.0));
    let r = Vec2::zero().normalize_or(sc(f32::NAN), fallback);
    assert_ne!(r, fallback);
    assert!(f32::from_bits(r.x.to_bits()).is_nan());
}
