use narrow_phase::scalar::{half_floor, wide_mul};
use narrow_phase::{
    div_ceil, div_floor, is_zero, isqrt, isqrt_ceil, n_max, n_min, Vector2, Vector3, COORD_MAX,
};

#[test]
fn integer_roots_round_down_and_up() {
    assert_eq!(isqrt(0), 0);
    assert_eq!(isqrt(15), 3);
    assert_eq!(isqrt(16), 4);
    assert_eq!(isqrt(17), 4);
    assert_eq!(isqrt_ceil(0), 0);
    assert_eq!(isqrt_ceil(16), 4);
    assert_eq!(isqrt_ceil(17), 5);
    assert_eq!(isqrt(1_000_000_000_000_000_000_000_000_000_000), 1_000_000_000_000_000);
    assert_eq!(isqrt(i128::MAX), 13_043_817_825_332_782_212);
}

#[test]
fn quotients_round_toward_the_named_side() {
    assert_eq!(div_floor(7, 2), 3);
    assert_eq!(div_floor(-7, 2), -4);
    assert_eq!(div_floor(-8, 2), -4);
    assert_eq!(div_ceil(7, 2), 4);
    assert_eq!(div_ceil(8, 2), 4);
    assert_eq!(half_floor(-3), -2);
    assert_eq!(half_floor(-4), -2);
    assert_eq!(half_floor(5), 2);
}

#[test]
fn minimum_maximum_and_zero() {
    assert_eq!(n_min(3, -4), -4);
    assert_eq!(n_max(3, -4), 3);
    assert_eq!(n_min(-4, 3), -4);
    assert_eq!(n_max(-4, 3), 3);
    assert!(is_zero(0));
    assert!(!is_zero(1));
    assert!(!is_zero(-1));
}

#[test]
fn bounds_of_the_world_and_wide_products() {
    assert_eq!(COORD_MAX, 100_000);
    assert_eq!(wide_mul(i64::MAX, i64::MAX), (i64::MAX as i128) * (i64::MAX as i128));
}

#[test]
fn dot_goes_through_every_component() {
    assert_eq!(Vector2::new(3, 4).dot(&Vector2::new(5, 6)), 39);
    assert_eq!(Vector2::new(3, 4).magnitude_squared(), 25);
    assert_eq!(Vector3::new(1, 2, 3).dot(&Vector3::new(4, 5, 6)), 32);
    assert_eq!(Vector3::new(1, 2, 3).magnitude_squared(), 14);
}

#[test]
fn cross_follows_the_right_hand() {
    assert_eq!(Vector3::new(1, 0, 0).cross(&Vector3::new(0, 1, 0)), Vector3::new(0, 0, 1));
    assert_eq!(Vector3::new(1, 2, 3).cross(&Vector3::new(4, 5, 6)), Vector3::new(-3, 6, -3));
}

#[test]
fn vector_arithmetic_is_component_wise() {
    let a = Vector3::new(1, -2, 3);
    let b = Vector3::new(10, 20, 30);
    assert_eq!(a.plus(&b), Vector3::new(11, 18, 33));
    assert_eq!(a.minus(&b), Vector3::new(-9, -22, -27));
    assert_eq!(a.negated(), Vector3::new(-1, 2, -3));
    assert_eq!(a.scaled(-2), Vector3::new(-2, 4, -6));
    assert_eq!(a.abs(), Vector3::new(1, 2, 3));
    assert_eq!(Vector3::from_element(7), Vector3::new(7, 7, 7));
    assert_eq!(Vector3::zeros(), Vector3::new(0, 0, 0));
    let c = Vector2::new(1, -2);
    assert_eq!(c.plus(&Vector2::new(2, 2)), Vector2::new(3, 0));
    assert_eq!(c.minus(&Vector2::new(2, 2)), Vector2::new(-1, -4));
    assert_eq!(c.negated(), Vector2::new(-1, 2));
    assert_eq!(c.scaled(3), Vector2::new(3, -6));
    assert_eq!(c.abs(), Vector2::new(1, 2));
}

#[test]
fn least_component_is_the_first_and_greatest_the_last_on_a_tie() {
    assert_eq!(Vector3::new(2, 1, 1).min_component(), (1, 1));
    assert_eq!(Vector3::new(1, 1, 1).min_component(), (0, 1));
    assert_eq!(Vector3::new(3, 2, 1).min_component(), (2, 1));
    assert_eq!(Vector3::new(1, 1, 1).max_component(), (2, 1));
    assert_eq!(Vector3::new(5, 5, 1).max_component(), (1, 5));
    assert_eq!(Vector2::new(1, 1).min_component(), (0, 1));
    assert_eq!(Vector2::new(1, 1).max_component(), (1, 1));
    assert_eq!(Vector2::new(4, 1).max_component(), (0, 4));
}

#[test]
fn world_membership() {
    assert!(Vector3::new(100_000, -100_000, 0).is_in_world());
    assert!(!Vector3::new(100_001, 0, 0).is_in_world());
    assert!(Vector2::new(0, 100_000).is_in_world());
    assert!(!Vector2::new(0, -100_001).is_in_world());
}
