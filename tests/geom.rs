use vectorcade::geom::{circles_collide, clamp, isqrt, mul_div, wrap_coord, wrap_position, V2, UNIT};

#[test]
fn wrap_keeps_inside_values() {
    assert_eq!(wrap_coord(0), 0);
    assert_eq!(wrap_coord(UNIT), UNIT);
    assert_eq!(wrap_coord(-UNIT), -UNIT);
}

#[test]
fn wrap_reenters_from_other_side() {
    assert_eq!(wrap_coord(10_500), -9_500);
    assert_eq!(wrap_coord(-10_500), 9_500);
    assert_eq!(wrap_coord(50_100), -9_900);
    assert_eq!(wrap_position(V2::new(10_001, -10_001)), V2::new(-9_999, 9_999));
}

#[test]
fn wrap_stays_in_field_for_far_values() {
    for a in [-1_000_000_000i64, -123_456_789, -30_001, 30_001, 999_999_999] {
        let r = wrap_coord(a);
        assert!(-UNIT <= r && r <= UNIT);
        assert_eq!((a - r).rem_euclid(2 * UNIT), 0);
    }
}

#[test]
fn collision_is_symmetric() {
    let a = V2::new(0, 0);
    let b = V2::new(1_000, 0);
    assert_eq!(circles_collide(a, 600, b, 500), circles_collide(b, 500, a, 600));
    assert!(circles_collide(a, 600, b, 500));
    assert!(!circles_collide(a, 500, b, 500));
    assert_eq!(circles_collide(a, 500, b, 500), circles_collide(b, 500, a, 500));
}

#[test]
fn mul_div_truncates_toward_zero() {
    assert_eq!(mul_div(7, 3, 2), 10);
    assert_eq!(mul_div(-7, 3, 2), -10);
    assert_eq!(mul_div(6_000, 960, 60_000), 96);
}

#[test]
fn isqrt_rounds_down() {
    assert_eq!(isqrt(0), 0);
    assert_eq!(isqrt(15), 3);
    assert_eq!(isqrt(16), 4);
    assert_eq!(isqrt(u64::MAX), 4_294_967_295);
}

#[test]
fn clamp_limits() {
    assert_eq!(clamp(5, -3, 3), 3);
    assert_eq!(clamp(-5, -3, 3), -3);
    assert_eq!(clamp(1, -3, 3), 1);
}
