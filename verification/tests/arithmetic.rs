use fps_controller::root::isqrt;
use fps_controller::units::{
    saturating_sum, COUNT, FULL_TURN, HALF_TURN, MOVE_SPEED, PITCH_LIMIT, PITCH_MARGIN, RADIAN,
    SECOND, UNIT, WORLD,
};
use fps_controller::vector::Vec3;

#[test]
fn isqrt_of_small_numbers() {
    let expected: [u64; 17] = [0, 1, 1, 1, 2, 2, 2, 2, 2, 3, 3, 3, 3, 3, 3, 3, 4];
    for (m, r) in expected.iter().enumerate() {
        assert_eq!(isqrt(m as u128), *r, "isqrt({})", m);
    }
}

#[test]
fn isqrt_brackets_its_argument() {
    let samples: [u128; 8] = [
        24,
        25,
        26,
        999_999_999_999,
        1_000_000_000_000,
        2_000_000_000_000,
        0xffff_ffff_ffff_ffff,
        0x1_0000_0000_0000_0000,
    ];
    for m in samples {
        let r = isqrt(m) as u128;
        assert!(r * r <= m, "isqrt({}) too large", m);
        assert!((r + 1) * (r + 1) > m, "isqrt({}) too small", m);
    }
    assert_eq!(isqrt(2_000_000_000_000), 1_414_213);
}

#[test]
fn isqrt_of_perfect_squares() {
    for r in [0u64, 1, 7, 1_000_000, 5_000_000, 0xffff_ffff, 0xffff_ffff_ffff_ffff] {
        let m = (r as u128) * (r as u128);
        assert_eq!(isqrt(m), r);
        if r > 0 {
            assert_eq!(isqrt(m - 1), r - 1);
        }
    }
}

#[test]
fn isqrt_of_the_largest_number() {
    assert_eq!(isqrt(u128::MAX), u64::MAX);
}

#[test]
fn saturating_sum_adds_within_range() {
    assert_eq!(saturating_sum(0, 0), 0);
    assert_eq!(saturating_sum(2, 3), 5);
    assert_eq!(saturating_sum(-7, 3), -4);
    assert_eq!(saturating_sum(i64::MAX, -1), i64::MAX - 1);
    assert_eq!(saturating_sum(i64::MIN, i64::MAX), -1);
}

#[test]
fn saturating_sum_stops_at_the_ends() {
    assert_eq!(saturating_sum(i64::MAX, 1), i64::MAX);
    assert_eq!(saturating_sum(i64::MAX, i64::MAX), i64::MAX);
    assert_eq!(saturating_sum(i64::MIN, -1), i64::MIN);
    assert_eq!(saturating_sum(i64::MIN, i64::MIN), i64::MIN);
    assert_eq!(saturating_sum(i64::MAX, 0), i64::MAX);
    assert_eq!(saturating_sum(i64::MIN, 0), i64::MIN);
}

#[test]
fn units_fit_together() {
    assert_eq!(WORLD, UNIT * SECOND as i64);
    assert_eq!(FULL_TURN, 2 * HALF_TURN + 1);
    assert_eq!(PITCH_LIMIT, HALF_TURN / 2 - PITCH_MARGIN);
    assert_eq!(PITCH_MARGIN, RADIAN / 100);
    assert_eq!(MOVE_SPEED, 1_000);
    assert_eq!(COUNT, 1_000);
    // pi, to the nanoradian
    assert_eq!(HALF_TURN, 3_141_592_653);
    assert_eq!(PITCH_LIMIT, 1_560_796_326);
}

#[test]
fn translated_adds_componentwise() {
    let p = Vec3::new(1, -2, 3);
    assert_eq!(p.translated(Vec3::new(10, 20, -30)), Vec3::new(11, 18, -27));
    assert_eq!(p.translated(Vec3::zero()), p);
    assert_eq!(Vec3::zero(), Vec3::new(0, 0, 0));
    assert_eq!(Vec3::one(), Vec3::new(WORLD, WORLD, WORLD));
}

#[test]
fn translated_saturates_each_component_alone() {
    let p = Vec3::new(i64::MAX - 5, i64::MIN + 5, 0);
    let q = p.translated(Vec3::new(10, -10, 10));
    assert_eq!(q, Vec3::new(i64::MAX, i64::MIN, 10));
}
