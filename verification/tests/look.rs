use fps_controller::input::MouseDelta;
use fps_controller::look::{CameraSensitivity, Orientation};
use fps_controller::player::{player_look, Player};
use fps_controller::units::{COUNT, FULL_TURN, HALF_TURN, PITCH_LIMIT, RADIAN};

fn counts(x: i32, y: i32) -> MouseDelta {
    MouseDelta::new(x * COUNT, y * COUNT)
}

#[test]
fn default_sensitivity() {
    // 0.003 and 0.002 radians a count, in microradians.
    assert_eq!(CameraSensitivity::default(), CameraSensitivity::new(3_000, 2_000));
    assert_eq!(Player::spawn().sensitivity, CameraSensitivity::default());
}

#[test]
fn a_hundred_counts_to_the_right_turn_by_three_tenths_of_a_radian() {
    let mut p = Player::spawn();
    p.transform.rotation = Orientation::new(RADIAN, RADIAN / 2, 0);
    player_look(counts(100, 0), &mut p);
    // yaw decreases by 100 * 0.003 = 0.3 rad; pitch unchanged
    assert_eq!(p.transform.rotation.yaw, RADIAN - 3 * RADIAN / 10);
    assert_eq!(p.transform.rotation.yaw, 700_000_000);
    assert_eq!(p.transform.rotation.pitch, RADIAN / 2);
    assert_eq!(p.transform.rotation.roll, 0);
}

#[test]
fn mouse_axes_are_inverted_into_rotation() {
    let s = CameraSensitivity::default();
    let o = Orientation::identity();
    assert_eq!(o.look(counts(1, 0), &s), Orientation::new(-3_000_000, 0, 0));
    assert_eq!(o.look(counts(-1, 0), &s), Orientation::new(3_000_000, 0, 0));
    assert_eq!(o.look(counts(0, 1), &s), Orientation::new(0, -2_000_000, 0));
    assert_eq!(o.look(counts(0, -1), &s), Orientation::new(0, 2_000_000, 0));
    assert_eq!(o.look(counts(10, -20), &s), Orientation::new(-30_000_000, 40_000_000, 0));
    assert_eq!(o.look(MouseDelta::new(1, 1), &s), Orientation::new(-3_000, -2_000, 0));
}

#[test]
fn sensitivity_scales_each_axis_alone() {
    let s = CameraSensitivity::new(7, -11);
    let o = Orientation::new(100, 200, 300);
    assert_eq!(o.look(MouseDelta::new(5, 3), &s), Orientation::new(100 - 35, 200 + 33, 300));
    let still = CameraSensitivity::new(0, 0);
    assert_eq!(o.look(MouseDelta::new(5, 3), &still), o);
}

#[test]
fn a_still_mouse_changes_nothing() {
    let s = CameraSensitivity::default();
    let settled = Orientation::new(123_456_789, -987_654_321, 42);
    assert_eq!(settled.look(MouseDelta::new(0, 0), &s), settled);
    // Not even an orientation that the integrator would otherwise correct.
    let unsettled = Orientation::new(10 * FULL_TURN + 5, 3 * PITCH_LIMIT, -7);
    assert_eq!(unsettled.look(MouseDelta::new(0, 0), &s), unsettled);
    let extreme = Orientation::new(i64::MAX, i64::MIN, i64::MAX);
    assert_eq!(extreme.look(MouseDelta::new(0, 0), &s), extreme);
    let mut p = Player::spawn();
    p.transform.rotation = unsettled;
    let before = p;
    for _ in 0..100 {
        player_look(MouseDelta::new(0, 0), &mut p);
    }
    assert_eq!(p, before);
}

#[test]
fn pitch_stays_within_its_limit() {
    let s = CameraSensitivity::default();
    let starts = [
        Orientation::identity(),
        Orientation::new(0, PITCH_LIMIT, 0),
        Orientation::new(0, -PITCH_LIMIT, 0),
        Orientation::new(0, HALF_TURN / 2, 0),
        Orientation::new(0, i64::MAX, 0),
        Orientation::new(0, i64::MIN, 0),
    ];
    let motions = [
        MouseDelta::new(0, 1),
        MouseDelta::new(0, -1),
        MouseDelta::new(1, 0),
        MouseDelta::new(5, 700_000_000),
        MouseDelta::new(-5, -700_000_000),
        MouseDelta::new(i32::MAX, i32::MAX),
        MouseDelta::new(i32::MIN, i32::MIN),
    ];
    for o in starts {
        for m in motions {
            for sens in [s, CameraSensitivity::new(i32::MAX, i32::MAX), CameraSensitivity::new(i32::MIN, i32::MIN)] {
                let r = o.look(m, &sens);
                assert!(-PITCH_LIMIT <= r.pitch && r.pitch <= PITCH_LIMIT, "{:?} {:?}", o, m);
                assert!(-HALF_TURN <= r.yaw && r.yaw <= HALF_TURN, "{:?} {:?}", o, m);
            }
        }
    }
}

#[test]
fn pitch_saturates_at_the_limit() {
    let mut p = Player::spawn();
    // 300 counts up turn by 0.6 rad: three steps pass the limit of about 1.56.
    let up = counts(0, -300);
    player_look(up, &mut p);
    assert_eq!(p.transform.rotation.pitch, 600_000_000);
    player_look(up, &mut p);
    assert_eq!(p.transform.rotation.pitch, 1_200_000_000);
    player_look(up, &mut p);
    assert_eq!(p.transform.rotation.pitch, PITCH_LIMIT);
    for _ in 0..10 {
        player_look(up, &mut p);
        assert_eq!(p.transform.rotation.pitch, PITCH_LIMIT);
    }
    player_look(MouseDelta::new(0, i32::MIN), &mut p);
    assert_eq!(p.transform.rotation.pitch, PITCH_LIMIT);
    // The other way the pitch comes off the limit at once, by the full motion.
    player_look(counts(0, 300), &mut p);
    assert_eq!(p.transform.rotation.pitch, PITCH_LIMIT - 600_000_000);
    assert_eq!(p.transform.rotation.yaw, 0);
}

#[test]
fn pitch_saturates_at_the_lower_limit() {
    let s = CameraSensitivity::default();
    let mut o = Orientation::identity();
    for _ in 0..5 {
        o = o.look(counts(0, 400), &s);
    }
    assert_eq!(o, Orientation::new(0, -PITCH_LIMIT, 0));
    assert_eq!(o.look(MouseDelta::new(0, 1), &s), o);
}

#[test]
fn pitch_beyond_the_limit_is_brought_back_by_any_motion() {
    let s = CameraSensitivity::default();
    let o = Orientation::new(0, HALF_TURN / 2, 0);
    assert_eq!(o.look(MouseDelta::new(1, 0), &s).pitch, PITCH_LIMIT);
    let o = Orientation::new(0, -HALF_TURN / 2, 0);
    assert_eq!(o.look(MouseDelta::new(1, 0), &s).pitch, -PITCH_LIMIT);
}

#[test]
fn yaw_wraps_around() {
    let s = CameraSensitivity::default();
    let o = Orientation::new(3_000_000_000, 0, 0);
    // 0.3 rad further to the left passes half a turn and comes out on the other side.
    let r = o.look(counts(-100, 0), &s);
    assert_eq!(r.yaw, 3_300_000_000 - FULL_TURN);
    assert_eq!(r.yaw, -2_983_185_307);
    let o = Orientation::new(-3_000_000_000, 0, 0);
    assert_eq!(o.look(counts(100, 0), &s).yaw, 2_983_185_307);
    // The ends of the range are both in it.
    let o = Orientation::new(HALF_TURN - 3_000, 0, 0);
    assert_eq!(o.look(MouseDelta::new(-1, 0), &s).yaw, HALF_TURN);
    assert_eq!(o.look(MouseDelta::new(-2, 0), &s).yaw, -HALF_TURN + 2_999);
    let o = Orientation::new(-HALF_TURN + 3_000, 0, 0);
    assert_eq!(o.look(MouseDelta::new(1, 0), &s).yaw, -HALF_TURN);
    assert_eq!(o.look(MouseDelta::new(2, 0), &s).yaw, HALF_TURN - 2_999);
}

#[test]
fn yaw_of_any_size_is_wrapped() {
    let s = CameraSensitivity::new(0, 1);
    // No yaw motion, but a motion all the same: the yaw is brought into range.
    let o = Orientation::new(10 * FULL_TURN + 5, 0, 0);
    assert_eq!(o.look(MouseDelta::new(0, 1), &s).yaw, 5);
    let o = Orientation::new(-10 * FULL_TURN - 5, 0, 0);
    assert_eq!(o.look(MouseDelta::new(0, 1), &s).yaw, -5);
    let o = Orientation::new(i64::MAX, 0, 0);
    let r = o.look(MouseDelta::new(0, 1), &s);
    assert_eq!((i64::MAX as i128 - r.yaw as i128) % FULL_TURN as i128, 0);
    let o = Orientation::new(i64::MIN, 0, 0);
    let r = o.look(MouseDelta::new(i32::MIN, 1), &CameraSensitivity::new(i32::MIN, 1));
    let turned = i64::MIN as i128 - (i32::MIN as i128) * (i32::MIN as i128);
    assert_eq!((turned - r.yaw as i128) % FULL_TURN as i128, 0);
    assert!(-HALF_TURN <= r.yaw && r.yaw <= HALF_TURN);
}

#[test]
fn repeated_yaw_motion_equals_the_summed_motion() {
    let s = CameraSensitivity::default();
    let start = Orientation::new(1_000_000_000, 500_000_000, 17);
    for step in [1, -1, 250, -3_000, 100_000, 999_999] {
        let mut o = start;
        for n in 1..=2_000 {
            o = o.look(MouseDelta::new(step, 0), &s);
            if n % 400 == 0 || n < 4 {
                assert_eq!(o, start.look(MouseDelta::new(n * step, 0), &s), "{} x {}", n, step);
            }
        }
    }
}

#[test]
fn two_yaw_motions_equal_their_sum() {
    let s = CameraSensitivity::new(3_000, 2_000);
    let start = Orientation::new(-3_000_000_000, -PITCH_LIMIT, -1);
    for (a, b) in [(5, 7), (-5, 5), (0, 9), (9, 0), (0, 0), (1_000_000_000, 1_000_000_000), (i32::MIN, i32::MAX)] {
        let twice = start.look(MouseDelta::new(a, 0), &s).look(MouseDelta::new(b, 0), &s);
        let once = start.look(MouseDelta::new(a + b, 0), &s);
        assert_eq!(twice, once, "{} then {}", a, b);
    }
}

#[test]
fn roll_is_kept() {
    let s = CameraSensitivity::default();
    for roll in [0, 1, -1, HALF_TURN, i64::MAX, i64::MIN] {
        let o = Orientation::new(0, 0, roll);
        assert_eq!(o.look(counts(3, 4), &s).roll, roll);
    }
}

#[test]
fn looking_changes_the_orientation_only() {
    let mut p = Player::spawn();
    let before = p;
    player_look(counts(100, 50), &mut p);
    assert_eq!(p.transform.translation, before.transform.translation);
    assert_eq!(p.transform.scale, before.transform.scale);
    assert_eq!(p.sensitivity, before.sensitivity);
    assert_eq!(p.facing, before.facing);
    assert_eq!(p.transform.rotation, Orientation::new(-300_000_000, -100_000_000, 0));
}

#[test]
fn looking_uses_the_sensitivity_of_the_player() {
    let mut p = Player::spawn();
    p.sensitivity = CameraSensitivity::new(1_000, 500);
    player_look(counts(-100, -100), &mut p);
    assert_eq!(p.transform.rotation, Orientation::new(100_000_000, 50_000_000, 0));
}

#[test]
fn mouse_delta_is_zero_only_when_both_parts_are() {
    assert!(MouseDelta::new(0, 0).is_zero());
    assert!(!MouseDelta::new(1, 0).is_zero());
    assert!(!MouseDelta::new(0, -1).is_zero());
    assert!(!MouseDelta::new(i32::MIN, i32::MAX).is_zero());
}
