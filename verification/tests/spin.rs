use shell_fur::rotation::{rotation, Rotation, SECOND_NANOS, TURN_NANOS};

#[test]
fn one_turn_takes_forty_five_seconds() {
    assert_eq!(SECOND_NANOS, 1_000_000_000);
    assert_eq!(TURN_NANOS, 45 * SECOND_NANOS);
}

#[test]
fn no_rotation_at_the_start() {
    assert_eq!(rotation(0), Rotation { turns: 0, phase_nanos: 0 });
    let angle = (std::f32::consts::PI / 45.0) * 0.0 * 2.0;
    assert_eq!(angle, 0.0);
}

#[test]
fn full_turn_after_forty_five_seconds() {
    assert_eq!(rotation(45 * SECOND_NANOS as u128), Rotation { turns: 1, phase_nanos: 0 });
    let angle = (std::f32::consts::PI / 45.0) * 45.0 * 2.0;
    assert!((angle - 2.0 * std::f32::consts::PI).abs() < 1e-5);
    assert!(angle.sin().abs() < 1e-5);
}

#[test]
fn rotation_within_the_first_turn() {
    let r = rotation(11_250_000_000);
    assert_eq!(r, Rotation { turns: 0, phase_nanos: 11_250_000_000 });
    // a quarter of a turn: pi / 2
    let angle = (std::f32::consts::PI / 45.0) * 11.25 * 2.0;
    let from_phase = 2.0 * std::f64::consts::PI * r.phase_nanos as f64 / TURN_NANOS as f64;
    assert!((angle as f64 - from_phase).abs() < 1e-5);
    assert_eq!(rotation(TURN_NANOS as u128 - 1), Rotation { turns: 0, phase_nanos: TURN_NANOS - 1 });
}

#[test]
fn rotation_repeats_every_turn() {
    for t in [0u128, 1, 999, 44_999_999_999, 45_000_000_000, 45_000_000_001, 1_000_000_000_007] {
        let now = rotation(t);
        let then = rotation(t + TURN_NANOS as u128);
        assert_eq!(then.phase_nanos, now.phase_nanos);
        assert_eq!(then.turns, now.turns + 1);
        assert!(now.phase_nanos < TURN_NANOS);
        assert_eq!(now.turns * TURN_NANOS as u128 + now.phase_nanos as u128, t);
    }
}

#[test]
fn rotation_of_the_longest_time() {
    let r = rotation(u128::MAX);
    assert_eq!(r.turns, u128::MAX / 45_000_000_000);
    assert_eq!(r.phase_nanos as u128, u128::MAX % 45_000_000_000);
}

#[test]
fn angle_matches_single_precision_over_one_turn() {
    for second in 0..45u128 {
        let r = rotation(second * SECOND_NANOS as u128);
        let angle = (std::f32::consts::PI / 45.0) * second as f32 * 2.0;
        let from_phase = 2.0 * std::f64::consts::PI * r.phase_nanos as f64 / TURN_NANOS as f64;
        assert!((angle as f64 - from_phase).abs() < 1e-4, "second {}", second);
    }
}
