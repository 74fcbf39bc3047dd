//! Orientation: yaw wrap and pitch clamp, in look units and in radians.

use camera_controller::CameraController;
use camera_controller::PITCH_LIMIT_UNITS;
use camera_controller::YAW_TURN_UNITS;

/// Radians per look unit: `(1/360) * (pi/4)`.
const UNIT_RAD: f32 = std::f32::consts::PI / 1440.0;

#[test]
fn quarter_turn_right() {
    let mut c = CameraController::new();
    c.on_look(360, 0);
    assert_eq!(c.yaw, 2520);
    let yaw_rad = c.yaw as f32 * UNIT_RAD;
    let expected = 2.0 * std::f32::consts::PI - std::f32::consts::FRAC_PI_4;
    assert!((yaw_rad - expected).abs() < 1e-5);
}

#[test]
fn quarter_turn_left() {
    let mut c = CameraController::new();
    c.on_look(-360, 0);
    assert_eq!(c.yaw, 360);
    let yaw_rad = c.yaw as f32 * UNIT_RAD;
    assert!((yaw_rad - std::f32::consts::FRAC_PI_4).abs() < 1e-5);
}

#[test]
fn full_turn_wraps_to_zero() {
    let mut c = CameraController::new();
    c.on_look(2880, 0);
    assert_eq!(c.yaw, 0);
    c.on_look(-2880, 0);
    assert_eq!(c.yaw, 0);
}

#[test]
fn one_unit_below_zero_wraps_to_top() {
    let mut c = CameraController::new();
    c.on_look(1, 0);
    assert_eq!(c.yaw, YAW_TURN_UNITS - 1);
}

#[test]
fn pitch_accumulates_then_clamps_high() {
    let mut c = CameraController::new();
    c.on_look(0, 700);
    assert_eq!(c.pitch, 700);
    c.on_look(0, 700);
    assert_eq!(c.pitch, PITCH_LIMIT_UNITS);
    let pitch_rad = c.pitch as f32 * UNIT_RAD;
    assert!((pitch_rad - std::f32::consts::FRAC_PI_2).abs() < 1e-5);
}

#[test]
fn pitch_clamps_low() {
    let mut c = CameraController::new();
    c.on_look(0, -100000);
    assert_eq!(c.pitch, -PITCH_LIMIT_UNITS);
    let pitch_rad = c.pitch as f32 * UNIT_RAD;
    assert!((pitch_rad + std::f32::consts::FRAC_PI_2).abs() < 1e-5);
}

#[test]
fn orientation_bounded_under_wild_input() {
    let mut c = CameraController::new();
    let deltas = [
        (123456, 654321),
        (-987654, -321),
        (2879, 719),
        (-2881, -100000),
        (i32::MAX, i32::MAX),
        (i32::MIN, i32::MIN),
    ];
    for &(dx, dy) in &deltas {
        c.on_look(dx, dy);
        assert!(c.yaw < YAW_TURN_UNITS);
        assert!(-PITCH_LIMIT_UNITS <= c.pitch && c.pitch <= PITCH_LIMIT_UNITS);
        let yaw_rad = c.yaw as f32 * UNIT_RAD;
        let pitch_rad = c.pitch as f32 * UNIT_RAD;
        assert!((0.0..2.0 * std::f32::consts::PI).contains(&yaw_rad));
        assert!(pitch_rad.abs() <= std::f32::consts::FRAC_PI_2 + 1e-5);
    }
}

#[test]
fn look_zero_changes_nothing() {
    let mut c = CameraController::new();
    c.on_look(100, 50);
    let before = c;
    c.on_look(0, 0);
    assert_eq!(c, before);
}

#[test]
fn look_leaves_direction_and_speed_alone() {
    let mut c = CameraController::new();
    c.on_key_down(camera_controller::Key::Forward);
    c.on_key_down(camera_controller::Key::Sprint);
    c.on_look(77, -33);
    assert_eq!(c.dir_z, -1);
    assert_eq!(c.speed_factor(), 2);
}
