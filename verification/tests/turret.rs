use cam_control::direction::{direction_from_lowercase, parse_direction, same_text, Direction};
use cam_control::error::TurretError;
use cam_control::mock::{MockGpioController, MOCK_Y_RANGE};
use cam_control::state::{move_position, LimitReadings, TurretState};
use cam_control::text::decimal_text;

#[test]
fn decimal_text_renders_numbers() {
    assert_eq!(decimal_text(0), "0");
    assert_eq!(decimal_text(7), "7");
    assert_eq!(decimal_text(10), "10");
    assert_eq!(decimal_text(3600), "3600");
    assert_eq!(decimal_text(u64::MAX), "18446744073709551615");
}

#[test]
fn direction_words_are_read_case_insensitively() {
    assert_eq!(parse_direction("forward"), Some(Direction::Forward));
    assert_eq!(parse_direction("FORWARD"), Some(Direction::Forward));
    assert_eq!(parse_direction("Clockwise"), Some(Direction::Forward));
    assert_eq!(parse_direction("cw"), Some(Direction::Forward));
    assert_eq!(parse_direction("backward"), Some(Direction::Backward));
    assert_eq!(parse_direction("CounterClockwise"), Some(Direction::Backward));
    assert_eq!(parse_direction("CCW"), Some(Direction::Backward));
    assert_eq!(parse_direction("sideways"), None);
    assert_eq!(parse_direction(""), None);
    assert_eq!(parse_direction(" forward"), None);
}

#[test]
fn direction_words_follow_unicode_lowercasing() {
    // The Kelvin sign lowercases to an ASCII 'k'.
    assert_eq!(parse_direction("bac\u{212A}ward"), Some(Direction::Backward));
}

#[test]
fn lowercase_words_only_match_exactly() {
    assert_eq!(direction_from_lowercase("ccw"), Some(Direction::Backward));
    assert_eq!(direction_from_lowercase("CCW"), None);
    assert!(same_text("abc", "abc"));
    assert!(!same_text("abc", "abd"));
}

#[test]
fn positions_wrap_like_32_bit_counts() {
    assert_eq!(move_position(0, Direction::Forward, 100), 100);
    assert_eq!(move_position(100, Direction::Backward, 250), -150);
    assert_eq!(move_position(0, Direction::Forward, u32::MAX), -1);
    assert_eq!(move_position(i32::MAX, Direction::Forward, 1), i32::MIN);
    assert_eq!(move_position(i32::MIN, Direction::Backward, 1), i32::MAX);
    assert_eq!(move_position(0, Direction::Backward, 1u32 << 31), i32::MIN);
}

#[test]
fn moving_back_returns_to_start() {
    for &(start, steps) in &[(0i32, 100u32), (5, u32::MAX), (i32::MAX, 7), (-42, 1 << 31)] {
        let there = move_position(start, Direction::Forward, steps);
        assert_eq!(move_position(there, Direction::Backward, steps), start);
        let there = move_position(start, Direction::Backward, steps);
        assert_eq!(move_position(there, Direction::Forward, steps), start);
    }
}

#[test]
fn default_state_is_at_origin() {
    let s = TurretState::default();
    assert_eq!(s.x_steps, 0);
    assert_eq!(s.y_steps, 0);
    assert!(!s.actuator_active && !s.x_homed && !s.y_homed);
    assert!(!s.x_limit_triggered && !s.y_start_limit_triggered && !s.y_stop_limit_triggered);
}

#[test]
fn limit_readings_are_recorded() {
    let mut s = TurretState::default();
    s.record_limits(LimitReadings { x_home_low: true, y_start_low: false, y_stop_low: true });
    assert!(s.x_limit_triggered);
    assert!(!s.y_start_limit_triggered);
    assert!(s.y_stop_limit_triggered);
}

#[test]
fn error_messages() {
    assert_eq!(
        TurretError::InvalidDirection(String::from("Up")).message(),
        "Invalid direction: Up"
    );
    assert_eq!(
        TurretError::YAtStopLimit.message(),
        "Y-axis at stop limit. Cannot move further in this direction."
    );
    assert_eq!(
        TurretError::YAtStartLimit.message(),
        "Y-axis at start limit. Cannot move further in this direction."
    );
    assert_eq!(
        TurretError::XHomingFailed(3600).message(),
        "X-axis homing failed: limit switch not found after 3600 steps"
    );
    assert_eq!(
        TurretError::YHomingFailed(2000).message(),
        "Y-axis homing failed: start limit switch not found after 2000 steps"
    );
    assert_eq!(TurretError::NoControlToRelease.message(), "You don't have control to release");
    assert_eq!(
        TurretError::ControlRequired.message(),
        "You don't have control. Use AcquireControl command first."
    );
}

#[test]
fn mock_starts_at_origin() {
    let mock = MockGpioController::new();
    assert_eq!(mock.get_state(), TurretState::default());
}

#[test]
fn mock_move_x_counts_steps() {
    let mut mock = MockGpioController::new();
    assert!(mock.move_x("forward", 100).is_ok());
    assert_eq!(mock.get_state().x_steps, 100);
    assert!(mock.move_x("CCW", 250).is_ok());
    assert_eq!(mock.get_state().x_steps, -150);
    assert!(mock.move_x("cw", 150).is_ok());
    assert_eq!(mock.get_state().x_steps, 0);
}

#[test]
fn mock_move_x_refuses_unknown_direction() {
    let mut mock = MockGpioController::new();
    mock.move_x("forward", 10).unwrap();
    let before = mock.get_state();
    match mock.move_x("up", 5) {
        Err(e) => assert_eq!(e.message(), "Invalid direction: up"),
        Ok(()) => panic!("an unknown direction was accepted"),
    }
    assert_eq!(mock.get_state(), before);
}

#[test]
fn mock_move_y_refuses_at_start() {
    let mut mock = MockGpioController::new();
    assert!(matches!(mock.move_y("backward", 5), Err(TurretError::YAtStartLimit)));
    let s = mock.get_state();
    assert!(s.y_start_limit_triggered);
    assert_eq!(s.y_steps, 0);
}

#[test]
fn mock_move_y_unknown_direction_at_start_is_a_start_limit() {
    let mut mock = MockGpioController::new();
    assert!(matches!(mock.move_y("sideways", 5), Err(TurretError::YAtStartLimit)));
    mock.move_y("forward", 10).unwrap();
    match mock.move_y("sideways", 5) {
        Err(TurretError::InvalidDirection(w)) => assert_eq!(w, "sideways"),
        other => panic!("unexpected {:?}", other),
    }
    assert_eq!(mock.get_state().y_steps, 10);
}

#[test]
fn mock_move_y_is_clamped_to_its_range() {
    let mut mock = MockGpioController::new();
    mock.move_y("forward", 500).unwrap();
    let s = mock.get_state();
    assert_eq!(s.y_steps, 500);
    assert!(!s.y_start_limit_triggered && !s.y_stop_limit_triggered);
    mock.move_y("forward", 600).unwrap();
    let s = mock.get_state();
    assert_eq!(s.y_steps, MOCK_Y_RANGE);
    assert!(s.y_stop_limit_triggered);
    assert!(matches!(mock.move_y("cw", 1), Err(TurretError::YAtStopLimit)));
    mock.move_y("backward", 5000).unwrap();
    let s = mock.get_state();
    assert_eq!(s.y_steps, 0);
    assert!(s.y_start_limit_triggered && !s.y_stop_limit_triggered);
}

#[test]
fn mock_move_y_wrapping_forward_lands_at_start() {
    let mut mock = MockGpioController::new();
    mock.move_y("forward", 999).unwrap();
    // 999 + 2^31 - 1 wraps below zero and is clamped to the start.
    mock.move_y("forward", i32::MAX as u32).unwrap();
    assert_eq!(mock.get_state().y_steps, 0);
}

#[test]
fn mock_homing() {
    let mut mock = MockGpioController::new();
    mock.move_x("forward", 77).unwrap();
    mock.move_y("forward", 33).unwrap();
    mock.home_x().unwrap();
    let s = mock.get_state();
    assert_eq!(s.x_steps, 0);
    assert!(s.x_homed && s.x_limit_triggered);
    assert_eq!(s.y_steps, 33);
    mock.home_y().unwrap();
    let s = mock.get_state();
    assert_eq!(s.y_steps, 0);
    assert!(s.y_homed && s.y_start_limit_triggered && !s.y_stop_limit_triggered);
}

#[test]
fn mock_actuation_ends_inactive() {
    let mut mock = MockGpioController::new();
    mock.move_x("forward", 3).unwrap();
    let before = mock.get_state();
    mock.begin_actuation();
    assert!(mock.get_state().actuator_active);
    mock.end_actuation();
    assert_eq!(mock.get_state(), before);
}

#[test]
fn mock_y_round_trip_inside_the_range() {
    let mut mock = MockGpioController::new();
    mock.move_y("forward", 10).unwrap();
    mock.move_y("forward", 300).unwrap();
    assert_eq!(mock.get_state().y_steps, 310);
    mock.move_y("backward", 300).unwrap();
    let s = mock.get_state();
    assert_eq!(s.y_steps, 10);
    assert!(!s.y_start_limit_triggered && !s.y_stop_limit_triggered);
}

#[test]
fn letter_case_does_not_change_a_move() {
    let mut a = MockGpioController::new();
    let mut b = MockGpioController::new();
    a.move_y("CW", 40).unwrap();
    b.move_y("cw", 40).unwrap();
    a.move_x("Forward", 7).unwrap();
    b.move_x("forward", 7).unwrap();
    assert_eq!(a.get_state(), b.get_state());
}
