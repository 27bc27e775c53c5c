use cam_control::error::TurretError;
use cam_control::hardware::{
    Axis, HardwareAction, PinLevel, Procedure, HOMING_STEP_DELAY_US, MAX_X_HOMING_STEPS,
    MAX_Y_HOMING_STEPS, STEP_DELAY_US, X_BACKOFF_PAUSE_MS, X_BACKOFF_STEPS,
};
use cam_control::state::{LimitReadings, TurretState};

const OPEN: LimitReadings = LimitReadings { x_home_low: false, y_start_low: false, y_stop_low: false };

/// Runs a procedure against scripted readings, the way a hardware loop
/// would: a reading is handed over right after each `ReadLimits`. Returns
/// every action performed and the outcome.
fn run(
    mut p: Procedure,
    state: &mut TurretState,
    mut next_reading: impl FnMut(usize) -> LimitReadings,
) -> (Vec<HardwareAction>, Result<(), TurretError>) {
    let mut actions = Vec::new();
    let mut reading = None;
    let mut reads = 0;
    for _ in 0..100_000 {
        let action = p.step(state, reading.take());
        match action {
            HardwareAction::Finish(outcome) => return (actions, outcome),
            HardwareAction::ReadLimits => {
                reading = Some(next_reading(reads));
                reads += 1;
            }
            _ => {}
        }
        actions.push(action);
    }
    panic!("procedure did not finish");
}

fn pulses(actions: &[HardwareAction], axis: Axis, half: u64) -> usize {
    actions
        .iter()
        .filter(|a| matches!(a, HardwareAction::Pulse { axis: ax, half_period_us } if *ax == axis && *half_period_us == half))
        .count()
}

#[test]
fn move_x_sets_direction_then_pulses() {
    let mut s = TurretState::default();
    let (actions, outcome) = run(Procedure::move_x("forward", 3), &mut s, |_| OPEN);
    assert!(outcome.is_ok());
    assert_eq!(actions.len(), 4);
    assert!(matches!(actions[0], HardwareAction::SetDirection { axis: Axis::X, level: PinLevel::High }));
    assert_eq!(pulses(&actions, Axis::X, STEP_DELAY_US), 3);
    assert_eq!(s.x_steps, 3);
    let (actions, outcome) = run(Procedure::move_x("ccw", 5), &mut s, |_| OPEN);
    assert!(outcome.is_ok());
    assert!(matches!(actions[0], HardwareAction::SetDirection { axis: Axis::X, level: PinLevel::Low }));
    assert_eq!(s.x_steps, -2);
}

#[test]
fn move_x_refuses_unknown_direction_without_touching_pins() {
    let mut s = TurretState::default();
    let (actions, outcome) = run(Procedure::move_x("left", 3), &mut s, |_| OPEN);
    assert!(actions.is_empty());
    match outcome {
        Err(e) => assert_eq!(e.message(), "Invalid direction: left"),
        Ok(()) => panic!("accepted"),
    }
    assert_eq!(s, TurretState::default());
}

#[test]
fn move_y_runs_full_distance_when_clear() {
    let mut s = TurretState::default();
    let (actions, outcome) = run(Procedure::move_y("forward", 4), &mut s, |_| OPEN);
    assert!(outcome.is_ok());
    assert_eq!(pulses(&actions, Axis::Y, STEP_DELAY_US), 4);
    assert_eq!(s.y_steps, 4);
}

#[test]
fn move_y_stops_at_the_limit_it_runs_into() {
    let mut s = TurretState::default();
    // Reading 0 is taken before moving; the stop switch closes at the
    // reading after the second pulse.
    let (actions, outcome) = run(Procedure::move_y("forward", 10), &mut s, |i| LimitReadings {
        y_stop_low: i >= 2,
        ..OPEN
    });
    assert!(outcome.is_ok());
    assert_eq!(pulses(&actions, Axis::Y, STEP_DELAY_US), 2);
    assert_eq!(s.y_steps, 2);
    assert!(s.y_stop_limit_triggered);
}

#[test]
fn move_y_ignores_the_switch_behind_it() {
    let mut s = TurretState::default();
    let (actions, outcome) = run(Procedure::move_y("forward", 3), &mut s, |i| LimitReadings {
        y_start_low: i >= 1,
        ..OPEN
    });
    assert!(outcome.is_ok());
    assert_eq!(pulses(&actions, Axis::Y, STEP_DELAY_US), 3);
    assert_eq!(s.y_steps, 3);
}

#[test]
fn move_y_refused_at_limit() {
    let mut s = TurretState::default();
    let (actions, outcome) = run(Procedure::move_y("backward", 3), &mut s, |_| LimitReadings {
        y_start_low: true,
        ..OPEN
    });
    assert!(matches!(outcome, Err(TurretError::YAtStartLimit)));
    assert_eq!(pulses(&actions, Axis::Y, STEP_DELAY_US), 0);
    assert!(s.y_start_limit_triggered);
    assert_eq!(s.y_steps, 0);
}

#[test]
fn move_y_unknown_direction_still_reads_switches() {
    let mut s = TurretState::default();
    let (actions, outcome) = run(Procedure::move_y("down", 3), &mut s, |_| LimitReadings {
        x_home_low: true,
        ..OPEN
    });
    assert!(matches!(outcome, Err(TurretError::InvalidDirection(_))));
    assert_eq!(actions.len(), 1);
    assert!(s.x_limit_triggered);
}

#[test]
fn move_y_of_zero_steps_only_reads() {
    let mut s = TurretState::default();
    let (actions, outcome) = run(Procedure::move_y("cw", 0), &mut s, |_| OPEN);
    assert!(outcome.is_ok());
    assert_eq!(pulses(&actions, Axis::Y, STEP_DELAY_US), 0);
    assert_eq!(s.y_steps, 0);
}

#[test]
fn home_x_finds_switch() {
    let mut s = TurretState { x_steps: 123, ..TurretState::default() };
    // Reading 0 before homing: open; the switch closes at the third search pulse.
    let (actions, outcome) = run(Procedure::home_x(), &mut s, |i| LimitReadings {
        x_home_low: i >= 3,
        ..OPEN
    });
    assert!(outcome.is_ok());
    assert_eq!(pulses(&actions, Axis::X, HOMING_STEP_DELAY_US), 3);
    assert_eq!(pulses(&actions, Axis::X, STEP_DELAY_US), 0);
    assert_eq!(s.x_steps, 0);
    assert!(s.x_homed && s.x_limit_triggered);
}

#[test]
fn home_x_backs_off_a_closed_switch_first() {
    let mut s = TurretState::default();
    // Closed at the start, open for the next two search readings, closed again.
    let (actions, outcome) = run(Procedure::home_x(), &mut s, |i| LimitReadings {
        x_home_low: i == 0 || i >= 3,
        ..OPEN
    });
    assert!(outcome.is_ok());
    assert!(matches!(actions[1], HardwareAction::SetDirection { axis: Axis::X, level: PinLevel::High }));
    assert_eq!(pulses(&actions, Axis::X, STEP_DELAY_US), X_BACKOFF_STEPS as usize);
    assert!(actions.iter().any(|a| matches!(a, HardwareAction::Pause { ms } if *ms == X_BACKOFF_PAUSE_MS)));
    assert_eq!(pulses(&actions, Axis::X, HOMING_STEP_DELAY_US), 3);
    assert_eq!(s.x_steps, 0);
}

#[test]
fn home_x_gives_up() {
    let mut s = TurretState { x_steps: 9, ..TurretState::default() };
    let (actions, outcome) = run(Procedure::home_x(), &mut s, |_| OPEN);
    match outcome {
        Err(e) => assert_eq!(
            e.message(),
            "X-axis homing failed: limit switch not found after 3600 steps"
        ),
        Ok(()) => panic!("homing succeeded"),
    }
    assert_eq!(pulses(&actions, Axis::X, HOMING_STEP_DELAY_US), MAX_X_HOMING_STEPS as usize);
    assert_eq!(s.x_steps, 9);
    assert!(!s.x_homed);
}

#[test]
fn home_y_already_at_start() {
    let mut s = TurretState { y_steps: 40, ..TurretState::default() };
    let (actions, outcome) = run(Procedure::home_y(), &mut s, |_| LimitReadings {
        y_start_low: true,
        ..OPEN
    });
    assert!(outcome.is_ok());
    assert!(matches!(actions[0], HardwareAction::SetDirection { axis: Axis::Y, level: PinLevel::Low }));
    assert_eq!(pulses(&actions, Axis::Y, HOMING_STEP_DELAY_US), 0);
    assert_eq!(s.y_steps, 0);
    assert!(s.y_homed);
}

#[test]
fn home_y_searches_and_gives_up() {
    let mut s = TurretState { y_steps: 40, ..TurretState::default() };
    let (actions, outcome) = run(Procedure::home_y(), &mut s, |_| OPEN);
    assert!(matches!(outcome, Err(TurretError::YHomingFailed(n)) if n == MAX_Y_HOMING_STEPS));
    assert_eq!(pulses(&actions, Axis::Y, HOMING_STEP_DELAY_US), MAX_Y_HOMING_STEPS as usize);
    assert_eq!(s.y_steps, 40);
}

#[test]
fn home_y_finds_switch() {
    let mut s = TurretState { y_steps: 40, ..TurretState::default() };
    let (actions, outcome) = run(Procedure::home_y(), &mut s, |i| LimitReadings {
        y_start_low: i >= 5,
        ..OPEN
    });
    assert!(outcome.is_ok());
    assert_eq!(pulses(&actions, Axis::Y, HOMING_STEP_DELAY_US), 5);
    assert_eq!(s.y_steps, 0);
    assert!(s.y_homed && s.y_start_limit_triggered);
}

#[test]
fn finished_procedure_repeats_its_outcome() {
    let mut s = TurretState::default();
    let mut p = Procedure::move_x("nowhere", 1);
    assert!(matches!(p.step(&mut s, None), HardwareAction::Finish(Err(_))));
    assert!(p.is_finished());
    assert!(matches!(p.step(&mut s, None), HardwareAction::Finish(Err(TurretError::InvalidDirection(_)))));
}

#[test]
fn move_y_letter_case_gives_the_same_run() {
    let readings = |i: usize| LimitReadings { y_stop_low: i >= 3, ..OPEN };
    let mut s1 = TurretState::default();
    let mut s2 = TurretState::default();
    let (a1, o1) = run(Procedure::move_y("CW", 10), &mut s1, readings);
    let (a2, o2) = run(Procedure::move_y("cw", 10), &mut s2, readings);
    assert_eq!(format!("{:?}", a1), format!("{:?}", a2));
    assert!(o1.is_ok() && o2.is_ok());
    assert_eq!(s1, s2);
    assert_eq!(s1.y_steps, 3);
}
