//! The procedures that drive the real turret hardware, as state machines.
//!
//! Each operation of the hardware controller (moving an axis, homing an
//! axis) alternates pin work with decisions. A [`Procedure`] holds the
//! decisions: at every step it is handed the turret's bookkeeping and, if
//! it asked for one, the latest reading of the limit switches; it updates
//! the bookkeeping and names the next [`HardwareAction`]. The caller
//! performs that action on the pins and steps again, until the procedure
//! names `Finish`.

use vstd::prelude::*;
use crate::direction::{
    Direction, ascii_lowercase, direction_of, is_ascii_text, parse_direction, parsed_direction,
};
use crate::error::TurretError;
use crate::state::{LimitReadings, TurretState, move_position, moved_position, with_readings};

verus! {

/// Half period of a step pulse while moving, in microseconds.
pub const STEP_DELAY_US: u64 = 1000;
/// Half period of a step pulse while homing, in microseconds.
pub const HOMING_STEP_DELAY_US: u64 = 2000;
/// Steps taken away from the X home switch when homing starts on it.
pub const X_BACKOFF_STEPS: u32 = 50;
/// Pause after backing away from the X home switch, in milliseconds.
pub const X_BACKOFF_PAUSE_MS: u64 = 100;
/// Most steps X homing takes looking for its switch.
pub const MAX_X_HOMING_STEPS: u32 = 3600;
/// Most steps Y homing takes looking for its start switch.
pub const MAX_Y_HOMING_STEPS: u32 = 2000;

/// The two motor axes.
#[derive(Clone, Copy, Debug, PartialEq, Eq, Structural)]
pub enum Axis {
    X,
    Y,
}

/// The level of an output pin.
#[derive(Clone, Copy, Debug, PartialEq, Eq, Structural)]
pub enum PinLevel {
    Low,
    High,
}

/// The level of a direction pin for a direction: high turns forward.
pub open spec fn direction_level(dir: Direction) -> PinLevel {
    match dir {
        Direction::Forward => PinLevel::High,
        Direction::Backward => PinLevel::Low,
    }
}

fn level_of(dir: Direction) -> (level: PinLevel)
    ensures
        level == direction_level(dir),
{
    match dir {
        Direction::Forward => PinLevel::High,
        Direction::Backward => PinLevel::Low,
    }
}

/// What the caller has to do on the hardware next.
#[derive(Debug)]
pub enum HardwareAction {
    /// Read the three limit switches and hand the reading to the next step.
    ReadLimits,
    /// Drive the direction pin of `axis` to `level`.
    SetDirection { axis: Axis, level: PinLevel },
    /// One step pulse on `axis`: step pin high, wait, step pin low, wait,
    /// each wait lasting `half_period_us` microseconds.
    Pulse { axis: Axis, half_period_us: u64 },
    /// Wait `ms` milliseconds.
    Pause { ms: u64 },
    /// The procedure is over, with this outcome.
    Finish(Result<(), TurretError>),
}

/// Where a hardware procedure stands.
#[derive(Debug)]
#[allow(inconsistent_fields)]
pub enum Procedure {
    /// An X move that has not started: `dir` is what `word` names.
    MoveX { dir: Option<Direction>, word: String, steps: u32 },
    /// An X move that has given `done` of its `steps` pulses.
    XSteps { dir: Direction, steps: u32, done: u32 },
    /// A Y move that has not started: `dir` is what `word` names.
    MoveY { dir: Option<Direction>, word: String, steps: u32 },
    /// A Y move waiting for the switch reading taken before it moves.
    YMoveAwaitInitial { dir: Option<Direction>, word: String, steps: u32 },
    /// A Y move whose direction pin is set, about to check its limits.
    YMoveCheck { dir: Direction, steps: u32 },
    /// A Y move waiting for the reading after its `done`-th pulse.
    YMoveAwaitPulse { dir: Direction, steps: u32, done: u32 },
    /// A Y move that has stopped after `done` pulses, waiting for the
    /// closing reading of the switches.
    YMoveAwaitFinal { dir: Direction, done: u32 },
    /// X homing that has not started.
    HomeX,
    /// X homing waiting for its first switch reading.
    XHomeAwaitInitial,
    /// X homing backing away from its switch, `done` steps so far.
    XBackoff { done: u32 },
    /// X homing that has backed away and paused.
    XBackoffDone,
    /// X homing with its direction set toward the switch.
    XHomeSearchStart,
    /// X homing waiting for the reading after its `done`-th search pulse.
    XHomeAwaitSearch { done: u32 },
    /// X homing that found its switch, waiting for a closing reading.
    XHomeAwaitFinal,
    /// Y homing that has not started.
    HomeY,
    /// Y homing with its direction set toward the start switch.
    YHomeRead,
    /// Y homing waiting for its first switch reading.
    YHomeAwaitInitial,
    /// Y homing waiting for the reading after its `done`-th search pulse.
    YHomeAwaitSearch { done: u32 },
    /// Y homing that found its switch, waiting for a closing reading.
    YHomeAwaitFinal,
    /// A procedure that is over, with this outcome.
    Finished(Result<(), TurretError>),
}

/// One step of the procedure `p` on bookkeeping `s`, given the latest
/// switch reading `r` where the procedure waits for one: the procedure's
/// next phase, the updated bookkeeping, and the action to perform next.
/// A phase that waits for a reading and gets none asks for it again.
pub open spec fn transition(p: Procedure, s: TurretState, r: Option<LimitReadings>) -> (
    Procedure,
    TurretState,
    HardwareAction,
) {
    match p {
        Procedure::MoveX { dir, word, steps } => match dir {
            Some(d) => (
                Procedure::XSteps { dir: d, steps, done: 0 },
                s,
                HardwareAction::SetDirection { axis: Axis::X, level: direction_level(d) },
            ),
            None => {
                let e = TurretError::InvalidDirection(word);
                (Procedure::Finished(Err(e)), s, HardwareAction::Finish(Err(e)))
            },
        },
        Procedure::XSteps { dir, steps, done } => if done < steps {
            (
                Procedure::XSteps { dir, steps, done: (done + 1) as u32 },
                s,
                HardwareAction::Pulse { axis: Axis::X, half_period_us: STEP_DELAY_US },
            )
        } else {
            (
                Procedure::Finished(Ok(())),
                TurretState { x_steps: moved_position(s.x_steps, dir, steps as nat) as i32, ..s },
                HardwareAction::Finish(Ok(())),
            )
        },
        Procedure::MoveY { dir, word, steps } => (
            Procedure::YMoveAwaitInitial { dir, word, steps },
            s,
            HardwareAction::ReadLimits,
        ),
        Procedure::YMoveAwaitInitial { dir, word, steps } => match r {
            None => (Procedure::YMoveAwaitInitial { dir, word, steps }, s, HardwareAction::ReadLimits),
            Some(reading) => {
                let s2 = with_readings(s, reading);
                match dir {
                    Some(d) => (
                        Procedure::YMoveCheck { dir: d, steps },
                        s2,
                        HardwareAction::SetDirection { axis: Axis::Y, level: direction_level(d) },
                    ),
                    None => {
                        let e = TurretError::InvalidDirection(word);
                        (Procedure::Finished(Err(e)), s2, HardwareAction::Finish(Err(e)))
                    },
                }
            },
        },
        Procedure::YMoveCheck { dir, steps } => if dir == Direction::Forward
            && s.y_stop_limit_triggered {
            (
                Procedure::Finished(Err(TurretError::YAtStopLimit)),
                s,
                HardwareAction::Finish(Err(TurretError::YAtStopLimit)),
            )
        } else if dir == Direction::Backward && s.y_start_limit_triggered {
            (
                Procedure::Finished(Err(TurretError::YAtStartLimit)),
                s,
                HardwareAction::Finish(Err(TurretError::YAtStartLimit)),
            )
        } else if steps > 0 {
            (
                Procedure::YMoveAwaitPulse { dir, steps, done: 1 },
                s,
                HardwareAction::Pulse { axis: Axis::Y, half_period_us: STEP_DELAY_US },
            )
        } else {
            (Procedure::YMoveAwaitFinal { dir, done: 0 }, s, HardwareAction::ReadLimits)
        },
        Procedure::YMoveAwaitPulse { dir, steps, done } => match r {
            None => (Procedure::YMoveAwaitPulse { dir, steps, done }, s, HardwareAction::ReadLimits),
            Some(reading) => if limit_ahead(dir, reading) || done >= steps {
                (Procedure::YMoveAwaitFinal { dir, done }, s, HardwareAction::ReadLimits)
            } else {
                (
                    Procedure::YMoveAwaitPulse { dir, steps, done: (done + 1) as u32 },
                    s,
                    HardwareAction::Pulse { axis: Axis::Y, half_period_us: STEP_DELAY_US },
                )
            },
        },
        Procedure::YMoveAwaitFinal { dir, done } => match r {
            None => (Procedure::YMoveAwaitFinal { dir, done }, s, HardwareAction::ReadLimits),
            Some(reading) => {
                let s2 = with_readings(s, reading);
                (
                    Procedure::Finished(Ok(())),
                    TurretState { y_steps: moved_position(s2.y_steps, dir, done as nat) as i32, ..s2 },
                    HardwareAction::Finish(Ok(())),
                )
            },
        },
        Procedure::HomeX => (Procedure::XHomeAwaitInitial, s, HardwareAction::ReadLimits),
        Procedure::XHomeAwaitInitial => match r {
            None => (Procedure::XHomeAwaitInitial, s, HardwareAction::ReadLimits),
            Some(reading) => {
                let s2 = with_readings(s, reading);
                if reading.x_home_low {
                    (
                        Procedure::XBackoff { done: 0 },
                        s2,
                        HardwareAction::SetDirection { axis: Axis::X, level: PinLevel::High },
                    )
                } else {
                    (
                        Procedure::XHomeSearchStart,
                        s2,
                        HardwareAction::SetDirection { axis: Axis::X, level: PinLevel::Low },
                    )
                }
            },
        },
        Procedure::XBackoff { done } => if done < X_BACKOFF_STEPS {
            (
                Procedure::XBackoff { done: (done + 1) as u32 },
                s,
                HardwareAction::Pulse { axis: Axis::X, half_period_us: STEP_DELAY_US },
            )
        } else {
            (Procedure::XBackoffDone, s, HardwareAction::Pause { ms: X_BACKOFF_PAUSE_MS })
        },
        Procedure::XBackoffDone => (
            Procedure::XHomeSearchStart,
            s,
            HardwareAction::SetDirection { axis: Axis::X, level: PinLevel::Low },
        ),
        Procedure::XHomeSearchStart => (
            Procedure::XHomeAwaitSearch { done: 1 },
            s,
            HardwareAction::Pulse { axis: Axis::X, half_period_us: HOMING_STEP_DELAY_US },
        ),
        Procedure::XHomeAwaitSearch { done } => match r {
            None => (Procedure::XHomeAwaitSearch { done }, s, HardwareAction::ReadLimits),
            Some(reading) => if reading.x_home_low {
                (
                    Procedure::XHomeAwaitFinal,
                    TurretState { x_steps: 0, x_homed: true, ..s },
                    HardwareAction::ReadLimits,
                )
            } else if done < MAX_X_HOMING_STEPS {
                (
                    Procedure::XHomeAwaitSearch { done: (done + 1) as u32 },
                    s,
                    HardwareAction::Pulse { axis: Axis::X, half_period_us: HOMING_STEP_DELAY_US },
                )
            } else {
                let e = TurretError::XHomingFailed(MAX_X_HOMING_STEPS);
                (Procedure::Finished(Err(e)), s, HardwareAction::Finish(Err(e)))
            },
        },
        Procedure::XHomeAwaitFinal => match r {
            None => (Procedure::XHomeAwaitFinal, s, HardwareAction::ReadLimits),
            Some(reading) => (
                Procedure::Finished(Ok(())),
                with_readings(s, reading),
                HardwareAction::Finish(Ok(())),
            ),
        },
        Procedure::HomeY => (
            Procedure::YHomeRead,
            s,
            HardwareAction::SetDirection { axis: Axis::Y, level: PinLevel::Low },
        ),
        Procedure::YHomeRead => (Procedure::YHomeAwaitInitial, s, HardwareAction::ReadLimits),
        Procedure::YHomeAwaitInitial => match r {
            None => (Procedure::YHomeAwaitInitial, s, HardwareAction::ReadLimits),
            Some(reading) => {
                let s2 = with_readings(s, reading);
                if reading.y_start_low {
                    (
                        Procedure::Finished(Ok(())),
                        TurretState { y_steps: 0, y_homed: true, ..s2 },
                        HardwareAction::Finish(Ok(())),
                    )
                } else {
                    (
                        Procedure::YHomeAwaitSearch { done: 1 },
                        s2,
                        HardwareAction::Pulse { axis: Axis::Y, half_period_us: HOMING_STEP_DELAY_US },
                    )
                }
            },
        },
        Procedure::YHomeAwaitSearch { done } => match r {
            None => (Procedure::YHomeAwaitSearch { done }, s, HardwareAction::ReadLimits),
            Some(reading) => if reading.y_start_low {
                (
                    Procedure::YHomeAwaitFinal,
                    TurretState { y_steps: 0, y_homed: true, ..s },
                    HardwareAction::ReadLimits,
                )
            } else if done < MAX_Y_HOMING_STEPS {
                (
                    Procedure::YHomeAwaitSearch { done: (done + 1) as u32 },
                    s,
                    HardwareAction::Pulse { axis: Axis::Y, half_period_us: HOMING_STEP_DELAY_US },
                )
            } else {
                let e = TurretError::YHomingFailed(MAX_Y_HOMING_STEPS);
                (Procedure::Finished(Err(e)), s, HardwareAction::Finish(Err(e)))
            },
        },
        Procedure::YHomeAwaitFinal => match r {
            None => (Procedure::YHomeAwaitFinal, s, HardwareAction::ReadLimits),
            Some(reading) => (
                Procedure::Finished(Ok(())),
                with_readings(s, reading),
                HardwareAction::Finish(Ok(())),
            ),
        },
        Procedure::Finished(outcome) => (Procedure::Finished(outcome), s, HardwareAction::Finish(outcome)),
    }
}

/// Whether the reading shows the switch that a Y move in `dir` runs into.
pub open spec fn limit_ahead(dir: Direction, reading: LimitReadings) -> bool {
    match dir {
        Direction::Forward => reading.y_stop_low,
        Direction::Backward => reading.y_start_low,
    }
}

/// Whether the procedure is at a phase that needs a switch reading.
pub open spec fn awaits_reading(p: Procedure) -> bool {
    match p {
        Procedure::YMoveAwaitInitial { .. } | Procedure::YMoveAwaitPulse { .. }
        | Procedure::YMoveAwaitFinal { .. } | Procedure::XHomeAwaitInitial
        | Procedure::XHomeAwaitSearch { .. } | Procedure::XHomeAwaitFinal
        | Procedure::YHomeAwaitInitial | Procedure::YHomeAwaitSearch { .. }
        | Procedure::YHomeAwaitFinal => true,
        _ => false,
    }
}

/// The step counters of a procedure are within their bounds: a move has
/// never given more pulses than it was asked for, a homing search never
/// more than its maximum.
pub open spec fn counters_in_bounds(p: Procedure) -> bool {
    match p {
        Procedure::XSteps { steps, done, .. } => done <= steps,
        Procedure::YMoveAwaitPulse { steps, done, .. } => 1 <= done <= steps,
        Procedure::XBackoff { done } => done <= X_BACKOFF_STEPS,
        Procedure::XHomeAwaitSearch { done } => 1 <= done <= MAX_X_HOMING_STEPS,
        Procedure::YHomeAwaitSearch { done } => 1 <= done <= MAX_Y_HOMING_STEPS,
        _ => true,
    }
}

/// An upper bound on the steps a procedure still takes, reading steps
/// aside.
pub open spec fn remaining_work(p: Procedure) -> nat {
    let x_search = 2 * MAX_X_HOMING_STEPS as nat;
    let y_search = 2 * MAX_Y_HOMING_STEPS as nat;
    match p {
        Procedure::MoveX { steps, .. } => steps as nat + 2,
        Procedure::XSteps { steps, done, .. } => (steps - done + 1) as nat,
        Procedure::MoveY { steps, .. } => 2 * steps as nat + 6,
        Procedure::YMoveAwaitInitial { steps, .. } => 2 * steps as nat + 5,
        Procedure::YMoveCheck { steps, .. } => 2 * steps as nat + 4,
        Procedure::YMoveAwaitPulse { steps, done, .. } => (2 * (steps - done) + 3) as nat,
        Procedure::YMoveAwaitFinal { .. } => 1,
        Procedure::HomeX => X_BACKOFF_STEPS as nat + x_search + 6,
        Procedure::XHomeAwaitInitial => X_BACKOFF_STEPS as nat + x_search + 5,
        Procedure::XBackoff { done } => (X_BACKOFF_STEPS - done + x_search + 4) as nat,
        Procedure::XBackoffDone => x_search + 3,
        Procedure::XHomeSearchStart => x_search + 2,
        Procedure::XHomeAwaitSearch { done } => (2 * (MAX_X_HOMING_STEPS - done) + 2) as nat,
        Procedure::XHomeAwaitFinal => 1,
        Procedure::HomeY => y_search + 4,
        Procedure::YHomeRead => y_search + 3,
        Procedure::YHomeAwaitInitial => y_search + 2,
        Procedure::YHomeAwaitSearch { done } => (2 * (MAX_Y_HOMING_STEPS - done) + 2) as nat,
        Procedure::YHomeAwaitFinal => 1,
        Procedure::Finished(_) => 0,
    }
}

/// Every procedure comes to an end: a phase that waits for a reading and
/// gets none only asks for one and stays where it is; any other step of an
/// unfinished procedure keeps its counters in bounds and strictly lowers
/// the work that remains. A finished procedure stays finished and keeps
/// naming its outcome.
pub proof fn lemma_procedure_progress(p: Procedure, s: TurretState, r: Option<LimitReadings>)
    requires
        counters_in_bounds(p),
    ensures
        ({
            let (p2, s2, action) = transition(p, s, r);
            &&& counters_in_bounds(p2)
            &&& (awaits_reading(p) && r is None) ==> (p2 == p && s2 == s && action is ReadLimits)
            &&& (!(p is Finished) && !(awaits_reading(p) && r is None)) ==> remaining_work(p2)
                < remaining_work(p)
            &&& p matches Procedure::Finished(outcome) ==> (p2 == p && s2 == s
                && action == HardwareAction::Finish(outcome))
        }),
{
}

/// A Y move stops as soon as a reading shows the switch it runs into: it
/// gives no further pulse, takes a closing reading and finishes, having
/// counted exactly the pulses given.
pub proof fn lemma_y_move_stops_at_limit(
    dir: Direction,
    steps: u32,
    done: u32,
    s: TurretState,
    reading: LimitReadings,
    closing: LimitReadings,
)
    requires
        limit_ahead(dir, reading),
    ensures
        ({
            let (p2, s2, action) = transition(
                Procedure::YMoveAwaitPulse { dir, steps, done },
                s,
                Some(reading),
            );
            let (p3, s3, last) = transition(p2, s2, Some(closing));
            &&& action is ReadLimits
            &&& p2 == (Procedure::YMoveAwaitFinal { dir, done })
            &&& last == HardwareAction::Finish(Ok(()))
            &&& s3 == (TurretState {
                y_steps: moved_position(s.y_steps, dir, done as nat) as i32,
                ..with_readings(s, closing)
            })
        }),
{
}

/// A Y move toward a limit switch that the last reading showed closed is
/// refused before any pulse, and the bookkeeping is left as it was.
pub proof fn lemma_y_move_refused_at_limit(dir: Direction, steps: u32, s: TurretState)
    requires
        (dir == Direction::Forward && s.y_stop_limit_triggered) || (dir == Direction::Backward
            && s.y_start_limit_triggered),
    ensures
        ({
            let (p2, s2, action) = transition(Procedure::YMoveCheck { dir, steps }, s, None);
            &&& s2 == s
            &&& p2 is Finished
            &&& action matches HardwareAction::Finish(Err(e)) && (e == if dir == Direction::Forward {
                TurretError::YAtStopLimit
            } else {
                TurretError::YAtStartLimit
            })
        }),
{
}

/// What homing has established so far: once an axis found its switch, its
/// position is the origin and it counts as homed.
pub open spec fn homing_consistent(p: Procedure, s: TurretState) -> bool {
    &&& p is XHomeAwaitFinal ==> s.x_steps == 0 && s.x_homed
    &&& p is YHomeAwaitFinal ==> s.y_steps == 0 && s.y_homed
}

/// Homing that succeeds leaves its axis at the origin and homed; homing
/// that gives up leaves the bookkeeping as it was. Every step keeps what
/// homing established.
pub proof fn lemma_homing_outcome(p: Procedure, s: TurretState, r: Option<LimitReadings>)
    requires
        homing_consistent(p, s),
        !(p is Finished),
    ensures
        ({
            let (p2, s2, action) = transition(p, s, r);
            &&& homing_consistent(p2, s2)
            &&& (action == HardwareAction::Finish(Ok(())) && (p is HomeX || p is XHomeAwaitInitial
                || p is XBackoff || p is XBackoffDone || p is XHomeSearchStart
                || p is XHomeAwaitSearch || p is XHomeAwaitFinal)) ==> s2.x_steps == 0 && s2.x_homed
            &&& (action == HardwareAction::Finish(Ok(())) && (p is HomeY || p is YHomeRead
                || p is YHomeAwaitInitial || p is YHomeAwaitSearch || p is YHomeAwaitFinal))
                ==> s2.y_steps == 0 && s2.y_homed
            &&& (action matches HardwareAction::Finish(Err(_)) && (p is XHomeAwaitSearch
                || p is YHomeAwaitSearch)) ==> s2 == s
        }),
{
}

/// The procedure `p` stepped once for each entry of `readings`, each
/// entry being the reading handed to that step: the phase reached, the
/// bookkeeping, and the actions named along the way.
pub open spec fn run_procedure(p: Procedure, s: TurretState, readings: Seq<Option<LimitReadings>>) -> (
    Procedure,
    TurretState,
    Seq<HardwareAction>,
)
    decreases readings.len(),
{
    if readings.len() == 0 {
        (p, s, Seq::empty())
    } else {
        let (p2, s2, a) = transition(p, s, readings[0]);
        let (p3, s3, rest) = run_procedure(p2, s2, readings.drop_first());
        (p3, s3, seq![a] + rest)
    }
}

/// No reading at all, `n` times.
pub open spec fn no_readings(n: nat) -> Seq<Option<LimitReadings>> {
    Seq::new(n, |i: int| None::<LimitReadings>)
}

proof fn lemma_x_steps_run(dir: Direction, steps: u32, done: u32, s: TurretState)
    requires
        done <= steps,
    ensures
        ({
            let (p2, s2, actions) = run_procedure(
                Procedure::XSteps { dir, steps, done },
                s,
                no_readings((steps - done + 1) as nat),
            );
            &&& p2 == Procedure::Finished(Ok(()))
            &&& s2 == (TurretState {
                x_steps: moved_position(s.x_steps, dir, steps as nat) as i32,
                ..s
            })
            &&& actions.len() == steps - done + 1
            &&& forall|i: int|
                0 <= i < steps - done ==> #[trigger] actions[i] == (HardwareAction::Pulse {
                    axis: Axis::X,
                    half_period_us: STEP_DELAY_US,
                })
            &&& actions[steps - done] == HardwareAction::Finish(Ok(()))
        }),
    decreases steps - done,
{
    let n = (steps - done + 1) as nat;
    let readings = no_readings(n);
    assert(readings.drop_first() =~= no_readings((n - 1) as nat));
    if done < steps {
        lemma_x_steps_run(dir, steps, (done + 1) as u32, s);
        let (p2, s2, rest) = run_procedure(
            Procedure::XSteps { dir, steps, done: (done + 1) as u32 },
            s,
            no_readings((n - 1) as nat),
        );
        let (p3, s3, actions) = run_procedure(Procedure::XSteps { dir, steps, done }, s, readings);
        assert(actions == seq![HardwareAction::Pulse { axis: Axis::X, half_period_us: STEP_DELAY_US }] + rest);
        assert forall|i: int| 0 <= i < steps - done implies #[trigger] actions[i] == (
        HardwareAction::Pulse { axis: Axis::X, half_period_us: STEP_DELAY_US }) by {
            if i > 0 {
                assert(actions[i] == rest[i - 1]);
            }
        }
    } else {
        assert(readings.drop_first() =~= Seq::<Option<LimitReadings>>::empty());
        reveal_with_fuel(run_procedure, 2);
    }
}

/// An X move in a known direction sets the direction pin, gives exactly
/// the requested number of step pulses, and finishes with the position
/// moved by that many steps and nothing else changed.
pub proof fn lemma_x_move_gives_requested_pulses(
    dir: Direction,
    word: String,
    steps: u32,
    s: TurretState,
)
    ensures
        ({
            let (p2, s2, actions) = run_procedure(
                Procedure::MoveX { dir: Some(dir), word, steps },
                s,
                no_readings(steps as nat + 2),
            );
            &&& p2 == Procedure::Finished(Ok(()))
            &&& s2 == (TurretState {
                x_steps: moved_position(s.x_steps, dir, steps as nat) as i32,
                ..s
            })
            &&& actions.len() == steps + 2
            &&& actions[0] == (HardwareAction::SetDirection {
                axis: Axis::X,
                level: direction_level(dir),
            })
            &&& forall|i: int|
                1 <= i <= steps ==> #[trigger] actions[i] == (HardwareAction::Pulse {
                    axis: Axis::X,
                    half_period_us: STEP_DELAY_US,
                })
            &&& actions[steps + 1] == HardwareAction::Finish(Ok(()))
        }),
{
    let readings = no_readings(steps as nat + 2);
    assert(readings.drop_first() =~= no_readings(steps as nat + 1));
    lemma_x_steps_run(dir, steps, 0, s);
    let (p2, s2, rest) = run_procedure(
        Procedure::XSteps { dir, steps, done: 0 },
        s,
        no_readings(steps as nat + 1),
    );
    let (p3, s3, actions) = run_procedure(Procedure::MoveX { dir: Some(dir), word, steps }, s, readings);
    assert(actions == seq![HardwareAction::SetDirection { axis: Axis::X, level: direction_level(dir) }] + rest);
    assert forall|i: int| 1 <= i <= steps implies #[trigger] actions[i] == (HardwareAction::Pulse {
        axis: Axis::X,
        half_period_us: STEP_DELAY_US,
    }) by {
        assert(actions[i] == rest[i - 1]);
    }
    assert(actions[steps + 1] == rest[steps as int]);
}

proof fn lemma_y_initial_spelling(
    d: Direction,
    w1: String,
    w2: String,
    steps: u32,
    s: TurretState,
    rs: Seq<Option<LimitReadings>>,
)
    ensures
        ({
            let a = run_procedure(Procedure::YMoveAwaitInitial { dir: Some(d), word: w1, steps }, s, rs);
            let b = run_procedure(Procedure::YMoveAwaitInitial { dir: Some(d), word: w2, steps }, s, rs);
            a.1 == b.1 && a.2 == b.2
        }),
    decreases rs.len(),
{
    if rs.len() > 0 {
        lemma_y_initial_spelling(d, w1, w2, steps, s, rs.drop_first());
    }
}

/// Two moves whose words name the same direction run alike, whatever the
/// switches read: the same actions, the same bookkeeping at every point.
/// Words that differ only in the case of ASCII letters name the same
/// direction (see `Procedure::move_x` and `Procedure::move_y`).
pub proof fn lemma_spelling_is_irrelevant(
    d: Direction,
    w1: String,
    w2: String,
    steps: u32,
    s: TurretState,
    rs: Seq<Option<LimitReadings>>,
)
    ensures
        ({
            let a = run_procedure(Procedure::MoveX { dir: Some(d), word: w1, steps }, s, rs);
            let b = run_procedure(Procedure::MoveX { dir: Some(d), word: w2, steps }, s, rs);
            &&& a.1 == b.1 && a.2 == b.2
            &&& rs.len() > 0 ==> a == b
        }),
        ({
            let a = run_procedure(Procedure::MoveY { dir: Some(d), word: w1, steps }, s, rs);
            let b = run_procedure(Procedure::MoveY { dir: Some(d), word: w2, steps }, s, rs);
            a.1 == b.1 && a.2 == b.2
        }),
{
    if rs.len() > 0 {
        lemma_y_initial_spelling(d, w1, w2, steps, s, rs.drop_first());
    } else {
        assert(rs =~= Seq::<Option<LimitReadings>>::empty());
    }
}

/// The caller's loop, run for at most `n` steps from phase `p` with
/// bookkeeping `s`: each step is handed `pending`, which after a
/// `ReadLimits` action is the next reading of the switches and otherwise
/// nothing. The `k`-th reading taken is `switches(k)`; `reads` readings
/// have been taken so far. The loop ends at `Finish`. Returns the phase
/// reached, the bookkeeping, the step pulses given and the readings taken.
pub open spec fn drive(
    p: Procedure,
    s: TurretState,
    switches: spec_fn(nat) -> LimitReadings,
    pending: Option<LimitReadings>,
    reads: nat,
    n: nat,
) -> (Procedure, TurretState, nat, nat)
    decreases n,
{
    if n == 0 {
        (p, s, 0, reads)
    } else {
        let (p2, s2, a) = transition(p, s, pending);
        if a is Finish {
            (p2, s2, 0, reads)
        } else {
            let next = if a is ReadLimits {
                Some(switches(reads))
            } else {
                None
            };
            let reads2 = if a is ReadLimits {
                reads + 1
            } else {
                reads
            };
            let (p3, s3, pulses, r3) = drive(p2, s2, switches, next, reads2, (n - 1) as nat);
            (p3, s3, pulses + if a is Pulse {
                1nat
            } else {
                0nat
            }, r3)
        }
    }
}

proof fn lemma_y_pulses_run(
    dir: Direction,
    steps: u32,
    done: u32,
    s: TurretState,
    switches: spec_fn(nat) -> LimitReadings,
    m: nat,
)
    requires
        1 <= done <= m <= steps,
        forall|t: nat| done <= t < m ==> !limit_ahead(dir, #[trigger] switches(t)),
        m == steps || limit_ahead(dir, switches(m)),
    ensures
        drive(
            Procedure::YMoveAwaitPulse { dir, steps, done },
            s,
            switches,
            None,
            done as nat,
            (2 * (m - done) + 3) as nat,
        ) == (
            Procedure::Finished(Ok(())),
            TurretState {
                y_steps: moved_position(s.y_steps, dir, m) as i32,
                ..with_readings(s, switches(m + 1))
            },
            (m - done) as nat,
            m + 2,
        ),
    decreases m - done,
{
    let n = (2 * (m - done) + 3) as nat;
    let p = Procedure::YMoveAwaitPulse { dir, steps, done };
    // First step: the reading after the pulse is asked for.
    assert(transition(p, s, None) == (p, s, HardwareAction::ReadLimits));
    let r = switches(done as nat);
    if done as nat == m {
        reveal_with_fuel(drive, 4);
        assert(transition(p, s, Some(r)).0 == Procedure::YMoveAwaitFinal { dir, done });
    } else {
        assert(!limit_ahead(dir, r));
        let p2 = Procedure::YMoveAwaitPulse { dir, steps, done: (done + 1) as u32 };
        assert(transition(p, s, Some(r)) == (p2, s, HardwareAction::Pulse {
            axis: Axis::Y,
            half_period_us: STEP_DELAY_US,
        }));
        lemma_y_pulses_run(dir, steps, (done + 1) as u32, s, switches, m);
        reveal_with_fuel(drive, 3);
        assert((n - 2) as nat == (2 * (m - (done + 1)) + 3) as nat);
    }
}

/// The refusal of a Y move in `dir` toward a closed switch.
pub open spec fn y_limit_refusal(dir: Direction) -> TurretError {
    match dir {
        Direction::Forward => TurretError::YAtStopLimit,
        Direction::Backward => TurretError::YAtStartLimit,
    }
}

/// A whole Y move, run by the caller's loop against switches whose `k`-th
/// reading is `switches(k)`: reading 0 is taken before the move, reading
/// `t` after its `t`-th pulse. When reading 0 shows the switch ahead
/// closed, the move is refused without a pulse. Otherwise it gives `m`
/// pulses, `m` being the first pulse after which the switch ahead reads
/// closed, or the requested count if none does; it then takes a closing
/// reading and finishes with the position moved by `m`.
pub proof fn lemma_y_move_run(
    dir: Direction,
    word: String,
    steps: u32,
    s: TurretState,
    switches: spec_fn(nat) -> LimitReadings,
    m: nat,
)
    requires
        m <= steps,
        forall|t: nat| 1 <= t < m ==> !limit_ahead(dir, #[trigger] switches(t)),
        m == steps || (1 <= m && limit_ahead(dir, switches(m))),
    ensures
        limit_ahead(dir, switches(0)) ==> drive(
            Procedure::MoveY { dir: Some(dir), word, steps },
            s,
            switches,
            None,
            0,
            3,
        ) == (
            Procedure::Finished(Err(y_limit_refusal(dir))),
            with_readings(s, switches(0)),
            0nat,
            1nat,
        ),
        !limit_ahead(dir, switches(0)) ==> drive(
            Procedure::MoveY { dir: Some(dir), word, steps },
            s,
            switches,
            None,
            0,
            2 * m + 4,
        ) == (
            Procedure::Finished(Ok(())),
            TurretState {
                y_steps: moved_position(s.y_steps, dir, m) as i32,
                ..with_readings(s, switches(m + 1))
            },
            m,
            m + 2,
        ),
{
    let s0 = with_readings(s, switches(0));
    let start = Procedure::MoveY { dir: Some(dir), word, steps };
    let initial = Procedure::YMoveAwaitInitial { dir: Some(dir), word, steps };
    let check = Procedure::YMoveCheck { dir, steps };
    assert(transition(start, s, None) == (initial, s, HardwareAction::ReadLimits));
    assert(transition(initial, s, Some(switches(0))) == (check, s0, HardwareAction::SetDirection {
        axis: Axis::Y,
        level: direction_level(dir),
    }));
    if limit_ahead(dir, switches(0)) {
        let e = y_limit_refusal(dir);
        assert(transition(check, s0, None) == (
            Procedure::Finished(Err(e)),
            s0,
            HardwareAction::Finish(Err(e)),
        ));
        assert(drive(check, s0, switches, None, 1, 1) == (Procedure::Finished(Err(e)), s0, 0nat, 1nat));
        assert(drive(initial, s, switches, Some(switches(0)), 1, 2) == drive(check, s0, switches, None, 1, 1));
    } else {
        let n = 2 * m + 4;
        if m == 0 {
            let fin = Procedure::YMoveAwaitFinal { dir, done: 0 };
            assert(transition(check, s0, None) == (fin, s0, HardwareAction::ReadLimits));
            let s1 = TurretState {
                y_steps: moved_position(s0.y_steps, dir, 0) as i32,
                ..with_readings(s0, switches(1))
            };
            assert(transition(fin, s0, Some(switches(1))) == (
                Procedure::Finished(Ok(())),
                s1,
                HardwareAction::Finish(Ok(())),
            ));
            assert(drive(fin, s0, switches, Some(switches(1)), 2, 1) == (Procedure::Finished(Ok(())), s1, 0nat, 2nat));
            assert(drive(check, s0, switches, None, 1, 2) == drive(fin, s0, switches, Some(switches(1)), 2, 1));
            assert(drive(initial, s, switches, Some(switches(0)), 1, 3) == drive(check, s0, switches, None, 1, 2));
        } else {
            let pulsing = Procedure::YMoveAwaitPulse { dir, steps, done: 1 };
            assert(transition(check, s0, None) == (pulsing, s0, HardwareAction::Pulse {
                axis: Axis::Y,
                half_period_us: STEP_DELAY_US,
            }));
            lemma_y_pulses_run(dir, steps, 1, s0, switches, m);
            assert((n - 3) as nat == (2 * (m - 1) + 3) as nat);
            assert(with_readings(s0, switches(m + 1)) == with_readings(s, switches(m + 1)));
            let rest = drive(pulsing, s0, switches, None, 1, (n - 3) as nat);
            assert(drive(check, s0, switches, None, 1, (n - 2) as nat) == (rest.0, rest.1, rest.2 + 1, rest.3));
            assert(drive(initial, s, switches, Some(switches(0)), 1, (n - 1) as nat) == drive(check, s0, switches, None, 1, (n - 2) as nat));
        }
    }
}

/// Whether the `k`-th reading is the first of readings `from..=k` to show
/// the Y start switch closed.
pub open spec fn y_start_first_closed(switches: spec_fn(nat) -> LimitReadings, from: nat, k: nat) -> bool {
    &&& from <= k
    &&& switches(k).y_start_low
    &&& forall|t: nat| from <= t < k ==> !(#[trigger] switches(t)).y_start_low
}

/// Whether the `k`-th reading is the first of readings `from..=k` to show
/// the X home switch closed.
pub open spec fn x_home_first_closed(switches: spec_fn(nat) -> LimitReadings, from: nat, k: nat) -> bool {
    &&& from <= k
    &&& switches(k).x_home_low
    &&& forall|t: nat| from <= t < k ==> !(#[trigger] switches(t)).x_home_low
}

proof fn lemma_y_search_run(done: u32, s: TurretState, switches: spec_fn(nat) -> LimitReadings, k: nat)
    requires
        1 <= done <= MAX_Y_HOMING_STEPS,
        (1 <= k <= MAX_Y_HOMING_STEPS && y_start_first_closed(switches, done as nat, k)) || (k
            == 0 && forall|t: nat| done <= t <= MAX_Y_HOMING_STEPS ==> !(
        #[trigger] switches(t)).y_start_low),
    ensures
        k != 0 ==> drive(
            Procedure::YHomeAwaitSearch { done },
            s,
            switches,
            None,
            done as nat,
            (2 * (k - done) + 3) as nat,
        ) == (
            Procedure::Finished(Ok(())),
            TurretState { y_steps: 0, y_homed: true, ..with_readings(s, switches(k + 1)) },
            (k - done) as nat,
            k + 2,
        ),
        k == 0 ==> drive(
            Procedure::YHomeAwaitSearch { done },
            s,
            switches,
            None,
            done as nat,
            (2 * (MAX_Y_HOMING_STEPS - done) + 2) as nat,
        ) == (
            Procedure::Finished(Err(TurretError::YHomingFailed(MAX_Y_HOMING_STEPS))),
            s,
            (MAX_Y_HOMING_STEPS - done) as nat,
            MAX_Y_HOMING_STEPS as nat + 1,
        ),
    decreases MAX_Y_HOMING_STEPS - done,
{
    let p = Procedure::YHomeAwaitSearch { done };
    let r = switches(done as nat);
    assert(transition(p, s, None) == (p, s, HardwareAction::ReadLimits));
    if r.y_start_low {
        let found = TurretState { y_steps: 0, y_homed: true, ..s };
        assert(transition(p, s, Some(r)) == (Procedure::YHomeAwaitFinal, found, HardwareAction::ReadLimits));
        assert(k == done);
        let last = with_readings(found, switches(k + 1));
        assert(transition(Procedure::YHomeAwaitFinal, found, Some(switches(k + 1))) == (
            Procedure::Finished(Ok(())),
            last,
            HardwareAction::Finish(Ok(())),
        ));
        assert(drive(Procedure::YHomeAwaitFinal, found, switches, Some(switches(k + 1)), k + 2, 1) == (
            Procedure::Finished(Ok(())),
            last,
            0nat,
            k + 2,
        ));
        assert(drive(p, s, switches, Some(r), done as nat + 1, 2) == drive(Procedure::YHomeAwaitFinal, found, switches, Some(switches(k + 1)), k + 2, 1));
    } else if done < MAX_Y_HOMING_STEPS {
        let p2 = Procedure::YHomeAwaitSearch { done: (done + 1) as u32 };
        assert(transition(p, s, Some(r)) == (p2, s, HardwareAction::Pulse {
            axis: Axis::Y,
            half_period_us: HOMING_STEP_DELAY_US,
        }));
        lemma_y_search_run((done + 1) as u32, s, switches, k);
        if k != 0 {
            let n = (2 * (k - done) + 3) as nat;
            let rest = drive(p2, s, switches, None, done as nat + 1, (n - 2) as nat);
            assert(drive(p, s, switches, Some(r), done as nat + 1, (n - 1) as nat) == (rest.0, rest.1, rest.2 + 1, rest.3));
        } else {
            let n = (2 * (MAX_Y_HOMING_STEPS - done) + 2) as nat;
            let rest = drive(p2, s, switches, None, done as nat + 1, (n - 2) as nat);
            assert(drive(p, s, switches, Some(r), done as nat + 1, (n - 1) as nat) == (rest.0, rest.1, rest.2 + 1, rest.3));
        }
    } else {
        let e = TurretError::YHomingFailed(MAX_Y_HOMING_STEPS);
        assert(transition(p, s, Some(r)) == (Procedure::Finished(Err(e)), s, HardwareAction::Finish(Err(e))));
        assert(drive(p, s, switches, Some(r), done as nat + 1, 1) == (Procedure::Finished(Err(e)), s, 0nat, done as nat + 1));
    }
}

/// Y homing, run by the caller's loop against switches whose `k`-th
/// reading is `switches(k)` (reading 0 is taken before moving, reading `t`
/// after the `t`-th search pulse). If reading 0 shows the start switch
/// closed, the axis is homed at once without a pulse. If reading `k` is the
/// first to show it closed, within the maximum, homing gives `k` pulses,
/// takes a closing reading, and leaves the axis at 0 and homed. If no
/// reading up to the maximum shows it, homing gives up after the maximum
/// number of pulses with the position as it was.
pub proof fn lemma_y_homing_run(s: TurretState, switches: spec_fn(nat) -> LimitReadings, k: nat)
    requires
        k <= MAX_Y_HOMING_STEPS,
        k == 0 || y_start_first_closed(switches, 0, k),
    ensures
        switches(0).y_start_low ==> drive(Procedure::HomeY, s, switches, None, 0, 3) == (
            Procedure::Finished(Ok(())),
            TurretState { y_steps: 0, y_homed: true, ..with_readings(s, switches(0)) },
            0nat,
            1nat,
        ),
        k >= 1 ==> drive(Procedure::HomeY, s, switches, None, 0, 2 * k + 4) == (
            Procedure::Finished(Ok(())),
            TurretState { y_steps: 0, y_homed: true, ..with_readings(s, switches(k + 1)) },
            k,
            k + 2,
        ),
        (forall|t: nat| t <= MAX_Y_HOMING_STEPS ==> !(#[trigger] switches(t)).y_start_low) ==> drive(
            Procedure::HomeY,
            s,
            switches,
            None,
            0,
            2 * MAX_Y_HOMING_STEPS as nat + 3,
        ) == (
            Procedure::Finished(Err(TurretError::YHomingFailed(MAX_Y_HOMING_STEPS))),
            with_readings(s, switches(0)),
            MAX_Y_HOMING_STEPS as nat,
            MAX_Y_HOMING_STEPS as nat + 1,
        ),
{
    let s0 = with_readings(s, switches(0));
    let read = Procedure::YHomeRead;
    let initial = Procedure::YHomeAwaitInitial;
    assert(transition(Procedure::HomeY, s, None) == (read, s, HardwareAction::SetDirection {
        axis: Axis::Y,
        level: PinLevel::Low,
    }));
    assert(transition(read, s, None) == (initial, s, HardwareAction::ReadLimits));
    if switches(0).y_start_low {
        let homed = TurretState { y_steps: 0, y_homed: true, ..s0 };
        assert(transition(initial, s, Some(switches(0))) == (
            Procedure::Finished(Ok(())),
            homed,
            HardwareAction::Finish(Ok(())),
        ));
        assert(drive(initial, s, switches, Some(switches(0)), 1, 1) == (Procedure::Finished(Ok(())), homed, 0nat, 1nat));
        assert(drive(read, s, switches, None, 0, 2) == drive(initial, s, switches, Some(switches(0)), 1, 1));
    } else {
        let search = Procedure::YHomeAwaitSearch { done: 1 };
        assert(transition(initial, s, Some(switches(0))) == (search, s0, HardwareAction::Pulse {
            axis: Axis::Y,
            half_period_us: HOMING_STEP_DELAY_US,
        }));
        if k >= 1 {
            lemma_y_search_run(1, s0, switches, k);
            assert(with_readings(s0, switches(k + 1)) == with_readings(s, switches(k + 1)));
            let n = 2 * k + 4;
            let rest = drive(search, s0, switches, None, 1, (n - 3) as nat);
            assert((n - 3) as nat == (2 * (k - 1) + 3) as nat);
            assert(drive(initial, s, switches, Some(switches(0)), 1, (n - 2) as nat) == (rest.0, rest.1, rest.2 + 1, rest.3));
            assert(drive(read, s, switches, None, 0, (n - 1) as nat) == drive(initial, s, switches, Some(switches(0)), 1, (n - 2) as nat));
        }
        if forall|t: nat| t <= MAX_Y_HOMING_STEPS ==> !(#[trigger] switches(t)).y_start_low {
            lemma_y_search_run(1, s0, switches, 0);
            let n = 2 * MAX_Y_HOMING_STEPS as nat + 3;
            let rest = drive(search, s0, switches, None, 1, (n - 3) as nat);
            assert(drive(initial, s, switches, Some(switches(0)), 1, (n - 2) as nat) == (rest.0, rest.1, rest.2 + 1, rest.3));
            assert(drive(read, s, switches, None, 0, (n - 1) as nat) == drive(initial, s, switches, Some(switches(0)), 1, (n - 2) as nat));
        }
    }
}

proof fn lemma_x_search_run(done: u32, s: TurretState, switches: spec_fn(nat) -> LimitReadings, k: nat)
    requires
        1 <= done <= MAX_X_HOMING_STEPS,
        (1 <= k <= MAX_X_HOMING_STEPS && x_home_first_closed(switches, done as nat, k)) || (k
            == 0 && forall|t: nat| done <= t <= MAX_X_HOMING_STEPS ==> !(
        #[trigger] switches(t)).x_home_low),
    ensures
        k != 0 ==> drive(
            Procedure::XHomeAwaitSearch { done },
            s,
            switches,
            None,
            done as nat,
            (2 * (k - done) + 3) as nat,
        ) == (
            Procedure::Finished(Ok(())),
            TurretState { x_steps: 0, x_homed: true, ..with_readings(s, switches(k + 1)) },
            (k - done) as nat,
            k + 2,
        ),
        k == 0 ==> drive(
            Procedure::XHomeAwaitSearch { done },
            s,
            switches,
            None,
            done as nat,
            (2 * (MAX_X_HOMING_STEPS - done) + 2) as nat,
        ) == (
            Procedure::Finished(Err(TurretError::XHomingFailed(MAX_X_HOMING_STEPS))),
            s,
            (MAX_X_HOMING_STEPS - done) as nat,
            MAX_X_HOMING_STEPS as nat + 1,
        ),
    decreases MAX_X_HOMING_STEPS - done,
{
    let p = Procedure::XHomeAwaitSearch { done };
    let r = switches(done as nat);
    assert(transition(p, s, None) == (p, s, HardwareAction::ReadLimits));
    if r.x_home_low {
        let found = TurretState { x_steps: 0, x_homed: true, ..s };
        assert(transition(p, s, Some(r)) == (Procedure::XHomeAwaitFinal, found, HardwareAction::ReadLimits));
        assert(k == done);
        let last = with_readings(found, switches(k + 1));
        assert(transition(Procedure::XHomeAwaitFinal, found, Some(switches(k + 1))) == (
            Procedure::Finished(Ok(())),
            last,
            HardwareAction::Finish(Ok(())),
        ));
        assert(drive(Procedure::XHomeAwaitFinal, found, switches, Some(switches(k + 1)), k + 2, 1) == (
            Procedure::Finished(Ok(())),
            last,
            0nat,
            k + 2,
        ));
        assert(drive(p, s, switches, Some(r), done as nat + 1, 2) == drive(Procedure::XHomeAwaitFinal, found, switches, Some(switches(k + 1)), k + 2, 1));
    } else if done < MAX_X_HOMING_STEPS {
        let p2 = Procedure::XHomeAwaitSearch { done: (done + 1) as u32 };
        assert(transition(p, s, Some(r)) == (p2, s, HardwareAction::Pulse {
            axis: Axis::X,
            half_period_us: HOMING_STEP_DELAY_US,
        }));
        lemma_x_search_run((done + 1) as u32, s, switches, k);
        if k != 0 {
            let n = (2 * (k - done) + 3) as nat;
            let rest = drive(p2, s, switches, None, done as nat + 1, (n - 2) as nat);
            assert(drive(p, s, switches, Some(r), done as nat + 1, (n - 1) as nat) == (rest.0, rest.1, rest.2 + 1, rest.3));
        } else {
            let n = (2 * (MAX_X_HOMING_STEPS - done) + 2) as nat;
            let rest = drive(p2, s, switches, None, done as nat + 1, (n - 2) as nat);
            assert(drive(p, s, switches, Some(r), done as nat + 1, (n - 1) as nat) == (rest.0, rest.1, rest.2 + 1, rest.3));
        }
    } else {
        let e = TurretError::XHomingFailed(MAX_X_HOMING_STEPS);
        assert(transition(p, s, Some(r)) == (Procedure::Finished(Err(e)), s, HardwareAction::Finish(Err(e))));
        assert(drive(p, s, switches, Some(r), done as nat + 1, 1) == (Procedure::Finished(Err(e)), s, 0nat, done as nat + 1));
    }
}

proof fn lemma_x_backoff_run(
    done: u32,
    s: TurretState,
    switches: spec_fn(nat) -> LimitReadings,
    n: nat,
)
    requires
        done <= X_BACKOFF_STEPS,
    ensures
        ({
            let rest = drive(Procedure::XHomeAwaitSearch { done: 1 }, s, switches, None, 1, n);
            drive(
                Procedure::XBackoff { done },
                s,
                switches,
                None,
                1,
                (X_BACKOFF_STEPS - done) as nat + 3 + n,
            ) == (rest.0, rest.1, rest.2 + (X_BACKOFF_STEPS - done) as nat + 1, rest.3)
        }),
    decreases X_BACKOFF_STEPS - done,
{
    let p = Procedure::XBackoff { done };
    let rest = drive(Procedure::XHomeAwaitSearch { done: 1 }, s, switches, None, 1, n);
    if done < X_BACKOFF_STEPS {
        let p2 = Procedure::XBackoff { done: (done + 1) as u32 };
        assert(transition(p, s, None) == (p2, s, HardwareAction::Pulse {
            axis: Axis::X,
            half_period_us: STEP_DELAY_US,
        }));
        lemma_x_backoff_run((done + 1) as u32, s, switches, n);
    } else {
        assert(transition(p, s, None) == (Procedure::XBackoffDone, s, HardwareAction::Pause {
            ms: X_BACKOFF_PAUSE_MS,
        }));
        assert(transition(Procedure::XBackoffDone, s, None) == (
            Procedure::XHomeSearchStart,
            s,
            HardwareAction::SetDirection { axis: Axis::X, level: PinLevel::Low },
        ));
        assert(transition(Procedure::XHomeSearchStart, s, None) == (
            Procedure::XHomeAwaitSearch { done: 1 },
            s,
            HardwareAction::Pulse { axis: Axis::X, half_period_us: HOMING_STEP_DELAY_US },
        ));
        assert(drive(Procedure::XHomeSearchStart, s, switches, None, 1, n + 1) == (
            rest.0,
            rest.1,
            rest.2 + 1,
            rest.3,
        ));
        assert(drive(Procedure::XBackoffDone, s, switches, None, 1, n + 2) == drive(
            Procedure::XHomeSearchStart,
            s,
            switches,
            None,
            1,
            n + 1,
        ));
    }
}

/// X homing, run by the caller's loop against switches whose `k`-th
/// reading is `switches(k)` (reading 0 is taken before moving, reading `t`
/// after the `t`-th search pulse). If reading 0 shows the home switch
/// closed, homing first backs away from it by its fixed number of pulses.
/// If reading `k` is then the first to show the switch closed, within the
/// maximum, homing gives `k` search pulses, takes a closing reading and
/// leaves the axis at 0 and homed. If no reading up to the maximum shows
/// it, homing gives up after the maximum number of search pulses with the
/// position as it was.
pub proof fn lemma_x_homing_run(s: TurretState, switches: spec_fn(nat) -> LimitReadings, k: nat)
    requires
        k <= MAX_X_HOMING_STEPS,
        k == 0 || x_home_first_closed(switches, 1, k),
    ensures
        ({
            let backoff: nat = if switches(0).x_home_low {
                X_BACKOFF_STEPS as nat
            } else {
                0
            };
            let extra: nat = if switches(0).x_home_low {
                X_BACKOFF_STEPS as nat + 2
            } else {
                0
            };
            &&& k >= 1 ==> drive(Procedure::HomeX, s, switches, None, 0, 2 * k + 4 + extra) == (
                Procedure::Finished(Ok(())),
                TurretState { x_steps: 0, x_homed: true, ..with_readings(s, switches(k + 1)) },
                k + backoff,
                k + 2,
            )
            &&& (forall|t: nat| 1 <= t <= MAX_X_HOMING_STEPS ==> !(#[trigger] switches(t)).x_home_low)
                ==> drive(
                Procedure::HomeX,
                s,
                switches,
                None,
                0,
                2 * MAX_X_HOMING_STEPS as nat + 3 + extra,
            ) == (
                Procedure::Finished(Err(TurretError::XHomingFailed(MAX_X_HOMING_STEPS))),
                with_readings(s, switches(0)),
                MAX_X_HOMING_STEPS as nat + backoff,
                MAX_X_HOMING_STEPS as nat + 1,
            )
        }),
{
    let s0 = with_readings(s, switches(0));
    let initial = Procedure::XHomeAwaitInitial;
    let search = Procedure::XHomeAwaitSearch { done: 1 };
    assert(transition(Procedure::HomeX, s, None) == (initial, s, HardwareAction::ReadLimits));
    let fails = forall|t: nat| 1 <= t <= MAX_X_HOMING_STEPS ==> !(#[trigger] switches(t)).x_home_low;
    let n: nat = if k >= 1 {
        (2 * (k - 1) + 3) as nat
    } else {
        (2 * (MAX_X_HOMING_STEPS - 1) + 2) as nat
    };
    if k >= 1 {
        lemma_x_search_run(1, s0, switches, k);
        assert(with_readings(s0, switches(k + 1)) == with_readings(s, switches(k + 1)));
    }
    if fails {
        lemma_x_search_run(1, s0, switches, 0);
    }
    let rest = drive(search, s0, switches, None, 1, n);
    if switches(0).x_home_low {
        assert(transition(initial, s, Some(switches(0))) == (
            Procedure::XBackoff { done: 0 },
            s0,
            HardwareAction::SetDirection { axis: Axis::X, level: PinLevel::High },
        ));
        lemma_x_backoff_run(0, s0, switches, n);
        assert(drive(initial, s, switches, Some(switches(0)), 1, n + X_BACKOFF_STEPS as nat + 4) == (
            rest.0,
            rest.1,
            rest.2 + X_BACKOFF_STEPS as nat + 1,
            rest.3,
        ));
    } else {
        assert(transition(initial, s, Some(switches(0))) == (
            Procedure::XHomeSearchStart,
            s0,
            HardwareAction::SetDirection { axis: Axis::X, level: PinLevel::Low },
        ));
        assert(transition(Procedure::XHomeSearchStart, s0, None) == (
            search,
            s0,
            HardwareAction::Pulse { axis: Axis::X, half_period_us: HOMING_STEP_DELAY_US },
        ));
        assert(drive(Procedure::XHomeSearchStart, s0, switches, None, 1, n + 1) == (
            rest.0,
            rest.1,
            rest.2 + 1,
            rest.3,
        ));
        assert(drive(initial, s, switches, Some(switches(0)), 1, n + 2) == drive(
            Procedure::XHomeSearchStart,
            s0,
            switches,
            None,
            1,
            n + 1,
        ));
    }
}

/// A Y move watches only the switch at the end it travels toward: a
/// backward move is refused or stopped only by the start switch, a forward
/// move only by the stop switch, whatever the other switch reads.
pub proof fn lemma_y_move_watches_only_its_switch(
    steps: u32,
    done: u32,
    s: TurretState,
    r: LimitReadings,
)
    ensures
        (!s.y_start_limit_triggered && steps > 0) ==> transition(
            Procedure::YMoveCheck { dir: Direction::Backward, steps },
            s,
            None,
        ).2 == (HardwareAction::Pulse { axis: Axis::Y, half_period_us: STEP_DELAY_US }),
        (!s.y_stop_limit_triggered && steps > 0) ==> transition(
            Procedure::YMoveCheck { dir: Direction::Forward, steps },
            s,
            None,
        ).2 == (HardwareAction::Pulse { axis: Axis::Y, half_period_us: STEP_DELAY_US }),
        s.y_start_limit_triggered ==> transition(
            Procedure::YMoveCheck { dir: Direction::Backward, steps },
            s,
            None,
        ).2 == HardwareAction::Finish(Err(TurretError::YAtStartLimit)),
        s.y_stop_limit_triggered ==> transition(
            Procedure::YMoveCheck { dir: Direction::Forward, steps },
            s,
            None,
        ).2 == HardwareAction::Finish(Err(TurretError::YAtStopLimit)),
        (!r.y_start_low && done < steps) ==> transition(
            Procedure::YMoveAwaitPulse { dir: Direction::Backward, steps, done },
            s,
            Some(r),
        ).2 == (HardwareAction::Pulse { axis: Axis::Y, half_period_us: STEP_DELAY_US }),
        (!r.y_stop_low && done < steps) ==> transition(
            Procedure::YMoveAwaitPulse { dir: Direction::Forward, steps, done },
            s,
            Some(r),
        ).2 == (HardwareAction::Pulse { axis: Axis::Y, half_period_us: STEP_DELAY_US }),
        r.y_start_low ==> transition(
            Procedure::YMoveAwaitPulse { dir: Direction::Backward, steps, done },
            s,
            Some(r),
        ).0 == (Procedure::YMoveAwaitFinal { dir: Direction::Backward, done }),
        r.y_stop_low ==> transition(
            Procedure::YMoveAwaitPulse { dir: Direction::Forward, steps, done },
            s,
            Some(r),
        ).0 == (Procedure::YMoveAwaitFinal { dir: Direction::Forward, done }),
{
}

/// The direction pin is driven high to move an axis forward and low to
/// move it backward; homing drives the X pin away from the home switch
/// (high) only to back off from it, and toward it (low) before every
/// search, and the Y pin toward the start switch (low).
pub proof fn lemma_direction_pins(word: String, steps: u32, s: TurretState, r: LimitReadings)
    ensures
        transition(Procedure::MoveX { dir: Some(Direction::Forward), word, steps }, s, None).2
            == (HardwareAction::SetDirection { axis: Axis::X, level: PinLevel::High }),
        transition(Procedure::MoveX { dir: Some(Direction::Backward), word, steps }, s, None).2
            == (HardwareAction::SetDirection { axis: Axis::X, level: PinLevel::Low }),
        transition(
            Procedure::YMoveAwaitInitial { dir: Some(Direction::Forward), word, steps },
            s,
            Some(r),
        ).2 == (HardwareAction::SetDirection { axis: Axis::Y, level: PinLevel::High }),
        transition(
            Procedure::YMoveAwaitInitial { dir: Some(Direction::Backward), word, steps },
            s,
            Some(r),
        ).2 == (HardwareAction::SetDirection { axis: Axis::Y, level: PinLevel::Low }),
        !r.x_home_low ==> transition(Procedure::XHomeAwaitInitial, s, Some(r)).2 == (
        HardwareAction::SetDirection { axis: Axis::X, level: PinLevel::Low }),
        r.x_home_low ==> transition(Procedure::XHomeAwaitInitial, s, Some(r)).2 == (
        HardwareAction::SetDirection { axis: Axis::X, level: PinLevel::High }),
        transition(Procedure::XBackoffDone, s, None).2 == (HardwareAction::SetDirection {
            axis: Axis::X,
            level: PinLevel::Low,
        }),
        transition(Procedure::HomeY, s, None).2 == (HardwareAction::SetDirection {
            axis: Axis::Y,
            level: PinLevel::Low,
        }),
{
}

/// The timing and limits of the procedures: move pulses last 1000 µs per
/// half period, homing search pulses 2000 µs; X homing backs off 50 steps
/// and pauses 100 ms; the X search gives up after 3600 pulses, the Y
/// search after 2000.
pub proof fn lemma_procedure_parameters(s: TurretState, r: LimitReadings, dir: Direction)
    ensures
        transition(Procedure::XSteps { dir, steps: 1, done: 0 }, s, None).2 == (
        HardwareAction::Pulse { axis: Axis::X, half_period_us: 1000 }),
        transition(Procedure::XHomeSearchStart, s, None).2 == (HardwareAction::Pulse {
            axis: Axis::X,
            half_period_us: 2000,
        }),
        transition(Procedure::XBackoff { done: 49 }, s, None).2 == (HardwareAction::Pulse {
            axis: Axis::X,
            half_period_us: 1000,
        }),
        transition(Procedure::XBackoff { done: 50 }, s, None).2 == (HardwareAction::Pause {
            ms: 100,
        }),
        !r.x_home_low ==> transition(Procedure::XHomeAwaitSearch { done: 3599 }, s, Some(r)).2
            == (HardwareAction::Pulse { axis: Axis::X, half_period_us: 2000 }),
        !r.x_home_low ==> transition(Procedure::XHomeAwaitSearch { done: 3600 }, s, Some(r)).2
            == HardwareAction::Finish(Err(TurretError::XHomingFailed(3600))),
        !r.y_start_low ==> transition(Procedure::YHomeAwaitSearch { done: 1999 }, s, Some(r)).2
            == (HardwareAction::Pulse { axis: Axis::Y, half_period_us: 2000 }),
        !r.y_start_low ==> transition(Procedure::YHomeAwaitSearch { done: 2000 }, s, Some(r)).2
            == HardwareAction::Finish(Err(TurretError::YHomingFailed(2000))),
{
}

fn limit_is_ahead(dir: Direction, reading: LimitReadings) -> (ahead: bool)
    ensures
        ahead == limit_ahead(dir, reading),
{
    match dir {
        Direction::Forward => reading.y_stop_low,
        Direction::Backward => reading.y_start_low,
    }
}

fn failure(e: TurretError) -> (outcome: (Procedure, HardwareAction))
    ensures
        outcome == (Procedure::Finished(Err(e)), HardwareAction::Finish(Err(e))),
{
    let copy = e.clone();
    (Procedure::Finished(Err(e)), HardwareAction::Finish(Err(copy)))
}

impl Procedure {
    /// A move of the X axis by `steps` steps in the direction `direction`
    /// names.
    pub fn move_x(direction: &str, steps: u32) -> (p: Procedure)
        ensures
            p matches Procedure::MoveX { dir, word, steps: n } && dir == parsed_direction(
                direction@,
            ) && word@ == direction@ && n == steps && (is_ascii_text(direction@) ==> dir
                == direction_of(ascii_lowercase(direction@))),
    {
        Procedure::MoveX {
            dir: parse_direction(direction),
            word: String::from_str(direction),
            steps,
        }
    }

    /// A move of the Y axis by up to `steps` steps in the direction
    /// `direction` names, stopping at the limit switch it runs into.
    pub fn move_y(direction: &str, steps: u32) -> (p: Procedure)
        ensures
            p matches Procedure::MoveY { dir, word, steps: n } && dir == parsed_direction(
                direction@,
            ) && word@ == direction@ && n == steps && (is_ascii_text(direction@) ==> dir
                == direction_of(ascii_lowercase(direction@))),
    {
        Procedure::MoveY {
            dir: parse_direction(direction),
            word: String::from_str(direction),
            steps,
        }
    }

    /// Homing of the X axis on its home switch.
    pub fn home_x() -> (p: Procedure)
        ensures
            p is HomeX,
            counters_in_bounds(p),
    {
        Procedure::HomeX
    }

    /// Homing of the Y axis on its start switch.
    pub fn home_y() -> (p: Procedure)
        ensures
            p is HomeY,
            counters_in_bounds(p),
    {
        Procedure::HomeY
    }

    /// Whether the procedure is over.
    pub fn is_finished(&self) -> (over: bool)
        ensures
            over == (self is Finished),
    {
        match self {
            Procedure::Finished(_) => true,
            _ => false,
        }
    }

    /// Takes one step of the procedure: `reading` is the switch reading
    /// that the previous `ReadLimits` action produced, if any.
    pub fn step(&mut self, state: &mut TurretState, reading: Option<LimitReadings>) -> (action:
        HardwareAction)
        ensures
            (*final(self), *final(state), action) == transition(*old(self), *old(state), reading),
    {
        let mut current = Procedure::Finished(Ok(()));
        std::mem::swap(&mut current, self);
        let (next, action) = match current {
            Procedure::MoveX { dir, word, steps } => match dir {
                Some(d) => (
                    Procedure::XSteps { dir: d, steps, done: 0 },
                    HardwareAction::SetDirection { axis: Axis::X, level: level_of(d) },
                ),
                None => failure(TurretError::InvalidDirection(word)),
            },
            Procedure::XSteps { dir, steps, done } => if done < steps {
                (
                    Procedure::XSteps { dir, steps, done: done + 1 },
                    HardwareAction::Pulse { axis: Axis::X, half_period_us: STEP_DELAY_US },
                )
            } else {
                state.x_steps = move_position(state.x_steps, dir, steps);
                (Procedure::Finished(Ok(())), HardwareAction::Finish(Ok(())))
            },
            Procedure::MoveY { dir, word, steps } => (
                Procedure::YMoveAwaitInitial { dir, word, steps },
                HardwareAction::ReadLimits,
            ),
            Procedure::YMoveAwaitInitial { dir, word, steps } => match reading {
                None => (
                    Procedure::YMoveAwaitInitial { dir, word, steps },
                    HardwareAction::ReadLimits,
                ),
                Some(r) => {
                    state.record_limits(r);
                    match dir {
                        Some(d) => (
                            Procedure::YMoveCheck { dir: d, steps },
                            HardwareAction::SetDirection { axis: Axis::Y, level: level_of(d) },
                        ),
                        None => failure(TurretError::InvalidDirection(word)),
                    }
                },
            },
            Procedure::YMoveCheck { dir, steps } => {
                let forward = match dir {
                    Direction::Forward => true,
                    Direction::Backward => false,
                };
                if forward && state.y_stop_limit_triggered {
                    failure(TurretError::YAtStopLimit)
                } else if !forward && state.y_start_limit_triggered {
                    failure(TurretError::YAtStartLimit)
                } else if steps > 0 {
                    (
                        Procedure::YMoveAwaitPulse { dir, steps, done: 1 },
                        HardwareAction::Pulse { axis: Axis::Y, half_period_us: STEP_DELAY_US },
                    )
                } else {
                    (Procedure::YMoveAwaitFinal { dir, done: 0 }, HardwareAction::ReadLimits)
                }
            },
            Procedure::YMoveAwaitPulse { dir, steps, done } => match reading {
                None => (Procedure::YMoveAwaitPulse { dir, steps, done }, HardwareAction::ReadLimits),
                Some(r) => if limit_is_ahead(dir, r) || done >= steps {
                    (Procedure::YMoveAwaitFinal { dir, done }, HardwareAction::ReadLimits)
                } else {
                    (
                        Procedure::YMoveAwaitPulse { dir, steps, done: done + 1 },
                        HardwareAction::Pulse { axis: Axis::Y, half_period_us: STEP_DELAY_US },
                    )
                },
            },
            Procedure::YMoveAwaitFinal { dir, done } => match reading {
                None => (Procedure::YMoveAwaitFinal { dir, done }, HardwareAction::ReadLimits),
                Some(r) => {
                    state.record_limits(r);
                    state.y_steps = move_position(state.y_steps, dir, done);
                    (Procedure::Finished(Ok(())), HardwareAction::Finish(Ok(())))
                },
            },
            Procedure::HomeX => (Procedure::XHomeAwaitInitial, HardwareAction::ReadLimits),
            Procedure::XHomeAwaitInitial => match reading {
                None => (Procedure::XHomeAwaitInitial, HardwareAction::ReadLimits),
                Some(r) => {
                    state.record_limits(r);
                    if r.x_home_low {
                        (
                            Procedure::XBackoff { done: 0 },
                            HardwareAction::SetDirection { axis: Axis::X, level: PinLevel::High },
                        )
                    } else {
                        (
                            Procedure::XHomeSearchStart,
                            HardwareAction::SetDirection { axis: Axis::X, level: PinLevel::Low },
                        )
                    }
                },
            },
            Procedure::XBackoff { done } => if done < X_BACKOFF_STEPS {
                (
                    Procedure::XBackoff { done: done + 1 },
                    HardwareAction::Pulse { axis: Axis::X, half_period_us: STEP_DELAY_US },
                )
            } else {
                (Procedure::XBackoffDone, HardwareAction::Pause { ms: X_BACKOFF_PAUSE_MS })
            },
            Procedure::XBackoffDone => (
                Procedure::XHomeSearchStart,
                HardwareAction::SetDirection { axis: Axis::X, level: PinLevel::Low },
            ),
            Procedure::XHomeSearchStart => (
                Procedure::XHomeAwaitSearch { done: 1 },
                HardwareAction::Pulse { axis: Axis::X, half_period_us: HOMING_STEP_DELAY_US },
            ),
            Procedure::XHomeAwaitSearch { done } => match reading {
                None => (Procedure::XHomeAwaitSearch { done }, HardwareAction::ReadLimits),
                Some(r) => if r.x_home_low {
                    state.x_steps = 0;
                    state.x_homed = true;
                    (Procedure::XHomeAwaitFinal, HardwareAction::ReadLimits)
                } else if done < MAX_X_HOMING_STEPS {
                    (
                        Procedure::XHomeAwaitSearch { done: done + 1 },
                        HardwareAction::Pulse { axis: Axis::X, half_period_us: HOMING_STEP_DELAY_US },
                    )
                } else {
                    failure(TurretError::XHomingFailed(MAX_X_HOMING_STEPS))
                },
            },
            Procedure::XHomeAwaitFinal => match reading {
                None => (Procedure::XHomeAwaitFinal, HardwareAction::ReadLimits),
                Some(r) => {
                    state.record_limits(r);
                    (Procedure::Finished(Ok(())), HardwareAction::Finish(Ok(())))
                },
            },
            Procedure::HomeY => (
                Procedure::YHomeRead,
                HardwareAction::SetDirection { axis: Axis::Y, level: PinLevel::Low },
            ),
            Procedure::YHomeRead => (Procedure::YHomeAwaitInitial, HardwareAction::ReadLimits),
            Procedure::YHomeAwaitInitial => match reading {
                None => (Procedure::YHomeAwaitInitial, HardwareAction::ReadLimits),
                Some(r) => {
                    state.record_limits(r);
                    if r.y_start_low {
                        state.y_steps = 0;
                        state.y_homed = true;
                        (Procedure::Finished(Ok(())), HardwareAction::Finish(Ok(())))
                    } else {
                        (
                            Procedure::YHomeAwaitSearch { done: 1 },
                            HardwareAction::Pulse { axis: Axis::Y, half_period_us: HOMING_STEP_DELAY_US },
                        )
                    }
                },
            },
            Procedure::YHomeAwaitSearch { done } => match reading {
                None => (Procedure::YHomeAwaitSearch { done }, HardwareAction::ReadLimits),
                Some(r) => if r.y_start_low {
                    state.y_steps = 0;
                    state.y_homed = true;
                    (Procedure::YHomeAwaitFinal, HardwareAction::ReadLimits)
                } else if done < MAX_Y_HOMING_STEPS {
                    (
                        Procedure::YHomeAwaitSearch { done: done + 1 },
                        HardwareAction::Pulse { axis: Axis::Y, half_period_us: HOMING_STEP_DELAY_US },
                    )
                } else {
                    failure(TurretError::YHomingFailed(MAX_Y_HOMING_STEPS))
                },
            },
            Procedure::YHomeAwaitFinal => match reading {
                None => (Procedure::YHomeAwaitFinal, HardwareAction::ReadLimits),
                Some(r) => {
                    state.record_limits(r);
                    (Procedure::Finished(Ok(())), HardwareAction::Finish(Ok(())))
                },
            },
            Procedure::Finished(outcome) => match outcome {
                Ok(unit) => (Procedure::Finished(Ok(unit)), HardwareAction::Finish(Ok(unit))),
                Err(e) => failure(e),
            },
        };
        *self = next;
        action
    }
}

} // verus!
