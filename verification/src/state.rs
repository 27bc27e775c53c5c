//! The turret's bookkeeping: step positions of both axes, limit switch
//! states, homing flags and the actuator flag.

use vstd::prelude::*;
use crate::direction::Direction;

verus! {

/// What the turret knows about itself. Positions are counted in motor
/// steps from the origin of each axis.
#[derive(Clone, Copy, Debug, PartialEq, Eq, Structural)]
pub struct TurretState {
    /// Total steps from the origin on the X axis.
    pub x_steps: i32,
    /// Total steps from the origin on the Y axis.
    pub y_steps: i32,
    pub actuator_active: bool,
    /// The X home switch was closed at the last reading.
    pub x_limit_triggered: bool,
    /// The Y start (minimum) switch was closed at the last reading.
    pub y_start_limit_triggered: bool,
    /// The Y stop (maximum) switch was closed at the last reading.
    pub y_stop_limit_triggered: bool,
    pub x_homed: bool,
    pub y_homed: bool,
}

/// One reading of the three limit switches. The switches pull their pins
/// low when closed, so `true` means the switch is triggered.
#[derive(Clone, Copy, Debug, PartialEq, Eq, Structural)]
pub struct LimitReadings {
    pub x_home_low: bool,
    pub y_start_low: bool,
    pub y_stop_low: bool,
}

/// The state of a turret that has not moved or been homed yet.
pub open spec fn initial_state() -> TurretState {
    TurretState {
        x_steps: 0,
        y_steps: 0,
        actuator_active: false,
        x_limit_triggered: false,
        y_start_limit_triggered: false,
        y_stop_limit_triggered: false,
        x_homed: false,
        y_homed: false,
    }
}

/// `v` brought into the range of `i32` by two's-complement wraparound.
pub open spec fn wrap_i32(v: int) -> int {
    (v + 0x8000_0000) % 0x1_0000_0000 - 0x8000_0000
}

/// The signed change of position that `steps` steps in `dir` make.
pub open spec fn signed_steps(dir: Direction, steps: nat) -> int {
    match dir {
        Direction::Forward => steps as int,
        Direction::Backward => -(steps as int),
    }
}

/// The position reached from `position` after `steps` steps in `dir`,
/// kept as a wrapping 32-bit count.
pub open spec fn moved_position(position: i32, dir: Direction, steps: nat) -> int {
    wrap_i32(position + signed_steps(dir, steps))
}

/// Computes `moved_position(position, dir, steps)`.
pub fn move_position(position: i32, dir: Direction, steps: u32) -> (p: i32)
    ensures
        p == moved_position(position, dir, steps as nat),
{
    let wide: i64 = match dir {
        Direction::Forward => position as i64 + steps as i64,
        Direction::Backward => position as i64 - steps as i64,
    };
    if wide > 0x7fff_ffff {
        let p = (wide - 0x1_0000_0000) as i32;
        assert(wrap_i32(wide as int) == wide - 0x1_0000_0000);
        p
    } else if wide < -0x8000_0000 {
        let p = (wide + 0x1_0000_0000) as i32;
        assert(wrap_i32(wide as int) == wide + 0x1_0000_0000);
        p
    } else {
        assert(wrap_i32(wide as int) == wide);
        wide as i32
    }
}

/// The state after the limit switches were read.
pub open spec fn with_readings(s: TurretState, r: LimitReadings) -> TurretState {
    TurretState {
        x_limit_triggered: r.x_home_low,
        y_start_limit_triggered: r.y_start_low,
        y_stop_limit_triggered: r.y_stop_low,
        ..s
    }
}

impl Default for TurretState {
    fn default() -> (s: TurretState)
        ensures
            s == initial_state(),
    {
        TurretState {
            x_steps: 0,
            y_steps: 0,
            actuator_active: false,
            x_limit_triggered: false,
            y_start_limit_triggered: false,
            y_stop_limit_triggered: false,
            x_homed: false,
            y_homed: false,
        }
    }
}

impl TurretState {
    /// Stores a reading of the limit switches.
    pub fn record_limits(&mut self, readings: LimitReadings)
        ensures
            *final(self) == with_readings(*old(self), readings),
    {
        self.x_limit_triggered = readings.x_home_low;
        self.y_start_limit_triggered = readings.y_start_low;
        self.y_stop_limit_triggered = readings.y_stop_low;
    }

    /// The start of an actuator pulse: the actuator is active until
    /// `end_actuation`.
    pub fn begin_actuation(&mut self)
        ensures
            *final(self) == (TurretState { actuator_active: true, ..*old(self) }),
    {
        self.actuator_active = true;
    }

    /// The end of an actuator pulse.
    pub fn end_actuation(&mut self)
        ensures
            *final(self) == (TurretState { actuator_active: false, ..*old(self) }),
    {
        self.actuator_active = false;
    }
}

/// A whole actuator pulse leaves the actuator inactive and the rest of the
/// bookkeeping as it was.
pub proof fn lemma_actuation_pulse(s: TurretState)
    ensures
        (TurretState { actuator_active: false, ..(TurretState { actuator_active: true, ..s }) })
            == (TurretState { actuator_active: false, ..s }),
        !s.actuator_active ==> (TurretState {
            actuator_active: false,
            ..(TurretState { actuator_active: true, ..s })
        }) == s,
{
}

/// The other direction.
pub open spec fn reversed(dir: Direction) -> Direction {
    match dir {
        Direction::Forward => Direction::Backward,
        Direction::Backward => Direction::Forward,
    }
}

/// Stepping an axis back by as many steps as it was just stepped returns
/// it to where it was, also across the wraparound of the 32-bit count.
pub proof fn lemma_move_then_reverse(position: i32, dir: Direction, steps: nat)
    ensures
        moved_position(moved_position(position, dir, steps) as i32, reversed(dir), steps)
            == position,
{
    let there = moved_position(position, dir, steps);
    let m: int = 0x1_0000_0000;
    let v = position + signed_steps(dir, steps);
    vstd::arithmetic::div_mod::lemma_fundamental_div_mod(v + 0x8000_0000, m);
    let q = (v + 0x8000_0000) / m;
    assert(there == v - q * m);
    assert(-0x8000_0000 <= there < 0x8000_0000);
    let back = there + signed_steps(reversed(dir), steps);
    assert(back == position - q * m);
    assert(back + 0x8000_0000 == (position + 0x8000_0000) + (-q) * m);
    vstd::arithmetic::div_mod::lemma_mod_multiples_vanish(-q, position + 0x8000_0000, m);
    vstd::arithmetic::div_mod::lemma_small_mod((position + 0x8000_0000) as nat, m as nat);
}

/// Away from the wraparound, a forward move adds its steps to the
/// position and a backward move subtracts them.
pub proof fn lemma_move_sign(position: i32, steps: nat)
    ensures
        position + steps <= i32::MAX ==> moved_position(position, Direction::Forward, steps)
            == position + steps,
        position - steps >= i32::MIN ==> moved_position(position, Direction::Backward, steps)
            == position - steps,
{
}

/// Recording a reading sets each switch flag to whether its pin read low
/// (X home, Y start, Y stop) and changes nothing else.
pub proof fn lemma_readings_recorded(s: TurretState, r: LimitReadings)
    ensures
        with_readings(s, r).x_limit_triggered == r.x_home_low,
        with_readings(s, r).y_start_limit_triggered == r.y_start_low,
        with_readings(s, r).y_stop_limit_triggered == r.y_stop_low,
        with_readings(s, r).x_steps == s.x_steps,
        with_readings(s, r).y_steps == s.y_steps,
        with_readings(s, r).actuator_active == s.actuator_active,
        with_readings(s, r).x_homed == s.x_homed,
        with_readings(s, r).y_homed == s.y_homed,
{
}

} // verus!
