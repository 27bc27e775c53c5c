//! A turret without hardware: every operation only updates the
//! bookkeeping, and the Y axis is confined to a simulated range whose
//! ends act as its limit switches.

use vstd::prelude::*;
use crate::direction::{
    Direction, ascii_lowercase, direction_of, is_ascii_text, parse_direction, parsed_direction,
};
use crate::error::TurretError;
use crate::state::{TurretState, initial_state, move_position, moved_position};

verus! {

/// The number of steps between the simulated Y start and stop limits.
pub const MOCK_Y_RANGE: i32 = 1000;

/// `v` limited to `lo..=hi`.
pub open spec fn clamped(v: int, lo: int, hi: int) -> int {
    if v < lo {
        lo
    } else if v > hi {
        hi
    } else {
        v
    }
}

/// The simulated turret after a Y move in `dir` (`None` for an unknown
/// word) by `steps` steps from `s`. A move toward a limit that the position
/// has reached is refused and marks that limit as triggered; so is a move
/// in an unknown direction from the start of the range. Otherwise an
/// unknown direction changes nothing, and a move ends clamped to the
/// range, with the limit flags telling whether it ended at either end.
pub open spec fn mock_y_move(s: TurretState, dir: Option<Direction>, steps: nat) -> TurretState {
    let forward = dir == Some(Direction::Forward);
    if forward && s.y_steps >= MOCK_Y_RANGE {
        TurretState { y_stop_limit_triggered: true, ..s }
    } else if !forward && s.y_steps <= 0 {
        TurretState { y_start_limit_triggered: true, ..s }
    } else if dir is None {
        s
    } else {
        let y = clamped(moved_position(s.y_steps, dir->0, steps), 0, MOCK_Y_RANGE as int);
        TurretState {
            y_steps: y as i32,
            y_start_limit_triggered: y == 0,
            y_stop_limit_triggered: y >= MOCK_Y_RANGE,
            ..s
        }
    }
}

/// Inside the simulated range, a backward Y move undoes a forward one of
/// the same length, and the move leaves neither limit triggered.
pub proof fn lemma_mock_y_round_trip(s: TurretState, steps: nat)
    requires
        0 < s.y_steps,
        s.y_steps + steps < MOCK_Y_RANGE,
    ensures
        ({
            let there = mock_y_move(s, Some(Direction::Forward), steps);
            let back = mock_y_move(there, Some(Direction::Backward), steps);
            &&& there.y_steps == s.y_steps + steps
            &&& back == (TurretState {
                y_start_limit_triggered: false,
                y_stop_limit_triggered: false,
                ..s
            })
        }),
{
    let there = mock_y_move(s, Some(Direction::Forward), steps);
    assert(moved_position(s.y_steps, Direction::Forward, steps) == s.y_steps + steps);
    assert(moved_position(there.y_steps, Direction::Backward, steps) == s.y_steps);
}


/// The simulated limits: a forward move at the top of the range (1000)
/// and a backward move at its start (0) are refused, leave the position
/// where it is and mark the switch they run into; a move within the range
/// lands clamped to `0..=1000`.
pub proof fn lemma_mock_y_limits(s: TurretState, steps: nat)
    ensures
        s.y_steps >= 1000 ==> mock_y_move(s, Some(Direction::Forward), steps) == (TurretState {
            y_stop_limit_triggered: true,
            ..s
        }),
        s.y_steps <= 0 ==> mock_y_move(s, Some(Direction::Backward), steps) == (TurretState {
            y_start_limit_triggered: true,
            ..s
        }),
        (0 <= s.y_steps < 1000) ==> 0 <= mock_y_move(s, Some(Direction::Forward), steps).y_steps
            <= 1000,
        (0 < s.y_steps <= 1000) ==> 0 <= mock_y_move(s, Some(Direction::Backward), steps).y_steps
            <= 1000,
        (0 < s.y_steps <= 1000 && s.y_steps - steps >= 0) ==> mock_y_move(
            s,
            Some(Direction::Backward),
            steps,
        ).y_steps == s.y_steps - steps,
{
}

/// A simulated turret.
pub struct MockGpioController {
    state: TurretState,
    max_y_steps: i32,
}

impl MockGpioController {
    /// The simulated Y position always lies within its range.
    #[verifier::type_invariant]
    spec fn y_in_range(self) -> bool {
        &&& self.max_y_steps == MOCK_Y_RANGE
        &&& 0 <= self.state.y_steps <= self.max_y_steps
    }

    /// The turret's bookkeeping.
    pub closed spec fn turret(&self) -> TurretState {
        self.state
    }

    /// A simulated turret at the origin, neither homed nor moved.
    pub fn new() -> (mock: MockGpioController)
        ensures
            mock.turret() == initial_state(),
    {
        MockGpioController { state: TurretState::default(), max_y_steps: MOCK_Y_RANGE }
    }

    /// A copy of the bookkeeping.
    pub fn get_state(&self) -> (s: TurretState)
        ensures
            s == self.turret(),
            0 <= s.y_steps <= MOCK_Y_RANGE,
    {
        proof {
            use_type_invariant(self);
        }
        self.state
    }

    /// Turns the X axis by `steps` steps in the direction that `direction`
    /// names; an unknown direction is refused and changes nothing.
    pub fn move_x(&mut self, direction: &str, steps: u32) -> (r: Result<(), TurretError>)
        ensures
            match parsed_direction(direction@) {
                Some(dir) => {
                    &&& r is Ok
                    &&& final(self).turret() == (TurretState {
                        x_steps: moved_position(old(self).turret().x_steps, dir, steps as nat) as i32,
                        ..old(self).turret()
                    })
                },
                None => {
                    &&& r matches Err(TurretError::InvalidDirection(word)) && word@ == direction@
                    &&& final(self).turret() == old(self).turret()
                },
            },
            is_ascii_text(direction@) ==> parsed_direction(direction@) == direction_of(
                ascii_lowercase(direction@),
            ),
    {
        proof {
            use_type_invariant(&*self);
        }
        match parse_direction(direction) {
            Some(dir) => {
                let x = move_position(self.state.x_steps, dir, steps);
                self.state.x_steps = x;
                Ok(())
            },
            None => Err(TurretError::InvalidDirection(String::from_str(direction))),
        }
    }

    /// Turns the simulated Y axis. A move toward a limit that the position
    /// has reached is refused and marks that limit as triggered; so is a
    /// move in an unknown direction from the start of the range. Otherwise
    /// an unknown direction is refused without change, and a move ends
    /// clamped to the range, with the limit flags telling whether it ended
    /// at either end.
    pub fn move_y(&mut self, direction: &str, steps: u32) -> (r: Result<(), TurretError>)
        ensures
            final(self).turret() == mock_y_move(
                old(self).turret(),
                parsed_direction(direction@),
                steps as nat,
            ),
            ({
                let s = old(self).turret();
                let dir = parsed_direction(direction@);
                let forward = dir == Some(Direction::Forward);
                if forward && s.y_steps >= MOCK_Y_RANGE {
                    r matches Err(TurretError::YAtStopLimit)
                } else if !forward && s.y_steps <= 0 {
                    r matches Err(TurretError::YAtStartLimit)
                } else if dir is None {
                    r matches Err(TurretError::InvalidDirection(word)) && word@ == direction@
                } else {
                    r is Ok
                }
            }),
            is_ascii_text(direction@) ==> parsed_direction(direction@) == direction_of(
                ascii_lowercase(direction@),
            ),
    {
        proof {
            use_type_invariant(&*self);
        }
        let dir = parse_direction(direction);
        let forward = match dir {
            Some(Direction::Forward) => true,
            _ => false,
        };
        if forward && self.state.y_steps >= self.max_y_steps {
            self.state.y_stop_limit_triggered = true;
            return Err(TurretError::YAtStopLimit);
        }
        if !forward && self.state.y_steps <= 0 {
            self.state.y_start_limit_triggered = true;
            return Err(TurretError::YAtStartLimit);
        }
        match dir {
            Some(d) => {
                let moved = move_position(self.state.y_steps, d, steps);
                let y = if moved < 0 {
                    0
                } else if moved > self.max_y_steps {
                    self.max_y_steps
                } else {
                    moved
                };
                self.state.y_steps = y;
                self.state.y_start_limit_triggered = y == 0;
                self.state.y_stop_limit_triggered = y >= self.max_y_steps;
                Ok(())
            },
            None => Err(TurretError::InvalidDirection(String::from_str(direction))),
        }
    }

    /// Simulates homing X: the position becomes the origin, the axis is
    /// homed and its switch reads closed.
    pub fn home_x(&mut self) -> (r: Result<(), TurretError>)
        ensures
            r is Ok,
            final(self).turret() == (TurretState {
                x_steps: 0,
                x_homed: true,
                x_limit_triggered: true,
                ..old(self).turret()
            }),
    {
        proof {
            use_type_invariant(&*self);
        }
        self.state.x_steps = 0;
        self.state.x_homed = true;
        self.state.x_limit_triggered = true;
        Ok(())
    }

    /// Simulates homing Y: the position becomes the start of the range,
    /// the axis is homed, the start switch reads closed and the stop
    /// switch open.
    pub fn home_y(&mut self) -> (r: Result<(), TurretError>)
        ensures
            r is Ok,
            final(self).turret() == (TurretState {
                y_steps: 0,
                y_homed: true,
                y_start_limit_triggered: true,
                y_stop_limit_triggered: false,
                ..old(self).turret()
            }),
    {
        proof {
            use_type_invariant(&*self);
        }
        self.state.y_steps = 0;
        self.state.y_homed = true;
        self.state.y_start_limit_triggered = true;
        self.state.y_stop_limit_triggered = false;
        Ok(())
    }

    /// The start of a simulated actuator pulse: the actuator is active
    /// until `end_actuation`.
    pub fn begin_actuation(&mut self)
        ensures
            final(self).turret() == (TurretState { actuator_active: true, ..old(self).turret() }),
    {
        proof {
            use_type_invariant(&*self);
        }
        let mut s = self.state;
        s.begin_actuation();
        self.state = s;
    }

    /// The end of a simulated actuator pulse.
    pub fn end_actuation(&mut self)
        ensures
            final(self).turret() == (TurretState { actuator_active: false, ..old(self).turret() }),
    {
        proof {
            use_type_invariant(&*self);
        }
        let mut s = self.state;
        s.end_actuation();
        self.state = s;
    }
}

} // verus!
