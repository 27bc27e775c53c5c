//! The errors of the turret and of its command protocol, with the text
//! that a client is shown for each.

use vstd::prelude::*;
use crate::control::{ClientAddr, addr_text};
use crate::text::{decimal, decimal_text};

verus! {

/// Why a turret operation or a command was refused.
#[derive(Debug)]
pub enum TurretError {
    /// The direction word (as given) names no direction.
    InvalidDirection(String),
    /// A Y move toward the stop limit while that switch is closed.
    YAtStopLimit,
    /// A Y move toward the start limit while that switch is closed.
    YAtStartLimit,
    /// X homing gave up after this many steps without meeting the switch.
    XHomingFailed(u32),
    /// Y homing gave up after this many steps without meeting the switch.
    YHomingFailed(u32),
    /// Control was asked for while this other client holds it.
    ControlHeldBy(ClientAddr),
    /// Control was given up by a client that does not hold it.
    NoControlToRelease,
    /// A command that moves the turret came from a client without control.
    ControlRequired,
}

/// The text shown to a client for `e`.
pub open spec fn error_message(e: TurretError) -> Seq<char> {
    match e {
        TurretError::InvalidDirection(word) => "Invalid direction: "@ + word@,
        TurretError::YAtStopLimit => "Y-axis at stop limit. Cannot move further in this direction."@,
        TurretError::YAtStartLimit => "Y-axis at start limit. Cannot move further in this direction."@,
        TurretError::XHomingFailed(n) => "X-axis homing failed: limit switch not found after "@
            + decimal(n as nat) + " steps"@,
        TurretError::YHomingFailed(n) => "Y-axis homing failed: start limit switch not found after "@
            + decimal(n as nat) + " steps"@,
        TurretError::ControlHeldBy(holder) => "Control already held by "@ + addr_text(holder)
            + ". Please wait or ask them to release control."@,
        TurretError::NoControlToRelease => "You don't have control to release"@,
        TurretError::ControlRequired => "You don't have control. Use AcquireControl command first."@,
    }
}

impl Clone for TurretError {
    fn clone(&self) -> (copy: Self)
        ensures
            copy == *self,
    {
        match self {
            TurretError::InvalidDirection(word) => TurretError::InvalidDirection(word.clone()),
            TurretError::YAtStopLimit => TurretError::YAtStopLimit,
            TurretError::YAtStartLimit => TurretError::YAtStartLimit,
            TurretError::XHomingFailed(n) => TurretError::XHomingFailed(*n),
            TurretError::YHomingFailed(n) => TurretError::YHomingFailed(*n),
            TurretError::ControlHeldBy(holder) => TurretError::ControlHeldBy(*holder),
            TurretError::NoControlToRelease => TurretError::NoControlToRelease,
            TurretError::ControlRequired => TurretError::ControlRequired,
        }
    }
}

impl TurretError {
    /// The text shown to a client for this error.
    pub fn message(&self) -> (text: String)
        ensures
            text@ == error_message(*self),
    {
        match self {
            TurretError::InvalidDirection(word) => {
                let mut text = String::from_str("Invalid direction: ");
                text.append(word.as_str());
                text
            },
            TurretError::YAtStopLimit => String::from_str(
                "Y-axis at stop limit. Cannot move further in this direction.",
            ),
            TurretError::YAtStartLimit => String::from_str(
                "Y-axis at start limit. Cannot move further in this direction.",
            ),
            TurretError::XHomingFailed(n) => {
                let mut text = String::from_str(
                    "X-axis homing failed: limit switch not found after ",
                );
                let count = decimal_text(*n as u64);
                text.append(count.as_str());
                text.append(" steps");
                text
            },
            TurretError::YHomingFailed(n) => {
                let mut text = String::from_str(
                    "Y-axis homing failed: start limit switch not found after ",
                );
                let count = decimal_text(*n as u64);
                text.append(count.as_str());
                text.append(" steps");
                text
            },
            TurretError::ControlHeldBy(holder) => {
                let mut text = String::from_str("Control already held by ");
                let who = holder.to_text();
                text.append(who.as_str());
                text.append(". Please wait or ask them to release control.");
                text
            },
            TurretError::NoControlToRelease => String::from_str(
                "You don't have control to release",
            ),
            TurretError::ControlRequired => String::from_str(
                "You don't have control. Use AcquireControl command first.",
            ),
        }
    }
}

} // verus!
