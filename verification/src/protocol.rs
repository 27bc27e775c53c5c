//! The command protocol: what a client may ask, who may ask it, and what
//! it is answered.
//!
//! Reading the turret's state is open to every client. Every command that
//! moves the turret is reserved to the one client that holds control;
//! control is taken with `AcquireControl` and given up with
//! `ReleaseControl`. [`dispatch_command`] decides each command against the
//! control lock: it answers at once, or names the turret operation to
//! perform; [`complete_operation`] turns the operation's outcome into the
//! answer.

use vstd::prelude::*;
use crate::control::{ClientAddr, ControlLock, addr_text, after_acquire, after_release, acquire_granted};
use crate::error::{TurretError, error_message};
use crate::state::TurretState;
use crate::text::{decimal, decimal_text};

verus! {

/// A request from a client.
#[derive(Debug)]
pub enum Command {
    AcquireControl,
    ReleaseControl,
    GetState,
    HomeX,
    HomeY,
    MoveX { direction: String, steps: u32 },
    MoveY { direction: String, steps: u32 },
    TriggerActuator { duration_ms: u64 },
}

/// An answer to a client: a status with a message, or a status with the
/// turret's state.
#[derive(Debug)]
pub enum Response {
    Standard { status: String, message: String },
    State { status: String, state: TurretState },
}

/// A turret operation that a command asks for.
#[derive(Debug)]
pub enum Operation {
    ReadState,
    HomeX,
    HomeY,
    MoveX { direction: String, steps: u32 },
    MoveY { direction: String, steps: u32 },
    TriggerActuator { duration_ms: u64 },
}

/// What to do with a command: answer it now, or perform an operation and
/// answer with its outcome.
#[derive(Debug)]
pub enum Dispatch {
    Reply(Result<Response, TurretError>),
    Perform(Operation),
}

/// Whether a command is reserved to the client that holds control.
pub open spec fn needs_control(c: Command) -> bool {
    !(c is AcquireControl || c is ReleaseControl || c is GetState)
}

/// The operation a command asks for, where it asks for one.
pub open spec fn operation_of(c: Command) -> Option<Operation> {
    match c {
        Command::GetState => Some(Operation::ReadState),
        Command::HomeX => Some(Operation::HomeX),
        Command::HomeY => Some(Operation::HomeY),
        Command::MoveX { direction, steps } => Some(Operation::MoveX { direction, steps }),
        Command::MoveY { direction, steps } => Some(Operation::MoveY { direction, steps }),
        Command::TriggerActuator { duration_ms } => Some(Operation::TriggerActuator { duration_ms }),
        _ => None,
    }
}

/// The holder of control after `addr` sent `c`.
pub open spec fn lock_after(c: Command, addr: ClientAddr, lock: Option<ClientAddr>) -> Option<
    ClientAddr,
> {
    match c {
        Command::AcquireControl => after_acquire(lock, addr),
        Command::ReleaseControl => after_release(lock, addr),
        _ => lock,
    }
}

/// Whether the operation that `c` asks for is performed when `addr` sends
/// it: reading the state always is, the others only for the holder.
pub open spec fn performs(c: Command, addr: ClientAddr, lock: Option<ClientAddr>) -> bool {
    operation_of(c) is Some && (!needs_control(c) || lock == Some(addr))
}

/// Whether a response is a `Standard` one with this status and message.
pub open spec fn is_standard(r: Response, status: Seq<char>, message: Seq<char>) -> bool {
    r matches Response::Standard { status: st, message: m } && st@ == status && m@ == message
}

fn standard(status: &str, message: String) -> (r: Response)
    ensures
        is_standard(r, status@, message@),
{
    Response::Standard { status: String::from_str(status), message }
}

/// What deciding command `c` from client `addr` against holder `lock`
/// answers: the operation it asks for where that is performed; the
/// success message of a granted `AcquireControl` or `ReleaseControl`;
/// otherwise the refusal.
pub open spec fn dispatched(c: Command, addr: ClientAddr, lock: Option<ClientAddr>, d: Dispatch) -> bool {
    &&& performs(c, addr, lock) <==> d is Perform
    &&& d is Perform ==> d->Perform_0 == operation_of(c)->0
    &&& c is AcquireControl ==> (if acquire_granted(lock, addr) {
        d matches Dispatch::Reply(Ok(r)) && is_standard(
            r,
            "success"@,
            "Control acquired by "@ + addr_text(addr),
        )
    } else {
        d == Dispatch::Reply(Err(TurretError::ControlHeldBy(lock->0)))
    })
    &&& c is ReleaseControl ==> (if lock == Some(addr) {
        d matches Dispatch::Reply(Ok(r)) && is_standard(
            r,
            "success"@,
            "Control released by "@ + addr_text(addr),
        )
    } else {
        d == Dispatch::Reply(Err(TurretError::NoControlToRelease))
    })
    &&& (needs_control(c) && lock != Some(addr)) ==> d == Dispatch::Reply(
        Err(TurretError::ControlRequired),
    )
}

/// Decides a command from client `addr`: takes or frees control, refuses a
/// command reserved to the holder when `addr` does not hold control, or
/// names the operation to perform.
pub fn dispatch_command(command: Command, addr: ClientAddr, lock: &mut ControlLock) -> (d: Dispatch)
    ensures
        final(lock)@ == lock_after(command, addr, old(lock)@),
        dispatched(command, addr, old(lock)@, d),
{
    match command {
        Command::GetState => Dispatch::Perform(Operation::ReadState),
        Command::AcquireControl => {
            let holder = lock.get_controller();
            if lock.acquire(addr) {
                let mut message = String::from_str("Control acquired by ");
                let who = addr.to_text();
                message.append(who.as_str());
                Dispatch::Reply(Ok(standard("success", message)))
            } else {
                match holder {
                    Some(current) => Dispatch::Reply(Err(TurretError::ControlHeldBy(current))),
                    None => Dispatch::Reply(Err(TurretError::ControlHeldBy(addr))),
                }
            }
        },
        Command::ReleaseControl => {
            if lock.release(addr) {
                let mut message = String::from_str("Control released by ");
                let who = addr.to_text();
                message.append(who.as_str());
                Dispatch::Reply(Ok(standard("success", message)))
            } else {
                Dispatch::Reply(Err(TurretError::NoControlToRelease))
            }
        },
        Command::HomeX => {
            if !lock.has_control(addr) {
                return Dispatch::Reply(Err(TurretError::ControlRequired));
            }
            Dispatch::Perform(Operation::HomeX)
        },
        Command::HomeY => {
            if !lock.has_control(addr) {
                return Dispatch::Reply(Err(TurretError::ControlRequired));
            }
            Dispatch::Perform(Operation::HomeY)
        },
        Command::MoveX { direction, steps } => {
            if !lock.has_control(addr) {
                return Dispatch::Reply(Err(TurretError::ControlRequired));
            }
            Dispatch::Perform(Operation::MoveX { direction, steps })
        },
        Command::MoveY { direction, steps } => {
            if !lock.has_control(addr) {
                return Dispatch::Reply(Err(TurretError::ControlRequired));
            }
            Dispatch::Perform(Operation::MoveY { direction, steps })
        },
        Command::TriggerActuator { duration_ms } => {
            if !lock.has_control(addr) {
                return Dispatch::Reply(Err(TurretError::ControlRequired));
            }
            Dispatch::Perform(Operation::TriggerActuator { duration_ms })
        },
    }
}

/// The message that tells a client that `op` went well.
pub open spec fn success_message(op: Operation) -> Seq<char> {
    match op {
        Operation::ReadState => Seq::empty(),
        Operation::HomeX => "X-axis homed successfully"@,
        Operation::HomeY => "Y-axis homed successfully"@,
        Operation::MoveX { direction, steps } => "Moved X-axis "@ + decimal(steps as nat)
            + " steps in "@ + direction@ + " direction"@,
        Operation::MoveY { direction, steps } => "Moved Y-axis "@ + decimal(steps as nat)
            + " steps in "@ + direction@ + " direction"@,
        Operation::TriggerActuator { duration_ms } => "Triggered actuator for "@ + decimal(
            duration_ms as nat,
        ) + " ms"@,
    }
}

/// The answer to an operation: the turret's `state` for a state read, a
/// success message for an operation that went well, the error for one
/// that failed.
pub fn complete_operation(op: Operation, outcome: Result<(), TurretError>, state: TurretState) -> (r:
    Result<Response, TurretError>)
    ensures
        op is ReadState ==> (r matches Ok(Response::State { status, state: st }) && status@
            == "success"@ && st == state),
        !(op is ReadState) ==> match outcome {
            Ok(_) => (r matches Ok(resp) && is_standard(resp, "success"@, success_message(op))),
            Err(e) => r == Err::<Response, TurretError>(e),
        },
{
    if let Operation::ReadState = op {
        return Ok(Response::State { status: String::from_str("success"), state });
    }
    match outcome {
        Err(e) => Err(e),
        Ok(_) => {
            let message = match op {
                Operation::ReadState => String::new(),
                Operation::HomeX => String::from_str("X-axis homed successfully"),
                Operation::HomeY => String::from_str("Y-axis homed successfully"),
                Operation::MoveX { direction, steps } => {
                    let mut m = String::from_str("Moved X-axis ");
                    let count = decimal_text(steps as u64);
                    m.append(count.as_str());
                    m.append(" steps in ");
                    m.append(direction.as_str());
                    m.append(" direction");
                    m
                },
                Operation::MoveY { direction, steps } => {
                    let mut m = String::from_str("Moved Y-axis ");
                    let count = decimal_text(steps as u64);
                    m.append(count.as_str());
                    m.append(" steps in ");
                    m.append(direction.as_str());
                    m.append(" direction");
                    m
                },
                Operation::TriggerActuator { duration_ms } => {
                    let mut m = String::from_str("Triggered actuator for ");
                    let ms = decimal_text(duration_ms);
                    m.append(ms.as_str());
                    m.append(" ms");
                    m
                },
            };
            Ok(standard("success", message))
        },
    }
}

/// The answer sent to a client for a command's result: the response
/// itself, or an `error` response carrying the error's message.
pub fn reply_for(result: Result<Response, TurretError>) -> (r: Response)
    ensures
        match result {
            Ok(resp) => r == resp,
            Err(e) => is_standard(r, "error"@, error_message(e)),
        },
{
    match result {
        Ok(resp) => resp,
        Err(e) => standard("error", e.message()),
    }
}

/// The answer to a message that is not a valid command; `detail` says
/// why it could not be read.
pub fn invalid_command(detail: &str) -> (r: Response)
    ensures
        is_standard(r, "error"@, "Invalid command format: "@ + detail@),
{
    let mut message = String::from_str("Invalid command format: ");
    message.append(detail);
    standard("error", message)
}

/// The message a newly connected client receives: who holds control, if
/// anyone.
pub fn greeting(lock: &ControlLock) -> (r: Response)
    ensures
        match lock@ {
            Some(holder) => is_standard(
                r,
                "info"@,
                "Control currently held by "@ + addr_text(holder)
                    + ". Use AcquireControl to request control."@,
            ),
            None => is_standard(
                r,
                "info"@,
                "No active controller. Use AcquireControl to take control."@,
            ),
        },
{
    match lock.get_controller() {
        Some(holder) => {
            let mut message = String::from_str("Control currently held by ");
            let who = holder.to_text();
            message.append(who.as_str());
            message.append(". Use AcquireControl to request control.");
            standard("info", message)
        },
        None => standard(
            "info",
            String::from_str("No active controller. Use AcquireControl to take control."),
        ),
    }
}

/// Only one client controls the turret at a time: while one client holds
/// control, no command from another client takes it over, frees it, or
/// moves the turret.
pub proof fn lemma_exclusive_control(c: Command, holder: ClientAddr, other: ClientAddr)
    requires
        holder != other,
    ensures
        lock_after(c, other, Some(holder)) == Some(holder),
        needs_control(c) ==> !performs(c, other, Some(holder)),
{
}

/// Reading the turret's state needs no control and never changes who
/// holds it.
pub proof fn lemma_state_read_is_open(addr: ClientAddr, lock: Option<ClientAddr>)
    ensures
        performs(Command::GetState, addr, lock),
        lock_after(Command::GetState, addr, lock) == lock,
{
}

/// A client that obtained control may drive the turret, keeps control
/// when it asks again, and frees the turret when it gives control up.
pub proof fn lemma_acquire_then_release(c: Command, addr: ClientAddr, lock: Option<ClientAddr>)
    requires
        acquire_granted(lock, addr),
    ensures
        after_acquire(lock, addr) == Some(addr),
        operation_of(c) is Some ==> performs(c, addr, after_acquire(lock, addr)),
        acquire_granted(after_acquire(lock, addr), addr),
        after_acquire(after_acquire(lock, addr), addr) == after_acquire(lock, addr),
        after_release(after_acquire(lock, addr), addr) is None,
{
}

/// Giving up control that one does not hold changes nothing.
pub proof fn lemma_release_by_other(addr: ClientAddr, lock: Option<ClientAddr>)
    requires
        lock != Some(addr),
    ensures
        after_release(lock, addr) == lock,
{
}

/// Each command that asks for an operation asks for the one of the same
/// name, with the same arguments; the other commands ask for none.
pub proof fn lemma_operation_matches_command(c: Command)
    ensures
        c is GetState ==> operation_of(c) == Some(Operation::ReadState),
        c is HomeX ==> operation_of(c) == Some(Operation::HomeX),
        c is HomeY ==> operation_of(c) == Some(Operation::HomeY),
        c matches Command::MoveX { direction, steps } ==> operation_of(c) == Some(
            Operation::MoveX { direction, steps },
        ),
        c matches Command::MoveY { direction, steps } ==> operation_of(c) == Some(
            Operation::MoveY { direction, steps },
        ),
        c matches Command::TriggerActuator { duration_ms } ==> operation_of(c) == Some(
            Operation::TriggerActuator { duration_ms },
        ),
        (c is AcquireControl || c is ReleaseControl) ==> operation_of(c) is None,
{
}

/// The holder of control that sends a command which moves the turret has
/// exactly that command's operation performed: homing X homes X, homing Y
/// homes Y, a move moves the named axis by the given word and count.
pub proof fn lemma_holder_gets_its_operation(c: Command, addr: ClientAddr, d: Dispatch)
    requires
        dispatched(c, addr, Some(addr), d),
    ensures
        c is HomeX ==> d == Dispatch::Perform(Operation::HomeX),
        c is HomeY ==> d == Dispatch::Perform(Operation::HomeY),
        c is GetState ==> d == Dispatch::Perform(Operation::ReadState),
        c matches Command::MoveX { direction, steps } ==> d == Dispatch::Perform(
            Operation::MoveX { direction, steps },
        ),
        c matches Command::MoveY { direction, steps } ==> d == Dispatch::Perform(
            Operation::MoveY { direction, steps },
        ),
        c matches Command::TriggerActuator { duration_ms } ==> d == Dispatch::Perform(
            Operation::TriggerActuator { duration_ms },
        ),
{
}

/// A client without control that asks to home, move or actuate is refused
/// with `ControlRequired`, and nothing is performed; asking for control,
/// giving it up or reading the state is never refused for that reason.
pub proof fn lemma_non_holder_is_refused(
    c: Command,
    addr: ClientAddr,
    lock: Option<ClientAddr>,
    d: Dispatch,
)
    requires
        lock != Some(addr),
        dispatched(c, addr, lock, d),
    ensures
        (c is HomeX || c is HomeY || c is MoveX || c is MoveY || c is TriggerActuator) ==> d
            == Dispatch::Reply(Err(TurretError::ControlRequired)),
        c is GetState ==> d == Dispatch::Perform(Operation::ReadState),
        (c is AcquireControl || c is ReleaseControl) ==> d != Dispatch::Reply(
            Err(TurretError::ControlRequired),
        ),
{
}

} // verus!
