use cam_control::control::{ClientAddr, ControlLock};
use cam_control::error::TurretError;
use cam_control::protocol::{
    complete_operation, dispatch_command, greeting, invalid_command, reply_for, Command, Dispatch,
    Operation, Response,
};
use cam_control::rtsp::RtspServer;
use cam_control::state::TurretState;

fn addr(a: u8, b: u8, c: u8, d: u8, port: u16) -> ClientAddr {
    ClientAddr::new(u32::from_be_bytes([a, b, c, d]), port)
}

fn standard(r: &Response) -> (String, String) {
    match r {
        Response::Standard { status, message } => (status.clone(), message.clone()),
        Response::State { .. } => panic!("a state response"),
    }
}

fn reply(d: Dispatch) -> Response {
    match d {
        Dispatch::Reply(result) => reply_for(result),
        Dispatch::Perform(op) => panic!("performs {:?}", op),
    }
}

#[test]
fn address_text() {
    assert_eq!(addr(192, 168, 1, 100, 8080).to_text(), "192.168.1.100:8080");
    assert_eq!(addr(0, 0, 0, 0, 0).to_text(), "0.0.0.0:0");
    assert_eq!(addr(255, 255, 255, 255, 65535).to_text(), "255.255.255.255:65535");
}

#[test]
fn lock_admits_one_controller() {
    let a = addr(10, 0, 0, 1, 5000);
    let b = addr(10, 0, 0, 2, 5000);
    let mut lock = ControlLock::new();
    assert_eq!(lock.get_controller(), None);
    assert!(!lock.has_control(a));
    assert!(lock.acquire(a));
    assert!(lock.acquire(a));
    assert!(!lock.acquire(b));
    assert!(lock.has_control(a));
    assert!(!lock.has_control(b));
    assert!(!lock.release(b));
    assert_eq!(lock.get_controller(), Some(a));
    assert!(lock.release(a));
    assert_eq!(lock.get_controller(), None);
    assert!(!lock.release(a));
    assert!(lock.acquire(b));
    assert_eq!(lock.get_controller(), Some(b));
}

#[test]
fn same_host_other_port_is_another_client() {
    let a = addr(10, 0, 0, 1, 5000);
    let a2 = addr(10, 0, 0, 1, 5001);
    let mut lock = ControlLock::new();
    assert!(lock.acquire(a));
    assert!(!lock.acquire(a2));
}

#[test]
fn acquire_and_release_commands() {
    let a = addr(192, 168, 1, 100, 40000);
    let b = addr(192, 168, 1, 101, 40001);
    let mut lock = ControlLock::new();
    let (status, message) = standard(&reply(dispatch_command(Command::AcquireControl, a, &mut lock)));
    assert_eq!(status, "success");
    assert_eq!(message, "Control acquired by 192.168.1.100:40000");
    let (status, message) = standard(&reply(dispatch_command(Command::AcquireControl, b, &mut lock)));
    assert_eq!(status, "error");
    assert_eq!(
        message,
        "Control already held by 192.168.1.100:40000. Please wait or ask them to release control."
    );
    let (status, message) = standard(&reply(dispatch_command(Command::ReleaseControl, b, &mut lock)));
    assert_eq!(status, "error");
    assert_eq!(message, "You don't have control to release");
    let (status, message) = standard(&reply(dispatch_command(Command::ReleaseControl, a, &mut lock)));
    assert_eq!(status, "success");
    assert_eq!(message, "Control released by 192.168.1.100:40000");
    assert_eq!(lock.get_controller(), None);
}

#[test]
fn moving_commands_need_control() {
    let a = addr(10, 1, 2, 3, 9);
    let b = addr(10, 1, 2, 4, 9);
    let mut lock = ControlLock::new();
    let commands = || {
        vec![
            Command::HomeX,
            Command::HomeY,
            Command::MoveX { direction: String::from("forward"), steps: 1 },
            Command::MoveY { direction: String::from("forward"), steps: 1 },
            Command::TriggerActuator { duration_ms: 5 },
        ]
    };
    for c in commands() {
        let (status, message) = standard(&reply(dispatch_command(c, a, &mut lock)));
        assert_eq!(status, "error");
        assert_eq!(message, "You don't have control. Use AcquireControl command first.");
    }
    assert!(lock.acquire(a));
    for c in commands() {
        assert!(matches!(dispatch_command(c, b, &mut lock), Dispatch::Reply(Err(TurretError::ControlRequired))));
    }
    for c in commands() {
        assert!(matches!(dispatch_command(c, a, &mut lock), Dispatch::Perform(_)));
    }
}

#[test]
fn move_commands_carry_their_arguments() {
    let a = addr(1, 2, 3, 4, 5);
    let mut lock = ControlLock::new();
    lock.acquire(a);
    match dispatch_command(Command::MoveY { direction: String::from("ccw"), steps: 42 }, a, &mut lock) {
        Dispatch::Perform(Operation::MoveY { direction, steps }) => {
            assert_eq!(direction, "ccw");
            assert_eq!(steps, 42);
        }
        other => panic!("unexpected {:?}", other),
    }
}

#[test]
fn state_reads_need_no_control() {
    let a = addr(1, 2, 3, 4, 5);
    let b = addr(1, 2, 3, 4, 6);
    let mut lock = ControlLock::new();
    assert!(matches!(dispatch_command(Command::GetState, b, &mut lock), Dispatch::Perform(Operation::ReadState)));
    lock.acquire(a);
    assert!(matches!(dispatch_command(Command::GetState, b, &mut lock), Dispatch::Perform(Operation::ReadState)));
    assert_eq!(lock.get_controller(), Some(a));
    let state = TurretState { x_steps: 250, y_steps: 166, x_homed: true, ..TurretState::default() };
    match complete_operation(Operation::ReadState, Ok(()), state) {
        Ok(Response::State { status, state: s }) => {
            assert_eq!(status, "success");
            assert_eq!(s, state);
        }
        other => panic!("unexpected {:?}", other),
    }
}

#[test]
fn operation_success_messages() {
    let s = TurretState::default();
    let text = |op: Operation| standard(&reply_for(complete_operation(op, Ok(()), s)));
    assert_eq!(text(Operation::HomeX), (String::from("success"), String::from("X-axis homed successfully")));
    assert_eq!(text(Operation::HomeY), (String::from("success"), String::from("Y-axis homed successfully")));
    assert_eq!(
        text(Operation::MoveX { direction: String::from("forward"), steps: 100 }).1,
        "Moved X-axis 100 steps in forward direction"
    );
    assert_eq!(
        text(Operation::MoveY { direction: String::from("Backward"), steps: 50 }).1,
        "Moved Y-axis 50 steps in Backward direction"
    );
    assert_eq!(
        text(Operation::TriggerActuator { duration_ms: 1000 }).1,
        "Triggered actuator for 1000 ms"
    );
}

#[test]
fn operation_failures_become_error_replies() {
    let s = TurretState::default();
    let r = reply_for(complete_operation(
        Operation::MoveY { direction: String::from("forward"), steps: 1 },
        Err(TurretError::YAtStopLimit),
        s,
    ));
    assert_eq!(
        standard(&r),
        (
            String::from("error"),
            String::from("Y-axis at stop limit. Cannot move further in this direction.")
        )
    );
}

#[test]
fn greeting_names_the_controller() {
    let mut lock = ControlLock::new();
    assert_eq!(
        standard(&greeting(&lock)),
        (String::from("info"), String::from("No active controller. Use AcquireControl to take control."))
    );
    lock.acquire(addr(127, 0, 0, 1, 51000));
    assert_eq!(
        standard(&greeting(&lock)).1,
        "Control currently held by 127.0.0.1:51000. Use AcquireControl to request control."
    );
}

#[test]
fn invalid_command_reply() {
    assert_eq!(
        standard(&invalid_command("unknown variant `Jump`")),
        (String::from("error"), String::from("Invalid command format: unknown variant `Jump`"))
    );
}

#[test]
fn rtsp_service_is_the_port() {
    let server = RtspServer::new(8554);
    assert_eq!(server.port(), 8554);
    assert_eq!(server.service(), "8554");
}
