use cam_control::connection::{on_connection_event, ConnectionAction, ConnectionEvent};
use cam_control::control::{ClientAddr, ControlLock};
use cam_control::protocol::{Command, Dispatch, Operation, Response};

fn addr(last: u8, port: u16) -> ClientAddr {
    ClientAddr::new(u32::from_be_bytes([192, 168, 0, last]), port)
}

#[test]
fn every_ending_releases_the_holder() {
    let endings = || {
        vec![
            ConnectionEvent::Close,
            ConnectionEvent::ReadFailed,
            ConnectionEvent::StreamEnded,
            ConnectionEvent::SendFailed,
        ]
    };
    for e in endings() {
        let a = addr(1, 1000);
        let mut lock = ControlLock::new();
        assert!(lock.acquire(a));
        assert!(matches!(on_connection_event(e, a, &mut lock), ConnectionAction::Stop));
        assert_eq!(lock.get_controller(), None);
    }
    for e in endings() {
        let a = addr(1, 1000);
        let b = addr(2, 1000);
        let mut lock = ControlLock::new();
        assert!(lock.acquire(a));
        assert!(matches!(on_connection_event(e, b, &mut lock), ConnectionAction::Stop));
        assert_eq!(lock.get_controller(), Some(a));
    }
}

#[test]
fn commands_are_decided_against_the_lock() {
    let a = addr(1, 1000);
    let mut lock = ControlLock::new();
    match on_connection_event(ConnectionEvent::Text(Command::AcquireControl), a, &mut lock) {
        ConnectionAction::Decided(Dispatch::Reply(Ok(Response::Standard { status, message }))) => {
            assert_eq!(status, "success");
            assert_eq!(message, "Control acquired by 192.168.0.1:1000");
        }
        other => panic!("unexpected {:?}", other),
    }
    assert_eq!(lock.get_controller(), Some(a));
    assert!(matches!(
        on_connection_event(ConnectionEvent::Text(Command::HomeY), a, &mut lock),
        ConnectionAction::Decided(Dispatch::Perform(Operation::HomeY))
    ));
}

#[test]
fn malformed_ping_and_other() {
    let a = addr(1, 1000);
    let mut lock = ControlLock::new();
    lock.acquire(a);
    match on_connection_event(ConnectionEvent::Malformed(String::from("expected value")), a, &mut lock) {
        ConnectionAction::Send(Response::Standard { status, message }) => {
            assert_eq!(status, "error");
            assert_eq!(message, "Invalid command format: expected value");
        }
        other => panic!("unexpected {:?}", other),
    }
    match on_connection_event(ConnectionEvent::Ping(vec![1, 2, 3]), a, &mut lock) {
        ConnectionAction::Pong(data) => assert_eq!(data, vec![1, 2, 3]),
        other => panic!("unexpected {:?}", other),
    }
    assert!(matches!(on_connection_event(ConnectionEvent::Other, a, &mut lock), ConnectionAction::Ignore));
    assert_eq!(lock.get_controller(), Some(a));
}
