//! The life of one client connection: what each incoming event leads to,
//! and that a connection which ends gives up the control its client held.

use vstd::prelude::*;
use crate::control::{ClientAddr, ControlLock, after_release};
use crate::protocol::{
    Command, Dispatch, Response, dispatch_command, dispatched, invalid_command, is_standard,
    lock_after,
};

verus! {

/// Something that happened on a client's connection.
#[derive(Debug)]
pub enum ConnectionEvent {
    /// A text message that reads as this command.
    Text(Command),
    /// A text message that is no command; the text says why.
    Malformed(String),
    /// A ping carrying this payload.
    Ping(Vec<u8>),
    /// The client closed the connection.
    Close,
    /// Reading from the connection failed.
    ReadFailed,
    /// The connection has no more messages.
    StreamEnded,
    /// Sending to the client failed.
    SendFailed,
    /// A message of a kind that is not served.
    Other,
}

/// What to do after an event.
#[derive(Debug)]
pub enum ConnectionAction {
    /// The command was decided so: answer it, after performing the
    /// operation it names if it names one.
    Decided(Dispatch),
    /// Send this response.
    Send(Response),
    /// Answer a ping with this payload.
    Pong(Vec<u8>),
    /// Nothing to do.
    Ignore,
    /// The connection is over.
    Stop,
}

/// Whether an event ends the connection.
pub open spec fn ends_connection(e: ConnectionEvent) -> bool {
    e is Close || e is ReadFailed || e is StreamEnded || e is SendFailed
}

/// Handles one event on the connection of `client`. An event that ends
/// the connection releases the control `client` holds, if any; a command
/// is decided against the lock; a malformed message is answered with an
/// error; a ping is answered with a pong.
pub fn on_connection_event(event: ConnectionEvent, client: ClientAddr, lock: &mut ControlLock) -> (action:
    ConnectionAction)
    ensures
        ends_connection(event) ==> (action is Stop && final(lock)@ == after_release(
            old(lock)@,
            client,
        )),
        event matches ConnectionEvent::Ping(d) ==> (action == ConnectionAction::Pong(d)
            && final(lock)@ == old(lock)@),
        event matches ConnectionEvent::Malformed(detail) ==> (action matches ConnectionAction::Send(r)
            && is_standard(r, "error"@, "Invalid command format: "@ + detail@) && final(lock)@
            == old(lock)@),
        event matches ConnectionEvent::Text(c) ==> final(lock)@ == lock_after(c, client, old(lock)@),
        event matches ConnectionEvent::Text(c) ==> (action matches ConnectionAction::Decided(d)
            && dispatched(c, client, old(lock)@, d)),
        event is Other ==> (action is Ignore && final(lock)@ == old(lock)@),
{
    match event {
        ConnectionEvent::Text(command) => ConnectionAction::Decided(
            dispatch_command(command, client, lock),
        ),
        ConnectionEvent::Malformed(detail) => ConnectionAction::Send(invalid_command(detail.as_str())),
        ConnectionEvent::Ping(payload) => ConnectionAction::Pong(payload),
        ConnectionEvent::Other => ConnectionAction::Ignore,
        ConnectionEvent::Close | ConnectionEvent::ReadFailed | ConnectionEvent::StreamEnded
        | ConnectionEvent::SendFailed => {
            lock.release(client);
            ConnectionAction::Stop
        },
    }
}

/// A client that holds control loses it when its connection ends, however
/// it ends; the control another client holds is not touched.
pub proof fn lemma_disconnect_releases(e: ConnectionEvent, client: ClientAddr, lock: Option<ClientAddr>)
    requires
        ends_connection(e),
    ensures
        lock == Some(client) ==> after_release(lock, client) is None,
        lock != Some(client) ==> after_release(lock, client) == lock,
{
}

} // verus!
