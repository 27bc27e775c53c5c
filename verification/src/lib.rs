//! Control logic of a two-axis camera turret: axis bookkeeping, limit
//! switches, homing and stepping procedures, and the single-controller
//! command protocol spoken by its clients.

pub mod connection;
pub mod control;
pub mod direction;
pub mod error;
pub mod hardware;
pub mod mock;
pub mod protocol;
pub mod rtsp;
pub mod state;
pub mod text;
