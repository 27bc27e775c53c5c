//! Settings of the camera stream server.

use vstd::prelude::*;
use crate::text::{decimal, decimal_text};

verus! {

/// The camera stream server, serving on one TCP port.
pub struct RtspServer {
    port: u16,
}

impl RtspServer {
    /// The port the server listens on.
    pub closed spec fn port_spec(&self) -> u16 {
        self.port
    }

    /// A server for `port`.
    pub fn new(port: u16) -> (server: RtspServer)
        ensures
            server.port_spec() == port,
    {
        RtspServer { port }
    }

    /// The port the server listens on.
    pub fn port(&self) -> (port: u16)
        ensures
            port == self.port_spec(),
    {
        self.port
    }

    /// The service name handed to the stream server: the port in decimal.
    pub fn service(&self) -> (service: String)
        ensures
            service@ == decimal(self.port_spec() as nat),
    {
        decimal_text(self.port as u64)
    }
}

} // verus!
