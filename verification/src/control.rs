//! Client identities and the lock that grants one client at a time the
//! right to drive the turret.

use vstd::prelude::*;
use crate::text::{decimal, decimal_text};

verus! {

/// The network address of a connected client: an IPv4 address, as the
/// 32-bit number whose most significant byte is the first octet, and a
/// TCP port. Two connections are the same client exactly when both parts
/// agree.
#[derive(Clone, Copy, Debug, PartialEq, Eq, Structural, Hash)]
pub struct ClientAddr {
    pub ip: u32,
    pub port: u16,
}

/// The `k`-th octet of an IPv4 address, counted from the most significant.
pub open spec fn octet(ip: u32, k: nat) -> nat
    recommends
        k < 4,
{
    if k == 0 {
        (ip / 0x100_0000) as nat
    } else if k == 1 {
        ((ip / 0x1_0000) % 0x100) as nat
    } else if k == 2 {
        ((ip / 0x100) % 0x100) as nat
    } else {
        (ip % 0x100) as nat
    }
}

/// The usual text of an address: `a.b.c.d:port`.
pub open spec fn addr_text(addr: ClientAddr) -> Seq<char> {
    decimal(octet(addr.ip, 0)) + "."@ + decimal(octet(addr.ip, 1)) + "."@ + decimal(
        octet(addr.ip, 2),
    ) + "."@ + decimal(octet(addr.ip, 3)) + ":"@ + decimal(addr.port as nat)
}

impl ClientAddr {
    /// Builds the address `ip:port`.
    pub fn new(ip: u32, port: u16) -> (addr: ClientAddr)
        ensures
            addr.ip == ip,
            addr.port == port,
    {
        ClientAddr { ip, port }
    }

    /// Renders the address as `a.b.c.d:port`.
    pub fn to_text(&self) -> (s: String)
        ensures
            s@ == addr_text(*self),
    {
        let mut s = decimal_text((self.ip / 0x100_0000) as u64);
        s.append(".");
        let second = decimal_text(((self.ip / 0x1_0000) % 0x100) as u64);
        s.append(second.as_str());
        s.append(".");
        let third = decimal_text(((self.ip / 0x100) % 0x100) as u64);
        s.append(third.as_str());
        s.append(".");
        let fourth = decimal_text((self.ip % 0x100) as u64);
        s.append(fourth.as_str());
        s.append(":");
        let port = decimal_text(self.port as u64);
        s.append(port.as_str());
        s
    }
}

/// Who, if anyone, holds control of the turret.
pub struct ControlLock {
    controller: Option<ClientAddr>,
}

impl View for ControlLock {
    type V = Option<ClientAddr>;

    open spec fn view(&self) -> Option<ClientAddr> {
        self.controller_spec()
    }
}

/// The holder after `addr` asks for control: a free lock goes to `addr`,
/// a held one stays with its holder.
pub open spec fn after_acquire(lock: Option<ClientAddr>, addr: ClientAddr) -> Option<ClientAddr> {
    match lock {
        None => Some(addr),
        Some(holder) => Some(holder),
    }
}

/// Whether `addr` obtains (or keeps) control when it asks for it.
pub open spec fn acquire_granted(lock: Option<ClientAddr>, addr: ClientAddr) -> bool {
    lock is None || lock == Some(addr)
}

/// The holder after `addr` gives control up: only the holder can free it.
pub open spec fn after_release(lock: Option<ClientAddr>, addr: ClientAddr) -> Option<ClientAddr> {
    if lock == Some(addr) {
        None
    } else {
        lock
    }
}

impl ControlLock {
    pub closed spec fn controller_spec(&self) -> Option<ClientAddr> {
        self.controller
    }

    /// A lock that nobody holds.
    pub fn new() -> (lock: ControlLock)
        ensures
            lock@ is None,
    {
        ControlLock { controller: None }
    }

    /// Gives control to `addr` if nobody holds it; reports whether `addr`
    /// holds control afterwards.
    pub fn acquire(&mut self, addr: ClientAddr) -> (granted: bool)
        ensures
            granted == acquire_granted(old(self)@, addr),
            final(self)@ == after_acquire(old(self)@, addr),
    {
        match self.controller {
            None => {
                self.controller = Some(addr);
                true
            },
            Some(current) => current == addr,
        }
    }

    /// Frees the lock if `addr` holds it; reports whether it did.
    pub fn release(&mut self, addr: ClientAddr) -> (released: bool)
        ensures
            released == (old(self)@ == Some(addr)),
            final(self)@ == after_release(old(self)@, addr),
    {
        match self.controller {
            Some(current) => {
                if current == addr {
                    self.controller = None;
                    true
                } else {
                    false
                }
            },
            None => false,
        }
    }

    /// Whether `addr` holds control.
    pub fn has_control(&self, addr: ClientAddr) -> (held: bool)
        ensures
            held == (self@ == Some(addr)),
    {
        match self.controller {
            Some(current) => current == addr,
            None => false,
        }
    }

    /// The client that holds control, if any.
    pub fn get_controller(&self) -> (holder: Option<ClientAddr>)
        ensures
            holder == self@,
    {
        self.controller
    }
}

} // verus!
