//! Socket addresses as plain values.

use vstd::prelude::*;

verus! {

/// An IP address: a version 4 address as its 32-bit big-endian value, or a
/// version 6 address as its 128-bit big-endian value.
#[derive(Debug, Clone, Copy, PartialEq, Eq, Structural)]
pub enum IpAddress {
    V4(u32),
    V6(u128),
}

/// An IP address and a port.
#[derive(Debug, Clone, Copy, PartialEq, Eq, Structural)]
pub struct SocketAddress {
    pub ip: IpAddress,
    pub port: u16,
}

/// The IPv4 loopback address, 127.0.0.1.
pub const LOOPBACK_V4: u32 = 0x7f00_0001;

impl SocketAddress {
    /// The loopback address 127.0.0.1 with the given port.
    pub fn loopback(port: u16) -> (r: SocketAddress)
        ensures
            r.ip == IpAddress::V4(LOOPBACK_V4),
            r.port == port,
    {
        SocketAddress { ip: IpAddress::V4(LOOPBACK_V4), port }
    }

    /// The same address with another port.
    pub fn with_port(&self, port: u16) -> (r: SocketAddress)
        ensures
            r.ip == self.ip,
            r.port == port,
    {
        SocketAddress { ip: self.ip, port }
    }
}

} // verus!
