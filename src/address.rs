//! The address of a remote name server: an IP address and a port.

use vstd::prelude::*;

verus! {

/// An IPv4 or IPv6 address.
#[derive(Clone, Copy, Debug, PartialEq, Eq, Structural)]
pub enum IpAddress {
    /// Four octets, most significant first.
    V4(u8, u8, u8, u8),
    /// Eight 16-bit segments, most significant first.
    V6(u16, u16, u16, u16, u16, u16, u16, u16),
}

/// The address of a name server: IP address and port.
#[derive(Clone, Copy, Debug, PartialEq, Eq, Structural)]
pub struct SocketAddress {
    pub ip: IpAddress,
    pub port: u16,
}

impl SocketAddress {
    /// An IPv4 socket address from its four octets and a port.
    pub fn v4(a: u8, b: u8, c: u8, d: u8, port: u16) -> (r: SocketAddress)
        ensures
            r.ip == IpAddress::V4(a, b, c, d),
            r.port == port,
    {
        SocketAddress { ip: IpAddress::V4(a, b, c, d), port }
    }

    /// An IPv6 socket address from its eight segments and a port.
    pub fn v6(segments: [u16; 8], port: u16) -> (r: SocketAddress)
        ensures
            r.ip == IpAddress::V6(
                segments[0], segments[1], segments[2], segments[3],
                segments[4], segments[5], segments[6], segments[7],
            ),
            r.port == port,
    {
        let ip = IpAddress::V6(
            segments[0], segments[1], segments[2], segments[3],
            segments[4], segments[5], segments[6], segments[7],
        );
        SocketAddress { ip, port }
    }

    /// Whether the address is an IPv4 one.
    pub fn is_ipv4(&self) -> (r: bool)
        ensures
            r == (self.ip is V4),
    {
        match self.ip {
            IpAddress::V4(..) => true,
            IpAddress::V6(..) => false,
        }
    }
}

} // verus!
