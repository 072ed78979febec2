//! Plain-value model of IP addresses and socket addresses.

use vstd::prelude::*;

verus! {

/// An IPv4 address as its four octets, most significant first.
#[derive(Clone, Copy, Debug, PartialEq, Eq, Structural)]
pub struct Ipv4Address(pub u8, pub u8, pub u8, pub u8);

/// An IP address: version 4, or version 6 as one 128-bit number (most
/// significant segment first).
#[derive(Clone, Copy, Debug, PartialEq, Eq, Structural)]
pub enum IpAddress {
    V4(Ipv4Address),
    V6(u128),
}

/// The IPv4 unspecified address, `0.0.0.0`.
pub open spec fn unspecified_v4() -> IpAddress {
    IpAddress::V4(Ipv4Address(0, 0, 0, 0))
}

/// The IPv4 loopback address, `127.0.0.1`.
pub open spec fn loopback_v4() -> IpAddress {
    IpAddress::V4(Ipv4Address(127, 0, 0, 1))
}

/// `0.0.0.0` or `::`.
pub open spec fn spec_is_unspecified(ip: IpAddress) -> bool {
    match ip {
        IpAddress::V4(Ipv4Address(a, b, c, d)) => a == 0 && b == 0 && c == 0 && d == 0,
        IpAddress::V6(bits) => bits == 0,
    }
}

/// `127.0.0.0/8` or `::1`.
pub open spec fn spec_is_loopback(ip: IpAddress) -> bool {
    match ip {
        IpAddress::V4(Ipv4Address(a, _, _, _)) => a == 127,
        IpAddress::V6(bits) => bits == 1,
    }
}

impl IpAddress {
    /// The IPv4 address `a.b.c.d`.
    pub fn v4(a: u8, b: u8, c: u8, d: u8) -> (r: IpAddress)
        ensures
            r == IpAddress::V4(Ipv4Address(a, b, c, d)),
    {
        IpAddress::V4(Ipv4Address(a, b, c, d))
    }

    /// The IPv4 unspecified address, `0.0.0.0`.
    pub fn unspecified() -> (r: IpAddress)
        ensures
            r == unspecified_v4(),
    {
        IpAddress::V4(Ipv4Address(0, 0, 0, 0))
    }

    /// The IPv4 loopback address, `127.0.0.1`.
    pub fn loopback() -> (r: IpAddress)
        ensures
            r == loopback_v4(),
    {
        IpAddress::V4(Ipv4Address(127, 0, 0, 1))
    }

    /// Whether this is the unspecified address of its version.
    pub fn is_unspecified(&self) -> (r: bool)
        ensures
            r == spec_is_unspecified(*self),
    {
        match self {
            IpAddress::V4(Ipv4Address(a, b, c, d)) => *a == 0 && *b == 0 && *c == 0 && *d == 0,
            IpAddress::V6(bits) => *bits == 0,
        }
    }

    /// Whether this is a loopback address of its version.
    pub fn is_loopback(&self) -> (r: bool)
        ensures
            r == spec_is_loopback(*self),
    {
        match self {
            IpAddress::V4(Ipv4Address(a, _, _, _)) => *a == 127,
            IpAddress::V6(bits) => *bits == 1,
        }
    }
}

/// An IP address together with a port.
#[derive(Clone, Copy, Debug, PartialEq, Eq, Structural)]
pub struct SocketAddress {
    pub ip: IpAddress,
    pub port: u16,
}

impl SocketAddress {
    pub fn new(ip: IpAddress, port: u16) -> (r: SocketAddress)
        ensures
            r.ip == ip,
            r.port == port,
    {
        SocketAddress { ip, port }
    }
}

} // verus!
