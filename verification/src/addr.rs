//! Socket-address model used by the loop-prevention guards.
//!
//! A candidate connection target is reduced to the facts the guards
//! read: the raw address bytes (enough to decide whether it is a
//! loopback address) and the port.

use vstd::prelude::*;

verus! {

/// An IP address, held as its raw bytes.
#[derive(Clone, Copy, Debug, PartialEq, Eq, Hash)]
pub enum IpAddr {
    /// An IPv4 address as its four octets.
    V4(u8, u8, u8, u8),
    /// An IPv6 address as eight 16-bit segments.
    V6(u16, u16, u16, u16, u16, u16, u16, u16),
}

/// A candidate connection target: an address and a port.
#[derive(Clone, Copy, Debug, PartialEq, Eq, Hash)]
pub struct SocketAddr {
    pub ip: IpAddr,
    pub port: u16,
}

impl IpAddr {
    /// Whether this address is a loopback address: `127.0.0.0/8` for
    /// IPv4, `::1` for IPv6.
    pub open spec fn spec_is_loopback(self) -> bool {
        match self {
            IpAddr::V4(a, _, _, _) => a == 127,
            IpAddr::V6(a, b, c, d, e, f, g, h) => a == 0 && b == 0 && c == 0 && d == 0
                && e == 0 && f == 0 && g == 0 && h == 1,
        }
    }

    /// Whether this address is a loopback address.
    pub fn is_loopback(&self) -> (r: bool)
        ensures
            r == self.spec_is_loopback(),
    {
        match self {
            IpAddr::V4(a, _, _, _) => *a == 127,
            IpAddr::V6(a, b, c, d, e, f, g, h) => *a == 0 && *b == 0 && *c == 0 && *d == 0
                && *e == 0 && *f == 0 && *g == 0 && *h == 1,
        }
    }
}

impl SocketAddr {
    /// Builds a target from its parts.
    pub fn new(ip: IpAddr, port: u16) -> (r: SocketAddr)
        ensures
            r.ip == ip,
            r.port == port,
    {
        SocketAddr { ip, port }
    }
}

} // verus!
