//! Addresses of the peers that are probed.

use vstd::prelude::*;

verus! {

/// An IP address of either family, as the number that its bytes spell in
/// network order.
#[derive(Debug, Clone, Copy, PartialEq, Eq, Hash, Structural)]
pub enum IpAddress {
    V4(u32),
    V6(u128),
}

/// The address that a datagram comes from or goes to.
#[derive(Debug, Clone, Copy, PartialEq, Eq, Hash, Structural)]
#[allow(inconsistent_fields)]
pub enum SocketAddress {
    V4 { ip: u32, port: u16 },
    V6 { ip: u128, port: u16, flowinfo: u32, scope_id: u32 },
}

/// The address under which a probe to `ip` is registered and sent: port,
/// flow information and scope are all zero.
pub open spec fn probe_address(ip: IpAddress) -> SocketAddress {
    match ip {
        IpAddress::V4(ip) => SocketAddress::V4 { ip, port: 0 },
        IpAddress::V6(ip) => SocketAddress::V6 { ip, port: 0, flowinfo: 0, scope_id: 0 },
    }
}

impl SocketAddress {
    pub fn is_ipv6(&self) -> (r: bool)
        ensures
            r == (self is V6),
    {
        match self {
            SocketAddress::V4 { .. } => false,
            SocketAddress::V6 { .. } => true,
        }
    }

    /// The address under which a probe to `ip` is registered and sent.
    pub fn for_probe(ip: IpAddress) -> (r: Self)
        ensures
            r == probe_address(ip),
    {
        match ip {
            IpAddress::V4(ip) => SocketAddress::V4 { ip, port: 0 },
            IpAddress::V6(ip) => SocketAddress::V6 { ip, port: 0, flowinfo: 0, scope_id: 0 },
        }
    }

    /// The IPv4 address that binds to every interface and lets the system
    /// pick the port.
    pub fn unspecified_v4() -> (r: Self)
        ensures
            r == (SocketAddress::V4 { ip: 0, port: 0 }),
    {
        SocketAddress::V4 { ip: 0, port: 0 }
    }

    /// The IPv6 address that binds to every interface and lets the system
    /// pick the port.
    pub fn unspecified_v6() -> (r: Self)
        ensures
            r == (SocketAddress::V6 { ip: 0, port: 0, flowinfo: 0, scope_id: 0 }),
    {
        SocketAddress::V6 { ip: 0, port: 0, flowinfo: 0, scope_id: 0 }
    }
}

} // verus!
