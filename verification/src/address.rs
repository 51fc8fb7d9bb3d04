//! Network addresses as plain values: an IP address and a socket address
//! (IP address and port, with the flow and scope fields of IPv6).

use vstd::prelude::*;

verus! {

/// The IPv4 loopback address 127.0.0.1, as its 32 bits.
pub const LOCALHOST: u32 = 0x7f00_0001;

/// An IP address: IPv4 as its 32 bits, IPv6 as its 128 bits, most
/// significant octet first.
#[derive(Debug, Clone, Copy, PartialEq, Eq, Structural)]
pub enum IpAddress {
    V4(u32),
    V6(u128),
}

/// A socket address: an IP address and a port; an IPv6 one also carries
/// its flow information and scope id.
#[allow(inconsistent_fields)]
#[derive(Debug, Clone, Copy, PartialEq, Eq, Structural)]
pub enum SocketAddress {
    V4 { ip: u32, port: u16 },
    V6 { ip: u128, port: u16, flowinfo: u32, scope_id: u32 },
}

impl SocketAddress {
    /// The IP address of this socket address.
    pub open spec fn spec_ip(self) -> IpAddress {
        match self {
            SocketAddress::V4 { ip, .. } => IpAddress::V4(ip),
            SocketAddress::V6 { ip, .. } => IpAddress::V6(ip),
        }
    }

    /// The port of this socket address.
    pub open spec fn spec_port(self) -> u16 {
        match self {
            SocketAddress::V4 { port, .. } => port,
            SocketAddress::V6 { port, .. } => port,
        }
    }

    /// The IP address of this socket address.
    pub fn ip(&self) -> (r: IpAddress)
        ensures
            r == self.spec_ip(),
    {
        match self {
            SocketAddress::V4 { ip, .. } => IpAddress::V4(*ip),
            SocketAddress::V6 { ip, .. } => IpAddress::V6(*ip),
        }
    }

    /// The port of this socket address.
    pub fn port(&self) -> (r: u16)
        ensures
            r == self.spec_port(),
    {
        match self {
            SocketAddress::V4 { port, .. } => *port,
            SocketAddress::V6 { port, .. } => *port,
        }
    }

    /// The loopback socket address 127.0.0.1 with port `port`.
    pub fn localhost(port: u16) -> (r: SocketAddress)
        ensures
            r == (SocketAddress::V4 { ip: LOCALHOST, port }),
    {
        SocketAddress::V4 { ip: LOCALHOST, port }
    }
}

} // verus!
