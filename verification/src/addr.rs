//! Socket addresses as plain values.
use vstd::prelude::*;

verus! {

/// An internet socket address: an IP address and a port.
///
/// The IP address is held as the integer that its bytes spell in network
/// order, so `127.0.0.1` is `0x7f00_0001`.
#[derive(Debug, Clone, Copy, PartialEq, Eq, Structural)]
#[allow(inconsistent_fields)]
pub enum SocketAddress {
    /// An IPv4 address and a port.
    V4 { ip: u32, port: u16 },
    /// An IPv6 address, a port, and the two fields that IPv6 adds.
    V6 { ip: u128, port: u16, flowinfo: u32, scope_id: u32 },
}

/// The domain a socket is created in.
#[derive(Debug, Clone, Copy, PartialEq, Eq, Structural)]
pub enum Domain {
    /// The IPv4 domain.
    Ipv4,
    /// The IPv6 domain.
    Ipv6,
    /// Darwin's multipath domain, `AF_MULTIPATH`.
    Multipath,
}

impl SocketAddress {
    /// The port of the address.
    pub open spec fn spec_port(&self) -> u16 {
        match *self {
            SocketAddress::V4 { port, .. } => port,
            SocketAddress::V6 { port, .. } => port,
        }
    }

    /// The port of the address.
    #[verifier::when_used_as_spec(spec_port)]
    pub fn port(&self) -> (p: u16)
        ensures
            p == self.spec_port(),
    {
        match *self {
            SocketAddress::V4 { port, .. } => port,
            SocketAddress::V6 { port, .. } => port,
        }
    }
}

impl Domain {
    /// The IP domain that an address belongs to.
    pub open spec fn spec_for_address(addr: SocketAddress) -> Domain {
        match addr {
            SocketAddress::V4 { .. } => Domain::Ipv4,
            SocketAddress::V6 { .. } => Domain::Ipv6,
        }
    }

    /// The IP domain that an address belongs to.
    #[verifier::when_used_as_spec(spec_for_address)]
    pub fn for_address(addr: SocketAddress) -> (domain: Domain)
        ensures
            domain == Domain::spec_for_address(addr),
    {
        match addr {
            SocketAddress::V4 { .. } => Domain::Ipv4,
            SocketAddress::V6 { .. } => Domain::Ipv6,
        }
    }
}

} // verus!
