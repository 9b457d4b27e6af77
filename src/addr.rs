//! Peer addresses, held as plain values.

use vstd::prelude::*;

verus! {

/// An IP address: four octets, or eight 16-bit segments.
#[derive(Clone, Copy, Debug, PartialEq, Eq)]
pub enum IpAddress {
    V4([u8; 4]),
    V6([u16; 8]),
}

/// The address of a datagram's sender.
#[derive(Clone, Copy, Debug, PartialEq, Eq)]
pub enum PeerAddr {
    V4 { octets: [u8; 4], port: u16 },
    V6 { segments: [u16; 8], port: u16, flowinfo: u32, scope_id: u32 },
}

impl PeerAddr {
    /// The host part of the address.
    pub open spec fn host(self) -> IpAddress {
        match self {
            PeerAddr::V4 { octets, .. } => IpAddress::V4(octets),
            PeerAddr::V6 { segments, .. } => IpAddress::V6(segments),
        }
    }

    /// The port part of the address.
    pub open spec fn port_of(self) -> u16 {
        match self {
            PeerAddr::V4 { port, .. } => port,
            PeerAddr::V6 { port, .. } => port,
        }
    }

    /// Whether this is `0.0.0.0:0`.
    pub open spec fn is_unspecified(self) -> bool {
        &&& self matches PeerAddr::V4 { octets, port }
        &&& octets@ == seq![0u8, 0u8, 0u8, 0u8]
        &&& port == 0
    }

    /// The IPv4 address `a.b.c.d:port`.
    pub fn v4(a: u8, b: u8, c: u8, d: u8, port: u16) -> (r: PeerAddr)
        ensures
            r matches PeerAddr::V4 { octets, port: p } && octets@ == seq![a, b, c, d] && p == port,
    {
        let r = PeerAddr::V4 { octets: [a, b, c, d], port };
        proof {
            if let PeerAddr::V4 { octets, .. } = r {
                assert(octets@ =~= seq![a, b, c, d]);
            }
        }
        r
    }

    /// The address `0.0.0.0:0`, used where no peer is known.
    pub fn unspecified() -> (r: PeerAddr)
        ensures
            r.is_unspecified(),
    {
        PeerAddr::v4(0, 0, 0, 0, 0)
    }

    /// The host part of the address.
    pub fn ip(&self) -> (r: IpAddress)
        ensures
            r == self.host(),
    {
        match self {
            PeerAddr::V4 { octets, .. } => IpAddress::V4(*octets),
            PeerAddr::V6 { segments, .. } => IpAddress::V6(*segments),
        }
    }

    /// The port part of the address.
    pub fn port(&self) -> (r: u16)
        ensures
            r == self.port_of(),
    {
        match self {
            PeerAddr::V4 { port, .. } => *port,
            PeerAddr::V6 { port, .. } => *port,
        }
    }
}

} // verus!
