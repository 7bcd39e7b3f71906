//! Internet addresses as plain values.

use vstd::prelude::*;

verus! {

/// An IPv4 address: its four octets as one big-endian number.
#[derive(Clone, Copy, Debug, PartialEq, Eq, Hash, Structural)]
pub struct Ipv4Addr {
    pub bits: u32,
}

/// An IPv6 address: its eight segments as one big-endian number.
#[derive(Clone, Copy, Debug, PartialEq, Eq, Hash, Structural)]
pub struct Ipv6Addr {
    pub bits: u128,
}

/// An address of either family.
#[derive(Clone, Copy, Debug, PartialEq, Eq, Hash, Structural)]
pub enum IpAddr {
    V4(Ipv4Addr),
    V6(Ipv6Addr),
}

/// An IPv4 address and a port.
#[derive(Clone, Copy, Debug, PartialEq, Eq, Hash, Structural)]
pub struct SocketAddrV4 {
    pub ip: Ipv4Addr,
    pub port: u16,
}

/// An IPv6 address and a port, with flow information and scope.
#[derive(Clone, Copy, Debug, PartialEq, Eq, Hash, Structural)]
pub struct SocketAddrV6 {
    pub ip: Ipv6Addr,
    pub port: u16,
    pub flowinfo: u32,
    pub scope_id: u32,
}

/// A socket address of either family.
#[derive(Clone, Copy, Debug, PartialEq, Eq, Hash, Structural)]
pub enum SocketAddr {
    V4(SocketAddrV4),
    V6(SocketAddrV6),
}

impl Ipv4Addr {
    /// The address `a.b.c.d`.
    pub fn new(a: u8, b: u8, c: u8, d: u8) -> (ip: Ipv4Addr)
        ensures
            ip.bits == a * 0x100_0000 + b * 0x1_0000 + c * 0x100 + d,
    {
        Ipv4Addr {
            bits: a as u32 * 0x100_0000 + b as u32 * 0x1_0000 + c as u32 * 0x100 + d as u32,
        }
    }
}

impl SocketAddrV4 {
    pub fn new(ip: Ipv4Addr, port: u16) -> (addr: SocketAddrV4)
        ensures
            addr == (SocketAddrV4 { ip, port }),
    {
        SocketAddrV4 { ip, port }
    }
}

impl SocketAddrV6 {
    pub fn new(ip: Ipv6Addr, port: u16, flowinfo: u32, scope_id: u32) -> (addr: SocketAddrV6)
        ensures
            addr == (SocketAddrV6 { ip, port, flowinfo, scope_id }),
    {
        SocketAddrV6 { ip, port, flowinfo, scope_id }
    }
}

/// The socket address of an IP address and a port; an IPv6 one has neither flow
/// information nor scope.
pub open spec fn socket_addr(ip: IpAddr, port: u16) -> SocketAddr {
    match ip {
        IpAddr::V4(ip) => SocketAddr::V4(SocketAddrV4 { ip, port }),
        IpAddr::V6(ip) => SocketAddr::V6(SocketAddrV6 { ip, port, flowinfo: 0, scope_id: 0 }),
    }
}

/// The local address from which a socket can reach `peer`: any address of the
/// same family (`0.0.0.0` or `::`), on a port that the system picks.
pub open spec fn unspecified_for(peer: SocketAddr) -> SocketAddr {
    match peer {
        SocketAddr::V4(_) => socket_addr(IpAddr::V4(Ipv4Addr { bits: 0 }), 0),
        SocketAddr::V6(_) => socket_addr(IpAddr::V6(Ipv6Addr { bits: 0 }), 0),
    }
}

/// Hash map key of a socket address: whether it is IPv6, the IP address, the
/// port, the flow information and the scope.
pub type AddrKey = (bool, u128, u16, u32, u32);

impl SocketAddr {
    /// Joins an IP address and a port.
    pub fn new(ip: IpAddr, port: u16) -> (addr: SocketAddr)
        ensures
            addr == socket_addr(ip, port),
            match ip {
                IpAddr::V4(v4) => addr == SocketAddr::V4(SocketAddrV4 { ip: v4, port }),
                IpAddr::V6(v6) => addr == SocketAddr::V6(
                    (SocketAddrV6 { ip: v6, port, flowinfo: 0, scope_id: 0 }),
                ),
            },
    {
        match ip {
            IpAddr::V4(ip) => SocketAddr::V4(SocketAddrV4::new(ip, port)),
            IpAddr::V6(ip) => SocketAddr::V6(SocketAddrV6::new(ip, port, 0, 0)),
        }
    }

    pub fn is_ipv4(&self) -> (b: bool)
        ensures
            b == (*self is V4),
    {
        match self {
            SocketAddr::V4(_) => true,
            SocketAddr::V6(_) => false,
        }
    }

    /// All the fields of the address as one tuple of integers.
    pub open spec fn key_spec(self) -> AddrKey {
        match self {
            SocketAddr::V4(a) => (false, a.ip.bits as u128, a.port, 0, 0),
            SocketAddr::V6(a) => (true, a.ip.bits, a.port, a.flowinfo, a.scope_id),
        }
    }

    /// The key under which the address is stored.
    pub fn key(&self) -> (key: AddrKey)
        ensures
            key == self.key_spec(),
    {
        match self {
            SocketAddr::V4(a) => (false, a.ip.bits as u128, a.port, 0, 0),
            SocketAddr::V6(a) => (true, a.ip.bits, a.port, a.flowinfo, a.scope_id),
        }
    }
}

/// Two socket addresses with one key are the same address.
pub proof fn keys_tell_addresses_apart(a: SocketAddr, b: SocketAddr)
    requires
        a.key_spec() == b.key_spec(),
    ensures
        a == b,
{
}

/// The address that a socket address has, and its port.
pub open spec fn parts(addr: SocketAddr) -> (IpAddr, u16) {
    match addr {
        SocketAddr::V4(a) => (IpAddr::V4(a.ip), a.port),
        SocketAddr::V6(a) => (IpAddr::V6(a.ip), a.port),
    }
}

/// A socket address made from an IP address and a port has just these: the
/// family and all the bits of the address, the port, and for IPv6 neither flow
/// information nor scope.
pub proof fn socket_addr_has_its_parts(ip: IpAddr, port: u16)
    ensures
        match (ip, socket_addr(ip, port)) {
            (IpAddr::V4(ip), SocketAddr::V4(a)) => a.ip.bits == ip.bits && a.port == port,
            (IpAddr::V6(ip), SocketAddr::V6(a)) => {
                &&& a.ip.bits == ip.bits
                &&& a.port == port
                &&& a.flowinfo == 0
                &&& a.scope_id == 0
            },
            _ => false,
        },
        parts(socket_addr(ip, port)) == (ip, port),
{
}

/// The key of an address has each of its fields, and tells the families apart.
pub proof fn key_has_every_field(addr: SocketAddr)
    ensures
        match addr {
            SocketAddr::V4(a) => {
                &&& !addr.key_spec().0
                &&& addr.key_spec().1 == a.ip.bits
                &&& addr.key_spec().2 == a.port
                &&& addr.key_spec().3 == 0
                &&& addr.key_spec().4 == 0
            },
            SocketAddr::V6(a) => {
                &&& addr.key_spec().0
                &&& addr.key_spec().1 == a.ip.bits
                &&& addr.key_spec().2 == a.port
                &&& addr.key_spec().3 == a.flowinfo
                &&& addr.key_spec().4 == a.scope_id
            },
        },
{
}

} // verus!
