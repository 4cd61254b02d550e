//! Addresses, endpoints and the other plain network values the rest of the
//! crate is built from.

use vstd::prelude::*;

verus! {

/// An IPv4 address, held as its 32 bits in network order.
#[derive(Clone, Copy, Debug, PartialEq, Eq, Hash, Structural)]
pub struct Ipv4Addr {
    pub bits: u32,
}

/// An IPv6 address, held as its 128 bits in network order.
#[derive(Clone, Copy, Debug, PartialEq, Eq, Hash, Structural)]
pub struct Ipv6Addr {
    pub bits: u128,
}

/// The 32 bits of the address `a.b.c.d`.
pub open spec fn ipv4_bits(a: u8, b: u8, c: u8, d: u8) -> int {
    a as int * 16777216 + b as int * 65536 + c as int * 256 + d as int
}

impl Ipv4Addr {
    /// The loopback address `127.0.0.1`.
    pub open spec fn localhost_spec() -> Ipv4Addr {
        Ipv4Addr { bits: 2130706433 }
    }

    /// The address `a.b.c.d`.
    pub fn new(a: u8, b: u8, c: u8, d: u8) -> (addr: Ipv4Addr)
        ensures
            addr.bits as int == ipv4_bits(a, b, c, d),
    {
        let high: u32 = a as u32 * 16777216 + b as u32 * 65536;
        let low: u32 = c as u32 * 256 + d as u32;
        Ipv4Addr { bits: high + low }
    }

    /// The loopback address `127.0.0.1`.
    pub fn localhost() -> (addr: Ipv4Addr)
        ensures
            addr == Self::localhost_spec(),
    {
        Ipv4Addr { bits: 2130706433 }
    }

    /// The four octets of the address, most significant first.
    pub fn octets(&self) -> (o: (u8, u8, u8, u8))
        ensures
            ipv4_bits(o.0, o.1, o.2, o.3) == self.bits as int,
    {
        let a: u32 = self.bits / 16777216;
        let b: u32 = (self.bits / 65536) % 256;
        let c: u32 = (self.bits / 256) % 256;
        let d: u32 = self.bits % 256;
        (a as u8, b as u8, c as u8, d as u8)
    }
}

/// An IP address of either family.
#[derive(Clone, Copy, Debug, PartialEq, Eq, Hash, Structural)]
pub enum IpAddr {
    V4(Ipv4Addr),
    V6(Ipv6Addr),
}

/// An IP address together with a port.
#[derive(Clone, Copy, Debug, PartialEq, Eq, Hash, Structural)]
pub struct SocketAddr {
    pub ip: IpAddr,
    pub port: u16,
}

impl SocketAddr {
    pub fn new(ip: IpAddr, port: u16) -> (addr: SocketAddr)
        ensures
            addr == (SocketAddr { ip, port }),
    {
        SocketAddr { ip, port }
    }
}

/// A network: an address and the number of its leading bits that name the network.
#[derive(Clone, Copy, Debug, PartialEq, Eq, Hash, Structural)]
pub struct IpNetwork {
    pub ip: IpAddr,
    pub prefix: u8,
}

/// The longest prefix that an address of the family of `ip` can have.
pub open spec fn max_prefix(ip: IpAddr) -> u8 {
    match ip {
        IpAddr::V4(_) => 32u8,
        IpAddr::V6(_) => 128u8,
    }
}

impl IpNetwork {
    /// The prefix is no longer than the address.
    pub open spec fn well_formed(self) -> bool {
        self.prefix <= max_prefix(self.ip)
    }

    /// The network of `ip` with the given prefix length, unless the prefix is
    /// longer than the address.
    pub fn new(ip: IpAddr, prefix: u8) -> (network: Option<IpNetwork>)
        ensures
            network == if prefix <= max_prefix(ip) {
                Some(IpNetwork { ip, prefix })
            } else {
                None
            },
            network matches Some(n) ==> n.well_formed(),
    {
        let limit: u8 = match ip {
            IpAddr::V4(_) => 32,
            IpAddr::V6(_) => 128,
        };
        if prefix <= limit {
            Some(IpNetwork { ip, prefix })
        } else {
            None
        }
    }
}

/// A copy of a list of plain values.
pub fn copy_list<T: Copy>(list: &Vec<T>) -> (copy: Vec<T>)
    ensures
        copy@ == list@,
{
    let mut copy: Vec<T> = Vec::new();
    let mut i: usize = 0;
    while i < list.len()
        invariant
            i <= list.len(),
            copy@ == list@.subrange(0, i as int),
        decreases list.len() - i,
    {
        copy.push(list[i]);
        i = i + 1;
        assert(copy@ =~= list@.subrange(0, i as int));
    }
    assert(list@.subrange(0, i as int) =~= list@);
    copy
}

/// An IPv4 address together with a port.
#[derive(Clone, Copy, Debug, PartialEq, Eq, Hash, Structural)]
pub struct SocketAddrV4 {
    pub ip: Ipv4Addr,
    pub port: u16,
}

impl SocketAddrV4 {
    /// The same address as one of either family.
    pub open spec fn generic_spec(self) -> SocketAddr {
        SocketAddr { ip: IpAddr::V4(self.ip), port: self.port }
    }

    /// The same address as one of either family.
    pub fn generic(&self) -> (address: SocketAddr)
        ensures
            address == self.generic_spec(),
    {
        SocketAddr { ip: IpAddr::V4(self.ip), port: self.port }
    }
}

/// The transport protocol of an endpoint.
#[derive(Clone, Copy, Debug, PartialEq, Eq, Hash, Structural)]
pub enum TransportProtocol {
    Udp,
    Tcp,
}

/// A socket address reached over a given transport protocol.
#[derive(Clone, Copy, Debug, PartialEq, Eq, Hash, Structural)]
pub struct Endpoint {
    pub address: SocketAddr,
    pub protocol: TransportProtocol,
}

impl Endpoint {
    pub fn from_socket_address(address: SocketAddr, protocol: TransportProtocol) -> (endpoint:
        Endpoint)
        ensures
            endpoint == (Endpoint { address, protocol }),
    {
        Endpoint { address, protocol }
    }
}

/// Which local processes may talk to an endpoint outside the tunnel.
#[derive(Clone, Copy, Debug, PartialEq, Eq, Hash, Structural)]
pub enum AllowedClients {
    /// Only processes of the superuser.
    Root,
    /// Every process.
    All,
}

/// An endpoint that the firewall lets through, and for whom.
#[derive(Clone, Copy, Debug, PartialEq, Eq, Hash, Structural)]
pub struct AllowedEndpoint {
    pub endpoint: Endpoint,
    pub clients: AllowedClients,
}

/// The tunnel's endpoint as it is shown outside the machine. Where the
/// tunnel's traffic is disguised, the outer endpoint of the disguise is no
/// part of it.
#[derive(Debug, PartialEq, Eq)]
pub struct TunnelEndpoint {
    /// The peer at the far end of the tunnel.
    pub endpoint: Endpoint,
    /// Whether a preshared key is negotiated when connecting.
    pub quantum_resistant: bool,
    /// The peer that the host talks to, where traffic takes two hops.
    pub entry_endpoint: Option<Endpoint>,
    /// Name of the tunnel's network interface, once there is one.
    pub tunnel_interface: Option<String>,
}

/// The mathematical value of a [`TunnelEndpoint`].
pub struct TunnelEndpointView {
    pub endpoint: Endpoint,
    pub quantum_resistant: bool,
    pub entry_endpoint: Option<Endpoint>,
    pub tunnel_interface: Option<Seq<char>>,
}

impl View for TunnelEndpoint {
    type V = TunnelEndpointView;

    open spec fn view(&self) -> TunnelEndpointView {
        TunnelEndpointView {
            endpoint: self.endpoint,
            quantum_resistant: self.quantum_resistant,
            entry_endpoint: self.entry_endpoint,
            tunnel_interface: match self.tunnel_interface {
                Some(interface) => Some(interface@),
                None => None,
            },
        }
    }
}

/// What is known about the reachability of the network.
#[derive(Clone, Copy, Debug, PartialEq, Eq, Hash, Structural)]
pub enum Connectivity {
    /// The state of each address family is known.
    Status { ipv4: bool, ipv6: bool },
    /// Nothing is known, so the network is taken to be reachable.
    PresumeOnline,
}

impl Connectivity {
    /// Neither address family has a route out.
    pub open spec fn is_offline_spec(self) -> bool {
        self == (Connectivity::Status { ipv4: false, ipv6: false })
    }

    /// Neither address family has a route out.
    pub fn is_offline(&self) -> (offline: bool)
        ensures
            offline == self.is_offline_spec(),
    {
        match self {
            Connectivity::Status { ipv4, ipv6 } => !*ipv4 && !*ipv6,
            Connectivity::PresumeOnline => false,
        }
    }
}

/// An outer transport that disguises the tunnel's traffic on its way to the peer.
#[derive(Clone, Copy, Debug, PartialEq, Eq, Hash, Structural)]
pub enum ObfuscatorConfig {
    Udp2Tcp { endpoint: SocketAddr },
    Shadowsocks { endpoint: SocketAddr },
}

impl ObfuscatorConfig {
    /// The outer endpoint that the obfuscated traffic is sent to.
    pub open spec fn obfuscator_endpoint(self) -> Endpoint {
        match self {
            ObfuscatorConfig::Udp2Tcp { endpoint } => Endpoint {
                address: endpoint,
                protocol: TransportProtocol::Tcp,
            },
            ObfuscatorConfig::Shadowsocks { endpoint } => Endpoint {
                address: endpoint,
                protocol: TransportProtocol::Udp,
            },
        }
    }

    /// The outer endpoint that the obfuscated traffic is sent to.
    pub fn get_obfuscator_endpoint(&self) -> (endpoint: Endpoint)
        ensures
            endpoint == self.obfuscator_endpoint(),
    {
        match self {
            ObfuscatorConfig::Udp2Tcp { endpoint } => Endpoint {
                address: *endpoint,
                protocol: TransportProtocol::Tcp,
            },
            ObfuscatorConfig::Shadowsocks { endpoint } => Endpoint {
                address: *endpoint,
                protocol: TransportProtocol::Udp,
            },
        }
    }
}

} // verus!
