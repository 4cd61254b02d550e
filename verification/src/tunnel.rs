//! What a running tunnel reports about itself, and why a tunnel may have to
//! be given up.

use crate::dns::clone_addresses;
use crate::net::{IpAddr, Ipv4Addr, Ipv6Addr};
use vstd::prelude::*;

verus! {

/// Why the firewall could not be brought into the wanted state.
#[derive(Clone, Copy, Debug, PartialEq, Eq, Hash, Structural)]
pub enum FirewallPolicyError {
    /// The backend failed without saying more.
    Generic,
    /// Another program holds the firewall.
    Locked,
}

/// Why the machine blocks all traffic instead of holding a tunnel.
#[derive(Clone, Copy, Debug, PartialEq, Eq, Hash, Structural)]
pub enum ErrorStateCause {
    /// The peer refused the credentials.
    AuthFailed,
    /// IPv6 was asked for and the host has none.
    Ipv6Unavailable,
    /// The firewall did not take a policy.
    SetFirewallPolicyError(FirewallPolicyError),
    /// The DNS servers could not be set.
    SetDnsError,
    /// The tunnel could not be brought up.
    StartTunnelError,
    /// The host has no route to the network.
    IsOffline,
    /// The excluded applications could not be set up.
    SplitTunnelError,
}

/// What a tunnel that is up says of itself.
#[derive(Debug, PartialEq, Eq)]
pub struct TunnelMetadata {
    /// Name of the tunnel's network interface.
    pub interface: String,
    /// Addresses assigned to the interface.
    pub ips: Vec<IpAddr>,
    /// The IPv4 gateway inside the tunnel.
    pub ipv4_gateway: Ipv4Addr,
    /// The IPv6 gateway inside the tunnel, where there is one.
    pub ipv6_gateway: Option<Ipv6Addr>,
}

/// The mathematical value of a [`TunnelMetadata`].
pub struct TunnelMetadataView {
    pub interface: Seq<char>,
    pub ips: Seq<IpAddr>,
    pub ipv4_gateway: Ipv4Addr,
    pub ipv6_gateway: Option<Ipv6Addr>,
}

impl View for TunnelMetadata {
    type V = TunnelMetadataView;

    open spec fn view(&self) -> TunnelMetadataView {
        TunnelMetadataView {
            interface: self.interface@,
            ips: self.ips@,
            ipv4_gateway: self.ipv4_gateway,
            ipv6_gateway: self.ipv6_gateway,
        }
    }
}

impl TunnelMetadataView {
    /// The gateways of the tunnel: the IPv4 one, then the IPv6 one if there is one.
    pub open spec fn gateways(self) -> Seq<IpAddr> {
        match self.ipv6_gateway {
            Some(gateway) => seq![IpAddr::V4(self.ipv4_gateway), IpAddr::V6(gateway)],
            None => seq![IpAddr::V4(self.ipv4_gateway)],
        }
    }
}

impl Clone for TunnelMetadata {
    fn clone(&self) -> (copy: TunnelMetadata)
        ensures
            copy@ == self@,
    {
        TunnelMetadata {
            interface: self.interface.clone(),
            ips: clone_addresses(&self.ips),
            ipv4_gateway: self.ipv4_gateway,
            ipv6_gateway: self.ipv6_gateway,
        }
    }
}

impl TunnelMetadata {
    /// The gateways of the tunnel: the IPv4 one, then the IPv6 one if there is one.
    pub fn gateways(&self) -> (gateways: Vec<IpAddr>)
        ensures
            gateways@ == self@.gateways(),
    {
        let mut gateways: Vec<IpAddr> = Vec::new();
        gateways.push(IpAddr::V4(self.ipv4_gateway));
        if let Some(gateway) = self.ipv6_gateway {
            gateways.push(IpAddr::V6(gateway));
        }
        assert(gateways@ =~= self@.gateways());
        gateways
    }
}

/// What the tunnel monitor reports while it supervises a tunnel.
#[derive(Debug, PartialEq, Eq)]
pub enum TunnelEvent {
    /// The tunnel is ready for traffic.
    Up(TunnelMetadata),
    /// The tunnel has ended without a fatal error.
    Down,
}

/// The mathematical value of a [`TunnelEvent`].
pub enum TunnelEventView {
    Up(TunnelMetadataView),
    Down,
}

impl View for TunnelEvent {
    type V = TunnelEventView;

    open spec fn view(&self) -> TunnelEventView {
        match *self {
            TunnelEvent::Up(metadata) => TunnelEventView::Up(metadata@),
            TunnelEvent::Down => TunnelEventView::Down,
        }
    }
}

} // verus!
