//! Which DNS servers are used while a tunnel is up.

use crate::net::{copy_list, IpAddr};
use vstd::prelude::*;

verus! {

/// The DNS servers asked for by the settings.
#[derive(Debug, PartialEq, Eq)]
pub enum DnsConfig {
    /// Use the servers that the tunnel itself offers, that is, its gateways.
    Default,
    /// Use the given servers: those reached through the tunnel and those
    /// reached beside it.
    Override { tunnel_config: Vec<IpAddr>, non_tunnel_config: Vec<IpAddr> },
}

/// The mathematical value of a [`DnsConfig`].
pub enum DnsConfigView {
    Default,
    Override { tunnel_config: Seq<IpAddr>, non_tunnel_config: Seq<IpAddr> },
}

impl View for DnsConfig {
    type V = DnsConfigView;

    open spec fn view(&self) -> DnsConfigView {
        match *self {
            DnsConfig::Default => DnsConfigView::Default,
            DnsConfig::Override { tunnel_config, non_tunnel_config } => DnsConfigView::Override {
                tunnel_config: tunnel_config@,
                non_tunnel_config: non_tunnel_config@,
            },
        }
    }
}

/// The servers that are in use for one tunnel.
#[derive(Debug, PartialEq, Eq)]
pub struct ResolvedDnsConfig {
    /// Servers reached through the tunnel.
    pub tunnel_config: Vec<IpAddr>,
    /// Servers reached beside the tunnel.
    pub non_tunnel_config: Vec<IpAddr>,
}

/// The mathematical value of a [`ResolvedDnsConfig`].
pub struct ResolvedDnsConfigView {
    pub tunnel_config: Seq<IpAddr>,
    pub non_tunnel_config: Seq<IpAddr>,
}

impl View for ResolvedDnsConfig {
    type V = ResolvedDnsConfigView;

    open spec fn view(&self) -> ResolvedDnsConfigView {
        ResolvedDnsConfigView {
            tunnel_config: self.tunnel_config@,
            non_tunnel_config: self.non_tunnel_config@,
        }
    }
}

/// The servers in use when `config` is asked for on a tunnel whose own
/// servers are `default_tunnel_config`.
pub open spec fn resolve_spec(
    config: DnsConfigView,
    default_tunnel_config: Seq<IpAddr>,
) -> ResolvedDnsConfigView {
    match config {
        DnsConfigView::Default => ResolvedDnsConfigView {
            tunnel_config: default_tunnel_config,
            non_tunnel_config: Seq::empty(),
        },
        DnsConfigView::Override { tunnel_config, non_tunnel_config } => ResolvedDnsConfigView {
            tunnel_config,
            non_tunnel_config,
        },
    }
}

/// A copy of a list of addresses.
pub fn clone_addresses(addresses: &Vec<IpAddr>) -> (copy: Vec<IpAddr>)
    ensures
        copy@ == addresses@,
{
    copy_list(addresses)
}

/// Whether two lists hold the same addresses in the same order.
pub fn same_addresses(left: &Vec<IpAddr>, right: &Vec<IpAddr>) -> (same: bool)
    ensures
        same == (left@ == right@),
{
    if left.len() != right.len() {
        return false;
    }
    let mut i: usize = 0;
    while i < left.len()
        invariant
            i <= left.len(),
            left.len() == right.len(),
            left@.subrange(0, i as int) == right@.subrange(0, i as int),
        decreases left.len() - i,
    {
        if left[i] != right[i] {
            assert(left@[i as int] != right@[i as int]);
            return false;
        }
        i = i + 1;
        assert(left@.subrange(0, i as int) =~= right@.subrange(0, i as int)) by {
            assert forall|k: int| 0 <= k < i implies left@[k] == right@[k] by {
                if k < i - 1 {
                    assert(left@.subrange(0, i - 1)[k] == right@.subrange(0, i - 1)[k]);
                }
            }
        }
    }
    assert(left@.subrange(0, i as int) =~= left@);
    assert(right@.subrange(0, i as int) =~= right@);
    true
}

impl Clone for ResolvedDnsConfig {
    fn clone(&self) -> (copy: ResolvedDnsConfig)
        ensures
            copy@ == self@,
    {
        ResolvedDnsConfig {
            tunnel_config: clone_addresses(&self.tunnel_config),
            non_tunnel_config: clone_addresses(&self.non_tunnel_config),
        }
    }
}

impl Clone for DnsConfig {
    fn clone(&self) -> (copy: DnsConfig)
        ensures
            copy@ == self@,
    {
        match self {
            DnsConfig::Default => DnsConfig::Default,
            DnsConfig::Override { tunnel_config, non_tunnel_config } => DnsConfig::Override {
                tunnel_config: clone_addresses(tunnel_config),
                non_tunnel_config: clone_addresses(non_tunnel_config),
            },
        }
    }
}

impl DnsConfig {
    /// Whether `other` asks for the same servers.
    pub fn same_as(&self, other: &DnsConfig) -> (same: bool)
        ensures
            same == (self@ == other@),
    {
        match (self, other) {
            (DnsConfig::Default, DnsConfig::Default) => true,
            (
                DnsConfig::Override { tunnel_config: t1, non_tunnel_config: n1 },
                DnsConfig::Override { tunnel_config: t2, non_tunnel_config: n2 },
            ) => same_addresses(t1, t2) && same_addresses(n1, n2),
            _ => false,
        }
    }

    /// The servers to use on a tunnel whose own servers are
    /// `default_tunnel_config`: those unless the settings name others.
    pub fn resolve(&self, default_tunnel_config: &Vec<IpAddr>) -> (resolved: ResolvedDnsConfig)
        ensures
            resolved@ == resolve_spec(self@, default_tunnel_config@),
    {
        match self {
            DnsConfig::Default => ResolvedDnsConfig {
                tunnel_config: clone_addresses(default_tunnel_config),
                non_tunnel_config: Vec::new(),
            },
            DnsConfig::Override { tunnel_config, non_tunnel_config } => ResolvedDnsConfig {
                tunnel_config: clone_addresses(tunnel_config),
                non_tunnel_config: clone_addresses(non_tunnel_config),
            },
        }
    }
}

impl ResolvedDnsConfig {
    /// Every server in use, those of the tunnel first.
    pub fn addresses(&self) -> (all: Vec<IpAddr>)
        ensures
            all@ == self@.tunnel_config + self@.non_tunnel_config,
    {
        let mut all = clone_addresses(&self.tunnel_config);
        let mut i: usize = 0;
        while i < self.non_tunnel_config.len()
            invariant
                i <= self.non_tunnel_config.len(),
                all@ == self.tunnel_config@ + self.non_tunnel_config@.subrange(0, i as int),
            decreases self.non_tunnel_config.len() - i,
        {
            all.push(self.non_tunnel_config[i]);
            i = i + 1;
            assert(all@ =~= self.tunnel_config@ + self.non_tunnel_config@.subrange(0, i as int));
        }
        assert(self.non_tunnel_config@.subrange(0, i as int) =~= self.non_tunnel_config@);
        all
    }
}

} // verus!
