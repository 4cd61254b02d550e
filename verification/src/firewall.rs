//! What the firewall is asked to let through, and the record the machine
//! keeps of what is in force.

use crate::dns::{ResolvedDnsConfig, ResolvedDnsConfigView};
use crate::net::AllowedEndpoint;
use crate::tunnel::{TunnelMetadata, TunnelMetadataView};
use vstd::prelude::*;

verus! {

/// A complete description of the traffic that may pass. A policy is never
/// changed in place: a new one replaces it as a whole.
#[derive(Debug, PartialEq, Eq)]
pub enum FirewallPolicy {
    /// A tunnel is being set up: only the traffic that sets it up may pass.
    Connecting {
        /// The peer that the tunnel is negotiated with.
        peer_endpoint: AllowedEndpoint,
        /// Whether traffic to the local network may pass.
        allow_lan: bool,
        /// An endpoint that may be reached whatever the state.
        allowed_endpoint: AllowedEndpoint,
    },
    /// A tunnel is up: traffic may pass through it.
    Connected {
        /// The peer that carries the tunnel.
        peer_endpoint: AllowedEndpoint,
        /// The tunnel that traffic may pass through.
        tunnel: TunnelMetadata,
        /// Whether traffic to the local network may pass.
        allow_lan: bool,
        /// The DNS servers that may be asked.
        dns_config: ResolvedDnsConfig,
    },
    /// Nothing may pass but what is named here.
    Blocked {
        /// Whether traffic to the local network may pass.
        allow_lan: bool,
        /// An endpoint that may be reached whatever the state.
        allowed_endpoint: AllowedEndpoint,
    },
}

/// The mathematical value of a [`FirewallPolicy`].
pub enum FirewallPolicyView {
    Connecting { peer_endpoint: AllowedEndpoint, allow_lan: bool, allowed_endpoint: AllowedEndpoint },
    Connected {
        peer_endpoint: AllowedEndpoint,
        tunnel: TunnelMetadataView,
        allow_lan: bool,
        dns_config: ResolvedDnsConfigView,
    },
    Blocked { allow_lan: bool, allowed_endpoint: AllowedEndpoint },
}

impl View for FirewallPolicy {
    type V = FirewallPolicyView;

    open spec fn view(&self) -> FirewallPolicyView {
        match *self {
            FirewallPolicy::Connecting {
                peer_endpoint,
                allow_lan,
                allowed_endpoint,
            } => FirewallPolicyView::Connecting { peer_endpoint, allow_lan, allowed_endpoint },
            FirewallPolicy::Connected {
                peer_endpoint,
                tunnel,
                allow_lan,
                dns_config,
            } => FirewallPolicyView::Connected {
                peer_endpoint,
                tunnel: tunnel@,
                allow_lan,
                dns_config: dns_config@,
            },
            FirewallPolicy::Blocked { allow_lan, allowed_endpoint } => FirewallPolicyView::Blocked {
                allow_lan,
                allowed_endpoint,
            },
        }
    }
}

impl Clone for FirewallPolicy {
    fn clone(&self) -> (copy: FirewallPolicy)
        ensures
            copy@ == self@,
    {
        match self {
            FirewallPolicy::Connecting {
                peer_endpoint,
                allow_lan,
                allowed_endpoint,
            } => FirewallPolicy::Connecting {
                peer_endpoint: *peer_endpoint,
                allow_lan: *allow_lan,
                allowed_endpoint: *allowed_endpoint,
            },
            FirewallPolicy::Connected {
                peer_endpoint,
                tunnel,
                allow_lan,
                dns_config,
            } => FirewallPolicy::Connected {
                peer_endpoint: *peer_endpoint,
                tunnel: tunnel.clone(),
                allow_lan: *allow_lan,
                dns_config: dns_config.clone(),
            },
            FirewallPolicy::Blocked { allow_lan, allowed_endpoint } => FirewallPolicy::Blocked {
                allow_lan: *allow_lan,
                allowed_endpoint: *allowed_endpoint,
            },
        }
    }
}

/// The machine's record of the firewall: the policy that the backend last
/// accepted, if any.
#[derive(Debug, PartialEq, Eq)]
pub struct Firewall {
    policy: Option<FirewallPolicy>,
}

/// The record after the backend has accepted `policy`, whatever stood before.
pub open spec fn apply_policy_spec(
    before: Option<FirewallPolicyView>,
    policy: FirewallPolicyView,
) -> Option<FirewallPolicyView> {
    Some(policy)
}

impl View for Firewall {
    type V = Option<FirewallPolicyView>;

    closed spec fn view(&self) -> Option<FirewallPolicyView> {
        match self.policy {
            Some(policy) => Some(policy@),
            None => None,
        }
    }
}

impl Firewall {
    /// A firewall with no policy of the machine's in force.
    pub fn new() -> (firewall: Firewall)
        ensures
            firewall@ is None,
    {
        Firewall { policy: None }
    }

    /// Records that the backend has accepted `policy`, which replaces the
    /// policy in force as a whole.
    pub fn apply_policy(&mut self, policy: FirewallPolicy)
        ensures
            final(self)@ == apply_policy_spec(old(self)@, policy@),
    {
        self.policy = Some(policy);
    }

    /// Records that the backend has dropped the machine's policy.
    pub fn reset_policy(&mut self)
        ensures
            final(self)@ is None,
    {
        self.policy = None;
    }

    /// The policy in force, if any.
    pub fn policy(&self) -> (policy: Option<FirewallPolicy>)
        ensures
            match policy {
                Some(p) => self@ == Some(p@),
                None => self@ is None,
            },
    {
        match &self.policy {
            Some(policy) => Some(policy.clone()),
            None => None,
        }
    }
}

/// Applying a policy a second time changes nothing: the record after two
/// applications in a row is the record after one, whatever stood before.
pub proof fn apply_policy_is_idempotent(
    before: Option<FirewallPolicyView>,
    policy: FirewallPolicyView,
)
    ensures
        apply_policy_spec(apply_policy_spec(before, policy), policy) == apply_policy_spec(
            before,
            policy,
        ),
{
}

} // verus!
