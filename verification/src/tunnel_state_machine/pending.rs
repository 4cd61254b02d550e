//! Handlers that wait for a collaborator: what they ask for, and how they go
//! on once the answer is there.

use crate::dns::{ResolvedDnsConfig, ResolvedDnsConfigView};
use crate::firewall::{apply_policy_spec, FirewallPolicy, FirewallPolicyView};
use crate::tunnel::{ErrorStateCause, FirewallPolicyError};
use crate::tunnel_state_machine::connected_state::{ConnectedState, ConnectedStateView};
use crate::tunnel_state_machine::disconnecting_state::DisconnectingState;
use crate::tunnel_state_machine::error_state::ErrorState;
use crate::tunnel_state_machine::{
    Acknowledgement, AfterDisconnect, DnsDelivery, Effect, EventConsequence, EventConsequenceView,
    SharedTunnelStateValues, SharedView, TunnelState, TunnelStateView,
};
use vstd::prelude::*;

verus! {

/// Why a handler asks a collaborator for something.
#[derive(Clone, Copy, Debug, PartialEq, Eq, Structural)]
pub enum Purpose {
    /// The machine is entering the state: a transition follows.
    Enter,
    /// The machine is in the state and a setting has changed: the state stays.
    Update,
}

/// The DNS configurator could not do what it was asked.
#[derive(Clone, Copy, Debug, PartialEq, Eq, Structural)]
pub struct DnsError;

/// What the DNS configurator is asked to do.
#[derive(Debug, PartialEq, Eq)]
pub struct DnsRequest {
    /// The tunnel's interface.
    pub interface: String,
    /// The servers to use.
    pub config: ResolvedDnsConfig,
    /// How the servers reach the system.
    pub delivery: DnsDelivery,
}

/// The mathematical value of a [`DnsRequest`].
pub struct DnsRequestView {
    pub interface: Seq<char>,
    pub config: ResolvedDnsConfigView,
    pub delivery: DnsDelivery,
}

impl View for DnsRequest {
    type V = DnsRequestView;

    open spec fn view(&self) -> DnsRequestView {
        DnsRequestView {
            interface: self.interface@,
            config: self.config@,
            delivery: self.delivery,
        }
    }
}

/// A handler that waits for the firewall to take a policy.
#[derive(Debug, PartialEq, Eq)]
pub struct PendingFirewall {
    /// The policy that the firewall is asked to put in force.
    pub policy: FirewallPolicy,
    /// The state that is being entered or updated.
    pub state: TunnelState,
    pub purpose: Purpose,
    /// The one-shot channel to complete at the end.
    pub acknowledgement: Acknowledgement,
    /// Whether the DNS servers are set once the policy is in force.
    pub dns_follows: bool,
}

/// The mathematical value of a [`PendingFirewall`].
pub struct PendingFirewallView {
    pub policy: FirewallPolicyView,
    pub state: TunnelStateView,
    pub purpose: Purpose,
    pub acknowledgement: Acknowledgement,
    pub dns_follows: bool,
}

impl View for PendingFirewall {
    type V = PendingFirewallView;

    open spec fn view(&self) -> PendingFirewallView {
        PendingFirewallView {
            policy: self.policy@,
            state: self.state@,
            purpose: self.purpose,
            acknowledgement: self.acknowledgement,
            dns_follows: self.dns_follows,
        }
    }
}

/// A handler of the connected state that waits for the DNS servers to be set.
#[derive(Debug, PartialEq, Eq)]
pub struct PendingDns {
    /// What the DNS configurator is asked to do.
    pub request: DnsRequest,
    /// The state that is being entered or updated.
    pub state: ConnectedState,
    pub purpose: Purpose,
    /// The one-shot channel to complete at the end.
    pub acknowledgement: Acknowledgement,
}

/// The mathematical value of a [`PendingDns`].
pub struct PendingDnsView {
    pub request: DnsRequestView,
    pub state: ConnectedStateView,
    pub purpose: Purpose,
    pub acknowledgement: Acknowledgement,
}

impl View for PendingDns {
    type V = PendingDnsView;

    open spec fn view(&self) -> PendingDnsView {
        PendingDnsView {
            request: self.request@,
            state: self.state@,
            purpose: self.purpose,
            acknowledgement: self.acknowledgement,
        }
    }
}

/// How far a handler has got.
#[derive(Debug, PartialEq, Eq)]
pub enum Progress {
    /// To its end.
    Done(EventConsequence),
    /// To where the firewall has to take a policy.
    ApplyFirewallPolicy(PendingFirewall),
    /// To where the DNS servers have to be set.
    SetDns(PendingDns),
}

/// The mathematical value of a [`Progress`].
pub enum ProgressView {
    Done(EventConsequenceView),
    ApplyFirewallPolicy(PendingFirewallView),
    SetDns(PendingDnsView),
}

impl View for Progress {
    type V = ProgressView;

    open spec fn view(&self) -> ProgressView {
        match *self {
            Progress::Done(consequence) => ProgressView::Done(consequence@),
            Progress::ApplyFirewallPolicy(pending) => ProgressView::ApplyFirewallPolicy(pending@),
            Progress::SetDns(pending) => ProgressView::SetDns(pending@),
        }
    }
}

/// A handler that has come to its end with the given consequence.
pub open spec fn done(outcome: (EventConsequenceView, SharedView)) -> (ProgressView, SharedView) {
    (ProgressView::Done(outcome.0), outcome.1)
}

/// A handler that has come to its end and left the machine in its state.
pub open spec fn stay(state: TunnelStateView, shared: SharedView) -> (ProgressView, SharedView) {
    (ProgressView::Done(EventConsequenceView::SameState(state)), shared)
}

/// The end of a handler that has entered or updated `state`: if the
/// connecting state is entered its tunnel is started, the channel is
/// completed, and observers are told if the state is new.
pub open spec fn finish_spec(
    state: TunnelStateView,
    purpose: Purpose,
    acknowledgement: Acknowledgement,
    shared: SharedView,
) -> (EventConsequenceView, SharedView) {
    let started = match (state, purpose) {
        (TunnelStateView::Connecting(connecting), Purpose::Enter) => shared.start_tunnel(
            connecting.retry_attempt,
        ),
        _ => shared,
    };
    (
        match purpose {
            Purpose::Enter => EventConsequenceView::NewState(state, state.transition()),
            Purpose::Update => EventConsequenceView::SameState(state),
        },
        started.acknowledge(acknowledgement),
    )
}

/// The way into the disconnecting state: the DNS settings are undone, the
/// routes removed, the tunnel told to stop, and the channel completed.
pub open spec fn disconnect_spec(
    after_disconnect: AfterDisconnect,
    acknowledgement: Acknowledgement,
    shared: SharedView,
) -> (EventConsequenceView, SharedView) {
    let state = TunnelStateView::Disconnecting(DisconnectingState { after_disconnect });
    (
        EventConsequenceView::NewState(state, state.transition()),
        shared.reset_dns().reset_routes().stop_tunnel().acknowledge(acknowledgement),
    )
}

/// The policy that belongs to `state` under the settings of `shared`.
pub open spec fn policy_for(state: TunnelStateView, shared: SharedView) -> FirewallPolicyView {
    match state {
        TunnelStateView::Connecting(state) => state.firewall_policy(shared),
        TunnelStateView::Connected(state) => state.firewall_policy(shared),
        _ => shared.blocked_policy(),
    }
}

/// A handler that stops to have the policy of `state` put in force.
pub open spec fn request_firewall_spec(
    state: TunnelStateView,
    purpose: Purpose,
    acknowledgement: Acknowledgement,
    dns_follows: bool,
    shared: SharedView,
) -> ProgressView {
    ProgressView::ApplyFirewallPolicy(
        PendingFirewallView {
            policy: policy_for(state, shared),
            state,
            purpose,
            acknowledgement,
            dns_follows,
        },
    )
}

/// How a handler goes on once the firewall has answered.
///
/// If the policy is in force it is recorded, and the handler sets the DNS
/// servers next or comes to its end. If it is not, nothing is recorded. A
/// state that has or is about to have a tunnel is then left for the
/// disconnecting state, to end in the error state. The error state stays and
/// remembers that it blocks nothing. The disconnected state, which was to
/// block, is left for the error state, which is known not to block either.
/// The disconnecting state asks for no policy, and stays whatever is
/// answered.
pub open spec fn resume_firewall_spec(
    pending: PendingFirewallView,
    result: Result<(), FirewallPolicyError>,
    shared: SharedView,
) -> (ProgressView, SharedView) {
    match result {
        Ok(_) => {
            let applied = SharedView {
                firewall: apply_policy_spec(shared.firewall, pending.policy),
                ..shared
            };
            match pending.state {
                TunnelStateView::Connected(state) => if pending.dns_follows {
                    (
                        ProgressView::SetDns(
                            PendingDnsView {
                                request: state.dns_request(applied),
                                state,
                                purpose: pending.purpose,
                                acknowledgement: pending.acknowledgement,
                            },
                        ),
                        applied,
                    )
                } else {
                    done(
                        finish_spec(
                            pending.state,
                            pending.purpose,
                            pending.acknowledgement,
                            applied,
                        ),
                    )
                },
                TunnelStateView::Error(state) => done(
                    finish_spec(
                        TunnelStateView::Error(
                            ErrorState { block_reason: state.block_reason, block_failure: None },
                        ),
                        pending.purpose,
                        pending.acknowledgement,
                        applied,
                    ),
                ),
                TunnelStateView::Disconnecting(_) => done(
                    finish_spec(pending.state, Purpose::Update, pending.acknowledgement, applied),
                ),
                _ => done(
                    finish_spec(pending.state, pending.purpose, pending.acknowledgement, applied),
                ),
            }
        },
        Err(error) => match pending.state {
            TunnelStateView::Connecting(_) | TunnelStateView::Connected(_) => done(
                disconnect_spec(
                    AfterDisconnect::Block(ErrorStateCause::SetFirewallPolicyError(error)),
                    pending.acknowledgement,
                    shared,
                ),
            ),
            TunnelStateView::Error(state) => done(
                finish_spec(
                    TunnelStateView::Error(
                        ErrorState { block_reason: state.block_reason, block_failure: Some(error) },
                    ),
                    pending.purpose,
                    pending.acknowledgement,
                    shared,
                ),
            ),
            TunnelStateView::Disconnected(_) => done(
                finish_spec(
                    TunnelStateView::Error(
                        ErrorState {
                            block_reason: ErrorStateCause::SetFirewallPolicyError(error),
                            block_failure: Some(error),
                        },
                    ),
                    Purpose::Enter,
                    pending.acknowledgement,
                    shared,
                ),
            ),
            TunnelStateView::Disconnecting(_) => done(
                finish_spec(pending.state, Purpose::Update, pending.acknowledgement, shared),
            ),
        },
    }
}

/// How a handler of the connected state goes on once the DNS configurator
/// has answered: to its end if the servers are set, which is then on record,
/// and into the disconnecting state, to end in the error state, if they are
/// not.
pub open spec fn resume_dns_spec(
    pending: PendingDnsView,
    result: Result<(), DnsError>,
    shared: SharedView,
) -> (ProgressView, SharedView) {
    match result {
        Ok(_) => done(
            finish_spec(
                TunnelStateView::Connected(pending.state),
                pending.purpose,
                pending.acknowledgement,
                SharedView { dns: Some(pending.request), ..shared },
            ),
        ),
        Err(_) => done(
            disconnect_spec(
                AfterDisconnect::Block(ErrorStateCause::SetDnsError),
                pending.acknowledgement,
                shared,
            ),
        ),
    }
}

/// Ends a handler that has entered or updated `state`.
pub fn finish(
    state: TunnelState,
    purpose: Purpose,
    acknowledgement: Acknowledgement,
    shared_values: &mut SharedTunnelStateValues,
) -> (consequence: EventConsequence)
    ensures
        (consequence@, final(shared_values)@) == finish_spec(
            state@,
            purpose,
            acknowledgement,
            old(shared_values)@,
        ),
{
    match purpose {
        Purpose::Enter => {
            match &state {
                TunnelState::Connecting(connecting) => {
                    shared_values.start_tunnel(connecting.retry_attempt);
                },
                _ => {},
            }
            shared_values.acknowledge(acknowledgement);
            let transition = state.transition();
            EventConsequence::NewState(state, transition)
        },
        Purpose::Update => {
            shared_values.acknowledge(acknowledgement);
            EventConsequence::SameState(state)
        },
    }
}

/// Leaves for the disconnecting state: undoes the DNS settings, removes the
/// routes, tells the tunnel to stop and completes the channel.
pub fn disconnect(
    shared_values: &mut SharedTunnelStateValues,
    after_disconnect: AfterDisconnect,
    acknowledgement: Acknowledgement,
) -> (consequence: EventConsequence)
    ensures
        (consequence@, final(shared_values)@) == disconnect_spec(
            after_disconnect,
            acknowledgement,
            old(shared_values)@,
        ),
{
    shared_values.reset_dns();
    shared_values.reset_routes();
    let consequence = DisconnectingState::enter(shared_values, after_disconnect);
    shared_values.acknowledge(acknowledgement);
    consequence
}

/// Stops a handler to have the policy of `state` put in force.
pub fn request_firewall(
    state: TunnelState,
    purpose: Purpose,
    acknowledgement: Acknowledgement,
    dns_follows: bool,
    shared_values: &SharedTunnelStateValues,
) -> (progress: Progress)
    ensures
        progress@ == request_firewall_spec(
            state@,
            purpose,
            acknowledgement,
            dns_follows,
            shared_values@,
        ),
{
    let policy = match &state {
        TunnelState::Connecting(connecting) => connecting.get_firewall_policy(shared_values),
        TunnelState::Connected(connected) => connected.get_firewall_policy(shared_values),
        _ => shared_values.blocked_policy(),
    };
    Progress::ApplyFirewallPolicy(
        PendingFirewall { policy, state, purpose, acknowledgement, dns_follows },
    )
}

impl PendingFirewall {
    /// Goes on with the handler once the firewall has answered.
    pub fn resume(
        self,
        result: Result<(), FirewallPolicyError>,
        shared_values: &mut SharedTunnelStateValues,
    ) -> (progress: Progress)
        ensures
            (progress@, final(shared_values)@) == resume_firewall_spec(
                self@,
                result,
                old(shared_values)@,
            ),
    {
        let PendingFirewall { policy, state, purpose, acknowledgement, dns_follows } = self;
        match result {
            Ok(_) => {
                shared_values.firewall.apply_policy(policy);
                match state {
                    TunnelState::Connected(connected) => {
                        if dns_follows {
                            connected.set_dns(shared_values, purpose, acknowledgement)
                        } else {
                            Progress::Done(
                                finish(
                                    TunnelState::Connected(connected),
                                    purpose,
                                    acknowledgement,
                                    shared_values,
                                ),
                            )
                        }
                    },
                    TunnelState::Error(error_state) => Progress::Done(
                        finish(
                            TunnelState::Error(
                                ErrorState {
                                    block_reason: error_state.block_reason,
                                    block_failure: None,
                                },
                            ),
                            purpose,
                            acknowledgement,
                            shared_values,
                        ),
                    ),
                    TunnelState::Disconnecting(disconnecting) => Progress::Done(
                        finish(
                            TunnelState::Disconnecting(disconnecting),
                            Purpose::Update,
                            acknowledgement,
                            shared_values,
                        ),
                    ),
                    state => Progress::Done(finish(state, purpose, acknowledgement, shared_values)),
                }
            },
            Err(error) => match state {
                TunnelState::Connecting(_) | TunnelState::Connected(_) => Progress::Done(
                    disconnect(
                        shared_values,
                        AfterDisconnect::Block(ErrorStateCause::SetFirewallPolicyError(error)),
                        acknowledgement,
                    ),
                ),
                TunnelState::Error(error_state) => Progress::Done(
                    finish(
                        TunnelState::Error(
                            ErrorState {
                                block_reason: error_state.block_reason,
                                block_failure: Some(error),
                            },
                        ),
                        purpose,
                        acknowledgement,
                        shared_values,
                    ),
                ),
                TunnelState::Disconnected(_) => Progress::Done(
                    finish(
                        TunnelState::Error(
                            ErrorState {
                                block_reason: ErrorStateCause::SetFirewallPolicyError(error),
                                block_failure: Some(error),
                            },
                        ),
                        Purpose::Enter,
                        acknowledgement,
                        shared_values,
                    ),
                ),
                TunnelState::Disconnecting(disconnecting) => Progress::Done(
                    finish(
                        TunnelState::Disconnecting(disconnecting),
                        Purpose::Update,
                        acknowledgement,
                        shared_values,
                    ),
                ),
            },
        }
    }
}

impl PendingDns {
    /// Goes on with the handler once the DNS configurator has answered.
    pub fn resume(
        self,
        result: Result<(), DnsError>,
        shared_values: &mut SharedTunnelStateValues,
    ) -> (progress: Progress)
        ensures
            (progress@, final(shared_values)@) == resume_dns_spec(
                self@,
                result,
                old(shared_values)@,
            ),
    {
        let PendingDns { request, state, purpose, acknowledgement } = self;
        match result {
            Ok(_) => {
                shared_values.dns = Some(request);
                Progress::Done(
                    finish(TunnelState::Connected(state), purpose, acknowledgement, shared_values),
                )
            },
            Err(_) => Progress::Done(
                disconnect(
                    shared_values,
                    AfterDisconnect::Block(ErrorStateCause::SetDnsError),
                    acknowledgement,
                ),
            ),
        }
    }
}

} // verus!
