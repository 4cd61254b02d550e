//! The state in which the tunnel is up and carries the traffic.

use crate::dns::{resolve_spec, ResolvedDnsConfig, ResolvedDnsConfigView};
use crate::firewall::{FirewallPolicy, FirewallPolicyView};
use crate::net::{TunnelEndpoint, TunnelEndpointView};
use crate::tunnel::{
    ErrorStateCause, TunnelEvent, TunnelEventView, TunnelMetadata, TunnelMetadataView,
};
use crate::tunnel_state_machine::connecting_state::{
    peer_endpoint, peer_endpoint_spec, ConnectingState,
};
use crate::tunnel_state_machine::disconnecting_state::DisconnectingState;
use crate::tunnel_state_machine::error_state::ErrorState;
use crate::tunnel_state_machine::pending::{
    disconnect_spec, done, request_firewall, request_firewall_spec, stay, DnsRequest,
    DnsRequestView, PendingDns, Progress, ProgressView, Purpose,
};
use crate::tunnel_state_machine::{
    block_reason_of, command_view, connecting_state, error_state, event_view, store,
    store_setting, Acknowledgement, AfterDisconnect, EventConsequence, EventResult,
    EventResultView, ExcludedAppsChange, SettingsChange, SharedTunnelStateValues, SharedView,
    TunnelCommand, TunnelCommandView, TunnelState, TunnelStateView,
};
use crate::wireguard::{TunnelParameters, TunnelParametersView};
use vstd::prelude::*;

verus! {

/// The tunnel is up and working.
#[derive(Debug, PartialEq, Eq)]
pub struct ConnectedState {
    /// What the tunnel says of itself.
    pub metadata: TunnelMetadata,
    /// How the tunnel was configured.
    pub tunnel_parameters: TunnelParameters,
}

/// The mathematical value of a [`ConnectedState`].
pub struct ConnectedStateView {
    pub metadata: TunnelMetadataView,
    pub tunnel_parameters: TunnelParametersView,
}

impl View for ConnectedState {
    type V = ConnectedStateView;

    open spec fn view(&self) -> ConnectedStateView {
        ConnectedStateView {
            metadata: self.metadata@,
            tunnel_parameters: self.tunnel_parameters@,
        }
    }
}

impl ConnectedStateView {
    /// The tunnel's endpoint as shown outside, with the tunnel's interface.
    pub open spec fn tunnel_endpoint(self) -> TunnelEndpointView {
        TunnelEndpointView {
            tunnel_interface: Some(self.metadata.interface),
            ..self.tunnel_parameters.tunnel_endpoint()
        }
    }

    /// The DNS servers in use: those that the settings ask for, resolved
    /// against the tunnel's gateways.
    pub open spec fn resolved_dns(self, shared: SharedView) -> ResolvedDnsConfigView {
        resolve_spec(shared.dns_config, self.metadata.gateways())
    }

    /// The policy while the tunnel is up. The peer is the obfuscator's where
    /// there is one and the tunnel's own otherwise.
    pub open spec fn firewall_policy(self, shared: SharedView) -> FirewallPolicyView {
        FirewallPolicyView::Connected {
            peer_endpoint: peer_endpoint_spec(self.tunnel_parameters),
            tunnel: self.metadata,
            allow_lan: shared.allow_lan,
            dns_config: self.resolved_dns(shared),
        }
    }

    /// What the DNS configurator is asked to do for this tunnel.
    pub open spec fn dns_request(self, shared: SharedView) -> DnsRequestView {
        DnsRequestView {
            interface: self.metadata.interface,
            config: self.resolved_dns(shared),
            delivery: shared.platform.dns_delivery,
        }
    }
}

/// Entering the state with a tunnel that has come up. The policy of the
/// tunnel is put in force first, the DNS servers are set next, and only then
/// is the state entered.
pub open spec fn enter_spec(
    shared: SharedView,
    metadata: TunnelMetadataView,
    tunnel_parameters: TunnelParametersView,
    acknowledgement: Acknowledgement,
) -> (ProgressView, SharedView) {
    (
        request_firewall_spec(
            TunnelStateView::Connected(ConnectedStateView { metadata, tunnel_parameters }),
            Purpose::Enter,
            acknowledgement,
            true,
            shared,
        ),
        shared,
    )
}

/// What a changed setting that is part of the policy leads to while the
/// tunnel is up: where the platform can replace the policy under a running
/// tunnel it is put in force anew, and the DNS servers are set anew if they
/// are what changed. Elsewhere the tunnel is torn down and set up again.
pub open spec fn apply_change_spec(
    state: ConnectedStateView,
    dns_follows: bool,
    stored: SharedView,
) -> (ProgressView, SharedView) {
    match stored.platform.settings_change {
        SettingsChange::Reapply => (
            request_firewall_spec(
                TunnelStateView::Connected(state),
                Purpose::Update,
                Acknowledgement::Command,
                dns_follows,
                stored,
            ),
            stored,
        ),
        SettingsChange::Reconnect => done(
            disconnect_spec(AfterDisconnect::Reconnect(0), Acknowledgement::Command, stored),
        ),
    }
}

/// A new list of excluded applications while the tunnel is up. A list that
/// changes nothing is acknowledged and nothing else. For one that does, the
/// platform says what it takes: nothing more, a refresh of the firewall, or
/// a new tunnel, because the interface has to be bound anew.
pub open spec fn set_excluded_apps_spec(
    state: ConnectedStateView,
    excluded_paths: Seq<Seq<char>>,
    shared: SharedView,
) -> (ProgressView, SharedView) {
    let this = TunnelStateView::Connected(state);
    let stored = SharedView { excluded_paths, ..shared };
    if shared.excluded_paths != excluded_paths {
        match shared.platform.excluded_apps_change {
            ExcludedAppsChange::Nothing => stay(this, stored.acknowledge(Acknowledgement::Command)),
            ExcludedAppsChange::RefreshFirewall => (
                request_firewall_spec(
                    this,
                    Purpose::Update,
                    Acknowledgement::Command,
                    false,
                    stored,
                ),
                stored,
            ),
            ExcludedAppsChange::Reconnect => done(
                disconnect_spec(AfterDisconnect::Reconnect(0), Acknowledgement::Command, stored),
            ),
        }
    } else {
        stay(this, stored.acknowledge(Acknowledgement::Command))
    }
}

/// A command while the tunnel is up.
///
/// A change of whether the local network may be reached, or of the DNS
/// servers, takes effect as [`apply_change_spec`] says. A command that
/// changes nothing is acknowledged and nothing else. Going offline leads
/// into the disconnecting state, to end blocking. `Connect` tears the tunnel
/// down to set it up afresh. `Disconnect`, like the end of the commands,
/// tears it down for good, and `Block` tears it down to end blocking. A
/// change of the excluded applications is taken as the platform asks for.
/// Other settings are stored.
pub open spec fn handle_commands_spec(
    state: ConnectedStateView,
    command: Option<TunnelCommandView>,
    shared: SharedView,
) -> (ProgressView, SharedView) {
    let this = TunnelStateView::Connected(state);
    match command {
        Some(TunnelCommandView::AllowLan(allow_lan)) => {
            let stored = SharedView { allow_lan, ..shared };
            if shared.allow_lan != allow_lan {
                apply_change_spec(state, false, stored)
            } else {
                stay(this, stored.acknowledge(Acknowledgement::Command))
            }
        },
        Some(TunnelCommandView::Dns(dns_config)) => {
            let stored = SharedView { dns_config, ..shared };
            if shared.dns_config != dns_config {
                apply_change_spec(state, true, stored)
            } else {
                stay(this, stored.acknowledge(Acknowledgement::Command))
            }
        },
        Some(TunnelCommandView::Connectivity(connectivity)) => {
            let stored = SharedView { connectivity, ..shared };
            if connectivity.is_offline_spec() {
                done(
                    disconnect_spec(
                        AfterDisconnect::Block(ErrorStateCause::IsOffline),
                        Acknowledgement::Nothing,
                        stored,
                    ),
                )
            } else {
                stay(this, stored)
            }
        },
        Some(TunnelCommandView::Connect) => done(
            disconnect_spec(AfterDisconnect::Reconnect(0), Acknowledgement::Nothing, shared),
        ),
        Some(TunnelCommandView::Disconnect) | None => done(
            disconnect_spec(AfterDisconnect::Nothing, Acknowledgement::Nothing, shared),
        ),
        Some(TunnelCommandView::Block(reason)) => done(
            disconnect_spec(AfterDisconnect::Block(reason), Acknowledgement::Nothing, shared),
        ),
        Some(TunnelCommandView::SetExcludedApps(excluded_paths)) => set_excluded_apps_spec(
            state,
            excluded_paths,
            shared,
        ),
        _ => stay(this, store_setting(command, shared)),
    }
}

/// A tunnel event while the tunnel is up. `Down`, or the end of the events,
/// means that the tunnel has died: it is torn down and set up afresh. Any
/// other event is acknowledged and nothing else.
pub open spec fn handle_tunnel_events_spec(
    state: ConnectedStateView,
    event: Option<TunnelEventView>,
    shared: SharedView,
) -> (ProgressView, SharedView) {
    match event {
        Some(TunnelEventView::Down) => done(
            disconnect_spec(AfterDisconnect::Reconnect(0), Acknowledgement::Event, shared),
        ),
        None => done(
            disconnect_spec(AfterDisconnect::Reconnect(0), Acknowledgement::Nothing, shared),
        ),
        Some(_) => stay(
            TunnelStateView::Connected(state),
            shared.acknowledge(Acknowledgement::Event),
        ),
    }
}

/// The tunnel has gone by itself. The DNS settings are undone and the routes
/// removed. With a fatal cause the error state follows at once, since there
/// is no tunnel left to tear down. Without one a new tunnel is set up.
pub open spec fn handle_tunnel_close_event_spec(
    block_reason: Option<ErrorStateCause>,
    shared: SharedView,
) -> (ProgressView, SharedView) {
    let torn_down = shared.tunnel_gone().reset_dns().reset_routes();
    match block_reason {
        Some(cause) => error_state::enter_spec(torn_down, cause),
        None => connecting_state::enter_spec(torn_down, 0, Acknowledgement::Nothing),
    }
}

/// How one stimulus is handled while the tunnel is up.
pub open spec fn handle_event_spec(
    state: ConnectedStateView,
    event: EventResultView,
    shared: SharedView,
) -> (ProgressView, SharedView) {
    match event {
        EventResultView::Command(command) => handle_commands_spec(state, command, shared),
        EventResultView::Event(event) => handle_tunnel_events_spec(state, event, shared),
        EventResultView::Close(result) => handle_tunnel_close_event_spec(
            block_reason_of(result),
            shared,
        ),
    }
}

impl ConnectedState {
    /// Enters the state with a tunnel that has come up.
    pub fn enter(
        shared_values: &mut SharedTunnelStateValues,
        metadata: TunnelMetadata,
        tunnel_parameters: TunnelParameters,
        acknowledgement: Acknowledgement,
    ) -> (progress: Progress)
        ensures
            (progress@, final(shared_values)@) == enter_spec(
                old(shared_values)@,
                metadata@,
                tunnel_parameters@,
                acknowledgement,
            ),
    {
        let connected_state = ConnectedState { metadata, tunnel_parameters };
        connected_state.set_firewall_policy(shared_values, Purpose::Enter, acknowledgement, true)
    }

    /// The tunnel's endpoint as shown outside, with the tunnel's interface.
    pub fn get_tunnel_endpoint(&self) -> (endpoint: TunnelEndpoint)
        ensures
            endpoint@ == self@.tunnel_endpoint(),
    {
        let endpoint = self.tunnel_parameters.get_tunnel_endpoint();
        TunnelEndpoint {
            endpoint: endpoint.endpoint,
            quantum_resistant: endpoint.quantum_resistant,
            entry_endpoint: endpoint.entry_endpoint,
            tunnel_interface: Some(self.metadata.interface.clone()),
        }
    }

    /// Stops to have the policy of this tunnel put in force.
    pub fn set_firewall_policy(
        self,
        shared_values: &SharedTunnelStateValues,
        purpose: Purpose,
        acknowledgement: Acknowledgement,
        dns_follows: bool,
    ) -> (progress: Progress)
        ensures
            progress@ == request_firewall_spec(
                TunnelStateView::Connected(self@),
                purpose,
                acknowledgement,
                dns_follows,
                shared_values@,
            ),
    {
        request_firewall(
            TunnelState::Connected(self),
            purpose,
            acknowledgement,
            dns_follows,
            shared_values,
        )
    }

    /// The policy while the tunnel is up.
    pub fn get_firewall_policy(&self, shared_values: &SharedTunnelStateValues) -> (policy:
        FirewallPolicy)
        ensures
            policy@ == self@.firewall_policy(shared_values@),
    {
        FirewallPolicy::Connected {
            peer_endpoint: peer_endpoint(&self.tunnel_parameters),
            tunnel: self.metadata.clone(),
            allow_lan: shared_values.allow_lan,
            dns_config: Self::resolve_dns(&self.metadata, shared_values),
        }
    }

    /// The DNS servers in use on the tunnel.
    pub fn resolve_dns(metadata: &TunnelMetadata, shared_values: &SharedTunnelStateValues) -> (resolved:
        ResolvedDnsConfig)
        ensures
            resolved@ == resolve_spec(shared_values@.dns_config, metadata@.gateways()),
    {
        let gateways = metadata.gateways();
        shared_values.dns_config.resolve(&gateways)
    }

    /// Stops to have the DNS servers of this tunnel set.
    pub fn set_dns(
        self,
        shared_values: &SharedTunnelStateValues,
        purpose: Purpose,
        acknowledgement: Acknowledgement,
    ) -> (progress: Progress)
        ensures
            progress@ == ProgressView::SetDns(
                crate::tunnel_state_machine::pending::PendingDnsView {
                    request: self@.dns_request(shared_values@),
                    state: self@,
                    purpose,
                    acknowledgement,
                },
            ),
    {
        let request = DnsRequest {
            interface: self.metadata.interface.clone(),
            config: Self::resolve_dns(&self.metadata, shared_values),
            delivery: shared_values.platform.dns_delivery,
        };
        Progress::SetDns(PendingDns { request, state: self, purpose, acknowledgement })
    }

    /// Asks for the tunnel's DNS settings to be undone.
    pub fn reset_dns(shared_values: &mut SharedTunnelStateValues)
        ensures
            final(shared_values)@ == old(shared_values)@.reset_dns(),
    {
        shared_values.reset_dns();
    }

    /// Asks for the tunnel's routes to be removed.
    pub fn reset_routes(shared_values: &mut SharedTunnelStateValues)
        ensures
            final(shared_values)@ == old(shared_values)@.reset_routes(),
    {
        shared_values.reset_routes();
    }

    /// Leaves for the disconnecting state, on whatever path: the DNS
    /// settings are undone and the routes removed before the tunnel is told
    /// to stop.
    pub fn disconnect(
        self,
        shared_values: &mut SharedTunnelStateValues,
        after_disconnect: AfterDisconnect,
        acknowledgement: Acknowledgement,
    ) -> (consequence: EventConsequence)
        ensures
            (consequence@, final(shared_values)@) == disconnect_spec(
                after_disconnect,
                acknowledgement,
                old(shared_values)@,
            ),
    {
        Self::reset_dns(shared_values);
        Self::reset_routes(shared_values);
        let consequence = DisconnectingState::enter(shared_values, after_disconnect);
        shared_values.acknowledge(acknowledgement);
        consequence
    }

    /// Makes a changed setting that is part of the policy take effect.
    fn apply_change(
        self,
        shared_values: &mut SharedTunnelStateValues,
        dns_follows: bool,
    ) -> (progress: Progress)
        ensures
            (progress@, final(shared_values)@) == apply_change_spec(
                self@,
                dns_follows,
                old(shared_values)@,
            ),
    {
        match shared_values.platform.settings_change {
            SettingsChange::Reapply => self.set_firewall_policy(
                shared_values,
                Purpose::Update,
                Acknowledgement::Command,
                dns_follows,
            ),
            SettingsChange::Reconnect => Progress::Done(
                self.disconnect(
                    shared_values,
                    AfterDisconnect::Reconnect(0),
                    Acknowledgement::Command,
                ),
            ),
        }
    }

    /// Takes a new list of excluded applications.
    fn set_excluded_apps(
        self,
        paths: Vec<String>,
        shared_values: &mut SharedTunnelStateValues,
    ) -> (progress: Progress)
        ensures
            (progress@, final(shared_values)@) == set_excluded_apps_spec(
                self@,
                crate::text::texts_view(paths@),
                old(shared_values)@,
            ),
    {
        if shared_values.set_excluded_paths(paths) {
            // Whether the list alone is enough, the firewall has to learn of
            // it, or the interface has to be bound anew is the platform's to
            // say.
            match shared_values.platform.excluded_apps_change {
                ExcludedAppsChange::Nothing => {
                    shared_values.acknowledge(Acknowledgement::Command);
                    Progress::Done(EventConsequence::SameState(TunnelState::Connected(self)))
                },
                ExcludedAppsChange::RefreshFirewall => self.set_firewall_policy(
                    shared_values,
                    Purpose::Update,
                    Acknowledgement::Command,
                    false,
                ),
                ExcludedAppsChange::Reconnect => Progress::Done(
                    self.disconnect(
                        shared_values,
                        AfterDisconnect::Reconnect(0),
                        Acknowledgement::Command,
                    ),
                ),
            }
        } else {
            shared_values.acknowledge(Acknowledgement::Command);
            Progress::Done(EventConsequence::SameState(TunnelState::Connected(self)))
        }
    }

    /// Handles a command, or the closing of the command channel.
    pub fn handle_commands(
        self,
        command: Option<TunnelCommand>,
        shared_values: &mut SharedTunnelStateValues,
    ) -> (progress: Progress)
        ensures
            (progress@, final(shared_values)@) == handle_commands_spec(
                self@,
                command_view(command),
                old(shared_values)@,
            ),
    {
        match command {
            Some(TunnelCommand::AllowLan(allow_lan)) => {
                if shared_values.set_allow_lan(allow_lan) {
                    self.apply_change(shared_values, false)
                } else {
                    shared_values.acknowledge(Acknowledgement::Command);
                    Progress::Done(EventConsequence::SameState(TunnelState::Connected(self)))
                }
            },
            Some(TunnelCommand::Dns(servers)) => {
                if shared_values.set_dns_config(servers) {
                    self.apply_change(shared_values, true)
                } else {
                    shared_values.acknowledge(Acknowledgement::Command);
                    Progress::Done(EventConsequence::SameState(TunnelState::Connected(self)))
                }
            },
            Some(TunnelCommand::Connectivity(connectivity)) => {
                shared_values.connectivity = connectivity;
                if connectivity.is_offline() {
                    Progress::Done(
                        self.disconnect(
                            shared_values,
                            AfterDisconnect::Block(ErrorStateCause::IsOffline),
                            Acknowledgement::Nothing,
                        ),
                    )
                } else {
                    Progress::Done(EventConsequence::SameState(TunnelState::Connected(self)))
                }
            },
            Some(TunnelCommand::Connect) => Progress::Done(
                self.disconnect(
                    shared_values,
                    AfterDisconnect::Reconnect(0),
                    Acknowledgement::Nothing,
                ),
            ),
            Some(TunnelCommand::Disconnect) | None => Progress::Done(
                self.disconnect(shared_values, AfterDisconnect::Nothing, Acknowledgement::Nothing),
            ),
            Some(TunnelCommand::Block(reason)) => Progress::Done(
                self.disconnect(
                    shared_values,
                    AfterDisconnect::Block(reason),
                    Acknowledgement::Nothing,
                ),
            ),
            Some(TunnelCommand::SetExcludedApps(paths)) => self.set_excluded_apps(
                paths,
                shared_values,
            ),
            command => {
                store(command, shared_values);
                Progress::Done(EventConsequence::SameState(TunnelState::Connected(self)))
            },
        }
    }

    /// Handles a tunnel event, or the closing of the tunnel's channel.
    pub fn handle_tunnel_events(
        self,
        event: Option<TunnelEvent>,
        shared_values: &mut SharedTunnelStateValues,
    ) -> (progress: Progress)
        ensures
            (progress@, final(shared_values)@) == handle_tunnel_events_spec(
                self@,
                event_view(event),
                old(shared_values)@,
            ),
    {
        match event {
            Some(TunnelEvent::Down) => Progress::Done(
                self.disconnect(
                    shared_values,
                    AfterDisconnect::Reconnect(0),
                    Acknowledgement::Event,
                ),
            ),
            None => Progress::Done(
                self.disconnect(
                    shared_values,
                    AfterDisconnect::Reconnect(0),
                    Acknowledgement::Nothing,
                ),
            ),
            Some(_) => {
                shared_values.acknowledge(Acknowledgement::Event);
                Progress::Done(EventConsequence::SameState(TunnelState::Connected(self)))
            },
        }
    }

    /// Handles the end of the tunnel, with its fatal cause if it has one.
    pub fn handle_tunnel_close_event(
        self,
        block_reason: Option<ErrorStateCause>,
        shared_values: &mut SharedTunnelStateValues,
    ) -> (progress: Progress)
        ensures
            (progress@, final(shared_values)@) == handle_tunnel_close_event_spec(
                block_reason,
                old(shared_values)@,
            ),
    {
        shared_values.tunnel_gone();
        if let Some(block_reason) = block_reason {
            Self::reset_dns(shared_values);
            Self::reset_routes(shared_values);
            return ErrorState::enter(shared_values, block_reason);
        }
        Self::reset_dns(shared_values);
        Self::reset_routes(shared_values);
        ConnectingState::enter(shared_values, 0, Acknowledgement::Nothing)
    }

    /// Handles one stimulus.
    pub fn handle_event(
        self,
        event: EventResult,
        shared_values: &mut SharedTunnelStateValues,
    ) -> (progress: Progress)
        ensures
            (progress@, final(shared_values)@) == handle_event_spec(
                self@,
                event@,
                old(shared_values)@,
            ),
    {
        match event {
            EventResult::Command(command) => self.handle_commands(command, shared_values),
            EventResult::Event(event) => self.handle_tunnel_events(event, shared_values),
            EventResult::Close(result) => {
                let block_reason = match result {
                    Ok(reason) => reason,
                    Err(_) => None,
                };
                self.handle_tunnel_close_event(block_reason, shared_values)
            },
        }
    }
}

} // verus!
