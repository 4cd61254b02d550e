//! The tunnel state machine: the controller that sequences tunnel setup and
//! teardown together with the firewall, DNS and routes.
//!
//! The machine does no I/O. A handler runs until it needs an answer from the
//! firewall or from the DNS configurator, hands the request out as a
//! [`Progress`] and goes on when the answer is given to it. Everything else
//! that the world has to do is put, in order, into the shared context's list
//! of [`Effect`]s. Whoever drives the machine performs the effects listed so
//! far before it performs a request, so that the order in which the handlers
//! decide is the order in which things happen.

pub mod acknowledgement;
pub mod connected_state;
pub mod connecting_state;
pub mod disconnected_state;
pub mod disconnecting_state;
pub mod error_state;
pub mod laws;
pub mod machine;
pub mod pending;
pub mod tunnel_lifetime;

use crate::dns::{DnsConfig, DnsConfigView};
use crate::firewall::{Firewall, FirewallPolicy, FirewallPolicyView};
use crate::net::{AllowedEndpoint, Connectivity, TunnelEndpoint, TunnelEndpointView};
use crate::text::texts_view;
use crate::tunnel::{ErrorStateCause, TunnelEvent, TunnelEventView};
use crate::tunnel_state_machine::connected_state::{ConnectedState, ConnectedStateView};
use crate::tunnel_state_machine::connecting_state::{ConnectingState, ConnectingStateView};
use crate::tunnel_state_machine::disconnected_state::DisconnectedState;
use crate::tunnel_state_machine::disconnecting_state::DisconnectingState;
use crate::tunnel_state_machine::error_state::ErrorState;
use crate::tunnel_state_machine::pending::{DnsRequest, DnsRequestView, Progress, ProgressView};
use crate::wireguard::{TunnelParameters, TunnelParametersView};
use vstd::prelude::*;

verus! {

/// What follows once a tunnel has been torn down. Every way into the
/// disconnecting state carries one.
#[derive(Clone, Copy, Debug, PartialEq, Eq, Structural)]
pub enum AfterDisconnect {
    /// End in the disconnected state.
    Nothing,
    /// End in the error state, for the given cause.
    Block(ErrorStateCause),
    /// Connect again, as the attempt of the given number.
    Reconnect(u32),
}

/// The kind of an [`AfterDisconnect`], as shown to observers.
#[derive(Clone, Copy, Debug, PartialEq, Eq, Structural)]
pub enum ActionAfterDisconnect {
    Nothing,
    Block,
    Reconnect,
}

impl AfterDisconnect {
    /// The kind of this directive.
    pub open spec fn action_spec(self) -> ActionAfterDisconnect {
        match self {
            AfterDisconnect::Nothing => ActionAfterDisconnect::Nothing,
            AfterDisconnect::Block(_) => ActionAfterDisconnect::Block,
            AfterDisconnect::Reconnect(_) => ActionAfterDisconnect::Reconnect,
        }
    }

    /// The kind of this directive.
    pub fn action(&self) -> (action: ActionAfterDisconnect)
        ensures
            action == self.action_spec(),
    {
        match self {
            AfterDisconnect::Nothing => ActionAfterDisconnect::Nothing,
            AfterDisconnect::Block(_) => ActionAfterDisconnect::Block,
            AfterDisconnect::Reconnect(_) => ActionAfterDisconnect::Reconnect,
        }
    }
}

/// How the resolved DNS servers reach the system.
#[derive(Clone, Copy, Debug, PartialEq, Eq, Structural)]
pub enum DnsDelivery {
    /// The settings of the system's resolver are changed.
    SystemResolver,
    /// A local filtering resolver forwards to the servers.
    LocalResolver,
}

/// What a change of a setting asks for while a tunnel is up.
#[derive(Clone, Copy, Debug, PartialEq, Eq, Structural)]
pub enum SettingsChange {
    /// The policy can be replaced under the running tunnel.
    Reapply,
    /// The tunnel has to be torn down and set up again.
    Reconnect,
}

/// What a change of the excluded applications asks for while a tunnel is up.
#[derive(Clone, Copy, Debug, PartialEq, Eq, Structural)]
pub enum ExcludedAppsChange {
    /// The split tunnel takes the list by itself.
    Nothing,
    /// The firewall has to be told about it.
    RefreshFirewall,
    /// The interface has to be bound anew, so the tunnel is set up again.
    Reconnect,
}

/// What the platform can do, settled once when the machine is made.
#[derive(Clone, Copy, Debug, PartialEq, Eq, Structural)]
pub struct Platform {
    pub dns_delivery: DnsDelivery,
    pub settings_change: SettingsChange,
    pub excluded_apps_change: ExcludedAppsChange,
    /// Whether the platform has routing rules beside its routes.
    pub routing_rules: bool,
}

/// Something that the world has to do on the machine's behalf and whose
/// outcome the machine does not wait for. Failures are logged by whoever
/// performs it and never hold a transition up.
#[derive(Clone, Copy, Debug, PartialEq, Eq, Structural)]
pub enum Effect {
    /// Put the system's DNS settings back to what they were before the tunnel.
    ResetDns,
    /// Make the local resolver stop forwarding.
    DisableDnsForwarding,
    /// Remove the routes of the tunnel.
    ClearRoutes,
    /// Remove the routing rules of the tunnel.
    ClearRoutingRules,
    /// Drop the machine's firewall policy altogether.
    ResetFirewall,
    /// Start setting the tunnel up, as the attempt of the given number, once
    /// the delay of that attempt has passed.
    StartTunnel { retry_attempt: u32 },
    /// Tell the tunnel to stop. Its close event follows.
    StopTunnel,
    /// Let a socket bypass the tunnel.
    BypassSocket(i32),
    /// Complete the one-shot channel of the command that was handled.
    AcknowledgeCommand,
    /// Complete the one-shot channel of the tunnel event that was handled.
    AcknowledgeEvent,
}

/// What the machine knows of the tunnel process.
#[derive(Clone, Copy, Debug, PartialEq, Eq, Structural)]
pub enum TunnelStatus {
    /// There is none.
    Absent,
    /// One has been started and has not been told to stop.
    Running,
    /// One has been told to stop and has not gone yet.
    Stopping,
}

/// What the rest of the application asks of the machine.
#[derive(Debug, PartialEq, Eq)]
pub enum TunnelCommand {
    /// Let traffic to the local network pass, or not.
    AllowLan(bool),
    /// Let an endpoint be reached whatever the state.
    AllowEndpoint(AllowedEndpoint),
    /// Use these DNS servers.
    Dns(DnsConfig),
    /// Block all traffic while disconnected, or not.
    BlockWhenDisconnected(bool),
    /// The reachability of the network has changed.
    Connectivity(Connectivity),
    /// Set a tunnel up.
    Connect,
    /// Tear the tunnel down.
    Disconnect,
    /// Tear the tunnel down and block all traffic.
    Block(ErrorStateCause),
    /// Let the socket with this descriptor bypass the tunnel.
    BypassSocket(i32),
    /// Route these applications outside the tunnel.
    SetExcludedApps(Vec<String>),
}

/// The mathematical value of a [`TunnelCommand`].
pub enum TunnelCommandView {
    AllowLan(bool),
    AllowEndpoint(AllowedEndpoint),
    Dns(DnsConfigView),
    BlockWhenDisconnected(bool),
    Connectivity(Connectivity),
    Connect,
    Disconnect,
    Block(ErrorStateCause),
    BypassSocket(i32),
    SetExcludedApps(Seq<Seq<char>>),
}

impl View for TunnelCommand {
    type V = TunnelCommandView;

    open spec fn view(&self) -> TunnelCommandView {
        match *self {
            TunnelCommand::AllowLan(allow_lan) => TunnelCommandView::AllowLan(allow_lan),
            TunnelCommand::AllowEndpoint(endpoint) => TunnelCommandView::AllowEndpoint(endpoint),
            TunnelCommand::Dns(config) => TunnelCommandView::Dns(config@),
            TunnelCommand::BlockWhenDisconnected(block) => TunnelCommandView::BlockWhenDisconnected(
                block,
            ),
            TunnelCommand::Connectivity(connectivity) => TunnelCommandView::Connectivity(
                connectivity,
            ),
            TunnelCommand::Connect => TunnelCommandView::Connect,
            TunnelCommand::Disconnect => TunnelCommandView::Disconnect,
            TunnelCommand::Block(cause) => TunnelCommandView::Block(cause),
            TunnelCommand::BypassSocket(fd) => TunnelCommandView::BypassSocket(fd),
            TunnelCommand::SetExcludedApps(paths) => TunnelCommandView::SetExcludedApps(
                texts_view(paths@),
            ),
        }
    }
}

/// The mathematical value of a command that may be missing.
pub open spec fn command_view(command: Option<TunnelCommand>) -> Option<TunnelCommandView> {
    match command {
        Some(command) => Some(command@),
        None => None,
    }
}

/// The mathematical value of a tunnel event that may be missing.
pub open spec fn event_view(event: Option<TunnelEvent>) -> Option<TunnelEventView> {
    match event {
        Some(event) => Some(event@),
        None => None,
    }
}

/// The side that was to resolve a close event went away without doing so.
#[derive(Clone, Copy, Debug, PartialEq, Eq, Structural)]
pub struct Canceled;

/// One stimulus: whichever of the sources that a state listens to was ready
/// first.
#[derive(Debug, PartialEq, Eq)]
pub enum EventResult {
    /// A command, or `None` when the command channel has been closed.
    Command(Option<TunnelCommand>),
    /// A tunnel event, or `None` when the tunnel's channel has been closed.
    Event(Option<TunnelEvent>),
    /// The tunnel has gone, with a fatal cause or without one.
    Close(Result<Option<ErrorStateCause>, Canceled>),
}

/// The mathematical value of an [`EventResult`].
pub enum EventResultView {
    Command(Option<TunnelCommandView>),
    Event(Option<TunnelEventView>),
    Close(Result<Option<ErrorStateCause>, Canceled>),
}

impl View for EventResult {
    type V = EventResultView;

    open spec fn view(&self) -> EventResultView {
        match *self {
            EventResult::Command(command) => EventResultView::Command(command_view(command)),
            EventResult::Event(event) => EventResultView::Event(event_view(event)),
            EventResult::Close(result) => EventResultView::Close(result),
        }
    }
}

/// The fatal cause that a close event carries, if any. A close event that
/// was never resolved carries none.
pub open spec fn block_reason_of(
    result: Result<Option<ErrorStateCause>, Canceled>,
) -> Option<ErrorStateCause> {
    match result {
        Ok(reason) => reason,
        Err(_) => None,
    }
}

/// The context that every handler works on. It is made once, lives as long
/// as the machine and is changed by the handler that runs and by nobody else.
#[derive(Debug, PartialEq, Eq)]
pub struct SharedTunnelStateValues {
    /// Whether traffic to the local network may pass.
    pub allow_lan: bool,
    /// Whether all traffic is blocked while disconnected.
    pub block_when_disconnected: bool,
    /// What is known about the reachability of the network.
    pub connectivity: Connectivity,
    /// The DNS servers asked for.
    pub dns_config: DnsConfig,
    /// An endpoint that may be reached whatever the state.
    pub allowed_endpoint: AllowedEndpoint,
    /// The applications routed outside the tunnel.
    pub excluded_paths: Vec<String>,
    /// How the next tunnel is configured.
    pub tunnel_parameters: TunnelParameters,
    /// The number of the last attempt that is still followed by another.
    pub retry_ceiling: u32,
    /// What the platform can do.
    pub platform: Platform,
    /// The record of the firewall policy in force.
    pub firewall: Firewall,
    /// The record of the DNS servers that are set for a tunnel, if any are.
    pub dns: Option<DnsRequest>,
    /// The record of the tunnel process.
    pub tunnel: TunnelStatus,
    /// What the world has still to do, oldest first.
    pub effects: Vec<Effect>,
}

/// The mathematical value of a [`SharedTunnelStateValues`].
pub struct SharedView {
    pub allow_lan: bool,
    pub block_when_disconnected: bool,
    pub connectivity: Connectivity,
    pub dns_config: DnsConfigView,
    pub allowed_endpoint: AllowedEndpoint,
    pub excluded_paths: Seq<Seq<char>>,
    pub tunnel_parameters: TunnelParametersView,
    pub retry_ceiling: u32,
    pub platform: Platform,
    pub firewall: Option<FirewallPolicyView>,
    pub dns: Option<DnsRequestView>,
    pub tunnel: TunnelStatus,
    pub effects: Seq<Effect>,
}

impl View for SharedTunnelStateValues {
    type V = SharedView;

    open spec fn view(&self) -> SharedView {
        SharedView {
            allow_lan: self.allow_lan,
            block_when_disconnected: self.block_when_disconnected,
            connectivity: self.connectivity,
            dns_config: self.dns_config@,
            allowed_endpoint: self.allowed_endpoint,
            excluded_paths: texts_view(self.excluded_paths@),
            tunnel_parameters: self.tunnel_parameters@,
            retry_ceiling: self.retry_ceiling,
            platform: self.platform,
            firewall: self.firewall@,
            dns: match self.dns {
                Some(request) => Some(request@),
                None => None,
            },
            tunnel: self.tunnel,
            effects: self.effects@,
        }
    }
}

/// Which one-shot channel a handler completes when it is done.
#[derive(Clone, Copy, Debug, PartialEq, Eq, Structural)]
pub enum Acknowledgement {
    /// None: the stimulus carried no channel.
    Nothing,
    /// That of the command.
    Command,
    /// That of the tunnel event.
    Event,
}

impl SharedView {
    /// The context with one more effect at the end of its list.
    pub open spec fn emit(self, effect: Effect) -> SharedView {
        SharedView { effects: self.effects.push(effect), ..self }
    }

    /// The context once the given channel has been completed.
    pub open spec fn acknowledge(self, acknowledgement: Acknowledgement) -> SharedView {
        match acknowledgement {
            Acknowledgement::Nothing => self,
            Acknowledgement::Command => self.emit(Effect::AcknowledgeCommand),
            Acknowledgement::Event => self.emit(Effect::AcknowledgeEvent),
        }
    }

    /// The effect that undoes the tunnel's DNS settings on this platform.
    pub open spec fn dns_reset_effect(self) -> Effect {
        match self.platform.dns_delivery {
            DnsDelivery::SystemResolver => Effect::ResetDns,
            DnsDelivery::LocalResolver => Effect::DisableDnsForwarding,
        }
    }

    /// The context once the DNS settings have been asked to be undone:
    /// none are on record any more.
    pub open spec fn reset_dns(self) -> SharedView {
        SharedView { dns: None, ..self.emit(self.dns_reset_effect()) }
    }

    /// The context once the routes, and the routing rules where the platform
    /// has them, have been asked to be removed.
    pub open spec fn reset_routes(self) -> SharedView {
        if self.platform.routing_rules {
            self.emit(Effect::ClearRoutes).emit(Effect::ClearRoutingRules)
        } else {
            self.emit(Effect::ClearRoutes)
        }
    }

    /// The context once a tunnel has been asked to be started, as the
    /// attempt of the given number.
    pub open spec fn start_tunnel(self, retry_attempt: u32) -> SharedView {
        SharedView {
            tunnel: TunnelStatus::Running,
            ..self.emit(Effect::StartTunnel { retry_attempt })
        }
    }

    /// The context once the tunnel has been told to stop. Where there is no
    /// tunnel the telling is in vain.
    pub open spec fn stop_tunnel(self) -> SharedView {
        SharedView {
            tunnel: if self.tunnel == TunnelStatus::Running {
                TunnelStatus::Stopping
            } else {
                self.tunnel
            },
            ..self.emit(Effect::StopTunnel)
        }
    }

    /// The context once the tunnel has gone.
    pub open spec fn tunnel_gone(self) -> SharedView {
        SharedView { tunnel: TunnelStatus::Absent, ..self }
    }

    /// The context once the firewall has been asked to drop the machine's
    /// policy.
    pub open spec fn reset_firewall(self) -> SharedView {
        SharedView { firewall: None, ..self.emit(Effect::ResetFirewall) }
    }

    /// The policy that lets nothing pass but what the settings name.
    pub open spec fn blocked_policy(self) -> FirewallPolicyView {
        FirewallPolicyView::Blocked {
            allow_lan: self.allow_lan,
            allowed_endpoint: self.allowed_endpoint,
        }
    }
}

/// Whether two lists hold the same paths in the same order.
pub fn same_paths(left: &Vec<String>, right: &Vec<String>) -> (same: bool)
    ensures
        same == (texts_view(left@) == texts_view(right@)),
{
    if left.len() != right.len() {
        assert(texts_view(left@).len() != texts_view(right@).len());
        return false;
    }
    let mut i: usize = 0;
    while i < left.len()
        invariant
            i <= left.len(),
            left.len() == right.len(),
            forall|k: int| 0 <= k < i ==> left@[k]@ == right@[k]@,
        decreases left.len() - i,
    {
        if left[i] != right[i] {
            assert(texts_view(left@)[i as int] != texts_view(right@)[i as int]);
            return false;
        }
        i = i + 1;
    }
    assert(texts_view(left@) =~= texts_view(right@));
    true
}

impl SharedTunnelStateValues {
    /// A context for a machine that has not done anything yet: no policy is
    /// in force, no DNS servers are set, there is no tunnel and nothing is
    /// left for the world to do.
    pub fn new(
        allow_lan: bool,
        block_when_disconnected: bool,
        connectivity: Connectivity,
        dns_config: DnsConfig,
        allowed_endpoint: AllowedEndpoint,
        tunnel_parameters: TunnelParameters,
        retry_ceiling: u32,
        platform: Platform,
    ) -> (shared: SharedTunnelStateValues)
        ensures
            shared@ == (SharedView {
                allow_lan,
                block_when_disconnected,
                connectivity,
                dns_config: dns_config@,
                allowed_endpoint,
                excluded_paths: Seq::empty(),
                tunnel_parameters: tunnel_parameters@,
                retry_ceiling,
                platform,
                firewall: None,
                dns: None,
                tunnel: TunnelStatus::Absent,
                effects: Seq::empty(),
            }),
    {
        let shared = SharedTunnelStateValues {
            allow_lan,
            block_when_disconnected,
            connectivity,
            dns_config,
            allowed_endpoint,
            excluded_paths: Vec::new(),
            tunnel_parameters,
            retry_ceiling,
            platform,
            firewall: Firewall::new(),
            dns: None,
            tunnel: TunnelStatus::Absent,
            effects: Vec::new(),
        };
        assert(shared@.excluded_paths =~= Seq::empty());
        shared
    }

    /// Sets whether traffic to the local network may pass, and says whether
    /// that changed anything.
    pub fn set_allow_lan(&mut self, allow_lan: bool) -> (changed: bool)
        ensures
            changed == (old(self)@.allow_lan != allow_lan),
            final(self)@ == (SharedView { allow_lan, ..old(self)@ }),
    {
        let changed = self.allow_lan != allow_lan;
        self.allow_lan = allow_lan;
        changed
    }

    /// Sets the endpoint that may be reached whatever the state, and says
    /// whether that changed anything.
    pub fn set_allowed_endpoint(&mut self, endpoint: AllowedEndpoint) -> (changed: bool)
        ensures
            changed == (old(self)@.allowed_endpoint != endpoint),
            final(self)@ == (SharedView { allowed_endpoint: endpoint, ..old(self)@ }),
    {
        let changed = self.allowed_endpoint != endpoint;
        self.allowed_endpoint = endpoint;
        changed
    }

    /// Sets whether all traffic is blocked while disconnected, and says
    /// whether that changed anything.
    pub fn set_block_when_disconnected(&mut self, block: bool) -> (changed: bool)
        ensures
            changed == (old(self)@.block_when_disconnected != block),
            final(self)@ == (SharedView { block_when_disconnected: block, ..old(self)@ }),
    {
        let changed = self.block_when_disconnected != block;
        self.block_when_disconnected = block;
        changed
    }

    /// Sets the DNS servers asked for, and says whether that changed anything.
    pub fn set_dns_config(&mut self, config: DnsConfig) -> (changed: bool)
        ensures
            changed == (old(self)@.dns_config != config@),
            final(self)@ == (SharedView { dns_config: config@, ..old(self)@ }),
    {
        let changed = !self.dns_config.same_as(&config);
        self.dns_config = config;
        changed
    }

    /// Sets the applications routed outside the tunnel, and says whether that
    /// changed anything.
    pub fn set_excluded_paths(&mut self, paths: Vec<String>) -> (changed: bool)
        ensures
            changed == (old(self)@.excluded_paths != texts_view(paths@)),
            final(self)@ == (SharedView { excluded_paths: texts_view(paths@), ..old(self)@ }),
    {
        let changed = !same_paths(&self.excluded_paths, &paths);
        self.excluded_paths = paths;
        changed
    }

    /// Puts one more effect at the end of the list.
    pub fn emit(&mut self, effect: Effect)
        ensures
            final(self)@ == old(self)@.emit(effect),
    {
        self.effects.push(effect);
    }

    /// Completes the given one-shot channel, if any.
    pub fn acknowledge(&mut self, acknowledgement: Acknowledgement)
        ensures
            final(self)@ == old(self)@.acknowledge(acknowledgement),
    {
        match acknowledgement {
            Acknowledgement::Nothing => {},
            Acknowledgement::Command => self.emit(Effect::AcknowledgeCommand),
            Acknowledgement::Event => self.emit(Effect::AcknowledgeEvent),
        }
    }

    /// Asks for the tunnel's DNS settings to be undone, in the way of the
    /// platform, and records that none are set. This is safe when nothing
    /// was set.
    pub fn reset_dns(&mut self)
        ensures
            final(self)@ == old(self)@.reset_dns(),
    {
        match self.platform.dns_delivery {
            DnsDelivery::SystemResolver => self.emit(Effect::ResetDns),
            DnsDelivery::LocalResolver => self.emit(Effect::DisableDnsForwarding),
        }
        self.dns = None;
    }

    /// Asks for the routes, and the routing rules where the platform has
    /// them, to be removed.
    pub fn reset_routes(&mut self)
        ensures
            final(self)@ == old(self)@.reset_routes(),
    {
        self.emit(Effect::ClearRoutes);
        if self.platform.routing_rules {
            self.emit(Effect::ClearRoutingRules);
        }
    }

    /// Asks for a tunnel to be started, as the attempt of the given number.
    pub fn start_tunnel(&mut self, retry_attempt: u32)
        ensures
            final(self)@ == old(self)@.start_tunnel(retry_attempt),
    {
        self.emit(Effect::StartTunnel { retry_attempt });
        self.tunnel = TunnelStatus::Running;
    }

    /// Tells the tunnel to stop.
    pub fn stop_tunnel(&mut self)
        ensures
            final(self)@ == old(self)@.stop_tunnel(),
    {
        self.emit(Effect::StopTunnel);
        if self.tunnel == TunnelStatus::Running {
            self.tunnel = TunnelStatus::Stopping;
        }
    }

    /// Records that the tunnel has gone.
    pub fn tunnel_gone(&mut self)
        ensures
            final(self)@ == old(self)@.tunnel_gone(),
    {
        self.tunnel = TunnelStatus::Absent;
    }

    /// Asks the firewall to drop the machine's policy, and records that none
    /// is in force.
    pub fn reset_firewall(&mut self)
        ensures
            final(self)@ == old(self)@.reset_firewall(),
    {
        self.emit(Effect::ResetFirewall);
        self.firewall.reset_policy();
    }

    /// The policy that lets nothing pass but what the settings name.
    pub fn blocked_policy(&self) -> (policy: FirewallPolicy)
        ensures
            policy@ == self@.blocked_policy(),
    {
        FirewallPolicy::Blocked {
            allow_lan: self.allow_lan,
            allowed_endpoint: self.allowed_endpoint,
        }
    }

    /// Hands out what the world has still to do, oldest first, and leaves the
    /// list empty.
    pub fn take_effects(&mut self) -> (effects: Vec<Effect>)
        ensures
            effects@ == old(self)@.effects,
            final(self)@ == (SharedView { effects: Seq::empty(), ..old(self)@ }),
    {
        let mut effects: Vec<Effect> = Vec::new();
        std::mem::swap(&mut self.effects, &mut effects);
        effects
    }
}

/// The context once the setting that `command` carries, if any, is stored
/// and its channel, if any, is completed. No collaborator is asked.
pub open spec fn store_setting(command: Option<TunnelCommandView>, shared: SharedView) -> SharedView {
    match command {
        Some(TunnelCommandView::AllowLan(allow_lan)) => (SharedView {
            allow_lan,
            ..shared
        }).acknowledge(Acknowledgement::Command),
        Some(TunnelCommandView::AllowEndpoint(allowed_endpoint)) => (SharedView {
            allowed_endpoint,
            ..shared
        }).acknowledge(Acknowledgement::Command),
        Some(TunnelCommandView::Dns(dns_config)) => (SharedView {
            dns_config,
            ..shared
        }).acknowledge(Acknowledgement::Command),
        Some(TunnelCommandView::BlockWhenDisconnected(block_when_disconnected)) => (SharedView {
            block_when_disconnected,
            ..shared
        }).acknowledge(Acknowledgement::Command),
        Some(TunnelCommandView::Connectivity(connectivity)) => SharedView { connectivity, ..shared },
        Some(TunnelCommandView::BypassSocket(fd)) => shared.emit(Effect::BypassSocket(fd)),
        Some(TunnelCommandView::SetExcludedApps(excluded_paths)) => (SharedView {
            excluded_paths,
            ..shared
        }).acknowledge(Acknowledgement::Command),
        _ => shared,
    }
}

/// Stores the setting that `command` carries, if any, and completes its
/// channel, if any, without asking any collaborator.
pub fn store(command: Option<TunnelCommand>, shared_values: &mut SharedTunnelStateValues)
    ensures
        final(shared_values)@ == store_setting(
            command_view(command),
            old(shared_values)@,
        ),
{
    match command {
        Some(TunnelCommand::AllowLan(allow_lan)) => {
            shared_values.set_allow_lan(allow_lan);
            shared_values.acknowledge(Acknowledgement::Command);
        },
        Some(TunnelCommand::AllowEndpoint(endpoint)) => {
            shared_values.set_allowed_endpoint(endpoint);
            shared_values.acknowledge(Acknowledgement::Command);
        },
        Some(TunnelCommand::Dns(config)) => {
            shared_values.set_dns_config(config);
            shared_values.acknowledge(Acknowledgement::Command);
        },
        Some(TunnelCommand::BlockWhenDisconnected(block)) => {
            shared_values.set_block_when_disconnected(block);
            shared_values.acknowledge(Acknowledgement::Command);
        },
        Some(TunnelCommand::Connectivity(connectivity)) => {
            shared_values.connectivity = connectivity;
        },
        Some(TunnelCommand::BypassSocket(fd)) => {
            shared_values.emit(Effect::BypassSocket(fd));
        },
        Some(TunnelCommand::SetExcludedApps(paths)) => {
            shared_values.set_excluded_paths(paths);
            shared_values.acknowledge(Acknowledgement::Command);
        },
        _ => {},
    }
}

/// The record of a change of state, as shown to observers.
#[derive(Debug, PartialEq, Eq)]
pub enum TunnelStateTransition {
    Disconnected,
    Connecting(TunnelEndpoint),
    Connected(TunnelEndpoint),
    Disconnecting(ActionAfterDisconnect),
    Error(ErrorState),
}

/// The mathematical value of a [`TunnelStateTransition`].
pub enum TunnelStateTransitionView {
    Disconnected,
    Connecting(TunnelEndpointView),
    Connected(TunnelEndpointView),
    Disconnecting(ActionAfterDisconnect),
    Error(ErrorState),
}

impl View for TunnelStateTransition {
    type V = TunnelStateTransitionView;

    open spec fn view(&self) -> TunnelStateTransitionView {
        match *self {
            TunnelStateTransition::Disconnected => TunnelStateTransitionView::Disconnected,
            TunnelStateTransition::Connecting(endpoint) => TunnelStateTransitionView::Connecting(
                endpoint@,
            ),
            TunnelStateTransition::Connected(endpoint) => TunnelStateTransitionView::Connected(
                endpoint@,
            ),
            TunnelStateTransition::Disconnecting(action) => TunnelStateTransitionView::Disconnecting(
                action,
            ),
            TunnelStateTransition::Error(state) => TunnelStateTransitionView::Error(state),
        }
    }
}

/// The state that the machine is in. The set of states is closed.
#[derive(Debug, PartialEq, Eq)]
pub enum TunnelState {
    Disconnected(DisconnectedState),
    Connecting(ConnectingState),
    Connected(ConnectedState),
    Disconnecting(DisconnectingState),
    Error(ErrorState),
}

/// The mathematical value of a [`TunnelState`].
pub enum TunnelStateView {
    Disconnected(DisconnectedState),
    Connecting(ConnectingStateView),
    Connected(ConnectedStateView),
    Disconnecting(DisconnectingState),
    Error(ErrorState),
}

impl View for TunnelState {
    type V = TunnelStateView;

    open spec fn view(&self) -> TunnelStateView {
        match *self {
            TunnelState::Disconnected(state) => TunnelStateView::Disconnected(state),
            TunnelState::Connecting(state) => TunnelStateView::Connecting(state@),
            TunnelState::Connected(state) => TunnelStateView::Connected(state@),
            TunnelState::Disconnecting(state) => TunnelStateView::Disconnecting(state),
            TunnelState::Error(state) => TunnelStateView::Error(state),
        }
    }
}

impl TunnelStateView {
    /// The record of the machine's entering this state.
    pub open spec fn transition(self) -> TunnelStateTransitionView {
        match self {
            TunnelStateView::Disconnected(_) => TunnelStateTransitionView::Disconnected,
            TunnelStateView::Connecting(state) => TunnelStateTransitionView::Connecting(
                state.tunnel_parameters.tunnel_endpoint(),
            ),
            TunnelStateView::Connected(state) => TunnelStateTransitionView::Connected(
                state.tunnel_endpoint(),
            ),
            TunnelStateView::Disconnecting(state) => TunnelStateTransitionView::Disconnecting(
                state.after_disconnect.action_spec(),
            ),
            TunnelStateView::Error(state) => TunnelStateTransitionView::Error(state),
        }
    }
}

impl TunnelState {
    /// The record of the machine's entering this state.
    pub fn transition(&self) -> (transition: TunnelStateTransition)
        ensures
            transition@ == self@.transition(),
    {
        match self {
            TunnelState::Disconnected(_) => TunnelStateTransition::Disconnected,
            TunnelState::Connecting(state) => TunnelStateTransition::Connecting(
                state.tunnel_parameters.get_tunnel_endpoint(),
            ),
            TunnelState::Connected(state) => TunnelStateTransition::Connected(
                state.get_tunnel_endpoint(),
            ),
            TunnelState::Disconnecting(state) => TunnelStateTransition::Disconnecting(
                state.after_disconnect.action(),
            ),
            TunnelState::Error(state) => TunnelStateTransition::Error(*state),
        }
    }
}

/// What handling one stimulus has led to.
#[derive(Debug, PartialEq, Eq)]
pub enum EventConsequence {
    /// The machine has gone over to a new state, and observers are told.
    NewState(TunnelState, TunnelStateTransition),
    /// The machine has stayed in its state.
    SameState(TunnelState),
}

/// The mathematical value of an [`EventConsequence`].
pub enum EventConsequenceView {
    NewState(TunnelStateView, TunnelStateTransitionView),
    SameState(TunnelStateView),
}

impl View for EventConsequence {
    type V = EventConsequenceView;

    open spec fn view(&self) -> EventConsequenceView {
        match *self {
            EventConsequence::NewState(state, transition) => EventConsequenceView::NewState(
                state@,
                transition@,
            ),
            EventConsequence::SameState(state) => EventConsequenceView::SameState(state@),
        }
    }
}

/// How handling `event` in `state` goes, as far as it goes without an answer
/// from a collaborator, and the context it leaves.
pub open spec fn handle_event_spec(
    state: TunnelStateView,
    event: EventResultView,
    shared: SharedView,
) -> (ProgressView, SharedView) {
    match state {
        TunnelStateView::Disconnected(state) => disconnected_state::handle_event_spec(
            state,
            event,
            shared,
        ),
        TunnelStateView::Connecting(state) => connecting_state::handle_event_spec(
            state,
            event,
            shared,
        ),
        TunnelStateView::Connected(state) => connected_state::handle_event_spec(
            state,
            event,
            shared,
        ),
        TunnelStateView::Disconnecting(state) => disconnecting_state::handle_event_spec(
            state,
            event,
            shared,
        ),
        TunnelStateView::Error(state) => error_state::handle_event_spec(state, event, shared),
    }
}

impl TunnelState {
    /// Handles one stimulus in the current state. Every stimulus is handled
    /// in every state, and what comes of it depends on nothing but the state,
    /// the stimulus and the context.
    pub fn handle_event(
        self,
        event: EventResult,
        shared_values: &mut SharedTunnelStateValues,
    ) -> (progress: Progress)
        ensures
            (progress@, final(shared_values)@) == handle_event_spec(
                self@,
                event@,
                old(shared_values)@,
            ),
    {
        match self {
            TunnelState::Disconnected(state) => state.handle_event(event, shared_values),
            TunnelState::Connecting(state) => state.handle_event(event, shared_values),
            TunnelState::Connected(state) => state.handle_event(event, shared_values),
            TunnelState::Disconnecting(state) => state.handle_event(event, shared_values),
            TunnelState::Error(state) => state.handle_event(event, shared_values),
        }
    }
}

} // verus!
