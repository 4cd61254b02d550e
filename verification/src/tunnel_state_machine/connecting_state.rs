//! The state in which a tunnel is being set up. Only the traffic that sets
//! it up may pass, and an attempt that fails is followed by another until
//! the attempts are used up.

use crate::firewall::{FirewallPolicy, FirewallPolicyView};
use crate::net::{AllowedClients, AllowedEndpoint};
use crate::tunnel::{ErrorStateCause, TunnelEvent, TunnelEventView};
use crate::tunnel_state_machine::connected_state::ConnectedState;
use crate::tunnel_state_machine::error_state::ErrorState;
use crate::tunnel_state_machine::pending::{
    disconnect, disconnect_spec, done, request_firewall, request_firewall_spec, stay, Progress,
    ProgressView, Purpose,
};
use crate::tunnel_state_machine::{
    block_reason_of, command_view, connected_state, error_state, event_view, store,
    store_setting, Acknowledgement, AfterDisconnect, EventConsequence, EventResult,
    EventResultView, ExcludedAppsChange, SharedTunnelStateValues, SharedView, TunnelCommand,
    TunnelCommandView, TunnelState, TunnelStateView,
};
use crate::wireguard::{TunnelParameters, TunnelParametersView};
use vstd::prelude::*;

verus! {

/// A tunnel is being set up.
#[derive(Debug, PartialEq, Eq)]
pub struct ConnectingState {
    /// How the tunnel is configured.
    pub tunnel_parameters: TunnelParameters,
    /// How many attempts have failed before this one.
    pub retry_attempt: u32,
}

/// The mathematical value of a [`ConnectingState`].
pub struct ConnectingStateView {
    pub tunnel_parameters: TunnelParametersView,
    pub retry_attempt: u32,
}

impl View for ConnectingState {
    type V = ConnectingStateView;

    open spec fn view(&self) -> ConnectingStateView {
        ConnectingStateView {
            tunnel_parameters: self.tunnel_parameters@,
            retry_attempt: self.retry_attempt,
        }
    }
}

/// Who may talk to the tunnel's peer outside the tunnel: every process where
/// a local obfuscator carries the traffic, since it runs without privileges
/// and has to reach the peer itself, and the superuser alone otherwise.
pub open spec fn allowed_clients_spec(parameters: TunnelParametersView) -> AllowedClients {
    if parameters.obfuscation is Some {
        AllowedClients::All
    } else {
        AllowedClients::Root
    }
}

/// The peer that the host itself connects to, and who may talk to it.
pub open spec fn peer_endpoint_spec(parameters: TunnelParametersView) -> AllowedEndpoint {
    AllowedEndpoint {
        endpoint: parameters.next_hop_endpoint(),
        clients: allowed_clients_spec(parameters),
    }
}

/// The peer that the host itself connects to, and who may talk to it.
pub fn peer_endpoint(parameters: &TunnelParameters) -> (endpoint: AllowedEndpoint)
    ensures
        endpoint == peer_endpoint_spec(parameters@),
{
    let clients = if parameters.obfuscation.is_some() {
        AllowedClients::All
    } else {
        AllowedClients::Root
    };
    AllowedEndpoint { endpoint: parameters.get_next_hop_endpoint(), clients }
}

/// What follows the teardown of an attempt that has failed without a fatal
/// cause: the next attempt while the ceiling is not reached, and blocking
/// once it is.
pub open spec fn after_failure(retry_attempt: u32, retry_ceiling: u32) -> AfterDisconnect {
    if retry_attempt < retry_ceiling {
        AfterDisconnect::Reconnect((retry_attempt + 1) as u32)
    } else {
        AfterDisconnect::Block(ErrorStateCause::StartTunnelError)
    }
}

/// The longest that the start of an attempt is put off, in seconds.
pub const MAX_RETRY_DELAY: u64 = 32;

/// How long the start of the attempt of the given number is put off, in
/// seconds: not at all for the first attempt, one second for the next, and
/// twice as long for each one after it, up to the longest delay.
pub open spec fn retry_delay_spec(retry_attempt: u32) -> u64 {
    if retry_attempt == 0 {
        0
    } else if retry_attempt == 1 {
        1
    } else if retry_attempt == 2 {
        2
    } else if retry_attempt == 3 {
        4
    } else if retry_attempt == 4 {
        8
    } else if retry_attempt == 5 {
        16
    } else {
        MAX_RETRY_DELAY
    }
}

/// How long the start of the attempt of the given number is put off, in
/// seconds.
pub fn retry_delay(retry_attempt: u32) -> (seconds: u64)
    ensures
        seconds == retry_delay_spec(retry_attempt),
        seconds <= MAX_RETRY_DELAY,
{
    match retry_attempt {
        0 => 0,
        1 => 1,
        2 => 2,
        3 => 4,
        4 => 8,
        5 => 16,
        _ => MAX_RETRY_DELAY,
    }
}

/// The delay never shrinks from one attempt to a later one, and never
/// exceeds the longest delay.
pub proof fn retry_delay_is_monotone_and_bounded(earlier: u32, later: u32)
    requires
        earlier <= later,
    ensures
        retry_delay_spec(earlier) <= retry_delay_spec(later) <= MAX_RETRY_DELAY,
{
}

impl ConnectingStateView {
    /// The policy while the tunnel is being set up.
    pub open spec fn firewall_policy(self, shared: SharedView) -> FirewallPolicyView {
        FirewallPolicyView::Connecting {
            peer_endpoint: peer_endpoint_spec(self.tunnel_parameters),
            allow_lan: shared.allow_lan,
            allowed_endpoint: shared.allowed_endpoint,
        }
    }
}

/// Entering the state as the attempt of the given number, with the tunnel
/// parameters of the context: the policy is put in force before the tunnel
/// is started.
pub open spec fn enter_spec(
    shared: SharedView,
    retry_attempt: u32,
    acknowledgement: Acknowledgement,
) -> (ProgressView, SharedView) {
    (
        request_firewall_spec(
            TunnelStateView::Connecting(
                ConnectingStateView { tunnel_parameters: shared.tunnel_parameters, retry_attempt },
            ),
            Purpose::Enter,
            acknowledgement,
            false,
            shared,
        ),
        shared,
    )
}

/// A command while a tunnel is being set up. `Connect`, `Disconnect`,
/// `Block` and going offline lead into the disconnecting state. A setting
/// that is part of the policy has the policy put in force anew. A change of
/// the excluded applications that needs a new interface starts over. Other
/// settings are stored.
pub open spec fn handle_commands_spec(
    state: ConnectingStateView,
    command: Option<TunnelCommandView>,
    shared: SharedView,
) -> (ProgressView, SharedView) {
    let this = TunnelStateView::Connecting(state);
    match command {
        Some(TunnelCommandView::AllowLan(allow_lan)) => {
            let stored = SharedView { allow_lan, ..shared };
            if shared.allow_lan != allow_lan {
                (
                    request_firewall_spec(
                        this,
                        Purpose::Update,
                        Acknowledgement::Command,
                        false,
                        stored,
                    ),
                    stored,
                )
            } else {
                stay(this, stored.acknowledge(Acknowledgement::Command))
            }
        },
        Some(TunnelCommandView::AllowEndpoint(allowed_endpoint)) => {
            let stored = SharedView { allowed_endpoint, ..shared };
            if shared.allowed_endpoint != allowed_endpoint {
                (
                    request_firewall_spec(
                        this,
                        Purpose::Update,
                        Acknowledgement::Command,
                        false,
                        stored,
                    ),
                    stored,
                )
            } else {
                stay(this, stored.acknowledge(Acknowledgement::Command))
            }
        },
        Some(TunnelCommandView::Connectivity(connectivity)) => {
            let stored = SharedView { connectivity, ..shared };
            if connectivity.is_offline_spec() {
                done(
                    disconnect_spec(
                        AfterDisconnect::Block(ErrorStateCause::IsOffline),
                        Acknowledgement::Nothing,
                        stored,
                    ),
                )
            } else {
                stay(this, stored)
            }
        },
        Some(TunnelCommandView::Connect) => done(
            disconnect_spec(AfterDisconnect::Reconnect(0), Acknowledgement::Nothing, shared),
        ),
        Some(TunnelCommandView::Disconnect) | None => done(
            disconnect_spec(AfterDisconnect::Nothing, Acknowledgement::Nothing, shared),
        ),
        Some(TunnelCommandView::Block(reason)) => done(
            disconnect_spec(AfterDisconnect::Block(reason), Acknowledgement::Nothing, shared),
        ),
        Some(TunnelCommandView::SetExcludedApps(excluded_paths)) => {
            let stored = SharedView { excluded_paths, ..shared };
            if shared.excluded_paths != excluded_paths && shared.platform.excluded_apps_change
                == ExcludedAppsChange::Reconnect {
                done(
                    disconnect_spec(
                        AfterDisconnect::Reconnect(0),
                        Acknowledgement::Command,
                        stored,
                    ),
                )
            } else {
                stay(this, stored.acknowledge(Acknowledgement::Command))
            }
        },
        _ => stay(this, store_setting(command, shared)),
    }
}

/// A tunnel event while a tunnel is being set up. `Up` leads on to the
/// connected state with what the tunnel says of itself. `Down`, or the end
/// of the events, is a failed attempt: the tunnel is torn down, and what
/// follows is the next attempt or, once the ceiling is reached, blocking.
pub open spec fn handle_tunnel_events_spec(
    state: ConnectingStateView,
    event: Option<TunnelEventView>,
    shared: SharedView,
) -> (ProgressView, SharedView) {
    match event {
        Some(TunnelEventView::Up(metadata)) => connected_state::enter_spec(
            shared,
            metadata,
            state.tunnel_parameters,
            Acknowledgement::Event,
        ),
        Some(TunnelEventView::Down) => done(
            disconnect_spec(
                after_failure(state.retry_attempt, shared.retry_ceiling),
                Acknowledgement::Event,
                shared,
            ),
        ),
        None => done(
            disconnect_spec(
                after_failure(state.retry_attempt, shared.retry_ceiling),
                Acknowledgement::Nothing,
                shared,
            ),
        ),
    }
}

/// The tunnel has gone before it was up. The DNS settings are undone and
/// the routes removed. With a fatal cause the error state follows. Without
/// one the next attempt follows while the ceiling is not reached, and the
/// error state once it is.
pub open spec fn handle_tunnel_close_event_spec(
    state: ConnectingStateView,
    block_reason: Option<ErrorStateCause>,
    shared: SharedView,
) -> (ProgressView, SharedView) {
    let torn_down = shared.tunnel_gone().reset_dns().reset_routes();
    match block_reason {
        Some(cause) => error_state::enter_spec(torn_down, cause),
        None => if state.retry_attempt < shared.retry_ceiling {
            enter_spec(torn_down, (state.retry_attempt + 1) as u32, Acknowledgement::Nothing)
        } else {
            error_state::enter_spec(torn_down, ErrorStateCause::StartTunnelError)
        },
    }
}

/// How one stimulus is handled while a tunnel is being set up.
pub open spec fn handle_event_spec(
    state: ConnectingStateView,
    event: EventResultView,
    shared: SharedView,
) -> (ProgressView, SharedView) {
    match event {
        EventResultView::Command(command) => handle_commands_spec(state, command, shared),
        EventResultView::Event(event) => handle_tunnel_events_spec(state, event, shared),
        EventResultView::Close(result) => handle_tunnel_close_event_spec(
            state,
            block_reason_of(result),
            shared,
        ),
    }
}

impl ConnectingState {
    /// The policy while the tunnel is being set up.
    pub fn get_firewall_policy(&self, shared_values: &SharedTunnelStateValues) -> (policy:
        FirewallPolicy)
        ensures
            policy@ == self@.firewall_policy(shared_values@),
    {
        FirewallPolicy::Connecting {
            peer_endpoint: peer_endpoint(&self.tunnel_parameters),
            allow_lan: shared_values.allow_lan,
            allowed_endpoint: shared_values.allowed_endpoint,
        }
    }

    /// Enters the state as the attempt of the given number.
    pub fn enter(
        shared_values: &mut SharedTunnelStateValues,
        retry_attempt: u32,
        acknowledgement: Acknowledgement,
    ) -> (progress: Progress)
        ensures
            (progress@, final(shared_values)@) == enter_spec(
                old(shared_values)@,
                retry_attempt,
                acknowledgement,
            ),
    {
        let state = ConnectingState {
            tunnel_parameters: shared_values.tunnel_parameters.clone(),
            retry_attempt,
        };
        request_firewall(
            TunnelState::Connecting(state),
            Purpose::Enter,
            acknowledgement,
            false,
            shared_values,
        )
    }

    /// What follows the teardown of this attempt if it fails without a fatal
    /// cause.
    fn next_after_failure(&self, shared_values: &SharedTunnelStateValues) -> (after_disconnect:
        AfterDisconnect)
        ensures
            after_disconnect == after_failure(self.retry_attempt, shared_values.retry_ceiling),
    {
        if self.retry_attempt < shared_values.retry_ceiling {
            AfterDisconnect::Reconnect(self.retry_attempt + 1)
        } else {
            AfterDisconnect::Block(ErrorStateCause::StartTunnelError)
        }
    }

    /// Handles a command, or the closing of the command channel.
    pub fn handle_commands(
        self,
        command: Option<TunnelCommand>,
        shared_values: &mut SharedTunnelStateValues,
    ) -> (progress: Progress)
        ensures
            (progress@, final(shared_values)@) == handle_commands_spec(
                self@,
                command_view(command),
                old(shared_values)@,
            ),
    {
        match command {
            Some(TunnelCommand::AllowLan(allow_lan)) => {
                if shared_values.set_allow_lan(allow_lan) {
                    request_firewall(
                        TunnelState::Connecting(self),
                        Purpose::Update,
                        Acknowledgement::Command,
                        false,
                        shared_values,
                    )
                } else {
                    shared_values.acknowledge(Acknowledgement::Command);
                    Progress::Done(EventConsequence::SameState(TunnelState::Connecting(self)))
                }
            },
            Some(TunnelCommand::AllowEndpoint(endpoint)) => {
                if shared_values.set_allowed_endpoint(endpoint) {
                    request_firewall(
                        TunnelState::Connecting(self),
                        Purpose::Update,
                        Acknowledgement::Command,
                        false,
                        shared_values,
                    )
                } else {
                    shared_values.acknowledge(Acknowledgement::Command);
                    Progress::Done(EventConsequence::SameState(TunnelState::Connecting(self)))
                }
            },
            Some(TunnelCommand::Connectivity(connectivity)) => {
                shared_values.connectivity = connectivity;
                if connectivity.is_offline() {
                    Progress::Done(
                        disconnect(
                            shared_values,
                            AfterDisconnect::Block(ErrorStateCause::IsOffline),
                            Acknowledgement::Nothing,
                        ),
                    )
                } else {
                    Progress::Done(EventConsequence::SameState(TunnelState::Connecting(self)))
                }
            },
            Some(TunnelCommand::Connect) => Progress::Done(
                disconnect(shared_values, AfterDisconnect::Reconnect(0), Acknowledgement::Nothing),
            ),
            Some(TunnelCommand::Disconnect) | None => Progress::Done(
                disconnect(shared_values, AfterDisconnect::Nothing, Acknowledgement::Nothing),
            ),
            Some(TunnelCommand::Block(reason)) => Progress::Done(
                disconnect(
                    shared_values,
                    AfterDisconnect::Block(reason),
                    Acknowledgement::Nothing,
                ),
            ),
            Some(TunnelCommand::SetExcludedApps(paths)) => {
                let changed = shared_values.set_excluded_paths(paths);
                if changed && shared_values.platform.excluded_apps_change
                    == ExcludedAppsChange::Reconnect {
                    Progress::Done(
                        disconnect(
                            shared_values,
                            AfterDisconnect::Reconnect(0),
                            Acknowledgement::Command,
                        ),
                    )
                } else {
                    shared_values.acknowledge(Acknowledgement::Command);
                    Progress::Done(EventConsequence::SameState(TunnelState::Connecting(self)))
                }
            },
            command => {
                store(command, shared_values);
                Progress::Done(EventConsequence::SameState(TunnelState::Connecting(self)))
            },
        }
    }

    /// Handles a tunnel event, or the closing of the tunnel's channel.
    pub fn handle_tunnel_events(
        self,
        event: Option<TunnelEvent>,
        shared_values: &mut SharedTunnelStateValues,
    ) -> (progress: Progress)
        ensures
            (progress@, final(shared_values)@) == handle_tunnel_events_spec(
                self@,
                event_view(event),
                old(shared_values)@,
            ),
    {
        match event {
            Some(TunnelEvent::Up(metadata)) => ConnectedState::enter(
                shared_values,
                metadata,
                self.tunnel_parameters,
                Acknowledgement::Event,
            ),
            Some(TunnelEvent::Down) => {
                let after_disconnect = self.next_after_failure(shared_values);
                Progress::Done(disconnect(shared_values, after_disconnect, Acknowledgement::Event))
            },
            None => {
                let after_disconnect = self.next_after_failure(shared_values);
                Progress::Done(
                    disconnect(shared_values, after_disconnect, Acknowledgement::Nothing),
                )
            },
        }
    }

    /// Handles the end of the tunnel, with its fatal cause if it has one.
    pub fn handle_tunnel_close_event(
        self,
        block_reason: Option<ErrorStateCause>,
        shared_values: &mut SharedTunnelStateValues,
    ) -> (progress: Progress)
        ensures
            (progress@, final(shared_values)@) == handle_tunnel_close_event_spec(
                self@,
                block_reason,
                old(shared_values)@,
            ),
    {
        shared_values.tunnel_gone();
        shared_values.reset_dns();
        shared_values.reset_routes();
        match block_reason {
            Some(cause) => ErrorState::enter(shared_values, cause),
            None => {
                if self.retry_attempt < shared_values.retry_ceiling {
                    Self::enter(shared_values, self.retry_attempt + 1, Acknowledgement::Nothing)
                } else {
                    ErrorState::enter(shared_values, ErrorStateCause::StartTunnelError)
                }
            },
        }
    }

    /// Handles one stimulus.
    pub fn handle_event(
        self,
        event: EventResult,
        shared_values: &mut SharedTunnelStateValues,
    ) -> (progress: Progress)
        ensures
            (progress@, final(shared_values)@) == handle_event_spec(
                self@,
                event@,
                old(shared_values)@,
            ),
    {
        match event {
            EventResult::Command(command) => self.handle_commands(command, shared_values),
            EventResult::Event(event) => self.handle_tunnel_events(event, shared_values),
            EventResult::Close(result) => {
                let block_reason = match result {
                    Ok(reason) => reason,
                    Err(_) => None,
                };
                self.handle_tunnel_close_event(block_reason, shared_values)
            },
        }
    }
}

} // verus!
