//! The state in which the machine blocks all traffic because something has
//! gone wrong. No tunnel exists in it.

use crate::tunnel::{ErrorStateCause, FirewallPolicyError, TunnelEvent, TunnelEventView};
use crate::tunnel_state_machine::pending::{
    disconnect, disconnect_spec, done, request_firewall, request_firewall_spec, stay, Progress,
    ProgressView, Purpose,
};
use crate::tunnel_state_machine::{
    command_view, event_view, store, store_setting, Acknowledgement, AfterDisconnect,
    EventConsequence, EventResult, EventResultView, SharedTunnelStateValues, SharedView,
    TunnelCommand, TunnelCommandView, TunnelState, TunnelStateView,
};
use vstd::prelude::*;

verus! {

/// All traffic is blocked but what the settings name.
#[derive(Clone, Copy, Debug, PartialEq, Eq, Structural)]
pub struct ErrorState {
    /// Why the machine blocks.
    pub block_reason: ErrorStateCause,
    /// Why the firewall does not block after all, where it did not take the
    /// blocking policy.
    pub block_failure: Option<FirewallPolicyError>,
}

/// Entering the state for the given cause: the blocking policy is put in
/// force first.
pub open spec fn enter_spec(shared: SharedView, block_reason: ErrorStateCause) -> (
    ProgressView,
    SharedView,
) {
    (
        request_firewall_spec(
            TunnelStateView::Error(ErrorState { block_reason, block_failure: None }),
            Purpose::Enter,
            Acknowledgement::Nothing,
            false,
            shared,
        ),
        shared,
    )
}

/// A command while blocking. `Connect` and `Disconnect` lead out, through
/// the disconnecting state. A setting that is part of the blocking policy
/// has the policy put in force anew. Other settings are stored. `Block` is
/// passed over.
pub open spec fn handle_commands_spec(
    state: ErrorState,
    command: Option<TunnelCommandView>,
    shared: SharedView,
) -> (ProgressView, SharedView) {
    match command {
        Some(TunnelCommandView::AllowLan(allow_lan)) => {
            let stored = SharedView { allow_lan, ..shared };
            if shared.allow_lan != allow_lan {
                (
                    request_firewall_spec(
                        TunnelStateView::Error(state),
                        Purpose::Update,
                        Acknowledgement::Command,
                        false,
                        stored,
                    ),
                    stored,
                )
            } else {
                stay(TunnelStateView::Error(state), stored.acknowledge(Acknowledgement::Command))
            }
        },
        Some(TunnelCommandView::AllowEndpoint(allowed_endpoint)) => {
            let stored = SharedView { allowed_endpoint, ..shared };
            if shared.allowed_endpoint != allowed_endpoint {
                (
                    request_firewall_spec(
                        TunnelStateView::Error(state),
                        Purpose::Update,
                        Acknowledgement::Command,
                        false,
                        stored,
                    ),
                    stored,
                )
            } else {
                stay(TunnelStateView::Error(state), stored.acknowledge(Acknowledgement::Command))
            }
        },
        Some(TunnelCommandView::Connect) => done(
            disconnect_spec(AfterDisconnect::Reconnect(0), Acknowledgement::Nothing, shared),
        ),
        Some(TunnelCommandView::Disconnect) | None => done(
            disconnect_spec(AfterDisconnect::Nothing, Acknowledgement::Nothing, shared),
        ),
        _ => stay(TunnelStateView::Error(state), store_setting(command, shared)),
    }
}

/// There is no tunnel, so a tunnel event is acknowledged and otherwise
/// passed over.
pub open spec fn handle_tunnel_events_spec(
    state: ErrorState,
    event: Option<TunnelEventView>,
    shared: SharedView,
) -> (ProgressView, SharedView) {
    stay(
        TunnelStateView::Error(state),
        match event {
            Some(_) => shared.acknowledge(Acknowledgement::Event),
            None => shared,
        },
    )
}

/// How one stimulus is handled while blocking.
pub open spec fn handle_event_spec(
    state: ErrorState,
    event: EventResultView,
    shared: SharedView,
) -> (ProgressView, SharedView) {
    match event {
        EventResultView::Command(command) => handle_commands_spec(state, command, shared),
        EventResultView::Event(event) => handle_tunnel_events_spec(state, event, shared),
        EventResultView::Close(_) => stay(TunnelStateView::Error(state), shared.tunnel_gone()),
    }
}

impl ErrorState {
    /// Enters the state for the given cause.
    pub fn enter(shared_values: &mut SharedTunnelStateValues, block_reason: ErrorStateCause) -> (progress:
        Progress)
        ensures
            (progress@, final(shared_values)@) == enter_spec(old(shared_values)@, block_reason),
    {
        request_firewall(
            TunnelState::Error(ErrorState { block_reason, block_failure: None }),
            Purpose::Enter,
            Acknowledgement::Nothing,
            false,
            shared_values,
        )
    }

    /// Handles a command, or the closing of the command channel.
    pub fn handle_commands(
        self,
        command: Option<TunnelCommand>,
        shared_values: &mut SharedTunnelStateValues,
    ) -> (progress: Progress)
        ensures
            (progress@, final(shared_values)@) == handle_commands_spec(
                self,
                command_view(command),
                old(shared_values)@,
            ),
    {
        match command {
            Some(TunnelCommand::AllowLan(allow_lan)) => {
                if shared_values.set_allow_lan(allow_lan) {
                    request_firewall(
                        TunnelState::Error(self),
                        Purpose::Update,
                        Acknowledgement::Command,
                        false,
                        shared_values,
                    )
                } else {
                    shared_values.acknowledge(Acknowledgement::Command);
                    Progress::Done(EventConsequence::SameState(TunnelState::Error(self)))
                }
            },
            Some(TunnelCommand::AllowEndpoint(endpoint)) => {
                if shared_values.set_allowed_endpoint(endpoint) {
                    request_firewall(
                        TunnelState::Error(self),
                        Purpose::Update,
                        Acknowledgement::Command,
                        false,
                        shared_values,
                    )
                } else {
                    shared_values.acknowledge(Acknowledgement::Command);
                    Progress::Done(EventConsequence::SameState(TunnelState::Error(self)))
                }
            },
            Some(TunnelCommand::Connect) => Progress::Done(
                disconnect(shared_values, AfterDisconnect::Reconnect(0), Acknowledgement::Nothing),
            ),
            Some(TunnelCommand::Disconnect) | None => Progress::Done(
                disconnect(shared_values, AfterDisconnect::Nothing, Acknowledgement::Nothing),
            ),
            command => {
                store(command, shared_values);
                Progress::Done(EventConsequence::SameState(TunnelState::Error(self)))
            },
        }
    }

    /// Handles a tunnel event, or the closing of the tunnel's channel.
    pub fn handle_tunnel_events(
        self,
        event: Option<TunnelEvent>,
        shared_values: &mut SharedTunnelStateValues,
    ) -> (progress: Progress)
        ensures
            (progress@, final(shared_values)@) == handle_tunnel_events_spec(
                self,
                event_view(event),
                old(shared_values)@,
            ),
    {
        match event {
            Some(_) => shared_values.acknowledge(Acknowledgement::Event),
            None => {},
        }
        Progress::Done(EventConsequence::SameState(TunnelState::Error(self)))
    }

    /// Handles one stimulus.
    pub fn handle_event(
        self,
        event: EventResult,
        shared_values: &mut SharedTunnelStateValues,
    ) -> (progress: Progress)
        ensures
            (progress@, final(shared_values)@) == handle_event_spec(
                self,
                event@,
                old(shared_values)@,
            ),
    {
        match event {
            EventResult::Command(command) => self.handle_commands(command, shared_values),
            EventResult::Event(event) => self.handle_tunnel_events(event, shared_values),
            EventResult::Close(_) => {
                shared_values.tunnel_gone();
                Progress::Done(EventConsequence::SameState(TunnelState::Error(self)))
            },
        }
    }
}

} // verus!
