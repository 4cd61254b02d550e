//! The state in which the machine holds no tunnel: where it starts, and
//! where it ends after a full stop.

use crate::tunnel::{TunnelEvent, TunnelEventView};
use crate::tunnel_state_machine::connecting_state::ConnectingState;
use crate::tunnel_state_machine::error_state::ErrorState;
use crate::tunnel_state_machine::pending::{
    done, finish, finish_spec, request_firewall, request_firewall_spec, stay, Progress,
    ProgressView, Purpose,
};
use crate::tunnel_state_machine::{
    command_view, connecting_state, error_state, event_view, store, store_setting,
    Acknowledgement, EventConsequence, EventResult, EventResultView, SharedTunnelStateValues,
    SharedView, TunnelCommand, TunnelCommandView, TunnelState, TunnelStateView,
};
use vstd::prelude::*;

verus! {

/// No tunnel exists, and none is being set up or torn down.
#[derive(Clone, Copy, Debug, PartialEq, Eq, Structural)]
pub struct DisconnectedState;

/// The state as a state of the machine.
pub open spec fn disconnected() -> TunnelStateView {
    TunnelStateView::Disconnected(DisconnectedState)
}

/// Bringing the firewall into the state that the settings ask for while
/// idle: blocking, which the firewall has to take, or open, which drops the
/// machine's policy.
pub open spec fn set_firewall_policy_spec(
    purpose: Purpose,
    acknowledgement: Acknowledgement,
    shared: SharedView,
) -> (ProgressView, SharedView) {
    if shared.block_when_disconnected {
        (request_firewall_spec(disconnected(), purpose, acknowledgement, false, shared), shared)
    } else {
        done(finish_spec(disconnected(), purpose, acknowledgement, shared.reset_firewall()))
    }
}

/// Entering the state.
pub open spec fn enter_spec(shared: SharedView) -> (ProgressView, SharedView) {
    set_firewall_policy_spec(Purpose::Enter, Acknowledgement::Nothing, shared)
}

/// A command while idle. `Connect` starts the first attempt at a tunnel,
/// whose policy takes the place of whatever was in force. `Block` leads to
/// the error state. A setting is stored at once, and where the machine
/// blocks while idle and the setting is part of the blocking policy, the
/// policy is put in force anew. Switching the blocking on or off brings the
/// firewall into the new state. All else leaves the machine as it is.
pub open spec fn handle_commands_spec(
    command: Option<TunnelCommandView>,
    shared: SharedView,
) -> (ProgressView, SharedView) {
    match command {
        Some(TunnelCommandView::AllowLan(allow_lan)) => {
            let stored = SharedView { allow_lan, ..shared };
            if shared.allow_lan != allow_lan && shared.block_when_disconnected {
                set_firewall_policy_spec(Purpose::Update, Acknowledgement::Command, stored)
            } else {
                stay(disconnected(), stored.acknowledge(Acknowledgement::Command))
            }
        },
        Some(TunnelCommandView::AllowEndpoint(allowed_endpoint)) => {
            let stored = SharedView { allowed_endpoint, ..shared };
            if shared.allowed_endpoint != allowed_endpoint && shared.block_when_disconnected {
                set_firewall_policy_spec(Purpose::Update, Acknowledgement::Command, stored)
            } else {
                stay(disconnected(), stored.acknowledge(Acknowledgement::Command))
            }
        },
        Some(TunnelCommandView::BlockWhenDisconnected(block_when_disconnected)) => {
            let stored = SharedView { block_when_disconnected, ..shared };
            if shared.block_when_disconnected != block_when_disconnected {
                set_firewall_policy_spec(Purpose::Update, Acknowledgement::Command, stored)
            } else {
                stay(disconnected(), stored.acknowledge(Acknowledgement::Command))
            }
        },
        Some(TunnelCommandView::Connect) => connecting_state::enter_spec(
            shared,
            0,
            Acknowledgement::Nothing,
        ),
        Some(TunnelCommandView::Block(reason)) => error_state::enter_spec(shared, reason),
        _ => stay(disconnected(), store_setting(command, shared)),
    }
}

/// There is no tunnel, so a tunnel event is acknowledged and otherwise
/// passed over.
pub open spec fn handle_tunnel_events_spec(event: Option<TunnelEventView>, shared: SharedView) -> (
    ProgressView,
    SharedView,
) {
    stay(
        disconnected(),
        match event {
            Some(_) => shared.acknowledge(Acknowledgement::Event),
            None => shared,
        },
    )
}

/// How one stimulus is handled while idle.
pub open spec fn handle_event_spec(
    state: DisconnectedState,
    event: EventResultView,
    shared: SharedView,
) -> (ProgressView, SharedView) {
    match event {
        EventResultView::Command(command) => handle_commands_spec(command, shared),
        EventResultView::Event(event) => handle_tunnel_events_spec(event, shared),
        EventResultView::Close(_) => stay(disconnected(), shared.tunnel_gone()),
    }
}

impl DisconnectedState {
    /// Brings the firewall into the state that the settings ask for while
    /// idle.
    pub fn set_firewall_policy(
        shared_values: &mut SharedTunnelStateValues,
        purpose: Purpose,
        acknowledgement: Acknowledgement,
    ) -> (progress: Progress)
        ensures
            (progress@, final(shared_values)@) == set_firewall_policy_spec(
                purpose,
                acknowledgement,
                old(shared_values)@,
            ),
    {
        let state = TunnelState::Disconnected(DisconnectedState);
        if shared_values.block_when_disconnected {
            request_firewall(state, purpose, acknowledgement, false, shared_values)
        } else {
            shared_values.reset_firewall();
            Progress::Done(finish(state, purpose, acknowledgement, shared_values))
        }
    }

    /// Enters the state.
    pub fn enter(shared_values: &mut SharedTunnelStateValues) -> (progress: Progress)
        ensures
            (progress@, final(shared_values)@) == enter_spec(old(shared_values)@),
    {
        Self::set_firewall_policy(shared_values, Purpose::Enter, Acknowledgement::Nothing)
    }

    /// Handles a command, or the closing of the command channel.
    pub fn handle_commands(
        self,
        command: Option<TunnelCommand>,
        shared_values: &mut SharedTunnelStateValues,
    ) -> (progress: Progress)
        ensures
            (progress@, final(shared_values)@) == handle_commands_spec(
                command_view(command),
                old(shared_values)@,
            ),
    {
        match command {
            Some(TunnelCommand::AllowLan(allow_lan)) => {
                let changed = shared_values.set_allow_lan(allow_lan);
                if changed && shared_values.block_when_disconnected {
                    Self::set_firewall_policy(
                        shared_values,
                        Purpose::Update,
                        Acknowledgement::Command,
                    )
                } else {
                    shared_values.acknowledge(Acknowledgement::Command);
                    Progress::Done(EventConsequence::SameState(TunnelState::Disconnected(self)))
                }
            },
            Some(TunnelCommand::AllowEndpoint(endpoint)) => {
                let changed = shared_values.set_allowed_endpoint(endpoint);
                if changed && shared_values.block_when_disconnected {
                    Self::set_firewall_policy(
                        shared_values,
                        Purpose::Update,
                        Acknowledgement::Command,
                    )
                } else {
                    shared_values.acknowledge(Acknowledgement::Command);
                    Progress::Done(EventConsequence::SameState(TunnelState::Disconnected(self)))
                }
            },
            Some(TunnelCommand::BlockWhenDisconnected(block)) => {
                let changed = shared_values.set_block_when_disconnected(block);
                if changed {
                    Self::set_firewall_policy(
                        shared_values,
                        Purpose::Update,
                        Acknowledgement::Command,
                    )
                } else {
                    shared_values.acknowledge(Acknowledgement::Command);
                    Progress::Done(EventConsequence::SameState(TunnelState::Disconnected(self)))
                }
            },
            Some(TunnelCommand::Connect) => ConnectingState::enter(
                shared_values,
                0,
                Acknowledgement::Nothing,
            ),
            Some(TunnelCommand::Block(reason)) => ErrorState::enter(shared_values, reason),
            command => {
                store(command, shared_values);
                Progress::Done(EventConsequence::SameState(TunnelState::Disconnected(self)))
            },
        }
    }

    /// Handles a tunnel event, or the closing of the tunnel's channel.
    pub fn handle_tunnel_events(
        self,
        event: Option<TunnelEvent>,
        shared_values: &mut SharedTunnelStateValues,
    ) -> (progress: Progress)
        ensures
            (progress@, final(shared_values)@) == handle_tunnel_events_spec(
                event_view(event),
                old(shared_values)@,
            ),
    {
        match event {
            Some(_) => shared_values.acknowledge(Acknowledgement::Event),
            None => {},
        }
        Progress::Done(EventConsequence::SameState(TunnelState::Disconnected(self)))
    }

    /// Handles one stimulus.
    pub fn handle_event(
        self,
        event: EventResult,
        shared_values: &mut SharedTunnelStateValues,
    ) -> (progress: Progress)
        ensures
            (progress@, final(shared_values)@) == handle_event_spec(
                self,
                event@,
                old(shared_values)@,
            ),
    {
        match event {
            EventResult::Command(command) => self.handle_commands(command, shared_values),
            EventResult::Event(event) => self.handle_tunnel_events(event, shared_values),
            EventResult::Close(_) => {
                shared_values.tunnel_gone();
                Progress::Done(EventConsequence::SameState(TunnelState::Disconnected(self)))
            },
        }
    }
}

} // verus!
