//! The state in which the machine waits for the tunnel to go. Only when the
//! tunnel has gone, and has given back what it held, is a new tunnel started
//! or the machine called idle.

use crate::tunnel::{ErrorStateCause, TunnelEvent, TunnelEventView};
use crate::tunnel_state_machine::connecting_state::ConnectingState;
use crate::tunnel_state_machine::disconnected_state::DisconnectedState;
use crate::tunnel_state_machine::error_state::ErrorState;
use crate::tunnel_state_machine::pending::{stay, Progress, ProgressView};
use crate::tunnel_state_machine::{
    command_view, connecting_state, disconnected_state, error_state, event_view, store,
    store_setting, Acknowledgement, AfterDisconnect, Effect, EventConsequence,
    EventConsequenceView, EventResult, EventResultView, SharedTunnelStateValues, SharedView,
    TunnelCommand, TunnelCommandView, TunnelState, TunnelStateView,
};
use vstd::prelude::*;

verus! {

/// The tunnel has been told to stop and has not gone yet.
#[derive(Clone, Copy, Debug, PartialEq, Eq, Structural)]
pub struct DisconnectingState {
    /// What follows once the tunnel has gone.
    pub after_disconnect: AfterDisconnect,
}

/// Entering the state: the tunnel is told to stop.
pub open spec fn enter_spec(after_disconnect: AfterDisconnect, shared: SharedView) -> (
    EventConsequenceView,
    SharedView,
) {
    let state = TunnelStateView::Disconnecting(DisconnectingState { after_disconnect });
    (EventConsequenceView::NewState(state, state.transition()), shared.stop_tunnel())
}

/// What follows the teardown once `command` has been taken into account.
/// Settings leave it as it is. Going offline turns a pending reconnect into
/// blocking.
pub open spec fn after_command(
    after_disconnect: AfterDisconnect,
    command: Option<TunnelCommandView>,
) -> AfterDisconnect {
    match command {
        Some(TunnelCommandView::Connect) => match after_disconnect {
            AfterDisconnect::Reconnect(attempt) => AfterDisconnect::Reconnect(attempt),
            _ => AfterDisconnect::Reconnect(0),
        },
        Some(TunnelCommandView::Disconnect) | None => AfterDisconnect::Nothing,
        Some(TunnelCommandView::Block(reason)) => AfterDisconnect::Block(reason),
        Some(TunnelCommandView::Connectivity(connectivity)) => if connectivity.is_offline_spec()
            && after_disconnect is Reconnect {
            AfterDisconnect::Block(ErrorStateCause::IsOffline)
        } else {
            after_disconnect
        },
        _ => after_disconnect,
    }
}

/// A command while the tunnel is going: the state is never left. A setting
/// is stored, and a command that says what shall follow the teardown
/// replaces what was to follow.
pub open spec fn handle_commands_spec(
    state: DisconnectingState,
    command: Option<TunnelCommandView>,
    shared: SharedView,
) -> (ProgressView, SharedView) {
    stay(
        TunnelStateView::Disconnecting(
            DisconnectingState { after_disconnect: after_command(state.after_disconnect, command) },
        ),
        store_setting(command, shared),
    )
}

/// A tunnel event while the tunnel is going is acknowledged and otherwise
/// passed over.
pub open spec fn handle_tunnel_events_spec(
    state: DisconnectingState,
    event: Option<TunnelEventView>,
    shared: SharedView,
) -> (ProgressView, SharedView) {
    stay(
        TunnelStateView::Disconnecting(state),
        match event {
            Some(_) => shared.acknowledge(Acknowledgement::Event),
            None => shared,
        },
    )
}

/// The tunnel has gone: what was to follow the teardown follows, whatever
/// the tunnel says of its end.
pub open spec fn after_disconnect_spec(state: DisconnectingState, shared: SharedView) -> (
    ProgressView,
    SharedView,
) {
    let gone = shared.tunnel_gone();
    match state.after_disconnect {
        AfterDisconnect::Nothing => disconnected_state::enter_spec(gone),
        AfterDisconnect::Block(cause) => error_state::enter_spec(gone, cause),
        AfterDisconnect::Reconnect(attempt) => connecting_state::enter_spec(
            gone,
            attempt,
            Acknowledgement::Nothing,
        ),
    }
}

/// How one stimulus is handled while the tunnel is going.
pub open spec fn handle_event_spec(
    state: DisconnectingState,
    event: EventResultView,
    shared: SharedView,
) -> (ProgressView, SharedView) {
    match event {
        EventResultView::Command(command) => handle_commands_spec(state, command, shared),
        EventResultView::Event(event) => handle_tunnel_events_spec(state, event, shared),
        EventResultView::Close(_) => after_disconnect_spec(state, shared),
    }
}

impl DisconnectingState {
    /// Enters the state: tells the tunnel to stop.
    pub fn enter(
        shared_values: &mut SharedTunnelStateValues,
        after_disconnect: AfterDisconnect,
    ) -> (consequence: EventConsequence)
        ensures
            (consequence@, final(shared_values)@) == enter_spec(
                after_disconnect,
                old(shared_values)@,
            ),
    {
        shared_values.stop_tunnel();
        let state = TunnelState::Disconnecting(DisconnectingState { after_disconnect });
        let transition = state.transition();
        EventConsequence::NewState(state, transition)
    }

    /// What follows the teardown once `command` has been taken into account.
    fn next_after_disconnect(&self, command: &Option<TunnelCommand>) -> (after_disconnect:
        AfterDisconnect)
        ensures
            after_disconnect == after_command(
                self.after_disconnect,
                command_view(*command),
            ),
    {
        match command {
            Some(TunnelCommand::Connect) => match self.after_disconnect {
                AfterDisconnect::Reconnect(attempt) => AfterDisconnect::Reconnect(attempt),
                _ => AfterDisconnect::Reconnect(0),
            },
            Some(TunnelCommand::Disconnect) | None => AfterDisconnect::Nothing,
            Some(TunnelCommand::Block(reason)) => AfterDisconnect::Block(*reason),
            Some(TunnelCommand::Connectivity(connectivity)) => {
                let reconnecting = match self.after_disconnect {
                    AfterDisconnect::Reconnect(_) => true,
                    _ => false,
                };
                if connectivity.is_offline() && reconnecting {
                    AfterDisconnect::Block(ErrorStateCause::IsOffline)
                } else {
                    self.after_disconnect
                }
            },
            _ => self.after_disconnect,
        }
    }

    /// Handles a command, or the closing of the command channel.
    pub fn handle_commands(
        self,
        command: Option<TunnelCommand>,
        shared_values: &mut SharedTunnelStateValues,
    ) -> (progress: Progress)
        ensures
            (progress@, final(shared_values)@) == handle_commands_spec(
                self,
                command_view(command),
                old(shared_values)@,
            ),
    {
        let after_disconnect = self.next_after_disconnect(&command);
        store(command, shared_values);
        Progress::Done(
            EventConsequence::SameState(
                TunnelState::Disconnecting(DisconnectingState { after_disconnect }),
            ),
        )
    }

    /// Handles a tunnel event, or the closing of the tunnel's channel.
    pub fn handle_tunnel_events(
        self,
        event: Option<TunnelEvent>,
        shared_values: &mut SharedTunnelStateValues,
    ) -> (progress: Progress)
        ensures
            (progress@, final(shared_values)@) == handle_tunnel_events_spec(
                self,
                event_view(event),
                old(shared_values)@,
            ),
    {
        match event {
            Some(_) => shared_values.acknowledge(Acknowledgement::Event),
            None => {},
        }
        Progress::Done(EventConsequence::SameState(TunnelState::Disconnecting(self)))
    }

    /// Goes on to what was to follow the teardown, now that the tunnel has
    /// gone.
    pub fn after_disconnect(self, shared_values: &mut SharedTunnelStateValues) -> (progress:
        Progress)
        ensures
            (progress@, final(shared_values)@) == after_disconnect_spec(self, old(shared_values)@),
    {
        shared_values.tunnel_gone();
        match self.after_disconnect {
            AfterDisconnect::Nothing => DisconnectedState::enter(shared_values),
            AfterDisconnect::Block(cause) => ErrorState::enter(shared_values, cause),
            AfterDisconnect::Reconnect(attempt) => ConnectingState::enter(
                shared_values,
                attempt,
                Acknowledgement::Nothing,
            ),
        }
    }

    /// Handles one stimulus.
    pub fn handle_event(
        self,
        event: EventResult,
        shared_values: &mut SharedTunnelStateValues,
    ) -> (progress: Progress)
        ensures
            (progress@, final(shared_values)@) == handle_event_spec(
                self,
                event@,
                old(shared_values)@,
            ),
    {
        match event {
            EventResult::Command(command) => self.handle_commands(command, shared_values),
            EventResult::Event(event) => self.handle_tunnel_events(event, shared_values),
            EventResult::Close(_) => self.after_disconnect(shared_values),
        }
    }
}

} // verus!
