//! A tunnel is started exactly when the connecting state is entered, and
//! told to stop exactly when the disconnecting state is entered: no attempt
//! is started beside another, and none is left behind.

use crate::tunnel::FirewallPolicyError;
use crate::tunnel_state_machine::acknowledgement::{count, count_after_push};
use crate::tunnel_state_machine::connected_state::ConnectedStateView;
use crate::tunnel_state_machine::connecting_state::ConnectingStateView;
use crate::tunnel_state_machine::disconnected_state::DisconnectedState;
use crate::tunnel_state_machine::disconnecting_state::DisconnectingState;
use crate::tunnel_state_machine::error_state::ErrorState;
use crate::tunnel_state_machine::pending::{
    resume_dns_spec, resume_firewall_spec, DnsError, PendingDnsView, PendingFirewallView,
    ProgressView,
};
use crate::tunnel_state_machine::{
    connected_state, connecting_state, disconnected_state, disconnecting_state, error_state,
    handle_event_spec, Effect, EventConsequenceView, EventResultView, SharedView,
    TunnelCommandView, TunnelStateView,
};
use vstd::prelude::*;

verus! {

/// Whether `effect` starts a tunnel or tells one to stop.
pub open spec fn concerns_tunnel(effect: Effect) -> bool {
    effect is StartTunnel || effect is StopTunnel
}

/// How often a step that ends as `progress` has to ask for `effect`: the
/// start of attempt `n` once if it ends with the machine newly in the
/// connecting state as attempt `n`, the stop once if it ends with the
/// machine newly in the disconnecting state, and never otherwise.
pub open spec fn due(progress: ProgressView, effect: Effect) -> nat {
    match (progress, effect) {
        (
            ProgressView::Done(EventConsequenceView::NewState(TunnelStateView::Connecting(state), _)),
            Effect::StartTunnel { retry_attempt },
        ) => if state.retry_attempt == retry_attempt {
            1
        } else {
            0
        },
        (
            ProgressView::Done(EventConsequenceView::NewState(TunnelStateView::Disconnecting(_), _)),
            Effect::StopTunnel,
        ) => 1,
        _ => 0,
    }
}

/// Whether a step from `shared` to `end` has asked for `effect` as often as
/// is due, and not once more.
pub open spec fn asked_as_due(shared: SharedView, end: (ProgressView, SharedView), effect: Effect) -> bool {
    count(end.1.effects, effect) == count(shared.effects, effect) + due(end.0, effect)
}

#[verifier::rlimit(60)]
proof fn disconnected_commands_ask_as_due(
    state: DisconnectedState,
    command: Option<TunnelCommandView>,
    shared: SharedView,
    effect: Effect,
)
    requires
        concerns_tunnel(effect),
    ensures
        asked_as_due(shared, disconnected_state::handle_commands_spec(command, shared), effect),
{
    broadcast use count_after_push;

}

proof fn disconnected_steps_ask_as_due(
    state: DisconnectedState,
    event: EventResultView,
    shared: SharedView,
    effect: Effect,
)
    requires
        concerns_tunnel(effect),
    ensures
        asked_as_due(shared, disconnected_state::handle_event_spec(state, event, shared), effect),
{
    broadcast use count_after_push;

    match event {
        EventResultView::Command(command) => {
            disconnected_commands_ask_as_due(state, command, shared, effect);
        },
        _ => {},
    }
}

#[verifier::rlimit(60)]
proof fn connecting_commands_ask_as_due(
    state: ConnectingStateView,
    command: Option<TunnelCommandView>,
    shared: SharedView,
    effect: Effect,
)
    requires
        concerns_tunnel(effect),
    ensures
        asked_as_due(shared, connecting_state::handle_commands_spec(state, command, shared), effect),
{
    broadcast use count_after_push;

}

proof fn connecting_steps_ask_as_due(
    state: ConnectingStateView,
    event: EventResultView,
    shared: SharedView,
    effect: Effect,
)
    requires
        concerns_tunnel(effect),
    ensures
        asked_as_due(shared, connecting_state::handle_event_spec(state, event, shared), effect),
{
    broadcast use count_after_push;

    match event {
        EventResultView::Command(command) => {
            connecting_commands_ask_as_due(state, command, shared, effect);
        },
        _ => {},
    }
}

#[verifier::rlimit(60)]
proof fn connected_commands_ask_as_due(
    state: ConnectedStateView,
    command: Option<TunnelCommandView>,
    shared: SharedView,
    effect: Effect,
)
    requires
        concerns_tunnel(effect),
    ensures
        asked_as_due(shared, connected_state::handle_commands_spec(state, command, shared), effect),
{
    broadcast use count_after_push;

}

proof fn connected_steps_ask_as_due(
    state: ConnectedStateView,
    event: EventResultView,
    shared: SharedView,
    effect: Effect,
)
    requires
        concerns_tunnel(effect),
    ensures
        asked_as_due(shared, connected_state::handle_event_spec(state, event, shared), effect),
{
    broadcast use count_after_push;

    match event {
        EventResultView::Command(command) => {
            connected_commands_ask_as_due(state, command, shared, effect);
        },
        _ => {},
    }
}

#[verifier::rlimit(60)]
proof fn disconnecting_commands_ask_as_due(
    state: DisconnectingState,
    command: Option<TunnelCommandView>,
    shared: SharedView,
    effect: Effect,
)
    requires
        concerns_tunnel(effect),
    ensures
        asked_as_due(shared, disconnecting_state::handle_commands_spec(state, command, shared), effect),
{
    broadcast use count_after_push;

}

proof fn disconnecting_steps_ask_as_due(
    state: DisconnectingState,
    event: EventResultView,
    shared: SharedView,
    effect: Effect,
)
    requires
        concerns_tunnel(effect),
    ensures
        asked_as_due(shared, disconnecting_state::handle_event_spec(state, event, shared), effect),
{
    broadcast use count_after_push;

    match event {
        EventResultView::Command(command) => {
            disconnecting_commands_ask_as_due(state, command, shared, effect);
        },
        _ => {},
    }
}

#[verifier::rlimit(60)]
proof fn error_commands_ask_as_due(
    state: ErrorState,
    command: Option<TunnelCommandView>,
    shared: SharedView,
    effect: Effect,
)
    requires
        concerns_tunnel(effect),
    ensures
        asked_as_due(shared, error_state::handle_commands_spec(state, command, shared), effect),
{
    broadcast use count_after_push;

}

proof fn error_steps_ask_as_due(
    state: ErrorState,
    event: EventResultView,
    shared: SharedView,
    effect: Effect,
)
    requires
        concerns_tunnel(effect),
    ensures
        asked_as_due(shared, error_state::handle_event_spec(state, event, shared), effect),
{
    broadcast use count_after_push;

    match event {
        EventResultView::Command(command) => {
            error_commands_ask_as_due(state, command, shared, effect);
        },
        _ => {},
    }
}

/// Whatever the state and the stimulus, the handler starts no tunnel, since
/// no handler enters the connecting state without the firewall, and it tells
/// the tunnel to stop once if it enters the disconnecting state and not at
/// all otherwise.
pub proof fn stimuli_start_and_stop_as_due(
    state: TunnelStateView,
    event: EventResultView,
    shared: SharedView,
    effect: Effect,
)
    requires
        concerns_tunnel(effect),
    ensures
        asked_as_due(shared, handle_event_spec(state, event, shared), effect),
{
    match state {
        TunnelStateView::Disconnected(state) => disconnected_steps_ask_as_due(
            state,
            event,
            shared,
            effect,
        ),
        TunnelStateView::Connecting(state) => connecting_steps_ask_as_due(
            state,
            event,
            shared,
            effect,
        ),
        TunnelStateView::Connected(state) => connected_steps_ask_as_due(
            state,
            event,
            shared,
            effect,
        ),
        TunnelStateView::Disconnecting(state) => disconnecting_steps_ask_as_due(
            state,
            event,
            shared,
            effect,
        ),
        TunnelStateView::Error(state) => error_steps_ask_as_due(state, event, shared, effect),
    }
}

/// When the firewall has answered, the handler starts the tunnel of attempt
/// `n` once if it enters the connecting state as attempt `n`, tells the
/// tunnel to stop once if it enters the disconnecting state, and does
/// neither otherwise.
pub proof fn firewall_answer_starts_and_stops_as_due(
    pending: PendingFirewallView,
    result: Result<(), FirewallPolicyError>,
    shared: SharedView,
    effect: Effect,
)
    requires
        concerns_tunnel(effect),
    ensures
        asked_as_due(shared, resume_firewall_spec(pending, result, shared), effect),
{
    broadcast use count_after_push;

}

/// When the DNS configurator has answered, the handler starts no tunnel,
/// and tells the tunnel to stop once if it enters the disconnecting state.
pub proof fn dns_answer_starts_and_stops_as_due(
    pending: PendingDnsView,
    result: Result<(), DnsError>,
    shared: SharedView,
    effect: Effect,
)
    requires
        concerns_tunnel(effect),
    ensures
        asked_as_due(shared, resume_dns_spec(pending, result, shared), effect),
{
    broadcast use count_after_push;

}

} // verus!
