//! Every one-shot channel is dealt with exactly once: that of a command
//! that carries one and that of a tunnel event are completed, and that of a
//! socket that is to bypass the tunnel is handed on with the socket, on
//! whatever path the handler ends.

use crate::tunnel::FirewallPolicyError;
use crate::tunnel_state_machine::connected_state::ConnectedStateView;
use crate::tunnel_state_machine::connecting_state::ConnectingStateView;
use crate::tunnel_state_machine::disconnected_state::DisconnectedState;
use crate::tunnel_state_machine::disconnecting_state::DisconnectingState;
use crate::tunnel_state_machine::error_state::ErrorState;
use crate::tunnel_state_machine::laws::settle;
use crate::tunnel_state_machine::pending::{
    resume_dns_spec, resume_firewall_spec, DnsError, PendingDnsView, PendingFirewallView,
    ProgressView,
};
use crate::tunnel_state_machine::{
    connected_state, connecting_state, disconnected_state, disconnecting_state, error_state,
    handle_event_spec, Acknowledgement, Effect, EventResultView, SharedView, TunnelCommandView,
    TunnelStateView,
};
use vstd::prelude::*;

verus! {

/// How often `effect` is among `effects`.
pub open spec fn count(effects: Seq<Effect>, effect: Effect) -> nat
    decreases effects.len(),
{
    if effects.len() == 0 {
        0
    } else {
        count(effects.drop_last(), effect) + if effects.last() == effect {
            1nat
        } else {
            0nat
        }
    }
}

/// The effect that completes a channel of the given kind.
pub open spec fn completion(channel: Acknowledgement) -> Effect {
    match channel {
        Acknowledgement::Event => Effect::AcknowledgeEvent,
        _ => Effect::AcknowledgeCommand,
    }
}

/// Whether `effect` deals with a one-shot channel: it completes that of a
/// command or of a tunnel event, or hands that of a socket on.
pub open spec fn deals_with_channel(effect: Effect) -> bool {
    effect is AcknowledgeCommand || effect is AcknowledgeEvent || effect is BypassSocket
}

/// How often `effect` has to be asked for on behalf of a stimulus: once if
/// the stimulus carries the channel that the effect deals with, and never
/// if it does not. A tunnel event carries a channel. Of the commands, those
/// carry one that set whether the local network may be reached, the
/// endpoint that may always be reached, the DNS servers, whether to block
/// while disconnected, and the excluded applications. The channel of a
/// socket that is to bypass the tunnel goes with the socket.
pub open spec fn owed(event: EventResultView, effect: Effect) -> nat {
    match (event, effect) {
        (EventResultView::Command(Some(TunnelCommandView::AllowLan(_))), Effect::AcknowledgeCommand) => 1,
        (
            EventResultView::Command(Some(TunnelCommandView::AllowEndpoint(_))),
            Effect::AcknowledgeCommand,
        ) => 1,
        (EventResultView::Command(Some(TunnelCommandView::Dns(_))), Effect::AcknowledgeCommand) => 1,
        (
            EventResultView::Command(Some(TunnelCommandView::BlockWhenDisconnected(_))),
            Effect::AcknowledgeCommand,
        ) => 1,
        (
            EventResultView::Command(Some(TunnelCommandView::SetExcludedApps(_))),
            Effect::AcknowledgeCommand,
        ) => 1,
        (
            EventResultView::Command(Some(TunnelCommandView::BypassSocket(fd))),
            Effect::BypassSocket(socket),
        ) => if fd == socket {
            1
        } else {
            0
        },
        (EventResultView::Event(Some(_)), Effect::AcknowledgeEvent) => 1,
        _ => 0,
    }
}

/// One more effect adds one to its own count and nothing to any other.
pub broadcast proof fn count_after_push(effects: Seq<Effect>, emitted: Effect, effect: Effect)
    ensures
        #[trigger] count(effects.push(emitted), effect) == count(effects, effect) + if emitted
            == effect {
            1nat
        } else {
            0nat
        },
{
    assert(effects.push(emitted).drop_last() =~= effects);
}

/// How often `effect` is asked for by the end of a handler: as often as it
/// is so far, and once more if a handler that waits still owes it.
pub open spec fn completed(progress: ProgressView, shared: SharedView, effect: Effect) -> nat {
    count(shared.effects, effect) + match progress {
        ProgressView::ApplyFirewallPolicy(pending) => if pending.acknowledgement
            != Acknowledgement::Nothing && completion(pending.acknowledgement) == effect {
            1nat
        } else {
            0nat
        },
        ProgressView::SetDns(pending) => if pending.acknowledgement != Acknowledgement::Nothing
            && completion(pending.acknowledgement) == effect {
            1nat
        } else {
            0nat
        },
        ProgressView::Done(_) => 0nat,
    }
}

/// The firewall's answer leaves what is completed and what is owed as it
/// was: a handler that owes the completion of a channel completes it on
/// every path, or hands the debt on to the handler that waits for the DNS
/// configurator.
pub proof fn firewall_answer_keeps_the_debt(
    pending: PendingFirewallView,
    result: Result<(), FirewallPolicyError>,
    shared: SharedView,
    effect: Effect,
)
    requires
        deals_with_channel(effect),
    ensures
        ({
            let end = resume_firewall_spec(pending, result, shared);
            completed(end.0, end.1, effect) == completed(
                ProgressView::ApplyFirewallPolicy(pending),
                shared,
                effect,
            )
        }),
{
    broadcast use count_after_push;

}

/// The DNS configurator's answer ends the handler, which completes the
/// channel it owes on either path.
pub proof fn dns_answer_pays_the_debt(
    pending: PendingDnsView,
    result: Result<(), DnsError>,
    shared: SharedView,
    effect: Effect,
)
    requires
        deals_with_channel(effect),
    ensures
        ({
            let end = resume_dns_spec(pending, result, shared);
            &&& end.0 is Done
            &&& completed(end.0, end.1, effect) == completed(
                ProgressView::SetDns(pending),
                shared,
                effect,
            )
        }),
{
    broadcast use count_after_push;

}

#[verifier::rlimit(60)]
proof fn disconnected_commands_are_acknowledged(
    state: DisconnectedState,
    command: Option<TunnelCommandView>,
    shared: SharedView,
    effect: Effect,
)
    requires
        deals_with_channel(effect),
    ensures
        ({
            let end = disconnected_state::handle_commands_spec(command, shared);
            completed(end.0, end.1, effect) == count(shared.effects, effect) + owed(
                EventResultView::Command(command),
                effect,
            )
        }),
{
    broadcast use count_after_push;

}

proof fn disconnected_stimuli_are_acknowledged(
    state: DisconnectedState,
    event: EventResultView,
    shared: SharedView,
    effect: Effect,
)
    requires
        deals_with_channel(effect),
    ensures
        ({
            let end = disconnected_state::handle_event_spec(state, event, shared);
            completed(end.0, end.1, effect) == count(shared.effects, effect) + owed(event, effect)
        }),
{
    broadcast use count_after_push;

    match event {
        EventResultView::Command(command) => {
            disconnected_commands_are_acknowledged(state, command, shared, effect);
        },
        _ => {},
    }
}

#[verifier::rlimit(60)]
proof fn connecting_commands_are_acknowledged(
    state: ConnectingStateView,
    command: Option<TunnelCommandView>,
    shared: SharedView,
    effect: Effect,
)
    requires
        deals_with_channel(effect),
    ensures
        ({
            let end = connecting_state::handle_commands_spec(state, command, shared);
            completed(end.0, end.1, effect) == count(shared.effects, effect) + owed(
                EventResultView::Command(command),
                effect,
            )
        }),
{
    broadcast use count_after_push;

}

proof fn connecting_stimuli_are_acknowledged(
    state: ConnectingStateView,
    event: EventResultView,
    shared: SharedView,
    effect: Effect,
)
    requires
        deals_with_channel(effect),
    ensures
        ({
            let end = connecting_state::handle_event_spec(state, event, shared);
            completed(end.0, end.1, effect) == count(shared.effects, effect) + owed(event, effect)
        }),
{
    broadcast use count_after_push;

    match event {
        EventResultView::Command(command) => {
            connecting_commands_are_acknowledged(state, command, shared, effect);
        },
        _ => {},
    }
}

#[verifier::rlimit(60)]
proof fn connected_commands_are_acknowledged(
    state: ConnectedStateView,
    command: Option<TunnelCommandView>,
    shared: SharedView,
    effect: Effect,
)
    requires
        deals_with_channel(effect),
    ensures
        ({
            let end = connected_state::handle_commands_spec(state, command, shared);
            completed(end.0, end.1, effect) == count(shared.effects, effect) + owed(
                EventResultView::Command(command),
                effect,
            )
        }),
{
    broadcast use count_after_push;

}

proof fn connected_stimuli_are_acknowledged(
    state: ConnectedStateView,
    event: EventResultView,
    shared: SharedView,
    effect: Effect,
)
    requires
        deals_with_channel(effect),
    ensures
        ({
            let end = connected_state::handle_event_spec(state, event, shared);
            completed(end.0, end.1, effect) == count(shared.effects, effect) + owed(event, effect)
        }),
{
    broadcast use count_after_push;

    match event {
        EventResultView::Command(command) => {
            connected_commands_are_acknowledged(state, command, shared, effect);
        },
        _ => {},
    }
}

#[verifier::rlimit(60)]
proof fn disconnecting_commands_are_acknowledged(
    state: DisconnectingState,
    command: Option<TunnelCommandView>,
    shared: SharedView,
    effect: Effect,
)
    requires
        deals_with_channel(effect),
    ensures
        ({
            let end = disconnecting_state::handle_commands_spec(state, command, shared);
            completed(end.0, end.1, effect) == count(shared.effects, effect) + owed(
                EventResultView::Command(command),
                effect,
            )
        }),
{
    broadcast use count_after_push;

}

proof fn disconnecting_stimuli_are_acknowledged(
    state: DisconnectingState,
    event: EventResultView,
    shared: SharedView,
    effect: Effect,
)
    requires
        deals_with_channel(effect),
    ensures
        ({
            let end = disconnecting_state::handle_event_spec(state, event, shared);
            completed(end.0, end.1, effect) == count(shared.effects, effect) + owed(event, effect)
        }),
{
    broadcast use count_after_push;

    match event {
        EventResultView::Command(command) => {
            disconnecting_commands_are_acknowledged(state, command, shared, effect);
        },
        _ => {},
    }
}

#[verifier::rlimit(60)]
proof fn error_commands_are_acknowledged(
    state: ErrorState,
    command: Option<TunnelCommandView>,
    shared: SharedView,
    effect: Effect,
)
    requires
        deals_with_channel(effect),
    ensures
        ({
            let end = error_state::handle_commands_spec(state, command, shared);
            completed(end.0, end.1, effect) == count(shared.effects, effect) + owed(
                EventResultView::Command(command),
                effect,
            )
        }),
{
    broadcast use count_after_push;

}

proof fn error_stimuli_are_acknowledged(
    state: ErrorState,
    event: EventResultView,
    shared: SharedView,
    effect: Effect,
)
    requires
        deals_with_channel(effect),
    ensures
        ({
            let end = error_state::handle_event_spec(state, event, shared);
            completed(end.0, end.1, effect) == count(shared.effects, effect) + owed(event, effect)
        }),
{
    broadcast use count_after_push;

    match event {
        EventResultView::Command(command) => {
            error_commands_are_acknowledged(state, command, shared, effect);
        },
        _ => {},
    }
}

/// Every one-shot channel is dealt with exactly once. Whatever the state,
/// the stimulus and the answers of the collaborators, by the end of the
/// handler each effect that deals with a channel has been asked for as often
/// as before and, if the stimulus carries the channel that it deals with,
/// once more.
pub proof fn every_channel_is_dealt_with_once(
    state: TunnelStateView,
    event: EventResultView,
    shared: SharedView,
    firewall: Result<(), FirewallPolicyError>,
    dns: Result<(), DnsError>,
    effect: Effect,
)
    requires
        deals_with_channel(effect),
    ensures
        ({
            let end = settle(handle_event_spec(state, event, shared), firewall, dns);
            &&& end.0 is Done
            &&& count(end.1.effects, effect) == count(shared.effects, effect) + owed(event, effect)
        }),
{
    match state {
        TunnelStateView::Disconnected(state) => disconnected_stimuli_are_acknowledged(
            state,
            event,
            shared,
            effect,
        ),
        TunnelStateView::Connecting(state) => connecting_stimuli_are_acknowledged(
            state,
            event,
            shared,
            effect,
        ),
        TunnelStateView::Connected(state) => connected_stimuli_are_acknowledged(
            state,
            event,
            shared,
            effect,
        ),
        TunnelStateView::Disconnecting(state) => disconnecting_stimuli_are_acknowledged(
            state,
            event,
            shared,
            effect,
        ),
        TunnelStateView::Error(state) => error_stimuli_are_acknowledged(
            state,
            event,
            shared,
            effect,
        ),
    }
    let asked = handle_event_spec(state, event, shared);
    match asked.0 {
        ProgressView::ApplyFirewallPolicy(pending) => {
            firewall_answer_keeps_the_debt(pending, firewall, asked.1, effect);
            let next = resume_firewall_spec(pending, firewall, asked.1);
            match next.0 {
                ProgressView::SetDns(pending) => {
                    dns_answer_pays_the_debt(pending, dns, next.1, effect);
                },
                _ => {},
            }
        },
        ProgressView::SetDns(pending) => {
            dns_answer_pays_the_debt(pending, dns, asked.1, effect);
        },
        _ => {},
    }
}

} // verus!
