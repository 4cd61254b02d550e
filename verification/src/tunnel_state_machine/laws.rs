//! What holds of the machine whatever it is fed.

use crate::tunnel::{ErrorStateCause, FirewallPolicyError, TunnelMetadataView};
use crate::tunnel_state_machine::connected_state::ConnectedStateView;
use crate::tunnel_state_machine::connecting_state::ConnectingStateView;
use crate::tunnel_state_machine::disconnecting_state::DisconnectingState;
use crate::tunnel_state_machine::error_state::ErrorState;
use crate::tunnel_state_machine::pending::{
    policy_for, resume_dns_spec, resume_firewall_spec, DnsError, PendingDnsView,
    PendingFirewallView, ProgressView, Purpose,
};
use crate::tunnel_state_machine::disconnected_state::DisconnectedState;
use crate::tunnel_state_machine::{
    connected_state, connecting_state, disconnected_state, disconnecting_state, error_state,
    handle_event_spec, TunnelCommandView, Acknowledgement, AfterDisconnect, Canceled, Effect,
    EventConsequenceView, EventResultView, SharedView, TunnelStateTransitionView, TunnelStateView,
    TunnelStatus,
};
use crate::wireguard::TunnelParametersView;
use vstd::prelude::*;

verus! {

/// Where a handler ends once the firewall, if it is asked, has given the
/// answer `firewall`, and the DNS configurator, if it is asked, the answer
/// `dns`.
pub open spec fn settle(
    progress: (ProgressView, SharedView),
    firewall: Result<(), FirewallPolicyError>,
    dns: Result<(), DnsError>,
) -> (ProgressView, SharedView) {
    let after_firewall = match progress.0 {
        ProgressView::ApplyFirewallPolicy(pending) => resume_firewall_spec(
            pending,
            firewall,
            progress.1,
        ),
        _ => progress,
    };
    match after_firewall.0 {
        ProgressView::SetDns(pending) => resume_dns_spec(pending, dns, after_firewall.1),
        _ => after_firewall,
    }
}

/// The state that the machine is in after a handler has ended.
pub open spec fn state_after(progress: ProgressView, otherwise: TunnelStateView) -> TunnelStateView {
    match progress {
        ProgressView::Done(EventConsequenceView::NewState(state, _)) => state,
        ProgressView::Done(EventConsequenceView::SameState(state)) => state,
        _ => otherwise,
    }
}

/// Whether `progress` is the end of a handler that has entered the connected
/// state.
pub open spec fn enters_connected(progress: ProgressView) -> bool {
    progress matches ProgressView::Done(
        EventConsequenceView::NewState(TunnelStateView::Connected(_), _),
    )
}

/// Whether `progress` is the end of a handler that has entered the
/// disconnecting state.
pub open spec fn enters_disconnecting(progress: ProgressView) -> bool {
    progress matches ProgressView::Done(
        EventConsequenceView::NewState(TunnelStateView::Disconnecting(_), _),
    )
}

/// Whether the effects of `after` are those of `before` followed by the
/// teardown and whatever comes after it: the DNS settings are undone, then
/// the routes removed, with the routing rules where the platform has them,
/// and then the tunnel is told to stop.
pub open spec fn torn_down_since(before: SharedView, after: SharedView) -> bool {
    let start = before.effects.len() as int;
    let stop = if before.platform.routing_rules {
        start + 3
    } else {
        start + 2
    };
    &&& after.effects.len() > stop
    &&& after.effects.subrange(0, start) == before.effects
    &&& after.effects[start] == before.dns_reset_effect()
    &&& after.effects[start + 1] == Effect::ClearRoutes
    &&& before.platform.routing_rules ==> after.effects[start + 2] == Effect::ClearRoutingRules
    &&& after.effects[stop] == Effect::StopTunnel
}

/// Every stimulus is handled in every state: whatever the state, the
/// stimulus and the context, the handler comes to its end, with the machine
/// in the same state or in a new one, after at most one answer of the
/// firewall and one of the DNS configurator, whatever they answer.
pub proof fn every_stimulus_is_handled(
    state: TunnelStateView,
    event: EventResultView,
    shared: SharedView,
    firewall: Result<(), FirewallPolicyError>,
    dns: Result<(), DnsError>,
)
    ensures
        settle(handle_event_spec(state, event, shared), firewall, dns).0 is Done,
{
}

/// What holds of every step of a handler that starts from `shared`: it does
/// not enter the connected state, a policy that it asks for is the policy of
/// the state that it asks for, and if it enters the disconnecting state the
/// teardown is among its effects.
pub open spec fn sound_step(shared: SharedView, end: (ProgressView, SharedView)) -> bool {
    &&& !enters_connected(end.0)
    &&& end.0 matches ProgressView::ApplyFirewallPolicy(pending) ==> pending.policy == policy_for(
        pending.state,
        end.1,
    )
    &&& enters_disconnecting(end.0) ==> torn_down_since(shared, end.1)
}

proof fn disconnected_commands_are_sound(
    state: DisconnectedState,
    command: Option<TunnelCommandView>,
    shared: SharedView,
)
    ensures
        sound_step(shared, disconnected_state::handle_commands_spec(command, shared)),
{
    let end = disconnected_state::handle_commands_spec(command, shared);
    if enters_disconnecting(end.0) {
        assert(end.1.effects.subrange(0, shared.effects.len() as int) =~= shared.effects);
    }
}

proof fn disconnected_steps_are_sound(state: DisconnectedState, event: EventResultView, shared: SharedView)
    ensures
        sound_step(shared, disconnected_state::handle_event_spec(state, event, shared)),
{
    match event {
        EventResultView::Command(command) => {
            disconnected_commands_are_sound(state, command, shared);
        },
        _ => {
            let end = disconnected_state::handle_event_spec(state, event, shared);
            if enters_disconnecting(end.0) {
                assert(end.1.effects.subrange(0, shared.effects.len() as int) =~= shared.effects);
            }
        },
    }
}

#[verifier::rlimit(60)]
proof fn connecting_commands_are_sound(
    state: ConnectingStateView,
    command: Option<TunnelCommandView>,
    shared: SharedView,
)
    ensures
        sound_step(shared, connecting_state::handle_commands_spec(state, command, shared)),
{
    let end = connecting_state::handle_commands_spec(state, command, shared);
    if enters_disconnecting(end.0) {
        assert(end.1.effects.subrange(0, shared.effects.len() as int) =~= shared.effects);
    }
}

proof fn connecting_steps_are_sound(state: ConnectingStateView, event: EventResultView, shared: SharedView)
    ensures
        sound_step(shared, connecting_state::handle_event_spec(state, event, shared)),
{
    match event {
        EventResultView::Command(command) => {
            connecting_commands_are_sound(state, command, shared);
        },
        _ => {
            let end = connecting_state::handle_event_spec(state, event, shared);
            if enters_disconnecting(end.0) {
                assert(end.1.effects.subrange(0, shared.effects.len() as int) =~= shared.effects);
            }
        },
    }
}

#[verifier::rlimit(60)]
proof fn connected_commands_are_sound(
    state: ConnectedStateView,
    command: Option<TunnelCommandView>,
    shared: SharedView,
)
    ensures
        sound_step(shared, connected_state::handle_commands_spec(state, command, shared)),
{
    let end = connected_state::handle_commands_spec(state, command, shared);
    if enters_disconnecting(end.0) {
        assert(end.1.effects.subrange(0, shared.effects.len() as int) =~= shared.effects);
    }
}

proof fn connected_steps_are_sound(state: ConnectedStateView, event: EventResultView, shared: SharedView)
    ensures
        sound_step(shared, connected_state::handle_event_spec(state, event, shared)),
{
    match event {
        EventResultView::Command(command) => {
            connected_commands_are_sound(state, command, shared);
        },
        _ => {
            let end = connected_state::handle_event_spec(state, event, shared);
            if enters_disconnecting(end.0) {
                assert(end.1.effects.subrange(0, shared.effects.len() as int) =~= shared.effects);
            }
        },
    }
}

proof fn disconnecting_commands_are_sound(
    state: DisconnectingState,
    command: Option<TunnelCommandView>,
    shared: SharedView,
)
    ensures
        sound_step(shared, disconnecting_state::handle_commands_spec(state, command, shared)),
{
    let end = disconnecting_state::handle_commands_spec(state, command, shared);
    if enters_disconnecting(end.0) {
        assert(end.1.effects.subrange(0, shared.effects.len() as int) =~= shared.effects);
    }
}

proof fn disconnecting_steps_are_sound(state: DisconnectingState, event: EventResultView, shared: SharedView)
    ensures
        sound_step(shared, disconnecting_state::handle_event_spec(state, event, shared)),
{
    match event {
        EventResultView::Command(command) => {
            disconnecting_commands_are_sound(state, command, shared);
        },
        _ => {
            let end = disconnecting_state::handle_event_spec(state, event, shared);
            if enters_disconnecting(end.0) {
                assert(end.1.effects.subrange(0, shared.effects.len() as int) =~= shared.effects);
            }
        },
    }
}

proof fn error_commands_are_sound(
    state: ErrorState,
    command: Option<TunnelCommandView>,
    shared: SharedView,
)
    ensures
        sound_step(shared, error_state::handle_commands_spec(state, command, shared)),
{
    let end = error_state::handle_commands_spec(state, command, shared);
    if enters_disconnecting(end.0) {
        assert(end.1.effects.subrange(0, shared.effects.len() as int) =~= shared.effects);
    }
}

proof fn error_steps_are_sound(state: ErrorState, event: EventResultView, shared: SharedView)
    ensures
        sound_step(shared, error_state::handle_event_spec(state, event, shared)),
{
    match event {
        EventResultView::Command(command) => {
            error_commands_are_sound(state, command, shared);
        },
        _ => {
            let end = error_state::handle_event_spec(state, event, shared);
            if enters_disconnecting(end.0) {
                assert(end.1.effects.subrange(0, shared.effects.len() as int) =~= shared.effects);
            }
        },
    }
}

/// Every step of every handler is sound.
pub proof fn every_step_is_sound(state: TunnelStateView, event: EventResultView, shared: SharedView)
    ensures
        sound_step(shared, handle_event_spec(state, event, shared)),
{
    match state {
        TunnelStateView::Disconnected(state) => disconnected_steps_are_sound(state, event, shared),
        TunnelStateView::Connecting(state) => connecting_steps_are_sound(state, event, shared),
        TunnelStateView::Connected(state) => connected_steps_are_sound(state, event, shared),
        TunnelStateView::Disconnecting(state) => disconnecting_steps_are_sound(
            state,
            event,
            shared,
        ),
        TunnelStateView::Error(state) => error_steps_are_sound(state, event, shared),
    }
}

/// No handler enters the connected state by itself: a stimulus leads there
/// only through the firewall, which is asked for the policy of the state
/// that is being entered or updated.
pub proof fn no_stimulus_enters_connected(
    state: TunnelStateView,
    event: EventResultView,
    shared: SharedView,
)
    ensures
        !enters_connected(handle_event_spec(state, event, shared).0),
        handle_event_spec(state, event, shared).0 matches ProgressView::ApplyFirewallPolicy(pending)
            ==> pending.policy == policy_for(
            pending.state,
            handle_event_spec(state, event, shared).1,
        ),
{
    every_step_is_sound(state, event, shared);
}

/// A handler that waits for the firewall enters the connected state only if
/// the firewall has taken the policy, and the policy is then on record.
pub proof fn connected_only_once_policy_is_in_force(
    pending: PendingFirewallView,
    result: Result<(), FirewallPolicyError>,
    shared: SharedView,
)
    ensures
        ({
            let end = resume_firewall_spec(pending, result, shared);
            &&& enters_connected(end.0) ==> result is Ok
            &&& result is Ok ==> end.1.firewall == Some(pending.policy)
            &&& end.0 matches ProgressView::SetDns(next) ==> {
                &&& result is Ok
                &&& pending.state == TunnelStateView::Connected(next.state)
                &&& next.request == next.state.dns_request(end.1)
            }
            &&& !(end.0 is ApplyFirewallPolicy)
        }),
{
}

/// A handler that waits for the DNS configurator enters the connected state
/// only if the servers are set, and it leaves the record of the firewall as
/// it is.
pub proof fn connected_only_once_dns_is_set(
    pending: PendingDnsView,
    result: Result<(), DnsError>,
    shared: SharedView,
)
    ensures
        ({
            let end = resume_dns_spec(pending, result, shared);
            &&& end.0 is Done
            &&& enters_connected(end.0) ==> result is Ok && end.1.dns == Some(pending.request)
            &&& end.1.firewall == shared.firewall
        }),
{
}

/// Entering the connected state is never seen before the firewall holds the
/// policy of that tunnel. Entering asks the firewall first, for just that
/// policy, and leaves no trace until then. Observers are told of the
/// connected state if and only if the firewall has taken the policy and the
/// DNS servers are set after it, and the record of the firewall then holds
/// the policy of the tunnel. In every other case the machine leaves for the
/// disconnecting state.
pub proof fn connected_follows_firewall(
    shared: SharedView,
    metadata: TunnelMetadataView,
    tunnel_parameters: TunnelParametersView,
    acknowledgement: Acknowledgement,
    firewall: Result<(), FirewallPolicyError>,
    dns: Result<(), DnsError>,
)
    ensures
        ({
            let state = ConnectedStateView { metadata, tunnel_parameters };
            let entry = connected_state::enter_spec(
                shared,
                metadata,
                tunnel_parameters,
                acknowledgement,
            );
            let end = settle(entry, firewall, dns);
            &&& entry.1 == shared
            &&& entry.0 matches ProgressView::ApplyFirewallPolicy(pending) && pending.policy
                == state.firewall_policy(shared)
            &&& enters_connected(end.0) <==> firewall is Ok && dns is Ok
            &&& firewall is Ok && dns is Ok ==> {
                &&& end.0 == ProgressView::Done(
                    EventConsequenceView::NewState(
                        TunnelStateView::Connected(state),
                        TunnelStateTransitionView::Connected(state.tunnel_endpoint()),
                    ),
                )
                &&& end.1.firewall == Some(state.firewall_policy(shared))
                &&& end.1.dns == Some(state.dns_request(shared))
                &&& end.1.effects == shared.acknowledge(acknowledgement).effects
            }
            &&& !(firewall is Ok && dns is Ok) ==> enters_disconnecting(end.0)
        }),
{
}

/// Every way into the disconnecting state, whatever the state and the
/// stimulus, undoes the DNS settings, removes the routes and only then tells
/// the tunnel to stop.
pub proof fn teardown_on_every_way_into_disconnecting(
    state: TunnelStateView,
    event: EventResultView,
    shared: SharedView,
)
    ensures
        enters_disconnecting(handle_event_spec(state, event, shared).0) ==> torn_down_since(
            shared,
            handle_event_spec(state, event, shared).1,
        ),
{
    every_step_is_sound(state, event, shared);
}

/// The same holds where the way into the disconnecting state is opened by
/// the firewall's refusing a policy, as it is whenever a state that has or
/// is about to have a tunnel is refused its policy.
pub proof fn teardown_when_firewall_refuses(
    pending: PendingFirewallView,
    result: Result<(), FirewallPolicyError>,
    shared: SharedView,
)
    ensures
        ({
            let end = resume_firewall_spec(pending, result, shared);
            &&& enters_disconnecting(end.0) ==> torn_down_since(shared, end.1)
            &&& (pending.state is Connected || pending.state is Connecting) && result is Err
                ==> enters_disconnecting(end.0)
        }),
{
    let end = resume_firewall_spec(pending, result, shared);
    if enters_disconnecting(end.0) {
        let start = shared.effects.len() as int;
        assert(end.1.effects.subrange(0, start) =~= shared.effects);
    }
}

/// The same holds where the way into the disconnecting state is opened by
/// the DNS configurator's failing, as it is whenever it fails.
pub proof fn teardown_when_dns_fails(
    pending: PendingDnsView,
    result: Result<(), DnsError>,
    shared: SharedView,
)
    ensures
        ({
            let end = resume_dns_spec(pending, result, shared);
            &&& enters_disconnecting(end.0) ==> torn_down_since(shared, end.1)
            &&& result is Err ==> enters_disconnecting(end.0)
        }),
{
    let end = resume_dns_spec(pending, result, shared);
    if enters_disconnecting(end.0) {
        let start = shared.effects.len() as int;
        assert(end.1.effects.subrange(0, start) =~= shared.effects);
    }
}

/// Whether the records of the firewall and of the DNS servers hold what
/// belongs to `state`. While idle the policy is the blocking policy if the
/// settings ask for blocking and none if they do not. While a tunnel is set
/// up or up it is the policy of that tunnel. While blocking it is the
/// blocking policy, unless the state knows that the firewall did not take
/// it. While a tunnel is torn down the policy of the state before is left in
/// force. DNS servers are set while a tunnel is up, and they are those of
/// that tunnel. In every other state none are set. A tunnel runs while one
/// is set up or up, none runs while one is torn down, and there is none
/// while idle or blocking.
pub open spec fn in_force(state: TunnelStateView, shared: SharedView) -> bool {
    match state {
        TunnelStateView::Disconnected(_) => {
            &&& shared.firewall == if shared.block_when_disconnected {
                Some(shared.blocked_policy())
            } else {
                None
            }
            &&& shared.dns is None
            &&& shared.tunnel == TunnelStatus::Absent
        },
        TunnelStateView::Connecting(state) => {
            &&& shared.firewall == Some(state.firewall_policy(shared))
            &&& shared.dns is None
            &&& shared.tunnel == TunnelStatus::Running
        },
        TunnelStateView::Connected(state) => {
            &&& shared.firewall == Some(state.firewall_policy(shared))
            &&& shared.dns == Some(state.dns_request(shared))
            &&& shared.tunnel == TunnelStatus::Running
        },
        TunnelStateView::Disconnecting(_) => {
            &&& shared.dns is None
            &&& shared.tunnel != TunnelStatus::Running
        },
        TunnelStateView::Error(state) => {
            &&& state.block_failure is None ==> shared.firewall == Some(shared.blocked_policy())
            &&& shared.dns is None
            &&& shared.tunnel == TunnelStatus::Absent
        },
    }
}

/// What the record of the tunnel is while a handler waits to enter or to
/// update `state`: a tunnel runs while the connected state is entered or
/// the connecting or the connected state is updated, and there is none when
/// any other state is entered. So a tunnel is started only when there is
/// none.
pub open spec fn tunnel_while_pending(state: TunnelStateView, purpose: Purpose) -> TunnelStatus {
    match (state, purpose) {
        (TunnelStateView::Connected(_), _) => TunnelStatus::Running,
        (TunnelStateView::Connecting(_), Purpose::Update) => TunnelStatus::Running,
        _ => TunnelStatus::Absent,
    }
}

/// Whether a step of a handler has left the records as they should be. At
/// the end of the handler what belongs to the state is in force. A policy
/// that is asked for is the policy of the state that is entered or updated,
/// and while it is asked for no DNS servers are set but those of a tunnel
/// that is updated: if the servers are not set next, those of the tunnel
/// are set already. The DNS servers are asked to be set only with the policy
/// of the tunnel in force, and they are those of the tunnel. The record of
/// the tunnel is what [`tunnel_while_pending`] says.
pub open spec fn consistent(progress: ProgressView, shared: SharedView) -> bool {
    match progress {
        ProgressView::Done(EventConsequenceView::NewState(state, _)) => in_force(state, shared),
        ProgressView::Done(EventConsequenceView::SameState(state)) => in_force(state, shared),
        ProgressView::ApplyFirewallPolicy(pending) => {
            &&& pending.policy == policy_for(pending.state, shared)
            &&& pending.state is Disconnected ==> shared.block_when_disconnected
            &&& match pending.state {
                TunnelStateView::Connected(state) => pending.dns_follows || (pending.purpose
                    == Purpose::Update && shared.dns == Some(state.dns_request(shared))),
                _ => true,
            }
            &&& pending.state is Connected && pending.purpose == Purpose::Update
                || shared.dns is None
            &&& if pending.state is Disconnecting {
                shared.tunnel != TunnelStatus::Running
            } else {
                shared.tunnel == tunnel_while_pending(pending.state, pending.purpose)
            }
        },
        ProgressView::SetDns(pending) => {
            &&& shared.firewall == Some(pending.state.firewall_policy(shared))
            &&& pending.request == pending.state.dns_request(shared)
            &&& pending.purpose == Purpose::Update || shared.dns is None
            &&& shared.tunnel == TunnelStatus::Running
        },
    }
}

proof fn disconnected_commands_keep_the_record(
    state: DisconnectedState,
    command: Option<TunnelCommandView>,
    shared: SharedView,
)
    requires
        in_force(TunnelStateView::Disconnected(state), shared),
    ensures
        consistent(
            disconnected_state::handle_commands_spec(command, shared).0,
            disconnected_state::handle_commands_spec(command, shared).1,
        ),
{
}

#[verifier::rlimit(60)]
proof fn connecting_commands_keep_the_record(
    state: ConnectingStateView,
    command: Option<TunnelCommandView>,
    shared: SharedView,
)
    requires
        in_force(TunnelStateView::Connecting(state), shared),
    ensures
        consistent(
            connecting_state::handle_commands_spec(state, command, shared).0,
            connecting_state::handle_commands_spec(state, command, shared).1,
        ),
{
}

#[verifier::rlimit(60)]
proof fn connected_commands_keep_the_record(
    state: ConnectedStateView,
    command: Option<TunnelCommandView>,
    shared: SharedView,
)
    requires
        in_force(TunnelStateView::Connected(state), shared),
    ensures
        consistent(
            connected_state::handle_commands_spec(state, command, shared).0,
            connected_state::handle_commands_spec(state, command, shared).1,
        ),
{
}

proof fn disconnecting_commands_keep_the_record(
    state: DisconnectingState,
    command: Option<TunnelCommandView>,
    shared: SharedView,
)
    requires
        in_force(TunnelStateView::Disconnecting(state), shared),
    ensures
        consistent(
            disconnecting_state::handle_commands_spec(state, command, shared).0,
            disconnecting_state::handle_commands_spec(state, command, shared).1,
        ),
{
}

proof fn error_commands_keep_the_record(
    state: ErrorState,
    command: Option<TunnelCommandView>,
    shared: SharedView,
)
    requires
        in_force(TunnelStateView::Error(state), shared),
    ensures
        consistent(
            error_state::handle_commands_spec(state, command, shared).0,
            error_state::handle_commands_spec(state, command, shared).1,
        ),
{
}

/// The record of the firewall is kept as it should be by every step that
/// starts from a state whose policy is in force.
pub proof fn every_stimulus_keeps_the_record(
    state: TunnelStateView,
    event: EventResultView,
    shared: SharedView,
)
    requires
        in_force(state, shared),
    ensures
        consistent(
            handle_event_spec(state, event, shared).0,
            handle_event_spec(state, event, shared).1,
        ),
{
    match event {
        EventResultView::Command(command) => {
            match state {
                TunnelStateView::Disconnected(state) => disconnected_commands_keep_the_record(
                    state,
                    command,
                    shared,
                ),
                TunnelStateView::Connecting(state) => connecting_commands_keep_the_record(
                    state,
                    command,
                    shared,
                ),
                TunnelStateView::Connected(state) => connected_commands_keep_the_record(
                    state,
                    command,
                    shared,
                ),
                TunnelStateView::Disconnecting(state) => disconnecting_commands_keep_the_record(
                    state,
                    command,
                    shared,
                ),
                TunnelStateView::Error(state) => error_commands_keep_the_record(
                    state,
                    command,
                    shared,
                ),
            }
        },
        _ => {},
    }
}

/// The record is kept as it should be when the firewall answers a handler
/// that asked for the policy of its state.
pub proof fn firewall_answer_keeps_the_record(
    pending: PendingFirewallView,
    result: Result<(), FirewallPolicyError>,
    shared: SharedView,
)
    requires
        consistent(ProgressView::ApplyFirewallPolicy(pending), shared),
    ensures
        consistent(
            resume_firewall_spec(pending, result, shared).0,
            resume_firewall_spec(pending, result, shared).1,
        ),
{
}

/// No tunnel is started beside another. A handler that waits for the
/// firewall and whose records are as they should be enters the connecting
/// state anew only from a context in which there is no tunnel, and the
/// tunnel that it starts is then the one on record.
pub proof fn a_tunnel_is_started_only_when_there_is_none(
    pending: PendingFirewallView,
    result: Result<(), FirewallPolicyError>,
    shared: SharedView,
)
    requires
        consistent(ProgressView::ApplyFirewallPolicy(pending), shared),
    ensures
        resume_firewall_spec(pending, result, shared).0 matches ProgressView::Done(
            EventConsequenceView::NewState(TunnelStateView::Connecting(_), _),
        ) ==> shared.tunnel == TunnelStatus::Absent && resume_firewall_spec(
            pending,
            result,
            shared,
        ).1.tunnel == TunnelStatus::Running,
{
}

/// The record is kept as it should be when the DNS configurator answers.
pub proof fn dns_answer_keeps_the_record(
    pending: PendingDnsView,
    result: Result<(), DnsError>,
    shared: SharedView,
)
    requires
        consistent(ProgressView::SetDns(pending), shared),
    ensures
        consistent(resume_dns_spec(pending, result, shared).0, resume_dns_spec(pending, result, shared).1),
{
}

/// The disconnecting state is left only when the tunnel has gone: a command
/// or a tunnel event leaves the machine in it. So whatever is entered next
/// is entered after the teardown that led into the state.
pub proof fn disconnecting_is_left_only_on_close(
    state: DisconnectingState,
    event: EventResultView,
    shared: SharedView,
)
    ensures
        !(event is Close) ==> handle_event_spec(
            TunnelStateView::Disconnecting(state),
            event,
            shared,
        ).0 matches ProgressView::Done(
            EventConsequenceView::SameState(TunnelStateView::Disconnecting(_)),
        ),
{
}

/// Once the tunnel has gone, a pending `Reconnect(n)` leads into the
/// connecting state as attempt `n` and nowhere else: the firewall is asked
/// for the policy of that attempt, and once it has taken the policy the
/// machine is in the connecting state with the attempt count `n`, the
/// tunnel is started as attempt `n`, and observers are told.
pub proof fn reconnect_keeps_attempt_count(
    attempt: u32,
    close: Result<Option<ErrorStateCause>, Canceled>,
    shared: SharedView,
)
    ensures
        ({
            let state = TunnelStateView::Disconnecting(
                DisconnectingState { after_disconnect: AfterDisconnect::Reconnect(attempt) },
            );
            let connecting = TunnelStateView::Connecting(
                ConnectingStateView {
                    tunnel_parameters: shared.tunnel_parameters,
                    retry_attempt: attempt,
                },
            );
            let asked = handle_event_spec(state, EventResultView::Close(close), shared);
            let end = settle(asked, Ok(()), Ok(()));
            &&& asked.1 == shared.tunnel_gone()
            &&& asked.0 matches ProgressView::ApplyFirewallPolicy(pending) && pending.state
                == connecting && pending.purpose == Purpose::Enter
            &&& end.0 == ProgressView::Done(
                EventConsequenceView::NewState(connecting, connecting.transition()),
            )
            &&& end.1.effects == shared.effects.push(Effect::StartTunnel { retry_attempt: attempt })
            &&& end.1.tunnel == TunnelStatus::Running
        }),
{
}

/// The machine after `failures` attempts in a row have ended without a
/// fatal cause, the firewall having taken every policy it was asked for.
pub open spec fn after_failures(state: TunnelStateView, shared: SharedView, failures: nat) -> (
    TunnelStateView,
    SharedView,
)
    decreases failures,
{
    if failures == 0 {
        (state, shared)
    } else {
        let before = after_failures(state, shared, (failures - 1) as nat);
        let end = settle(
            handle_event_spec(before.0, EventResultView::Close(Ok(None)), before.1),
            Ok(()),
            Ok(()),
        );
        (state_after(end.0, before.0), end.1)
    }
}

/// While the ceiling is not used up, every failed attempt is followed by the
/// attempt with the next number.
pub proof fn failures_count_up(
    tunnel_parameters: TunnelParametersView,
    attempt: u32,
    shared: SharedView,
    failures: nat,
)
    requires
        shared.tunnel_parameters == tunnel_parameters,
        attempt + failures <= shared.retry_ceiling,
    ensures
        ({
            let start = TunnelStateView::Connecting(
                ConnectingStateView { tunnel_parameters, retry_attempt: attempt },
            );
            let end = after_failures(start, shared, failures);
            &&& end.0 == TunnelStateView::Connecting(
                ConnectingStateView {
                    tunnel_parameters,
                    retry_attempt: (attempt + failures) as u32,
                },
            )
            &&& end.1.retry_ceiling == shared.retry_ceiling
            &&& end.1.tunnel_parameters == tunnel_parameters
        }),
    decreases failures,
{
    if failures > 0 {
        failures_count_up(tunnel_parameters, attempt, shared, (failures - 1) as nat);
    }
}

/// Attempts that keep failing are not repeated for ever: from attempt
/// `attempt`, with a ceiling of `retry_ceiling`, the machine is in the error
/// state, with the tunnel's failure as the cause, after
/// `retry_ceiling - attempt + 1` failures and not before.
pub proof fn repeated_failures_end_in_error(
    tunnel_parameters: TunnelParametersView,
    attempt: u32,
    shared: SharedView,
)
    requires
        shared.tunnel_parameters == tunnel_parameters,
        attempt <= shared.retry_ceiling,
    ensures
        ({
            let start = TunnelStateView::Connecting(
                ConnectingStateView { tunnel_parameters, retry_attempt: attempt },
            );
            let left = (shared.retry_ceiling - attempt) as nat;
            &&& forall|failures: nat|
                failures <= left ==> (#[trigger] after_failures(start, shared, failures)).0
                    is Connecting
            &&& after_failures(start, shared, left + 1).0 == TunnelStateView::Error(
                ErrorState {
                    block_reason: ErrorStateCause::StartTunnelError,
                    block_failure: None,
                },
            )
        }),
{
    let start = TunnelStateView::Connecting(
        ConnectingStateView { tunnel_parameters, retry_attempt: attempt },
    );
    let left = (shared.retry_ceiling - attempt) as nat;
    assert forall|failures: nat| failures <= left implies (#[trigger] after_failures(
        start,
        shared,
        failures,
    )).0 is Connecting by {
        failures_count_up(tunnel_parameters, attempt, shared, failures);
    }
    failures_count_up(tunnel_parameters, attempt, shared, left);
}

} // verus!
