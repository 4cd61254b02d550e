//! The machine as a whole: the one state that is live, the shared context,
//! and the handler that waits for a collaborator, if one does.
//!
//! The state is handed over on every transition: a handler takes the old
//! state and gives back the new one, and nothing else holds either.

use crate::dns::DnsConfig;
use crate::firewall::FirewallPolicy;
use crate::net::{AllowedEndpoint, Connectivity};
use crate::tunnel::FirewallPolicyError;
use crate::tunnel_state_machine::disconnected_state::{self, DisconnectedState};
use crate::tunnel_state_machine::laws::{
    consistent, dns_answer_keeps_the_record, every_stimulus_keeps_the_record,
    firewall_answer_keeps_the_record, in_force,
};
use crate::tunnel_state_machine::pending::{
    resume_dns_spec, resume_firewall_spec, DnsError, DnsRequest, PendingDns, PendingDnsView,
    PendingFirewall, PendingFirewallView, Progress, ProgressView,
};
use crate::tunnel_state_machine::{
    handle_event_spec, Effect, EventConsequence, EventConsequenceView, EventResult,
    EventResultView, Platform, SharedTunnelStateValues, SharedView, TunnelState,
    TunnelStateTransition, TunnelStateTransitionView, TunnelStateView, TunnelStatus,
};
use crate::wireguard::TunnelParameters;
use vstd::prelude::*;

verus! {

/// What the machine is waiting for.
#[derive(Debug, PartialEq, Eq)]
pub enum Slot {
    /// The next stimulus, in the given state.
    Ready(TunnelState),
    /// The answer of the firewall.
    AwaitingFirewall(PendingFirewall),
    /// The answer of the DNS configurator.
    AwaitingDns(PendingDns),
}

/// The mathematical value of a [`Slot`].
pub enum SlotView {
    Ready(TunnelStateView),
    AwaitingFirewall(PendingFirewallView),
    AwaitingDns(PendingDnsView),
}

impl View for Slot {
    type V = SlotView;

    open spec fn view(&self) -> SlotView {
        match *self {
            Slot::Ready(state) => SlotView::Ready(state@),
            Slot::AwaitingFirewall(pending) => SlotView::AwaitingFirewall(pending@),
            Slot::AwaitingDns(pending) => SlotView::AwaitingDns(pending@),
        }
    }
}

/// What the driver of the machine has to do next.
#[derive(Debug, PartialEq, Eq)]
pub enum Wanted {
    /// Wait for whichever source of stimuli is ready first.
    Stimulus,
    /// Have the firewall put this policy in force, and report its answer.
    FirewallPolicy(FirewallPolicy),
    /// Have the DNS servers set, and report the answer.
    Dns(DnsRequest),
}

/// The tunnel state machine.
#[derive(Debug)]
pub struct TunnelStateMachine {
    slot: Slot,
    shared_values: SharedTunnelStateValues,
}

/// The mathematical value of a [`TunnelStateMachine`].
pub struct MachineView {
    pub slot: SlotView,
    pub shared: SharedView,
}

/// Where a step of a handler leaves the machine, and what observers are
/// told.
pub open spec fn place(step: (ProgressView, SharedView)) -> (
    MachineView,
    Option<TunnelStateTransitionView>,
) {
    match step.0 {
        ProgressView::Done(EventConsequenceView::NewState(state, transition)) => (
            MachineView { slot: SlotView::Ready(state), shared: step.1 },
            Some(transition),
        ),
        ProgressView::Done(EventConsequenceView::SameState(state)) => (
            MachineView { slot: SlotView::Ready(state), shared: step.1 },
            None,
        ),
        ProgressView::ApplyFirewallPolicy(pending) => (
            MachineView { slot: SlotView::AwaitingFirewall(pending), shared: step.1 },
            None,
        ),
        ProgressView::SetDns(pending) => (
            MachineView { slot: SlotView::AwaitingDns(pending), shared: step.1 },
            None,
        ),
    }
}

/// The step that leaves the machine as it is.
pub open spec fn as_progress(slot: SlotView) -> ProgressView {
    match slot {
        SlotView::Ready(state) => ProgressView::Done(EventConsequenceView::SameState(state)),
        SlotView::AwaitingFirewall(pending) => ProgressView::ApplyFirewallPolicy(pending),
        SlotView::AwaitingDns(pending) => ProgressView::SetDns(pending),
    }
}

impl MachineView {
    /// The machine after a stimulus. A stimulus that comes while a handler
    /// waits for a collaborator is refused: it changes nothing.
    pub open spec fn handle_event(self, event: EventResultView) -> (
        MachineView,
        Option<TunnelStateTransitionView>,
    ) {
        match self.slot {
            SlotView::Ready(state) => place(handle_event_spec(state, event, self.shared)),
            _ => (self, None),
        }
    }

    /// The machine after the firewall's answer. An answer that nothing
    /// waits for is refused: it changes nothing.
    pub open spec fn firewall_answered(self, result: Result<(), FirewallPolicyError>) -> (
        MachineView,
        Option<TunnelStateTransitionView>,
    ) {
        match self.slot {
            SlotView::AwaitingFirewall(pending) => place(
                resume_firewall_spec(pending, result, self.shared),
            ),
            _ => (self, None),
        }
    }

    /// The machine after the DNS configurator's answer. An answer that
    /// nothing waits for is refused: it changes nothing.
    pub open spec fn dns_answered(self, result: Result<(), DnsError>) -> (
        MachineView,
        Option<TunnelStateTransitionView>,
    ) {
        match self.slot {
            SlotView::AwaitingDns(pending) => place(resume_dns_spec(pending, result, self.shared)),
            _ => (self, None),
        }
    }
}

/// The mathematical value of a transition that may be missing.
pub open spec fn transition_view(transition: Option<TunnelStateTransition>) -> Option<
    TunnelStateTransitionView,
> {
    match transition {
        Some(transition) => Some(transition@),
        None => None,
    }
}

impl View for TunnelStateMachine {
    type V = MachineView;

    closed spec fn view(&self) -> MachineView {
        MachineView { slot: self.slot@, shared: self.shared_values@ }
    }
}

impl TunnelStateMachine {
    /// The record of the firewall is as it should be, whatever the machine
    /// waits for.
    #[verifier::type_invariant]
    spec fn record_is_kept(&self) -> bool {
        consistent(as_progress(self.slot@), self.shared_values@)
    }

    fn placed(progress: Progress, shared_values: SharedTunnelStateValues) -> (placed: (
        TunnelStateMachine,
        Option<TunnelStateTransition>,
    ))
        requires
            consistent(progress@, shared_values@),
        ensures
            (placed.0@, transition_view(placed.1)) == place((progress@, shared_values@)),
    {
        match progress {
            Progress::Done(EventConsequence::NewState(state, transition)) => (
                TunnelStateMachine { slot: Slot::Ready(state), shared_values },
                Some(transition),
            ),
            Progress::Done(EventConsequence::SameState(state)) => (
                TunnelStateMachine { slot: Slot::Ready(state), shared_values },
                None,
            ),
            Progress::ApplyFirewallPolicy(pending) => (
                TunnelStateMachine { slot: Slot::AwaitingFirewall(pending), shared_values },
                None,
            ),
            Progress::SetDns(pending) => (
                TunnelStateMachine { slot: Slot::AwaitingDns(pending), shared_values },
                None,
            ),
        }
    }

    /// A machine with the given settings. It starts by entering the
    /// disconnected state, so it may at once wait for the firewall to block.
    pub fn new(
        allow_lan: bool,
        block_when_disconnected: bool,
        connectivity: Connectivity,
        dns_config: DnsConfig,
        allowed_endpoint: AllowedEndpoint,
        tunnel_parameters: TunnelParameters,
        retry_ceiling: u32,
        platform: Platform,
    ) -> (machine: (TunnelStateMachine, Option<TunnelStateTransition>))
        ensures
            ({
                let shared = SharedView {
                    allow_lan,
                    block_when_disconnected,
                    connectivity,
                    dns_config: dns_config@,
                    allowed_endpoint,
                    excluded_paths: Seq::empty(),
                    tunnel_parameters: tunnel_parameters@,
                    retry_ceiling,
                    platform,
                    firewall: None,
                    dns: None,
                    tunnel: TunnelStatus::Absent,
                    effects: Seq::empty(),
                };
                (machine.0@, transition_view(machine.1)) == place(
                    disconnected_state::enter_spec(shared),
                )
            }),
    {
        let mut shared_values = SharedTunnelStateValues::new(
            allow_lan,
            block_when_disconnected,
            connectivity,
            dns_config,
            allowed_endpoint,
            tunnel_parameters,
            retry_ceiling,
            platform,
        );
        let progress = DisconnectedState::enter(&mut shared_values);
        Self::placed(progress, shared_values)
    }

    /// Handles one stimulus, unless a handler waits for a collaborator.
    pub fn handle_event(self, event: EventResult) -> (next: (
        TunnelStateMachine,
        Option<TunnelStateTransition>,
    ))
        ensures
            (next.0@, transition_view(next.1)) == self@.handle_event(event@),
    {
        proof {
            use_type_invariant(&self);
        }
        let TunnelStateMachine { slot, shared_values } = self;
        let mut shared_values = shared_values;
        match slot {
            Slot::Ready(state) => {
                proof {
                    every_stimulus_keeps_the_record(state@, event@, shared_values@);
                }
                let progress = state.handle_event(event, &mut shared_values);
                Self::placed(progress, shared_values)
            },
            slot => (TunnelStateMachine { slot, shared_values }, None),
        }
    }

    /// Goes on with the handler that waits for the firewall, if one does.
    pub fn firewall_answered(self, result: Result<(), FirewallPolicyError>) -> (next: (
        TunnelStateMachine,
        Option<TunnelStateTransition>,
    ))
        ensures
            (next.0@, transition_view(next.1)) == self@.firewall_answered(result),
    {
        proof {
            use_type_invariant(&self);
        }
        let TunnelStateMachine { slot, shared_values } = self;
        let mut shared_values = shared_values;
        match slot {
            Slot::AwaitingFirewall(pending) => {
                proof {
                    firewall_answer_keeps_the_record(pending@, result, shared_values@);
                }
                let progress = pending.resume(result, &mut shared_values);
                Self::placed(progress, shared_values)
            },
            slot => (TunnelStateMachine { slot, shared_values }, None),
        }
    }

    /// Goes on with the handler that waits for the DNS configurator, if one
    /// does.
    pub fn dns_answered(self, result: Result<(), DnsError>) -> (next: (
        TunnelStateMachine,
        Option<TunnelStateTransition>,
    ))
        ensures
            (next.0@, transition_view(next.1)) == self@.dns_answered(result),
    {
        proof {
            use_type_invariant(&self);
        }
        let TunnelStateMachine { slot, shared_values } = self;
        let mut shared_values = shared_values;
        match slot {
            Slot::AwaitingDns(pending) => {
                proof {
                    dns_answer_keeps_the_record(pending@, result, shared_values@);
                }
                let progress = pending.resume(result, &mut shared_values);
                Self::placed(progress, shared_values)
            },
            slot => (TunnelStateMachine { slot, shared_values }, None),
        }
    }

    /// Hands out what the world has still to do, oldest first. The driver
    /// performs it before it does what is [`wanted`](Self::wanted) next.
    pub fn take_effects(self) -> (taken: (TunnelStateMachine, Vec<Effect>))
        ensures
            taken.1@ == self@.shared.effects,
            taken.0@ == (MachineView {
                slot: self@.slot,
                shared: SharedView { effects: Seq::empty(), ..self@.shared },
            }),
    {
        proof {
            use_type_invariant(&self);
        }
        let TunnelStateMachine { slot, shared_values } = self;
        let mut shared_values = shared_values;
        let effects = shared_values.take_effects();
        (TunnelStateMachine { slot, shared_values }, effects)
    }

    /// What the driver has to do next.
    pub fn wanted(&self) -> (wanted: Wanted)
        ensures
            match wanted {
                Wanted::Stimulus => self@.slot is Ready,
                Wanted::FirewallPolicy(policy) => self@.slot matches SlotView::AwaitingFirewall(
                    pending,
                ) && policy@ == pending.policy,
                Wanted::Dns(request) => self@.slot matches SlotView::AwaitingDns(pending)
                    && request@ == pending.request,
            },
    {
        match &self.slot {
            Slot::Ready(_) => Wanted::Stimulus,
            Slot::AwaitingFirewall(pending) => Wanted::FirewallPolicy(pending.policy.clone()),
            Slot::AwaitingDns(pending) => Wanted::Dns(
                DnsRequest {
                    interface: pending.request.interface.clone(),
                    config: pending.request.config.clone(),
                    delivery: pending.request.delivery,
                },
            ),
        }
    }

    /// The state that the machine is in, unless a handler waits for a
    /// collaborator. Whatever the machine has been fed, the policy of that
    /// state is in force: that of the tunnel while one is set up or up, and
    /// the blocking policy while the machine blocks.
    pub fn state(&self) -> (state: Option<&TunnelState>)
        ensures
            match state {
                Some(state) => self@.slot == SlotView::Ready(state@) && in_force(
                    state@,
                    self@.shared,
                ),
                None => !(self@.slot is Ready),
            },
    {
        proof {
            use_type_invariant(self);
        }
        match &self.slot {
            Slot::Ready(state) => Some(state),
            _ => None,
        }
    }

    /// The shared context.
    pub fn shared_values(&self) -> (shared_values: &SharedTunnelStateValues)
        ensures
            shared_values@ == self@.shared,
    {
        &self.shared_values
    }
}

} // verus!
