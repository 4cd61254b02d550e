use talpid_core::dns::{DnsConfig, ResolvedDnsConfig};
use talpid_core::firewall::FirewallPolicy;
use talpid_core::net::{
    AllowedClients, AllowedEndpoint, Connectivity, Endpoint, IpAddr, Ipv4Addr, ObfuscatorConfig,
    SocketAddr, TransportProtocol, TunnelEndpoint,
};
use talpid_core::tunnel::{ErrorStateCause, FirewallPolicyError, TunnelEvent, TunnelMetadata};
use talpid_core::tunnel_state_machine::connected_state::ConnectedState;
use talpid_core::tunnel_state_machine::connecting_state::{
    retry_delay, ConnectingState, MAX_RETRY_DELAY,
};
use talpid_core::tunnel_state_machine::disconnected_state::DisconnectedState;
use talpid_core::tunnel_state_machine::disconnecting_state::DisconnectingState;
use talpid_core::tunnel_state_machine::error_state::ErrorState;
use talpid_core::tunnel_state_machine::pending::{DnsError, Progress};
use talpid_core::tunnel_state_machine::{
    ActionAfterDisconnect, AfterDisconnect, Canceled, DnsDelivery, Effect, EventConsequence,
    EventResult, ExcludedAppsChange, Platform, SettingsChange, SharedTunnelStateValues,
    TunnelCommand, TunnelState, TunnelStateTransition, TunnelStatus,
};
use talpid_core::wireguard::{
    ConnectionConfig, GenericTunnelOptions, PeerConfig, PrivateKey, PublicKey, TunnelConfig,
    TunnelOptions, TunnelParameters,
};

/// What the world has seen of the machine, in the order in which it happened.
#[derive(Debug, PartialEq, Eq)]
enum Seen {
    Effect(Effect),
    FirewallAsked(FirewallPolicy),
    DnsAsked(String, ResolvedDnsConfig),
    Transition(TunnelStateTransition),
}

/// Collaborators that answer as they are told and write down what they are
/// asked.
struct World {
    firewall_answers: Vec<Result<(), FirewallPolicyError>>,
    dns_answers: Vec<Result<(), DnsError>>,
    seen: Vec<Seen>,
}

impl World {
    fn new() -> World {
        World { firewall_answers: Vec::new(), dns_answers: Vec::new(), seen: Vec::new() }
    }

    fn drain(&mut self, shared: &mut SharedTunnelStateValues) {
        for effect in shared.take_effects() {
            self.seen.push(Seen::Effect(effect));
        }
    }

    /// Feeds one stimulus and plays the collaborators until the handler is
    /// done. Answers that were not told are `Ok`.
    fn feed(
        &mut self,
        state: TunnelState,
        event: EventResult,
        shared: &mut SharedTunnelStateValues,
    ) -> TunnelState {
        let mut progress = state.handle_event(event, shared);
        loop {
            self.drain(shared);
            progress = match progress {
                Progress::Done(EventConsequence::NewState(state, transition)) => {
                    self.seen.push(Seen::Transition(transition));
                    return state;
                }
                Progress::Done(EventConsequence::SameState(state)) => return state,
                Progress::ApplyFirewallPolicy(pending) => {
                    self.seen.push(Seen::FirewallAsked(pending.policy.clone()));
                    let answer = if self.firewall_answers.is_empty() {
                        Ok(())
                    } else {
                        self.firewall_answers.remove(0)
                    };
                    pending.resume(answer, shared)
                }
                Progress::SetDns(pending) => {
                    self.seen.push(Seen::DnsAsked(
                        pending.request.interface.clone(),
                        pending.request.config.clone(),
                    ));
                    let answer = if self.dns_answers.is_empty() {
                        Ok(())
                    } else {
                        self.dns_answers.remove(0)
                    };
                    pending.resume(answer, shared)
                }
            };
        }
    }

    fn position(&self, wanted: &Seen) -> usize {
        self.seen
            .iter()
            .position(|seen| seen == wanted)
            .unwrap_or_else(|| panic!("{:?} was not seen in {:?}", wanted, self.seen))
    }
}

fn peer_address() -> SocketAddr {
    SocketAddr::new(IpAddr::V4(Ipv4Addr::new(185, 213, 154, 68)), 51820)
}

fn peer() -> Endpoint {
    Endpoint { address: peer_address(), protocol: TransportProtocol::Udp }
}

fn api_endpoint() -> AllowedEndpoint {
    AllowedEndpoint {
        endpoint: Endpoint {
            address: SocketAddr::new(IpAddr::V4(Ipv4Addr::new(45, 83, 223, 196)), 443),
            protocol: TransportProtocol::Tcp,
        },
        clients: AllowedClients::Root,
    }
}

fn parameters() -> TunnelParameters {
    TunnelParameters {
        connection: ConnectionConfig {
            tunnel: TunnelConfig {
                private_key: PrivateKey::from([7u8; 32]),
                addresses: vec![IpAddr::V4(Ipv4Addr::new(10, 64, 0, 2))],
            },
            peer: PeerConfig {
                public_key: PublicKey::from([9u8; 32]),
                allowed_ips: Vec::new(),
                endpoint: peer_address(),
                psk: None,
            },
            exit_peer: None,
            ipv4_gateway: Ipv4Addr::new(10, 64, 0, 1),
            ipv6_gateway: None,
            fwmark: None,
        },
        options: TunnelOptions { mtu: None, quantum_resistant: false },
        generic_options: GenericTunnelOptions { enable_ipv6: false },
        obfuscation: None,
    }
}

fn desktop() -> Platform {
    Platform {
        dns_delivery: DnsDelivery::SystemResolver,
        settings_change: SettingsChange::Reapply,
        excluded_apps_change: ExcludedAppsChange::Nothing,
        routing_rules: false,
    }
}

fn shared_with(platform: Platform, retry_ceiling: u32) -> SharedTunnelStateValues {
    SharedTunnelStateValues::new(
        false,
        false,
        Connectivity::PresumeOnline,
        DnsConfig::Default,
        api_endpoint(),
        parameters(),
        retry_ceiling,
        platform,
    )
}

fn shared() -> SharedTunnelStateValues {
    shared_with(desktop(), 3)
}

fn metadata() -> TunnelMetadata {
    TunnelMetadata {
        interface: "wg0".to_string(),
        ips: vec![IpAddr::V4(Ipv4Addr::new(10, 64, 0, 2))],
        ipv4_gateway: Ipv4Addr::new(10, 64, 0, 1),
        ipv6_gateway: None,
    }
}

fn connecting(retry_attempt: u32) -> TunnelState {
    TunnelState::Connecting(ConnectingState { tunnel_parameters: parameters(), retry_attempt })
}

fn connected() -> TunnelState {
    TunnelState::Connected(ConnectedState {
        metadata: metadata(),
        tunnel_parameters: parameters(),
    })
}

fn connected_policy(allow_lan: bool) -> FirewallPolicy {
    FirewallPolicy::Connected {
        peer_endpoint: AllowedEndpoint { endpoint: peer(), clients: AllowedClients::Root },
        tunnel: metadata(),
        allow_lan,
        dns_config: ResolvedDnsConfig {
            tunnel_config: vec![IpAddr::V4(Ipv4Addr::new(10, 64, 0, 1))],
            non_tunnel_config: Vec::new(),
        },
    }
}

fn connecting_policy() -> FirewallPolicy {
    FirewallPolicy::Connecting {
        peer_endpoint: AllowedEndpoint { endpoint: peer(), clients: AllowedClients::Root },
        allow_lan: false,
        allowed_endpoint: api_endpoint(),
    }
}

fn blocked_policy(allow_lan: bool) -> FirewallPolicy {
    FirewallPolicy::Blocked { allow_lan, allowed_endpoint: api_endpoint() }
}

fn shown_endpoint(interface: Option<&str>) -> TunnelEndpoint {
    TunnelEndpoint {
        endpoint: peer(),
        quantum_resistant: false,
        entry_endpoint: None,
        tunnel_interface: interface.map(|name| name.to_string()),
    }
}

fn command(command: TunnelCommand) -> EventResult {
    EventResult::Command(Some(command))
}

const TEARDOWN: [Effect; 3] = [Effect::ResetDns, Effect::ClearRoutes, Effect::StopTunnel];

fn teardown() -> Vec<Seen> {
    TEARDOWN.iter().map(|effect| Seen::Effect(*effect)).collect()
}

#[test]
fn offline_means_no_family_has_a_route() {
    assert!(Connectivity::Status { ipv4: false, ipv6: false }.is_offline());
    assert!(!Connectivity::Status { ipv4: true, ipv6: false }.is_offline());
    assert!(!Connectivity::Status { ipv4: false, ipv6: true }.is_offline());
    assert!(!Connectivity::PresumeOnline.is_offline());
}

#[test]
fn ipv4_addresses_are_built_from_octets() {
    let address = Ipv4Addr::new(10, 64, 0, 2);
    assert_eq!(address.bits, 0x0a40_0002);
    assert_eq!(address.octets(), (10, 64, 0, 2));
    assert_eq!(Ipv4Addr::localhost(), Ipv4Addr::new(127, 0, 0, 1));
}

#[test]
fn connect_leads_to_connected_behind_the_firewall() {
    let mut world = World::new();
    let mut shared = shared();
    let state = TunnelState::Disconnected(DisconnectedState);

    assert_eq!(shared.tunnel, TunnelStatus::Absent);
    let state = world.feed(state, command(TunnelCommand::Connect), &mut shared);
    assert_eq!(state, connecting(0));
    assert_eq!(
        world.seen,
        vec![
            Seen::FirewallAsked(connecting_policy()),
            Seen::Effect(Effect::StartTunnel { retry_attempt: 0 }),
            Seen::Transition(TunnelStateTransition::Connecting(shown_endpoint(None))),
        ]
    );
    assert_eq!(shared.tunnel, TunnelStatus::Running);

    world.seen.clear();
    let state = world.feed(state, EventResult::Event(Some(TunnelEvent::Up(metadata()))), &mut shared);
    assert_eq!(state, connected());
    assert_eq!(
        world.seen,
        vec![
            Seen::FirewallAsked(connected_policy(false)),
            Seen::DnsAsked(
                "wg0".to_string(),
                ResolvedDnsConfig {
                    tunnel_config: vec![IpAddr::V4(Ipv4Addr::new(10, 64, 0, 1))],
                    non_tunnel_config: Vec::new(),
                }
            ),
            Seen::Effect(Effect::AcknowledgeEvent),
            Seen::Transition(TunnelStateTransition::Connected(shown_endpoint(Some("wg0")))),
        ]
    );
    let asked = world.position(&Seen::FirewallAsked(connected_policy(false)));
    let told =
        world.position(&Seen::Transition(TunnelStateTransition::Connected(shown_endpoint(Some("wg0")))));
    assert!(asked < told);
    assert_eq!(shared.firewall.policy(), Some(connected_policy(false)));
    let set = shared.dns.as_ref().expect("the DNS servers of the tunnel are on record");
    assert_eq!(set.interface, "wg0");
    assert_eq!(set.config.tunnel_config, vec![IpAddr::V4(Ipv4Addr::new(10, 64, 0, 1))]);
    assert_eq!(set.delivery, DnsDelivery::SystemResolver);

    let state = world.feed(state, command(TunnelCommand::Disconnect), &mut shared);
    assert_eq!(
        state,
        TunnelState::Disconnecting(DisconnectingState { after_disconnect: AfterDisconnect::Nothing })
    );
    assert_eq!(shared.dns, None);
    assert_eq!(shared.tunnel, TunnelStatus::Stopping);
    let state = world.feed(state, EventResult::Close(Ok(None)), &mut shared);
    assert_eq!(state, TunnelState::Disconnected(DisconnectedState));
    assert_eq!(shared.tunnel, TunnelStatus::Absent);
}

#[test]
fn going_offline_blocks_and_connect_starts_over() {
    let mut world = World::new();
    let mut shared = shared();
    let offline = Connectivity::Status { ipv4: false, ipv6: false };

    let state = world.feed(connected(), command(TunnelCommand::Connectivity(offline)), &mut shared);
    assert_eq!(
        state,
        TunnelState::Disconnecting(DisconnectingState {
            after_disconnect: AfterDisconnect::Block(ErrorStateCause::IsOffline)
        })
    );
    let mut expected = teardown();
    expected.push(Seen::Transition(TunnelStateTransition::Disconnecting(ActionAfterDisconnect::Block)));
    assert_eq!(world.seen, expected);

    world.seen.clear();
    let state = world.feed(state, EventResult::Close(Ok(None)), &mut shared);
    let error = ErrorState { block_reason: ErrorStateCause::IsOffline, block_failure: None };
    assert_eq!(state, TunnelState::Error(error));
    assert_eq!(
        world.seen,
        vec![
            Seen::FirewallAsked(blocked_policy(false)),
            Seen::Transition(TunnelStateTransition::Error(error)),
        ]
    );

    world.seen.clear();
    let state = world.feed(state, command(TunnelCommand::Connect), &mut shared);
    assert_eq!(
        state,
        TunnelState::Disconnecting(DisconnectingState {
            after_disconnect: AfterDisconnect::Reconnect(0)
        })
    );
    let mut expected = teardown();
    expected
        .push(Seen::Transition(TunnelStateTransition::Disconnecting(ActionAfterDisconnect::Reconnect)));
    assert_eq!(world.seen, expected);

    let state = world.feed(state, EventResult::Close(Ok(None)), &mut shared);
    assert_eq!(state, connecting(0));
}

#[test]
fn failed_attempts_count_up_to_the_ceiling_and_then_block() {
    let mut world = World::new();
    let mut shared = shared_with(desktop(), 3);

    let state = world.feed(connecting(2), EventResult::Close(Ok(None)), &mut shared);
    assert_eq!(state, connecting(3));
    assert!(world.seen.contains(&Seen::Effect(Effect::StartTunnel { retry_attempt: 3 })));

    world.seen.clear();
    let state = world.feed(state, EventResult::Close(Ok(None)), &mut shared);
    let error = ErrorState { block_reason: ErrorStateCause::StartTunnelError, block_failure: None };
    assert_eq!(state, TunnelState::Error(error));
    assert_eq!(
        world.seen,
        vec![
            Seen::Effect(Effect::ResetDns),
            Seen::Effect(Effect::ClearRoutes),
            Seen::FirewallAsked(blocked_policy(false)),
            Seen::Transition(TunnelStateTransition::Error(error)),
        ]
    );
}

#[test]
fn a_refused_policy_after_allow_lan_tears_the_tunnel_down() {
    let mut world = World::new();
    world.firewall_answers.push(Err(FirewallPolicyError::Generic));
    let mut shared = shared();

    let state = world.feed(connected(), command(TunnelCommand::AllowLan(true)), &mut shared);
    let cause = ErrorStateCause::SetFirewallPolicyError(FirewallPolicyError::Generic);
    assert_eq!(
        state,
        TunnelState::Disconnecting(DisconnectingState {
            after_disconnect: AfterDisconnect::Block(cause)
        })
    );
    assert_eq!(
        world.seen,
        vec![
            Seen::FirewallAsked(connected_policy(true)),
            Seen::Effect(Effect::ResetDns),
            Seen::Effect(Effect::ClearRoutes),
            Seen::Effect(Effect::StopTunnel),
            Seen::Effect(Effect::AcknowledgeCommand),
            Seen::Transition(TunnelStateTransition::Disconnecting(ActionAfterDisconnect::Block)),
        ]
    );
    assert!(shared.allow_lan);
    assert_eq!(shared.firewall.policy(), None);

    world.seen.clear();
    let state = world.feed(state, EventResult::Close(Ok(None)), &mut shared);
    let error = ErrorState { block_reason: cause, block_failure: None };
    assert_eq!(state, TunnelState::Error(error));
    assert_eq!(
        world.seen,
        vec![
            Seen::FirewallAsked(blocked_policy(true)),
            Seen::Transition(TunnelStateTransition::Error(error)),
        ]
    );
}

#[test]
fn applying_a_policy_twice_is_applying_it_once() {
    let mut once = talpid_core::firewall::Firewall::new();
    once.apply_policy(connected_policy(true));
    let mut twice = talpid_core::firewall::Firewall::new();
    twice.apply_policy(connected_policy(true));
    twice.apply_policy(connected_policy(true));
    assert_eq!(once, twice);
    assert_eq!(twice.policy(), Some(connected_policy(true)));
    twice.reset_policy();
    assert_eq!(twice.policy(), None);
}

#[test]
fn a_setting_that_does_not_change_asks_nobody() {
    let mut world = World::new();
    let mut shared = shared();
    let state = world.feed(connected(), command(TunnelCommand::AllowLan(true)), &mut shared);
    assert_eq!(state, connected());
    assert_eq!(
        world.seen,
        vec![
            Seen::FirewallAsked(connected_policy(true)),
            Seen::Effect(Effect::AcknowledgeCommand),
        ]
    );

    world.seen.clear();
    let state = world.feed(state, command(TunnelCommand::AllowLan(true)), &mut shared);
    assert_eq!(state, connected());
    assert_eq!(world.seen, vec![Seen::Effect(Effect::AcknowledgeCommand)]);
    assert_eq!(shared.firewall.policy(), Some(connected_policy(true)));
}

#[test]
fn new_dns_servers_refresh_the_firewall_and_then_the_resolver() {
    let mut world = World::new();
    let mut shared = shared();
    let servers = vec![IpAddr::V4(Ipv4Addr::new(1, 3, 3, 7))];
    let config = DnsConfig::Override { tunnel_config: servers.clone(), non_tunnel_config: Vec::new() };
    let resolved = ResolvedDnsConfig { tunnel_config: servers, non_tunnel_config: Vec::new() };

    let state = world.feed(connected(), command(TunnelCommand::Dns(config.clone())), &mut shared);
    assert_eq!(state, connected());
    assert_eq!(
        world.seen,
        vec![
            Seen::FirewallAsked(FirewallPolicy::Connected {
                peer_endpoint: AllowedEndpoint { endpoint: peer(), clients: AllowedClients::Root },
                tunnel: metadata(),
                allow_lan: false,
                dns_config: resolved.clone(),
            }),
            Seen::DnsAsked("wg0".to_string(), resolved.clone()),
            Seen::Effect(Effect::AcknowledgeCommand),
        ]
    );
    assert_eq!(resolved.addresses(), vec![IpAddr::V4(Ipv4Addr::new(1, 3, 3, 7))]);

    world.seen.clear();
    world.dns_answers.push(Err(DnsError));
    let state = world.feed(state, command(TunnelCommand::Dns(DnsConfig::Default)), &mut shared);
    assert_eq!(
        state,
        TunnelState::Disconnecting(DisconnectingState {
            after_disconnect: AfterDisconnect::Block(ErrorStateCause::SetDnsError)
        })
    );
    assert!(world.position(&Seen::Effect(Effect::ResetDns)) < world.position(&Seen::Effect(Effect::StopTunnel)));
    assert!(world.seen.contains(&Seen::Effect(Effect::AcknowledgeCommand)));
}

#[test]
fn dns_that_cannot_be_set_on_entry_keeps_the_machine_out_of_connected() {
    let mut world = World::new();
    world.dns_answers.push(Err(DnsError));
    let mut shared = shared();
    let state =
        world.feed(connecting(0), EventResult::Event(Some(TunnelEvent::Up(metadata()))), &mut shared);
    assert_eq!(
        state,
        TunnelState::Disconnecting(DisconnectingState {
            after_disconnect: AfterDisconnect::Block(ErrorStateCause::SetDnsError)
        })
    );
    assert!(!world
        .seen
        .iter()
        .any(|seen| matches!(seen, Seen::Transition(TunnelStateTransition::Connected(_)))));
    assert_eq!(
        &world.seen[2..],
        &[
            Seen::Effect(Effect::ResetDns),
            Seen::Effect(Effect::ClearRoutes),
            Seen::Effect(Effect::StopTunnel),
            Seen::Effect(Effect::AcknowledgeEvent),
            Seen::Transition(TunnelStateTransition::Disconnecting(ActionAfterDisconnect::Block)),
        ]
    );
}

#[test]
fn commands_in_connected_lead_where_they_should() {
    let cases = vec![
        (Some(TunnelCommand::Connect), AfterDisconnect::Reconnect(0)),
        (Some(TunnelCommand::Disconnect), AfterDisconnect::Nothing),
        (None, AfterDisconnect::Nothing),
        (
            Some(TunnelCommand::Block(ErrorStateCause::AuthFailed)),
            AfterDisconnect::Block(ErrorStateCause::AuthFailed),
        ),
    ];
    for (given, after_disconnect) in cases {
        let mut world = World::new();
        let mut shared = shared();
        let state = world.feed(connected(), EventResult::Command(given), &mut shared);
        assert_eq!(state, TunnelState::Disconnecting(DisconnectingState { after_disconnect }));
        assert_eq!(&world.seen[..3], &teardown()[..]);
    }

    let mut world = World::new();
    let mut shared = shared();
    let online = Connectivity::Status { ipv4: true, ipv6: false };
    let state = world.feed(connected(), command(TunnelCommand::Connectivity(online)), &mut shared);
    assert_eq!(state, connected());
    assert_eq!(shared.connectivity, online);
    assert!(world.seen.is_empty());

    let state = world.feed(state, command(TunnelCommand::BlockWhenDisconnected(true)), &mut shared);
    assert_eq!(state, connected());
    assert!(shared.block_when_disconnected);
    let state = world.feed(state, command(TunnelCommand::BypassSocket(7)), &mut shared);
    assert_eq!(state, connected());
    assert_eq!(
        world.seen,
        vec![Seen::Effect(Effect::AcknowledgeCommand), Seen::Effect(Effect::BypassSocket(7))]
    );
}

#[test]
fn tunnel_events_in_connected() {
    let mut world = World::new();
    let mut shared = shared();
    let state = world.feed(connected(), EventResult::Event(Some(TunnelEvent::Down)), &mut shared);
    assert_eq!(
        state,
        TunnelState::Disconnecting(DisconnectingState {
            after_disconnect: AfterDisconnect::Reconnect(0)
        })
    );
    let state = world.feed(connected(), EventResult::Event(None), &mut shared);
    assert_eq!(
        state,
        TunnelState::Disconnecting(DisconnectingState {
            after_disconnect: AfterDisconnect::Reconnect(0)
        })
    );
    world.seen.clear();
    let state =
        world.feed(connected(), EventResult::Event(Some(TunnelEvent::Up(metadata()))), &mut shared);
    assert_eq!(state, connected());
    assert_eq!(world.seen, vec![Seen::Effect(Effect::AcknowledgeEvent)]);
}

#[test]
fn a_tunnel_that_goes_by_itself_is_replaced_or_blocked() {
    let mut world = World::new();
    let mut shared = shared();
    let state = world.feed(connected(), EventResult::Close(Ok(None)), &mut shared);
    assert_eq!(state, connecting(0));
    assert_eq!(
        world.seen,
        vec![
            Seen::Effect(Effect::ResetDns),
            Seen::Effect(Effect::ClearRoutes),
            Seen::FirewallAsked(connecting_policy()),
            Seen::Effect(Effect::StartTunnel { retry_attempt: 0 }),
            Seen::Transition(TunnelStateTransition::Connecting(shown_endpoint(None))),
        ]
    );

    let state = world.feed(connected(), EventResult::Close(Err(Canceled)), &mut shared);
    assert_eq!(state, connecting(0));

    world.seen.clear();
    let state =
        world.feed(connected(), EventResult::Close(Ok(Some(ErrorStateCause::AuthFailed))), &mut shared);
    let error = ErrorState { block_reason: ErrorStateCause::AuthFailed, block_failure: None };
    assert_eq!(state, TunnelState::Error(error));
    assert_eq!(
        world.seen,
        vec![
            Seen::Effect(Effect::ResetDns),
            Seen::Effect(Effect::ClearRoutes),
            Seen::FirewallAsked(blocked_policy(false)),
            Seen::Transition(TunnelStateTransition::Error(error)),
        ]
    );
}

#[test]
fn platforms_differ_in_how_they_take_changes() {
    let mobile = Platform {
        dns_delivery: DnsDelivery::LocalResolver,
        settings_change: SettingsChange::Reconnect,
        excluded_apps_change: ExcludedAppsChange::Reconnect,
        routing_rules: true,
    };
    let torn_down = vec![
        Seen::Effect(Effect::DisableDnsForwarding),
        Seen::Effect(Effect::ClearRoutes),
        Seen::Effect(Effect::ClearRoutingRules),
        Seen::Effect(Effect::StopTunnel),
        Seen::Effect(Effect::AcknowledgeCommand),
        Seen::Transition(TunnelStateTransition::Disconnecting(ActionAfterDisconnect::Reconnect)),
    ];
    let reconnect =
        TunnelState::Disconnecting(DisconnectingState { after_disconnect: AfterDisconnect::Reconnect(0) });

    let mut world = World::new();
    let mut shared = shared_with(mobile, 3);
    let state = world.feed(connected(), command(TunnelCommand::AllowLan(true)), &mut shared);
    assert_eq!(state, reconnect);
    assert_eq!(world.seen, torn_down);

    let mut world = World::new();
    let mut shared = shared_with(mobile, 3);
    let apps = vec!["/usr/bin/curl".to_string()];
    let state = world.feed(connected(), command(TunnelCommand::SetExcludedApps(apps.clone())), &mut shared);
    assert_eq!(state, reconnect);
    assert_eq!(world.seen, torn_down);
    assert_eq!(shared.excluded_paths, apps);
    world.seen.clear();
    let state = world.feed(connected(), command(TunnelCommand::SetExcludedApps(apps.clone())), &mut shared);
    assert_eq!(state, connected());
    assert_eq!(world.seen, vec![Seen::Effect(Effect::AcknowledgeCommand)]);

    let refreshing = Platform { excluded_apps_change: ExcludedAppsChange::RefreshFirewall, ..desktop() };
    let mut world = World::new();
    let mut shared = shared_with(refreshing, 3);
    let state = world.feed(connected(), command(TunnelCommand::SetExcludedApps(apps.clone())), &mut shared);
    assert_eq!(state, connected());
    assert_eq!(
        world.seen,
        vec![Seen::FirewallAsked(connected_policy(false)), Seen::Effect(Effect::AcknowledgeCommand)]
    );

    let mut world = World::new();
    let mut shared = shared_with(desktop(), 3);
    let state = world.feed(connected(), command(TunnelCommand::SetExcludedApps(apps)), &mut shared);
    assert_eq!(state, connected());
    assert_eq!(world.seen, vec![Seen::Effect(Effect::AcknowledgeCommand)]);
}

#[test]
fn an_obfuscator_is_the_peer_of_the_firewall_and_hidden_from_observers() {
    let obfuscator = SocketAddr::new(IpAddr::V4(Ipv4Addr::new(185, 213, 154, 68)), 443);
    let exit = SocketAddr::new(IpAddr::V4(Ipv4Addr::new(193, 138, 218, 220)), 51820);
    let mut parameters = parameters();
    parameters.obfuscation = Some(ObfuscatorConfig::Udp2Tcp { endpoint: obfuscator });
    parameters.options.quantum_resistant = true;
    parameters.connection.exit_peer = Some(PeerConfig {
        public_key: PublicKey::from([3u8; 32]),
        allowed_ips: Vec::new(),
        endpoint: exit,
        psk: None,
    });
    let outer = Endpoint { address: obfuscator, protocol: TransportProtocol::Tcp };
    assert_eq!(parameters.get_next_hop_endpoint(), outer);
    assert_eq!(parameters.connection.get_endpoint(), peer());
    assert_eq!(
        parameters.connection.get_exit_endpoint(),
        Some(Endpoint { address: exit, protocol: TransportProtocol::Udp })
    );
    assert_eq!(
        ObfuscatorConfig::Shadowsocks { endpoint: obfuscator }.get_obfuscator_endpoint(),
        Endpoint { address: obfuscator, protocol: TransportProtocol::Udp }
    );

    let state = ConnectedState { metadata: metadata(), tunnel_parameters: parameters.clone() };
    let shared = shared();
    match state.get_firewall_policy(&shared) {
        FirewallPolicy::Connected { peer_endpoint, tunnel, allow_lan, dns_config } => {
            assert_eq!(peer_endpoint, AllowedEndpoint { endpoint: outer, clients: AllowedClients::All });
            assert_eq!(tunnel, metadata());
            assert!(!allow_lan);
            assert_eq!(dns_config, ConnectedState::resolve_dns(&metadata(), &shared));
        }
        other => panic!("{:?}", other),
    }
    assert_eq!(
        state.get_tunnel_endpoint(),
        TunnelEndpoint {
            endpoint: Endpoint { address: exit, protocol: TransportProtocol::Udp },
            quantum_resistant: true,
            entry_endpoint: Some(peer()),
            tunnel_interface: Some("wg0".to_string()),
        }
    );
}

#[test]
fn gateways_are_the_default_dns_servers() {
    let mut metadata = metadata();
    metadata.ipv6_gateway = Some(talpid_core::net::Ipv6Addr { bits: 0xfc00_bbbb_bbbb_bb01_0000_0000_0000_0001 });
    let gateways = vec![
        IpAddr::V4(Ipv4Addr::new(10, 64, 0, 1)),
        IpAddr::V6(talpid_core::net::Ipv6Addr { bits: 0xfc00_bbbb_bbbb_bb01_0000_0000_0000_0001 }),
    ];
    assert_eq!(metadata.gateways(), gateways);
    assert_eq!(
        DnsConfig::Default.resolve(&gateways),
        ResolvedDnsConfig { tunnel_config: gateways.clone(), non_tunnel_config: Vec::new() }
    );
    let custom = DnsConfig::Override {
        tunnel_config: vec![IpAddr::V4(Ipv4Addr::new(1, 1, 1, 1))],
        non_tunnel_config: vec![IpAddr::V4(Ipv4Addr::new(192, 168, 1, 1))],
    };
    let resolved = custom.resolve(&gateways);
    assert_eq!(
        resolved.addresses(),
        vec![IpAddr::V4(Ipv4Addr::new(1, 1, 1, 1)), IpAddr::V4(Ipv4Addr::new(192, 168, 1, 1))]
    );
    assert!(custom.same_as(&custom.clone()));
    assert!(!custom.same_as(&DnsConfig::Default));
}

#[test]
fn connecting_retries_through_teardown_when_the_tunnel_reports_down() {
    let mut world = World::new();
    let mut shared = shared_with(desktop(), 1);
    let state = world.feed(connecting(0), EventResult::Event(Some(TunnelEvent::Down)), &mut shared);
    assert_eq!(
        state,
        TunnelState::Disconnecting(DisconnectingState {
            after_disconnect: AfterDisconnect::Reconnect(1)
        })
    );
    let state = world.feed(state, EventResult::Close(Ok(None)), &mut shared);
    assert_eq!(state, connecting(1));
    let state = world.feed(state, EventResult::Event(None), &mut shared);
    assert_eq!(
        state,
        TunnelState::Disconnecting(DisconnectingState {
            after_disconnect: AfterDisconnect::Block(ErrorStateCause::StartTunnelError)
        })
    );
    let state = world.feed(state, EventResult::Close(Ok(None)), &mut shared);
    assert_eq!(
        state,
        TunnelState::Error(ErrorState {
            block_reason: ErrorStateCause::StartTunnelError,
            block_failure: None
        })
    );
}

#[test]
fn connecting_with_a_fatal_close_blocks_at_once() {
    let mut world = World::new();
    let mut shared = shared();
    let state = world.feed(
        connecting(0),
        EventResult::Close(Ok(Some(ErrorStateCause::Ipv6Unavailable))),
        &mut shared,
    );
    assert_eq!(
        state,
        TunnelState::Error(ErrorState {
            block_reason: ErrorStateCause::Ipv6Unavailable,
            block_failure: None
        })
    );
}

#[test]
fn connecting_commands() {
    let mut world = World::new();
    let mut shared = shared();
    let state = world.feed(connecting(1), command(TunnelCommand::AllowLan(true)), &mut shared);
    assert_eq!(state, connecting(1));
    assert_eq!(
        world.seen,
        vec![
            Seen::FirewallAsked(FirewallPolicy::Connecting {
                peer_endpoint: AllowedEndpoint { endpoint: peer(), clients: AllowedClients::Root },
                allow_lan: true,
                allowed_endpoint: api_endpoint(),
            }),
            Seen::Effect(Effect::AcknowledgeCommand),
        ]
    );

    world.seen.clear();
    world.firewall_answers.push(Err(FirewallPolicyError::Locked));
    let other = AllowedEndpoint { clients: AllowedClients::All, ..api_endpoint() };
    let state = world.feed(state, command(TunnelCommand::AllowEndpoint(other)), &mut shared);
    assert_eq!(
        state,
        TunnelState::Disconnecting(DisconnectingState {
            after_disconnect: AfterDisconnect::Block(ErrorStateCause::SetFirewallPolicyError(
                FirewallPolicyError::Locked
            ))
        })
    );

    let offline = Connectivity::Status { ipv4: false, ipv6: false };
    let state = world.feed(connecting(1), command(TunnelCommand::Connectivity(offline)), &mut shared);
    assert_eq!(
        state,
        TunnelState::Disconnecting(DisconnectingState {
            after_disconnect: AfterDisconnect::Block(ErrorStateCause::IsOffline)
        })
    );
    let state = world.feed(connecting(1), command(TunnelCommand::Dns(DnsConfig::Default)), &mut shared);
    assert_eq!(state, connecting(1));
    let state = world.feed(connecting(1), command(TunnelCommand::Connect), &mut shared);
    assert_eq!(
        state,
        TunnelState::Disconnecting(DisconnectingState {
            after_disconnect: AfterDisconnect::Reconnect(0)
        })
    );
}

#[test]
fn a_refused_policy_on_the_way_into_connecting_ends_blocking() {
    let mut world = World::new();
    world.firewall_answers.push(Err(FirewallPolicyError::Generic));
    let mut shared = shared();
    let state =
        world.feed(TunnelState::Disconnected(DisconnectedState), command(TunnelCommand::Connect), &mut shared);
    let cause = ErrorStateCause::SetFirewallPolicyError(FirewallPolicyError::Generic);
    assert_eq!(
        state,
        TunnelState::Disconnecting(DisconnectingState {
            after_disconnect: AfterDisconnect::Block(cause)
        })
    );
    assert!(!world.seen.contains(&Seen::Effect(Effect::StartTunnel { retry_attempt: 0 })));
    world.firewall_answers.push(Err(FirewallPolicyError::Generic));
    let state = world.feed(state, EventResult::Close(Ok(None)), &mut shared);
    let error = ErrorState { block_reason: cause, block_failure: Some(FirewallPolicyError::Generic) };
    assert_eq!(state, TunnelState::Error(error));
    assert_eq!(world.seen.last(), Some(&Seen::Transition(TunnelStateTransition::Error(error))));
}

#[test]
fn disconnecting_takes_orders_and_stays() {
    let mut world = World::new();
    let mut shared = shared();
    let start = |after_disconnect| TunnelState::Disconnecting(DisconnectingState { after_disconnect });
    let offline = Connectivity::Status { ipv4: false, ipv6: false };
    let cases = vec![
        (AfterDisconnect::Nothing, Some(TunnelCommand::Connect), AfterDisconnect::Reconnect(0)),
        (AfterDisconnect::Reconnect(4), Some(TunnelCommand::Connect), AfterDisconnect::Reconnect(4)),
        (AfterDisconnect::Reconnect(4), Some(TunnelCommand::Disconnect), AfterDisconnect::Nothing),
        (AfterDisconnect::Reconnect(4), None, AfterDisconnect::Nothing),
        (
            AfterDisconnect::Nothing,
            Some(TunnelCommand::Block(ErrorStateCause::AuthFailed)),
            AfterDisconnect::Block(ErrorStateCause::AuthFailed),
        ),
        (
            AfterDisconnect::Reconnect(1),
            Some(TunnelCommand::Connectivity(offline)),
            AfterDisconnect::Block(ErrorStateCause::IsOffline),
        ),
        (AfterDisconnect::Nothing, Some(TunnelCommand::Connectivity(offline)), AfterDisconnect::Nothing),
        (AfterDisconnect::Reconnect(2), Some(TunnelCommand::AllowLan(true)), AfterDisconnect::Reconnect(2)),
    ];
    for (before, given, after) in cases {
        let state = world.feed(start(before), EventResult::Command(given), &mut shared);
        assert_eq!(state, start(after));
    }
    assert!(shared.allow_lan);
    assert!(!world.seen.iter().any(|seen| matches!(seen, Seen::Transition(_))));

    world.seen.clear();
    let state = world.feed(start(AfterDisconnect::Nothing), EventResult::Event(Some(TunnelEvent::Down)), &mut shared);
    assert_eq!(state, start(AfterDisconnect::Nothing));
    assert_eq!(world.seen, vec![Seen::Effect(Effect::AcknowledgeEvent)]);

    world.seen.clear();
    let state = world.feed(start(AfterDisconnect::Nothing), EventResult::Close(Ok(None)), &mut shared);
    assert_eq!(state, TunnelState::Disconnected(DisconnectedState));
    assert_eq!(
        world.seen,
        vec![Seen::Effect(Effect::ResetFirewall), Seen::Transition(TunnelStateTransition::Disconnected)]
    );
    assert_eq!(shared.firewall.policy(), None);

    let state = world.feed(
        start(AfterDisconnect::Reconnect(5)),
        EventResult::Close(Ok(Some(ErrorStateCause::AuthFailed))),
        &mut shared,
    );
    assert_eq!(state, connecting(5));
}

#[test]
fn the_disconnected_state_blocks_if_told_to() {
    let mut world = World::new();
    let mut shared = shared();
    let idle = || TunnelState::Disconnected(DisconnectedState);

    let state = world.feed(idle(), command(TunnelCommand::AllowLan(true)), &mut shared);
    assert_eq!(state, idle());
    assert_eq!(world.seen, vec![Seen::Effect(Effect::AcknowledgeCommand)]);

    world.seen.clear();
    let state = world.feed(state, command(TunnelCommand::BlockWhenDisconnected(true)), &mut shared);
    assert_eq!(state, idle());
    assert_eq!(
        world.seen,
        vec![Seen::FirewallAsked(blocked_policy(true)), Seen::Effect(Effect::AcknowledgeCommand)]
    );
    assert_eq!(shared.firewall.policy(), Some(blocked_policy(true)));

    world.seen.clear();
    let state = world.feed(state, command(TunnelCommand::AllowLan(false)), &mut shared);
    assert_eq!(state, idle());
    assert_eq!(
        world.seen,
        vec![Seen::FirewallAsked(blocked_policy(false)), Seen::Effect(Effect::AcknowledgeCommand)]
    );

    world.seen.clear();
    world.firewall_answers.push(Err(FirewallPolicyError::Locked));
    let state = world.feed(state, command(TunnelCommand::AllowLan(true)), &mut shared);
    let error = ErrorState {
        block_reason: ErrorStateCause::SetFirewallPolicyError(FirewallPolicyError::Locked),
        block_failure: Some(FirewallPolicyError::Locked),
    };
    assert_eq!(state, TunnelState::Error(error));
    assert_eq!(
        world.seen,
        vec![
            Seen::FirewallAsked(blocked_policy(true)),
            Seen::Effect(Effect::AcknowledgeCommand),
            Seen::Transition(TunnelStateTransition::Error(error)),
        ]
    );

    world.seen.clear();
    let state = world.feed(idle(), command(TunnelCommand::BlockWhenDisconnected(false)), &mut shared);
    assert_eq!(state, idle());
    assert_eq!(
        world.seen,
        vec![Seen::Effect(Effect::ResetFirewall), Seen::Effect(Effect::AcknowledgeCommand)]
    );

    let state = world.feed(idle(), command(TunnelCommand::Block(ErrorStateCause::AuthFailed)), &mut shared);
    assert_eq!(
        state,
        TunnelState::Error(ErrorState { block_reason: ErrorStateCause::AuthFailed, block_failure: None })
    );
    for event in [
        EventResult::Command(Some(TunnelCommand::Disconnect)),
        EventResult::Command(None),
        EventResult::Event(None),
        EventResult::Close(Ok(None)),
    ] {
        assert_eq!(world.feed(idle(), event, &mut shared), idle());
    }
}

#[test]
fn the_error_state_takes_few_commands() {
    let mut world = World::new();
    let mut shared = shared();
    let error = ErrorState { block_reason: ErrorStateCause::IsOffline, block_failure: None };
    let blocked = || TunnelState::Error(error);

    let state = world.feed(blocked(), command(TunnelCommand::AllowLan(true)), &mut shared);
    assert_eq!(state, blocked());
    assert_eq!(
        world.seen,
        vec![Seen::FirewallAsked(blocked_policy(true)), Seen::Effect(Effect::AcknowledgeCommand)]
    );

    world.firewall_answers.push(Err(FirewallPolicyError::Generic));
    let state = world.feed(state, command(TunnelCommand::AllowLan(false)), &mut shared);
    assert_eq!(
        state,
        TunnelState::Error(ErrorState { block_failure: Some(FirewallPolicyError::Generic), ..error })
    );

    let state = world.feed(blocked(), command(TunnelCommand::Block(ErrorStateCause::AuthFailed)), &mut shared);
    assert_eq!(state, blocked());
    let online = Connectivity::Status { ipv4: true, ipv6: true };
    let state = world.feed(state, command(TunnelCommand::Connectivity(online)), &mut shared);
    assert_eq!(state, blocked());
    assert_eq!(shared.connectivity, online);

    world.seen.clear();
    let state = world.feed(state, command(TunnelCommand::Disconnect), &mut shared);
    assert_eq!(
        state,
        TunnelState::Disconnecting(DisconnectingState { after_disconnect: AfterDisconnect::Nothing })
    );
    let mut expected = teardown();
    expected.push(Seen::Transition(TunnelStateTransition::Disconnecting(ActionAfterDisconnect::Nothing)));
    assert_eq!(world.seen, expected);
    assert_eq!(AfterDisconnect::Reconnect(3).action(), ActionAfterDisconnect::Reconnect);
}

fn every_state() -> Vec<TunnelState> {
    vec![
        TunnelState::Disconnected(DisconnectedState),
        connecting(0),
        connecting(3),
        connected(),
        TunnelState::Disconnecting(DisconnectingState { after_disconnect: AfterDisconnect::Nothing }),
        TunnelState::Disconnecting(DisconnectingState {
            after_disconnect: AfterDisconnect::Reconnect(1),
        }),
        TunnelState::Disconnecting(DisconnectingState {
            after_disconnect: AfterDisconnect::Block(ErrorStateCause::AuthFailed),
        }),
        TunnelState::Error(ErrorState { block_reason: ErrorStateCause::IsOffline, block_failure: None }),
    ]
}

fn every_stimulus() -> Vec<EventResult> {
    let offline = Connectivity::Status { ipv4: false, ipv6: false };
    let servers = DnsConfig::Override {
        tunnel_config: vec![IpAddr::V4(Ipv4Addr::new(9, 9, 9, 9))],
        non_tunnel_config: Vec::new(),
    };
    vec![
        command(TunnelCommand::AllowLan(true)),
        command(TunnelCommand::AllowEndpoint(AllowedEndpoint {
            clients: AllowedClients::All,
            ..api_endpoint()
        })),
        command(TunnelCommand::Dns(servers)),
        command(TunnelCommand::BlockWhenDisconnected(true)),
        command(TunnelCommand::Connectivity(offline)),
        command(TunnelCommand::Connectivity(Connectivity::PresumeOnline)),
        command(TunnelCommand::Connect),
        command(TunnelCommand::Disconnect),
        command(TunnelCommand::Block(ErrorStateCause::SplitTunnelError)),
        command(TunnelCommand::BypassSocket(3)),
        command(TunnelCommand::SetExcludedApps(vec!["/bin/sh".to_string()])),
        EventResult::Command(None),
        EventResult::Event(Some(TunnelEvent::Up(metadata()))),
        EventResult::Event(Some(TunnelEvent::Down)),
        EventResult::Event(None),
        EventResult::Close(Ok(None)),
        EventResult::Close(Ok(Some(ErrorStateCause::AuthFailed))),
        EventResult::Close(Err(Canceled)),
    ]
}

fn owes_command_acknowledgement(event: &EventResult) -> bool {
    matches!(
        event,
        EventResult::Command(Some(
            TunnelCommand::AllowLan(_)
                | TunnelCommand::AllowEndpoint(_)
                | TunnelCommand::Dns(_)
                | TunnelCommand::BlockWhenDisconnected(_)
                | TunnelCommand::SetExcludedApps(_)
        ))
    )
}

#[test]
fn every_stimulus_is_handled_in_every_state() {
    let answers = [
        (Ok(()), Ok(())),
        (Ok(()), Err(DnsError)),
        (Err(FirewallPolicyError::Generic), Ok(())),
    ];
    for (firewall, dns) in answers {
        for (state, again) in every_state().into_iter().zip(every_state()) {
            for (event, same) in every_stimulus().into_iter().zip(every_stimulus()) {
                let mut world = World::new();
                world.firewall_answers.push(firewall);
                world.dns_answers.push(dns);
                let mut shared = shared();
                let end = world.feed(state_like(&state), event, &mut shared);

                let mut replay = World::new();
                replay.firewall_answers.push(firewall);
                replay.dns_answers.push(dns);
                let mut shared_again = shared_with(desktop(), 3);
                let end_again = replay.feed(state_like(&again), every_stimulus_like(&same), &mut shared_again);
                assert_eq!(end, end_again);
                assert_eq!(world.seen, replay.seen);
                assert_eq!(shared, shared_again);

                let count = |wanted: Effect| {
                    world.seen.iter().filter(|seen| **seen == Seen::Effect(wanted)).count()
                };
                let owed = usize::from(owes_command_acknowledgement(&same));
                assert_eq!(count(Effect::AcknowledgeCommand), owed, "{:?} in {:?}", same, again);
                let event_owed = usize::from(matches!(same, EventResult::Event(Some(_))));
                assert_eq!(count(Effect::AcknowledgeEvent), event_owed, "{:?} in {:?}", same, again);
                let entered_disconnecting = world.seen.iter().any(|seen| {
                    matches!(seen, Seen::Transition(TunnelStateTransition::Disconnecting(_)))
                });
                assert_eq!(count(Effect::StopTunnel), usize::from(entered_disconnecting));
                if entered_disconnecting {
                    assert!(
                        world.position(&Seen::Effect(Effect::ResetDns))
                            < world.position(&Seen::Effect(Effect::ClearRoutes))
                    );
                    assert!(
                        world.position(&Seen::Effect(Effect::ClearRoutes))
                            < world.position(&Seen::Effect(Effect::StopTunnel))
                    );
                }
                if let Some(told) = world
                    .seen
                    .iter()
                    .position(|seen| matches!(seen, Seen::Transition(TunnelStateTransition::Connected(_))))
                {
                    let asked = world
                        .seen
                        .iter()
                        .position(|seen| {
                            matches!(seen, Seen::FirewallAsked(FirewallPolicy::Connected { .. }))
                        })
                        .expect("the firewall is asked before the connected state is entered");
                    assert!(asked < told);
                }
            }
        }
    }
}

fn state_like(state: &TunnelState) -> TunnelState {
    match state {
        TunnelState::Disconnected(state) => TunnelState::Disconnected(*state),
        TunnelState::Connecting(state) => connecting(state.retry_attempt),
        TunnelState::Connected(_) => connected(),
        TunnelState::Disconnecting(state) => TunnelState::Disconnecting(*state),
        TunnelState::Error(state) => TunnelState::Error(*state),
    }
}

fn every_stimulus_like(event: &EventResult) -> EventResult {
    let index = every_stimulus().iter().position(|other| other == event).unwrap();
    every_stimulus().swap_remove(index)
}

#[test]
fn later_attempts_wait_longer_but_not_for_ever() {
    let delays: Vec<u64> = (0..8).map(retry_delay).collect();
    assert_eq!(delays, vec![0, 1, 2, 4, 8, 16, 32, 32]);
    assert_eq!(retry_delay(u32::MAX), MAX_RETRY_DELAY);
    assert!(delays.windows(2).all(|pair| pair[0] <= pair[1]));
}
