use talpid_core::dns::DnsConfig;
use talpid_core::firewall::FirewallPolicy;
use talpid_core::net::{
    AllowedClients, AllowedEndpoint, Connectivity, Endpoint, IpAddr, Ipv4Addr, SocketAddr,
    TransportProtocol,
};
use talpid_core::tunnel::{FirewallPolicyError, TunnelEvent, TunnelMetadata};
use talpid_core::tunnel_state_machine::disconnected_state::DisconnectedState;
use talpid_core::tunnel_state_machine::machine::{TunnelStateMachine, Wanted};
use talpid_core::tunnel_state_machine::pending::DnsError;
use talpid_core::tunnel_state_machine::{
    DnsDelivery, Effect, EventResult, ExcludedAppsChange, Platform, SettingsChange, TunnelCommand,
    TunnelState, TunnelStateTransition,
};
use talpid_core::wireguard::{
    ConnectionConfig, GenericTunnelOptions, PeerConfig, PrivateKey, PublicKey, TunnelConfig,
    TunnelOptions, TunnelParameters,
};

fn endpoint() -> AllowedEndpoint {
    AllowedEndpoint {
        endpoint: Endpoint {
            address: SocketAddr::new(IpAddr::V4(Ipv4Addr::new(45, 83, 223, 196)), 443),
            protocol: TransportProtocol::Tcp,
        },
        clients: AllowedClients::Root,
    }
}

fn tunnel_parameters() -> TunnelParameters {
    TunnelParameters {
        connection: ConnectionConfig {
            tunnel: TunnelConfig { private_key: PrivateKey::from([1u8; 32]), addresses: Vec::new() },
            peer: PeerConfig {
                public_key: PublicKey::from([2u8; 32]),
                allowed_ips: Vec::new(),
                endpoint: SocketAddr::new(IpAddr::V4(Ipv4Addr::new(185, 213, 154, 68)), 51820),
                psk: None,
            },
            exit_peer: None,
            ipv4_gateway: Ipv4Addr::new(10, 64, 0, 1),
            ipv6_gateway: None,
            fwmark: Some(0x6d6f6c65),
        },
        options: TunnelOptions { mtu: Some(1380), quantum_resistant: false },
        generic_options: GenericTunnelOptions { enable_ipv6: true },
        obfuscation: None,
    }
}

fn machine(block_when_disconnected: bool) -> (TunnelStateMachine, Option<TunnelStateTransition>) {
    TunnelStateMachine::new(
        false,
        block_when_disconnected,
        Connectivity::PresumeOnline,
        DnsConfig::Default,
        endpoint(),
        tunnel_parameters(),
        2,
        Platform {
            dns_delivery: DnsDelivery::SystemResolver,
            settings_change: SettingsChange::Reapply,
            excluded_apps_change: ExcludedAppsChange::Nothing,
            routing_rules: false,
        },
    )
}

#[test]
fn a_new_machine_is_disconnected_and_open() {
    let (machine, transition) = machine(false);
    assert_eq!(transition, Some(TunnelStateTransition::Disconnected));
    assert_eq!(machine.state(), Some(&TunnelState::Disconnected(DisconnectedState)));
    assert_eq!(machine.wanted(), Wanted::Stimulus);
    let (machine, effects) = machine.take_effects();
    assert_eq!(effects, vec![Effect::ResetFirewall]);
    assert!(machine.shared_values().effects.is_empty());
}

#[test]
fn a_new_machine_that_blocks_waits_for_the_firewall() {
    let (machine, transition) = machine(true);
    assert_eq!(transition, None);
    assert_eq!(machine.state(), None);
    let blocked = FirewallPolicy::Blocked { allow_lan: false, allowed_endpoint: endpoint() };
    assert_eq!(machine.wanted(), Wanted::FirewallPolicy(blocked.clone()));

    let (machine, transition) = machine.handle_event(EventResult::Command(Some(TunnelCommand::Connect)));
    assert_eq!(transition, None);
    assert_eq!(machine.state(), None);
    let (machine, transition) = machine.dns_answered(Ok(()));
    assert_eq!(transition, None);
    assert_eq!(machine.wanted(), Wanted::FirewallPolicy(blocked.clone()));

    let (machine, transition) = machine.firewall_answered(Ok(()));
    assert_eq!(transition, Some(TunnelStateTransition::Disconnected));
    assert_eq!(machine.shared_values().firewall.policy(), Some(blocked));
    let (machine, transition) = machine.firewall_answered(Err(FirewallPolicyError::Generic));
    assert_eq!(transition, None);
    assert_eq!(machine.state(), Some(&TunnelState::Disconnected(DisconnectedState)));
}

#[test]
fn the_machine_runs_from_connect_to_connected() {
    let (machine, _) = machine(false);
    let (machine, transition) = machine.handle_event(EventResult::Command(Some(TunnelCommand::Connect)));
    assert_eq!(transition, None);
    assert!(matches!(machine.wanted(), Wanted::FirewallPolicy(FirewallPolicy::Connecting { .. })));
    let (machine, transition) = machine.firewall_answered(Ok(()));
    assert!(matches!(transition, Some(TunnelStateTransition::Connecting(_))));

    let metadata = TunnelMetadata {
        interface: "wg0".to_string(),
        ips: vec![IpAddr::V4(Ipv4Addr::new(10, 64, 0, 2))],
        ipv4_gateway: Ipv4Addr::new(10, 64, 0, 1),
        ipv6_gateway: None,
    };
    let (machine, transition) = machine.handle_event(EventResult::Event(Some(TunnelEvent::Up(metadata))));
    assert_eq!(transition, None);
    let policy = match machine.wanted() {
        Wanted::FirewallPolicy(policy) => policy,
        other => panic!("{:?}", other),
    };
    assert!(matches!(policy, FirewallPolicy::Connected { .. }));
    let (machine, transition) = machine.firewall_answered(Ok(()));
    assert_eq!(transition, None);
    match machine.wanted() {
        Wanted::Dns(request) => {
            assert_eq!(request.interface, "wg0");
            assert_eq!(request.delivery, DnsDelivery::SystemResolver);
            assert_eq!(request.config.tunnel_config, vec![IpAddr::V4(Ipv4Addr::new(10, 64, 0, 1))]);
        }
        other => panic!("{:?}", other),
    }
    let (machine, transition) = machine.dns_answered(Ok(()));
    match transition {
        Some(TunnelStateTransition::Connected(shown)) => {
            assert_eq!(shown.tunnel_interface.as_deref(), Some("wg0"));
            assert_eq!(shown.endpoint.address.port, 51820);
        }
        other => panic!("{:?}", other),
    }
    assert!(matches!(machine.state(), Some(TunnelState::Connected(_))));
    assert_eq!(machine.shared_values().firewall.policy(), Some(policy));
    let (_, effects) = machine.take_effects();
    assert_eq!(
        effects,
        vec![
            Effect::ResetFirewall,
            Effect::StartTunnel { retry_attempt: 0 },
            Effect::AcknowledgeEvent
        ]
    );
}

#[test]
fn the_machine_gives_up_after_the_ceiling() {
    let (machine, _) = machine(false);
    let (machine, _) = machine.handle_event(EventResult::Command(Some(TunnelCommand::Connect)));
    let (mut machine, _) = machine.firewall_answered(Ok(()));
    for attempt in 1..=2u32 {
        let (next, transition) = machine.handle_event(EventResult::Close(Ok(None)));
        assert_eq!(transition, None);
        let (next, transition) = next.firewall_answered(Ok(()));
        assert!(matches!(transition, Some(TunnelStateTransition::Connecting(_))));
        match next.state() {
            Some(TunnelState::Connecting(state)) => assert_eq!(state.retry_attempt, attempt),
            other => panic!("{:?}", other),
        }
        machine = next;
    }
    let (machine, _) = machine.handle_event(EventResult::Close(Ok(None)));
    let (machine, transition) = machine.firewall_answered(Ok(()));
    assert!(matches!(transition, Some(TunnelStateTransition::Error(_))));
    assert!(matches!(machine.state(), Some(TunnelState::Error(_))));
    let (machine, transition) = machine.dns_answered(Err(DnsError));
    assert_eq!(transition, None);
    assert!(matches!(machine.state(), Some(TunnelState::Error(_))));
}
