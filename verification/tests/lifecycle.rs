//! Scenario tests of the tunnel lifecycle state machine.

use talpid_core::firewall::Firewall;
use talpid_core::firewall::FirewallArguments;
use talpid_core::net::Endpoint;
use talpid_core::net::IpAddress;
use talpid_core::net::Ipv4Address;
use talpid_core::net::TransportProtocol;
use talpid_core::rules::RuleExpr;
use talpid_core::rules::Verdict;
use talpid_core::state_machine::BlockReason;
use talpid_core::state_machine::InputEvent;
use talpid_core::state_machine::MonitorAction;
use talpid_core::state_machine::SharedTunnelStateValues;
use talpid_core::state_machine::TunnelCommand;
use talpid_core::state_machine::TunnelStateMachine;
use talpid_core::state_machine::TunnelStateTransition;
use talpid_core::state_machine::TunnelStateWrapper;
use talpid_core::tunnel::GenericTunnelOptions;
use talpid_core::tunnel::OpenVpnParameters;
use talpid_core::tunnel::TunnelEvent;
use talpid_core::tunnel::TunnelMetadata;
use talpid_core::tunnel::TunnelParameters;

fn peer() -> Endpoint {
    Endpoint::new(
        IpAddress::V4(Ipv4Address::new(185, 65, 132, 1)),
        443,
        TransportProtocol::Udp,
    )
}

fn machine() -> TunnelStateMachine {
    TunnelStateMachine::new(SharedTunnelStateValues {
        firewall: Firewall::new(FirewallArguments { initialize_blocked: false, allow_lan: None }),
        allow_lan: false,
        block_when_disconnected: false,
        is_offline: false,
        ipv6_enabled_in_os: true,
        tunnel_parameters: TunnelParameters::OpenVpn(OpenVpnParameters {
            endpoint: peer(),
            generic_options: GenericTunnelOptions { enable_ipv6: false },
        }),
    })
}

fn metadata() -> TunnelMetadata {
    TunnelMetadata {
        interface: "tun0".to_string(),
        ips: vec![IpAddress::V4(Ipv4Address::new(10, 64, 0, 2))],
        ipv4_gateway: Ipv4Address::new(10, 64, 0, 1),
        ipv6_gateway: None,
    }
}

#[test]
fn connect_then_up_reaches_connected_with_dns_rules() {
    let machine = machine();
    let (machine, outcome) = machine.handle_event(InputEvent::Command(TunnelCommand::Connect));
    assert_eq!(outcome.transition, Some(TunnelStateTransition::Connecting(0)));
    assert!(matches!(outcome.actions.as_slice(), [MonitorAction::Start(_)]));
    assert!(matches!(machine.state, TunnelStateWrapper::Connecting(_)));

    let (machine, outcome) =
        machine.handle_event(InputEvent::Tunnel(TunnelEvent::Up(metadata())));
    assert_eq!(outcome.transition, Some(TunnelStateTransition::Connected(metadata())));
    assert!(matches!(machine.state, TunnelStateWrapper::Connected(_)));

    // The installed table holds the connected policy: DNS to the gateway
    // over tun0, a drop-other-DNS rule after it, and a catch-all accept
    // on tun0.
    let table = machine.shared_values.firewall.installed_table().as_ref().unwrap();
    let out_rules = &table.out_chain.rules;
    let allow_dns = out_rules
        .iter()
        .position(|rule| {
            rule.exprs.iter().any(|e| matches!(e, RuleExpr::MatchPort { port: 53, .. }))
                && rule.exprs.last() == Some(&RuleExpr::Verdict { verdict: Verdict::Accept })
                && rule.exprs.iter().any(|e| matches!(
                    e,
                    RuleExpr::MatchAddr { ip: IpAddress::V4(a), .. }
                        if *a == Ipv4Address::new(10, 64, 0, 1)
                ))
        })
        .expect("connected table must allow DNS to the gateway");
    let block_dns = out_rules
        .iter()
        .position(|rule| {
            rule.exprs.iter().any(|e| matches!(e, RuleExpr::MatchPort { port: 53, .. }))
                && rule.exprs.last() == Some(&RuleExpr::Verdict { verdict: Verdict::Drop })
        })
        .expect("connected table must drop other DNS");
    assert!(allow_dns < block_dns);
    let catch_all = out_rules.last().unwrap();
    assert_eq!(
        catch_all.exprs[0],
        RuleExpr::MatchInterface {
            direction: talpid_core::rules::Direction::Out,
            name: "tun0".to_string()
        }
    );
}

#[test]
fn auth_failure_blocks_and_allow_lan_recomputes_firewall() {
    let machine = machine();
    let (machine, _) = machine.handle_event(InputEvent::Command(TunnelCommand::Connect));
    let (machine, outcome) = machine.handle_event(InputEvent::Tunnel(TunnelEvent::AuthFailed(
        Some("invalid credentials".to_string()),
    )));
    assert_eq!(
        outcome.transition,
        Some(TunnelStateTransition::Blocked(BlockReason::AuthFailed(Some(
            "invalid credentials".to_string()
        ))))
    );
    assert!(matches!(machine.state, TunnelStateWrapper::Blocked(_)));

    // An unrelated allow-LAN change keeps the state but recomputes the
    // blocking table, which now holds LAN accept rules.
    let (machine, outcome) =
        machine.handle_event(InputEvent::Command(TunnelCommand::AllowLan(true)));
    assert_eq!(outcome.transition, None);
    assert!(matches!(machine.state, TunnelStateWrapper::Blocked(_)));
    let table = machine.shared_values.firewall.installed_table().as_ref().unwrap();
    let has_lan_rule = table.out_chain.rules.iter().any(|rule| {
        rule.exprs.iter().any(|e| matches!(
            e,
            RuleExpr::MatchNet { net: talpid_core::net::IpNetwork::V4(n), .. }
                if n.addr == Ipv4Address::new(192, 168, 0, 0)
        ))
    });
    assert!(has_lan_rule);
}

#[test]
fn unsolicited_down_reconnects_with_connecting_policy() {
    let machine = machine();
    let (machine, _) = machine.handle_event(InputEvent::Command(TunnelCommand::Connect));
    let (machine, _) = machine.handle_event(InputEvent::Tunnel(TunnelEvent::Up(metadata())));
    let (machine, outcome) = machine.handle_event(InputEvent::Tunnel(TunnelEvent::Down));
    assert_eq!(outcome.transition, Some(TunnelStateTransition::Connecting(0)));
    assert!(matches!(outcome.actions.as_slice(), [MonitorAction::Start(_)]));
    assert!(matches!(machine.state, TunnelStateWrapper::Connecting(_)));

    // The firewall reverted to the connecting policy: the peer endpoint
    // stays reachable, no tunnel-interface rule remains.
    let table = machine.shared_values.firewall.installed_table().as_ref().unwrap();
    assert!(table.out_chain.rules.iter().any(|rule| {
        rule.exprs.iter().any(|e| matches!(e, RuleExpr::MatchPort { port: 443, .. }))
    }));
    assert!(!table.out_chain.rules.iter().any(|rule| {
        rule.exprs
            .iter()
            .any(|e| matches!(e, RuleExpr::MatchInterface { name, .. } if name == "tun0"))
    }));
}

#[test]
fn connect_while_offline_blocks_instead_of_starting_a_tunnel() {
    let machine = machine();
    let (machine, outcome) =
        machine.handle_event(InputEvent::Command(TunnelCommand::IsOffline(true)));
    assert_eq!(outcome.transition, None);
    assert!(matches!(machine.state, TunnelStateWrapper::Disconnected(_)));

    let (machine, outcome) = machine.handle_event(InputEvent::Command(TunnelCommand::Connect));
    assert_eq!(
        outcome.transition,
        Some(TunnelStateTransition::Blocked(BlockReason::IsOffline))
    );
    assert!(outcome.actions.is_empty());
    assert!(matches!(machine.state, TunnelStateWrapper::Blocked(_)));
}

#[test]
fn blocked_for_offline_reconnects_when_online_again() {
    let machine = machine();
    let (machine, _) = machine.handle_event(InputEvent::Command(TunnelCommand::IsOffline(true)));
    let (machine, _) = machine.handle_event(InputEvent::Command(TunnelCommand::Connect));
    let (machine, outcome) =
        machine.handle_event(InputEvent::Command(TunnelCommand::IsOffline(false)));
    assert_eq!(outcome.transition, Some(TunnelStateTransition::Connecting(0)));
    assert!(matches!(machine.state, TunnelStateWrapper::Connecting(_)));
}

#[test]
fn disconnect_waits_for_down_then_settles() {
    let machine = machine();
    let (machine, _) = machine.handle_event(InputEvent::Command(TunnelCommand::Connect));
    let (machine, _) = machine.handle_event(InputEvent::Tunnel(TunnelEvent::Up(metadata())));
    let (machine, outcome) =
        machine.handle_event(InputEvent::Command(TunnelCommand::Disconnect));
    assert!(matches!(
        outcome.transition,
        Some(TunnelStateTransition::Disconnecting(_))
    ));
    assert!(matches!(outcome.actions.as_slice(), [MonitorAction::Close]));
    let (machine, outcome) = machine.handle_event(InputEvent::Tunnel(TunnelEvent::Down));
    assert_eq!(outcome.transition, Some(TunnelStateTransition::Disconnected));
    assert!(matches!(machine.state, TunnelStateWrapper::Disconnected(_)));
    // With the kill switch off, settling disconnected resets the table.
    assert!(machine.shared_values.firewall.installed_table().is_none());
}

#[test]
fn retry_budget_exhaustion_blocks() {
    let mut machine = machine();
    let (next, _) = machine.handle_event(InputEvent::Command(TunnelCommand::Connect));
    machine = next;
    let mut last_transition = None;
    for _ in 0..5 {
        let (next, outcome) = machine.handle_event(InputEvent::Tunnel(TunnelEvent::Down));
        machine = next;
        last_transition = outcome.transition;
    }
    assert_eq!(
        last_transition,
        Some(TunnelStateTransition::Blocked(BlockReason::StartTunnelError))
    );
}

#[test]
fn identical_event_sequences_visit_identical_transitions() {
    let events = || {
        vec![
            InputEvent::Command(TunnelCommand::Connect),
            InputEvent::Tunnel(TunnelEvent::Up(metadata())),
            InputEvent::Command(TunnelCommand::AllowLan(true)),
            InputEvent::Tunnel(TunnelEvent::Down),
            InputEvent::Command(TunnelCommand::Block(BlockReason::UserRequested)),
            InputEvent::Command(TunnelCommand::Disconnect),
        ]
    };
    let (_, transitions_a) = machine().process_events(events());
    let (_, transitions_b) = machine().process_events(events());
    assert_eq!(transitions_a, transitions_b);
    assert!(!transitions_a.is_empty());
}

#[test]
fn block_command_wins_over_pending_connect() {
    let machine = machine();
    let (machine, _) = machine.handle_event(InputEvent::Command(TunnelCommand::Connect));
    let (machine, outcome) = machine.handle_event(InputEvent::Command(TunnelCommand::Block(
        BlockReason::UserRequested,
    )));
    assert_eq!(
        outcome.transition,
        Some(TunnelStateTransition::Blocked(BlockReason::UserRequested))
    );
    assert!(outcome.actions.contains(&MonitorAction::Close));
    assert!(matches!(machine.state, TunnelStateWrapper::Blocked(_)));
}

#[test]
fn kill_switch_keeps_blocking_while_disconnected() {
    let machine = machine();
    let (machine, outcome) = machine.handle_event(InputEvent::Command(
        TunnelCommand::BlockWhenDisconnected(true),
    ));
    assert_eq!(outcome.transition, None);
    assert!(matches!(machine.state, TunnelStateWrapper::Disconnected(_)));
    // The disconnected state now installs the blocking table instead of
    // resetting it.
    let table = machine.shared_values.firewall.installed_table().as_ref().unwrap();
    assert_eq!(table.out_chain.rules.len(), 5);
    let (machine, _) = machine.handle_event(InputEvent::Command(
        TunnelCommand::BlockWhenDisconnected(false),
    ));
    assert!(machine.shared_values.firewall.installed_table().is_none());
}
