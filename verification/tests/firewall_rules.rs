//! Tests of the firewall policy compiler and the table model.

use talpid_core::compiler::compile;
use talpid_core::compiler::PolicyBatch;
use talpid_core::firewall::Firewall;
use talpid_core::firewall::FirewallArguments;
use talpid_core::net::Endpoint;
use talpid_core::net::IpAddress;
use talpid_core::net::IpNetwork;
use talpid_core::net::Ipv4Address;
use talpid_core::net::TransportProtocol;
use talpid_core::policy::FirewallPolicy;
use talpid_core::rules::Direction;
use talpid_core::rules::Rule;
use talpid_core::rules::RuleExpr;
use talpid_core::rules::Verdict;
use talpid_core::tunnel::TunnelMetadata;

fn peer() -> Endpoint {
    Endpoint::new(
        IpAddress::V4(Ipv4Address::new(185, 65, 132, 1)),
        443,
        TransportProtocol::Udp,
    )
}

fn tunnel_metadata() -> TunnelMetadata {
    TunnelMetadata {
        interface: "tun0".to_string(),
        ips: vec![IpAddress::V4(Ipv4Address::new(10, 64, 0, 2))],
        ipv4_gateway: Ipv4Address::new(10, 64, 0, 1),
        ipv6_gateway: None,
    }
}

fn is_lan_net_match(rule: &Rule) -> bool {
    rule.exprs.iter().any(|e| match e {
        RuleExpr::MatchNet { net: IpNetwork::V4(n), .. } => {
            n.addr == Ipv4Address::new(10, 0, 0, 0)
                || n.addr == Ipv4Address::new(172, 16, 0, 0)
                || n.addr == Ipv4Address::new(192, 168, 0, 0)
                || n.addr == Ipv4Address::new(169, 254, 0, 0)
        }
        _ => false,
    })
}

#[test]
fn blocked_policy_compiles_to_baseline_only() {
    let batch = compile(&FirewallPolicy::Blocked { allow_lan: false });
    assert_eq!(batch.out_chain.default_policy, Verdict::Drop);
    assert_eq!(batch.in_chain.default_policy, Verdict::Drop);
    assert_eq!(batch.out_chain.hook, Direction::Out);
    assert_eq!(batch.in_chain.hook, Direction::In);
    // Loopback, DHCPv4, two DHCPv6 servers, router solicitation.
    assert_eq!(batch.out_chain.rules.len(), 5);
    // Loopback, DHCPv4, DHCPv6, router advertisement, redirect.
    assert_eq!(batch.in_chain.rules.len(), 5);
    // Every rule ends in a verdict.
    for rule in batch.out_chain.rules.iter().chain(batch.in_chain.rules.iter()) {
        assert!(matches!(rule.exprs.last(), Some(RuleExpr::Verdict { .. })));
    }
}

#[test]
fn loopback_rule_comes_first() {
    let batch = compile(&FirewallPolicy::Blocked { allow_lan: false });
    let first = &batch.out_chain.rules[0];
    assert_eq!(
        first.exprs[0],
        RuleExpr::MatchInterface { direction: Direction::Out, name: "lo".to_string() }
    );
    assert_eq!(first.exprs[1], RuleExpr::Verdict { verdict: Verdict::Accept });
}

#[test]
fn no_lan_rules_when_disallowed() {
    let batch = compile(&FirewallPolicy::Blocked { allow_lan: false });
    for rule in batch.out_chain.rules.iter().chain(batch.in_chain.rules.iter()) {
        assert!(!is_lan_net_match(rule));
    }
}

#[test]
fn lan_rules_present_when_allowed() {
    let batch = compile(&FirewallPolicy::Blocked { allow_lan: true });
    // Baseline plus five LAN nets and two multicast nets outbound.
    assert_eq!(batch.out_chain.rules.len(), 12);
    // Baseline plus five LAN nets inbound.
    assert_eq!(batch.in_chain.rules.len(), 10);
    assert!(batch.out_chain.rules.iter().any(is_lan_net_match));
    assert!(batch.in_chain.rules.iter().any(is_lan_net_match));
}

#[test]
fn connected_policy_allows_then_blocks_dns() {
    let batch = compile(&FirewallPolicy::Connected {
        peer_endpoint: peer(),
        tunnel: tunnel_metadata(),
        allow_lan: false,
    });
    let out_rules = &batch.out_chain.rules;
    // Baseline (5), endpoint, DNS allow + block for UDP and TCP, tunnel
    // interface accept.
    assert_eq!(out_rules.len(), 11);
    let allow_udp_dns = &out_rules[6];
    assert_eq!(
        allow_udp_dns.exprs[0],
        RuleExpr::MatchInterface { direction: Direction::Out, name: "tun0".to_string() }
    );
    assert!(allow_udp_dns.exprs.iter().any(|e| matches!(
        e,
        RuleExpr::MatchPort { port: 53, protocol: TransportProtocol::Udp, .. }
    )));
    assert!(allow_udp_dns.exprs.iter().any(|e| matches!(
        e,
        RuleExpr::MatchAddr { ip: IpAddress::V4(a), .. } if *a == Ipv4Address::new(10, 64, 0, 1)
    )));
    assert_eq!(
        allow_udp_dns.exprs.last(),
        Some(&RuleExpr::Verdict { verdict: Verdict::Accept })
    );
    // The drop-other-port-53 rule follows the allow rule.
    let block_udp_dns = &out_rules[7];
    assert!(block_udp_dns.exprs.iter().any(|e| matches!(
        e,
        RuleExpr::MatchPort { port: 53, protocol: TransportProtocol::Udp, .. }
    )));
    assert_eq!(
        block_udp_dns.exprs.last(),
        Some(&RuleExpr::Verdict { verdict: Verdict::Drop })
    );
    // The catch-all accept on the tunnel interface stands last.
    let catch_all = out_rules.last().unwrap();
    assert_eq!(
        catch_all.exprs[0],
        RuleExpr::MatchInterface { direction: Direction::Out, name: "tun0".to_string() }
    );
    assert_eq!(
        catch_all.exprs.last(),
        Some(&RuleExpr::Verdict { verdict: Verdict::Accept })
    );
}

#[test]
fn connecting_policy_has_no_tunnel_interface_rules() {
    let batch = compile(&FirewallPolicy::Connecting {
        peer_endpoint: peer(),
        pingable_hosts: vec![IpAddress::V4(Ipv4Address::new(10, 64, 0, 1))],
        allow_lan: false,
    });
    for rule in batch.out_chain.rules.iter().skip(1) {
        assert!(!rule
            .exprs
            .iter()
            .any(|e| matches!(e, RuleExpr::MatchInterface { name, .. } if name == "tun0")));
    }
    // The endpoint accept rule is present.
    assert!(batch.out_chain.rules.iter().any(|rule| rule.exprs.iter().any(
        |e| matches!(e, RuleExpr::MatchPort { port: 443, .. })
    )));
}

#[test]
fn batch_mirrors_compile() {
    let policy = FirewallPolicy::Blocked { allow_lan: true };
    let a = compile(&policy);
    let b = PolicyBatch::new().finalize(&policy);
    assert_eq!(a, b);
}

#[test]
fn table_replace_is_idempotent() {
    let mut once = Firewall::new(FirewallArguments { initialize_blocked: false, allow_lan: None });
    let mut twice = Firewall::new(FirewallArguments { initialize_blocked: false, allow_lan: None });
    let policy = FirewallPolicy::Connected {
        peer_endpoint: peer(),
        tunnel: tunnel_metadata(),
        allow_lan: true,
    };
    once.apply_policy(policy.clone());
    twice.apply_policy(policy.clone());
    twice.apply_policy(policy);
    assert_eq!(once.installed_table(), twice.installed_table());
}

#[test]
fn reset_clears_the_table() {
    let mut firewall =
        Firewall::new(FirewallArguments { initialize_blocked: true, allow_lan: Some(false) });
    assert!(firewall.has_policy());
    firewall.reset_policy();
    assert!(!firewall.has_policy());
    assert!(firewall.installed_table().is_none());
}

#[test]
fn policies_describe_themselves() {
    let blocked = FirewallPolicy::Blocked { allow_lan: true };
    assert_eq!(blocked.describe(), "Blocked, Allowing LAN");
    let connected = FirewallPolicy::Connected {
        peer_endpoint: peer(),
        tunnel: tunnel_metadata(),
        allow_lan: false,
    };
    assert_eq!(
        connected.describe(),
        "Connected to 185.65.132.1:443/UDP over tun0, Blocking LAN"
    );
    let connecting = FirewallPolicy::Connecting {
        peer_endpoint: Endpoint::new(
            IpAddress::V6(talpid_core::net::Ipv6Address::new(0x2001, 0xdb8, 0, 0, 0, 0, 0, 1)),
            443,
            TransportProtocol::Tcp,
        ),
        pingable_hosts: vec![],
        allow_lan: false,
    };
    assert_eq!(
        connecting.describe(),
        "Connecting to 2001:db8:0:0:0:0:0:1:443/TCP, Blocking LAN"
    );
}
