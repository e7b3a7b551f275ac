//! Tests of the tunnel monitor abstraction and the close handle.

use talpid_core::net::Endpoint;
use talpid_core::net::IpAddress;
use talpid_core::net::Ipv4Address;
use talpid_core::net::Ipv6Address;
use talpid_core::net::TransportProtocol;
use talpid_core::parse::parse_ip;
use talpid_core::parse::parse_ipv4;
use talpid_core::parse::parse_ipv6;
use talpid_core::tunnel::Error;
use talpid_core::tunnel::GenericTunnelOptions;
use talpid_core::tunnel::OpenVpnParameters;
use talpid_core::tunnel::OpenVpnPluginEvent;
use talpid_core::tunnel::ProcessExit;
use talpid_core::tunnel::TincPluginEvent;
use talpid_core::tunnel::TunnelEvent;
use talpid_core::tunnel::TunnelMonitor;
use talpid_core::tunnel::TunnelParameters;

fn params(enable_ipv6: bool) -> TunnelParameters {
    TunnelParameters::OpenVpn(OpenVpnParameters {
        endpoint: Endpoint::new(
            IpAddress::V4(Ipv4Address::new(185, 65, 132, 1)),
            1300,
            TransportProtocol::Udp,
        ),
        generic_options: GenericTunnelOptions { enable_ipv6 },
    })
}

#[test]
fn close_handle_sends_exactly_one_kill_signal() {
    let monitor = TunnelMonitor::start(&params(false), true).unwrap();
    let mut handle = monitor.close_handle();
    let first = handle.close();
    let second = handle.close();
    let third = handle.close();
    assert!(first);
    assert!(!second);
    assert!(!third);
}

#[test]
fn ipv6_request_fails_on_machine_without_ipv6() {
    let result = TunnelMonitor::start(&params(true), false);
    assert_eq!(result.unwrap_err(), Error::EnableIpv6Error);
    assert!(TunnelMonitor::start(&params(true), true).is_ok());
    assert!(TunnelMonitor::start(&params(false), false).is_ok());
}

#[test]
fn unrequested_failure_exit_is_an_error() {
    let monitor = TunnelMonitor::start(&params(false), true).unwrap();
    assert_eq!(monitor.wait(ProcessExit::Failed), Err(Error::ChildProcessDied));

    let mut closing = TunnelMonitor::start(&params(false), true).unwrap();
    closing.register_close_request();
    assert_eq!(closing.wait(ProcessExit::Failed), Ok(()));

    let clean = TunnelMonitor::start(&params(false), true).unwrap();
    assert_eq!(clean.wait(ProcessExit::Clean), Ok(()));
}

fn up_env() -> Vec<(String, String)> {
    vec![
        ("dev".to_string(), "tun0".to_string()),
        ("ifconfig_local".to_string(), "10.64.0.2".to_string()),
        ("route_vpn_gateway".to_string(), "10.64.0.1".to_string()),
    ]
}

#[test]
fn openvpn_route_up_becomes_tunnel_up() {
    let event = TunnelEvent::from_openvpn_event(OpenVpnPluginEvent::RouteUp, &up_env()).unwrap();
    match event {
        TunnelEvent::Up(metadata) => {
            assert_eq!(metadata.interface, "tun0");
            assert_eq!(metadata.ips, vec![IpAddress::V4(Ipv4Address::new(10, 64, 0, 2))]);
            assert_eq!(metadata.ipv4_gateway, Ipv4Address::new(10, 64, 0, 1));
            assert_eq!(metadata.ipv6_gateway, None);
        }
        other => panic!("expected a tunnel-up event, got {:?}", other),
    }
}

#[test]
fn openvpn_auth_failed_keeps_the_reason() {
    let env = vec![("auth_failed_reason".to_string(), "bad password".to_string())];
    let event = TunnelEvent::from_openvpn_event(OpenVpnPluginEvent::AuthFailed, &env).unwrap();
    assert_eq!(event, TunnelEvent::AuthFailed(Some("bad password".to_string())));
    let event = TunnelEvent::from_openvpn_event(OpenVpnPluginEvent::AuthFailed, &vec![]).unwrap();
    assert_eq!(event, TunnelEvent::AuthFailed(None));
}

#[test]
fn openvpn_predown_becomes_down_and_others_are_ignored() {
    let event = TunnelEvent::from_openvpn_event(OpenVpnPluginEvent::RoutePredown, &vec![]);
    assert_eq!(event, Some(TunnelEvent::Down));
    assert_eq!(TunnelEvent::from_openvpn_event(OpenVpnPluginEvent::Other, &vec![]), None);
    assert_eq!(
        TunnelEvent::from_openvpn_event(OpenVpnPluginEvent::RouteUp, &vec![]),
        None
    );
}

#[test]
fn tinc_events_translate_like_openvpn_events() {
    let event = TunnelEvent::from_tinc_event(TincPluginEvent::Up, &up_env()).unwrap();
    assert!(matches!(event, TunnelEvent::Up(_)));
    assert_eq!(TunnelEvent::from_tinc_event(TincPluginEvent::Down, &vec![]), Some(TunnelEvent::Down));
    assert_eq!(TunnelEvent::from_tinc_event(TincPluginEvent::Other, &vec![]), None);
}

#[test]
fn parses_ipv4_text() {
    assert_eq!(parse_ipv4("10.64.0.1"), Some(Ipv4Address::new(10, 64, 0, 1)));
    assert_eq!(parse_ipv4("255.255.255.255"), Some(Ipv4Address::broadcast()));
    assert_eq!(parse_ipv4("256.0.0.1"), None);
    assert_eq!(parse_ipv4("1.2.3"), None);
    assert_eq!(parse_ipv4("1.2.3.4.5"), None);
    assert_eq!(parse_ipv4(""), None);
}

#[test]
fn parses_ipv6_text() {
    assert_eq!(
        parse_ipv6("2001:db8::2:1"),
        Some(Ipv6Address::new(0x2001, 0xdb8, 0, 0, 0, 0, 2, 1))
    );
    assert_eq!(parse_ipv6("::1"), Some(Ipv6Address::new(0, 0, 0, 0, 0, 0, 0, 1)));
    assert_eq!(
        parse_ipv6("fe80::1234"),
        Some(Ipv6Address::new(0xfe80, 0, 0, 0, 0, 0, 0, 0x1234))
    );
    assert_eq!(
        parse_ipv6("1:2:3:4:5:6:7:8"),
        Some(Ipv6Address::new(1, 2, 3, 4, 5, 6, 7, 8))
    );
    assert_eq!(parse_ipv6("1:2:3"), None);
    assert_eq!(parse_ipv6("g::1"), None);
}

#[test]
fn parses_either_family() {
    assert_eq!(
        parse_ip("10.0.0.1"),
        Some(IpAddress::V4(Ipv4Address::new(10, 0, 0, 1)))
    );
    assert_eq!(
        parse_ip("::1"),
        Some(IpAddress::V6(Ipv6Address::new(0, 0, 0, 0, 0, 0, 0, 1)))
    );
    assert_eq!(parse_ip("not an address"), None);
}

#[test]
fn tinc_tunnel_up_metadata_uses_the_virtual_ip() {
    let metadata =
        talpid_core::tunnel::TincMonitor::tunnel_up_metadata(Ipv4Address::new(10, 253, 1, 2));
    assert_eq!(metadata.interface, "tun0");
    assert_eq!(metadata.ips, vec![IpAddress::V4(Ipv4Address::new(10, 253, 1, 2))]);
    assert_eq!(metadata.ipv4_gateway, Ipv4Address::new(10, 253, 1, 2));
    assert_eq!(metadata.ipv6_gateway, None);
}

#[test]
fn ping_arguments_name_the_peer_and_interface() {
    let args = talpid_core::tunnel::ping_arguments(
        &IpAddress::V4(Ipv4Address::new(10, 64, 0, 1)),
        7,
        "tun0",
        true,
    );
    assert_eq!(
        args,
        vec!["-n", "-i", "1", "-w", "7", "-I", "tun0", "-c", "1", "10.64.0.1"]
    );
    let args = talpid_core::tunnel::ping_arguments(
        &IpAddress::V4(Ipv4Address::new(10, 64, 0, 1)),
        30,
        "dnet",
        false,
    );
    assert_eq!(args, vec!["-n", "-i", "1", "-w", "30", "-I", "dnet", "10.64.0.1"]);
}
