//! Tests of the settings logic, the report assembly, and the
//! connectivity monitor's decisions.

use talpid_core::offline::StateChange;
use talpid_core::offline::SystemState;
use talpid_core::report::collect_report;
use talpid_core::report::is_tunnel_log;
use talpid_core::report::ProblemReport;
use talpid_core::settings::BridgeState;
use talpid_core::settings::Constraint;
use talpid_core::settings::LocationConstraint;
use talpid_core::settings::RelaySettings;
use talpid_core::settings::RelaySettingsUpdate;
use talpid_core::settings::Settings;
use talpid_core::state_machine::TunnelCommand;
use talpid_core::sys::is_linux;
use talpid_core::sys::is_win;
use talpid_core::tinc::ProxyInfo;
use talpid_core::tinc::TincInfo;

#[test]
fn default_settings_are_fail_closed_and_unconfigured() {
    let settings = Settings::default();
    assert_eq!(settings.get_account_token(), None);
    assert!(!settings.get_allow_lan());
    assert!(!settings.get_block_when_disconnected());
    assert!(!settings.get_auto_connect());
    assert_eq!(settings.get_tunnel_options().openvpn.mssfix, None);
    assert_eq!(settings.get_tunnel_options().wireguard.mtu, None);
    assert!(!settings.get_tunnel_options().generic.enable_ipv6);
    assert_eq!(*settings.get_bridge_state(), BridgeState::Auto);
}

#[test]
fn empty_account_token_means_unset() {
    let mut settings = Settings::default();
    assert!(settings.set_account_token(Some("1234".to_string())));
    assert_eq!(settings.get_account_token(), Some("1234".to_string()));
    // Setting the same token again changes nothing.
    assert!(!settings.set_account_token(Some("1234".to_string())));
    // An empty token unsets the stored one.
    assert!(settings.set_account_token(Some(String::new())));
    assert_eq!(settings.get_account_token(), None);
    // Unsetting an unset token changes nothing.
    assert!(!settings.set_account_token(None));
}

#[test]
fn flag_setters_report_changes() {
    let mut settings = Settings::default();
    assert!(settings.set_allow_lan(true));
    assert!(!settings.set_allow_lan(true));
    assert!(settings.set_block_when_disconnected(true));
    assert!(!settings.set_block_when_disconnected(true));
    assert!(settings.set_auto_connect(true));
    assert!(settings.set_enable_ipv6(true));
    assert!(!settings.set_enable_ipv6(true));
    assert!(settings.set_openvpn_mssfix(Some(1300)));
    assert!(!settings.set_openvpn_mssfix(Some(1300)));
    assert!(settings.set_wireguard_mtu(Some(1380)));
    assert!(settings.set_bridge_state(BridgeState::On));
    assert!(!settings.set_bridge_state(BridgeState::On));
}

#[test]
fn relay_settings_update_merges_location() {
    let mut settings = Settings::default();
    let update = RelaySettingsUpdate {
        location: Some(Constraint::Only(LocationConstraint::Country("no".to_string()))),
    };
    assert!(settings.update_relay_settings(update));
    let RelaySettings::Normal(constraints) = settings.get_relay_settings();
    assert_eq!(
        constraints.location,
        Constraint::Only(LocationConstraint::Country("no".to_string()))
    );
    // An empty update changes nothing.
    assert!(!settings.update_relay_settings(RelaySettingsUpdate { location: None }));
}

#[test]
fn duplicate_log_paths_are_collected_once() {
    let mut report = ProblemReport::new(vec![]);
    report.add_log("/var/log/daemon.log".to_string(), "first");
    report.add_log("/var/log/daemon.log".to_string(), "second");
    assert_eq!(report.logs.len(), 1);
    assert_eq!(report.logs[0].1, "first");
}

#[test]
fn collect_report_lists_tunnel_logs_first() {
    let report = collect_report(
        vec![
            ("/log/daemon.log".to_string(), "daemon content".to_string()),
            ("/log/openvpn.log".to_string(), "tunnel content".to_string()),
        ],
        vec![("/tmp/extra.log".to_string(), "extra content".to_string())],
        vec![],
    );
    assert_eq!(report.logs.len(), 3);
    assert_eq!(report.logs[0].0, "/log/openvpn.log");
    assert_eq!(report.logs[1].0, "/log/daemon.log");
    assert_eq!(report.logs[2].0, "/tmp/extra.log");
}

#[test]
fn report_renders_logs_under_delimited_labels() {
    let mut report = ProblemReport::new(vec![]);
    report.add_metadata("os".to_string(), "linux".to_string());
    report.add_log("/log/a.log".to_string(), "hello");
    let rendered = report.render();
    assert_eq!(
        rendered,
        "System information:\nos: linux\n\n====================\nLog: /log/a.log\n====================\nhello\n"
    );
}

#[test]
fn report_redacts_log_contents_and_paths() {
    let mut report = ProblemReport::new(vec![]);
    report.add_log("/log/10.1.2.3/daemon.log".to_string(), "peer 192.168.1.1 down");
    assert_eq!(report.logs[0].0, "/log/[REDACTED]/daemon.log");
    assert_eq!(report.logs[0].1, "peer [REDACTED] down");
}

#[test]
fn tunnel_logs_are_recognized_by_name() {
    assert!(is_tunnel_log("/var/log/openvpn.log"));
    assert!(!is_tunnel_log("/var/log/daemon.log"));
}

#[test]
fn offline_flag_flips_only_on_real_changes() {
    let mut state = SystemState { network_connectivity: true, suspended: false };
    assert!(!state.is_offline_currently());
    assert_eq!(
        state.apply_change(StateChange::NetworkConnectivity(false)),
        Some(TunnelCommand::IsOffline(true))
    );
    // Suspending while already offline emits nothing.
    assert_eq!(state.apply_change(StateChange::Suspended(true)), None);
    // Connectivity back, but still suspended: still offline.
    assert_eq!(state.apply_change(StateChange::NetworkConnectivity(true)), None);
    assert_eq!(
        state.apply_change(StateChange::Suspended(false)),
        Some(TunnelCommand::IsOffline(false))
    );
}

#[test]
fn proxy_info_starts_empty_and_loads_host_facts() {
    let mut info = ProxyInfo::new();
    assert_eq!(info.proxy_ip, "0.0.0.0");
    assert!(!info.isregister);
    assert!(info.load_local(Some("203.0.113.9".to_string())));
    assert_eq!(info.proxy_ip, "203.0.113.9");
    assert_eq!(info.auth_type, "0");
    assert_eq!(info.server_type, "vppn1");
    assert_eq!(info.os, "ubuntu");
    let mut offline_info = ProxyInfo::new();
    assert!(!offline_info.load_local(None));
    assert_eq!(offline_info.proxy_ip, "0.0.0.0");
}

#[test]
fn proxy_uid_is_a_fresh_identifier() {
    let mut info = ProxyInfo::new();
    assert!(info.create_uid());
    assert_eq!(info.uid.len(), 36);
    let first = info.uid.clone();
    assert!(info.create_uid());
    assert_ne!(first, info.uid);
}

#[test]
fn tinc_info_starts_unspecified() {
    let info = TincInfo::new();
    assert_eq!(
        info.vip,
        talpid_core::net::IpAddress::V4(talpid_core::net::Ipv4Address::new(0, 0, 0, 0))
    );
    assert_eq!(info.pub_key, "");
}

#[test]
fn platform_probes_match_the_build() {
    assert!(is_linux());
    assert!(!is_win());
}

#[test]
fn add_logs_attaches_each_entry_in_order() {
    let mut report = ProblemReport::new(vec![]);
    report.add_logs(vec![
        ("/log/a.log".to_string(), "a".to_string()),
        ("/log/b.log".to_string(), "b".to_string()),
        ("/log/a.log".to_string(), "again".to_string()),
    ]);
    assert_eq!(report.logs.len(), 2);
    assert_eq!(report.logs[0].0, "/log/a.log");
    assert_eq!(report.logs[0].1, "a");
    assert_eq!(report.logs[1].0, "/log/b.log");
}
