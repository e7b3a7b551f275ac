//! Tests of the problem-report redaction passes.

use talpid_core::report::ProblemReport;

fn assert_redacts_ipv4(input: &str) {
    let report = ProblemReport::new(vec![]);
    let actual = report.redact(&format!("pre {} post", input));
    assert_eq!("pre [REDACTED] post", actual);
}

fn assert_redacts_ipv6(input: &str) {
    let report = ProblemReport::new(vec![]);
    let actual = report.redact(&format!("pre {} post", input));
    assert_eq!("pre [REDACTED] post", actual);
}

fn assert_does_not_redact(input: &str) {
    let report = ProblemReport::new(vec![]);
    let res = report.redact(input);
    assert_eq!(input, res);
}

#[test]
fn redacts_ipv4() {
    assert_redacts_ipv4("1.2.3.4");
    assert_redacts_ipv4("10.127.0.1");
    assert_redacts_ipv4("192.168.1.1");
    assert_redacts_ipv4("10.0.16.1");
    assert_redacts_ipv4("173.54.12.32");
    assert_redacts_ipv4("68.4.4.1");
}

#[test]
fn does_not_redact_localhost_ipv4() {
    assert_does_not_redact("127.0.0.1");
}

#[test]
fn redacts_ipv6() {
    assert_redacts_ipv6("2001:0db8:85a3:0000:0000:8a2e:0370:7334");
    assert_redacts_ipv6("2001:db8:85a3:0:0:8a2e:370:7334");
    assert_redacts_ipv6("2001:db8:85a3::8a2e:370:7334");
    assert_redacts_ipv6("2001:db8:0:0:0:0:2:1");
    assert_redacts_ipv6("2001:db8::2:1");
    assert_redacts_ipv6("2001:db8:0000:1:1:1:1:1");
    assert_redacts_ipv6("2001:db8:0:1:1:1:1:1");
    assert_redacts_ipv6("2001:db8:0:0:1:0:0:1");
    assert_redacts_ipv6("2001:db8::1:0:0:1");
    assert_redacts_ipv6("abcd:dead:beef::");
    assert_redacts_ipv6("abcd:dead:beef:1234::");
    assert_redacts_ipv6("::dead:beef:1234");
    assert_redacts_ipv6("0::0");
    assert_redacts_ipv6("0:0:0:0::1");
}

#[test]
fn doesnt_redact_not_ipv6() {
    assert_does_not_redact("[talpid_core::firewall]");
}

#[test]
fn test_does_not_redact_time() {
    assert_does_not_redact("09:47:59");
}

#[test]
fn redacts_account_number() {
    let report = ProblemReport::new(vec![]);
    let actual = report.redact("account 1234567890123456 expired");
    assert_eq!("account [REDACTED ACCOUNT NUMBER] expired", actual);
}

#[test]
fn does_not_redact_short_digit_runs() {
    assert_does_not_redact("123456789012345");
}

#[test]
fn redacts_mac_address() {
    let report = ProblemReport::new(vec![]);
    let actual = report.redact("dev at 00:1b:44:11:3a:b7 up");
    assert_eq!("dev at [REDACTED] up", actual);
}

#[test]
fn redacts_custom_strings() {
    let report = ProblemReport::new(vec!["secret".to_string(), String::new()]);
    let actual = report.redact("a secret plan");
    assert_eq!("a [REDACTED] plan", actual);
}

#[test]
fn redacts_home_dir() {
    let mut report = ProblemReport::new(vec![]);
    report.set_home_dir("/home/someone".to_string());
    let actual = report.redact("log at /home/someone/logs/daemon.log");
    assert_eq!("log at ~/logs/daemon.log", actual);
}

#[test]
fn redacts_ipv4_mapped_ipv6() {
    assert_redacts_ipv6("::ffff:192.0.2.128");
}

#[test]
fn keeps_ordinary_log_text() {
    assert_does_not_redact("[daemon] tunnel monitor exited with status 0");
}
