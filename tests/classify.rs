use netwatch::model::{calculate_risk, NetworkEndpoint, RiskLevel};

fn endpoint(state: &str, remote: &str, port: u16, owner: Option<u32>) -> NetworkEndpoint {
    NetworkEndpoint {
        protocol: "TCP".to_string(),
        local_address: "10.0.0.2".to_string(),
        local_port: 50000,
        remote_address: remote.to_string(),
        remote_port: port,
        state: state.to_string(),
        owning_process_id: owner,
    }
}

#[test]
fn high_risk_port_established_is_high() {
    let (risk, reasons) = calculate_risk(&endpoint("Established", "198.51.100.7", 3389, Some(42)));
    assert_eq!(risk, RiskLevel::High);
    assert_eq!(reasons, vec!["Connection to known high-risk port 3389".to_string()]);
}

#[test]
fn every_high_risk_port_is_high() {
    for port in [23u16, 445, 3389, 5900, 3306, 27017, 4444, 1337, 6667] {
        let (risk, reasons) = calculate_risk(&endpoint("Established", "198.51.100.7", port, Some(9)));
        assert_eq!(risk, RiskLevel::High);
        assert_eq!(reasons[0], format!("Connection to known high-risk port {}", port));
    }
}

#[test]
fn high_risk_port_needs_established_state() {
    let (risk, reasons) = calculate_risk(&endpoint("ESTABLISHED", "198.51.100.7", 3389, Some(42)));
    assert_eq!(risk, RiskLevel::Low);
    assert_eq!(reasons, vec!["Standard connection".to_string()]);
}

#[test]
fn admin_port_is_medium() {
    let (risk, reasons) = calculate_risk(&endpoint("Established", "198.51.100.7", 22, Some(42)));
    assert_eq!(risk, RiskLevel::Medium);
    assert_eq!(reasons, vec!["Connection to administrative port 22".to_string()]);
}

#[test]
fn loopback_demotes_one_step_and_says_so_last() {
    let (risk, reasons) = calculate_risk(&endpoint("Established", "127.0.0.1", 3306, Some(42)));
    assert_eq!(risk, RiskLevel::Medium);
    assert_eq!(
        reasons,
        vec![
            "Connection to known high-risk port 3306".to_string(),
            "Localhost connection reduces risk".to_string(),
        ]
    );
    let (risk, reasons) = calculate_risk(&endpoint("Established", "::1", 21, Some(42)));
    assert_eq!(risk, RiskLevel::Low);
    assert_eq!(
        reasons,
        vec![
            "Connection to administrative port 21".to_string(),
            "Localhost connection reduces risk".to_string(),
        ]
    );
}

#[test]
fn loopback_without_reasons_stays_silent() {
    let (risk, reasons) = calculate_risk(&endpoint("Established", "127.0.0.1", 8080, Some(42)));
    assert_eq!(risk, RiskLevel::Low);
    assert_eq!(reasons, vec!["Standard connection".to_string()]);
}

#[test]
fn reasons_follow_rule_order() {
    let (risk, reasons) = calculate_risk(&endpoint("Established", "198.51.100.7", 27017, None));
    assert_eq!(risk, RiskLevel::High);
    assert_eq!(
        reasons,
        vec![
            "Connection to known high-risk port 27017".to_string(),
            "Unable to identify owning process".to_string(),
            "Connection to non-standard high port".to_string(),
        ]
    );
}

#[test]
fn owner_zero_counts_as_unknown() {
    let (risk, reasons) = calculate_risk(&endpoint("LISTENING", "0.0.0.0", 0, Some(0)));
    assert_eq!(risk, RiskLevel::Medium);
    assert_eq!(reasons, vec!["Unable to identify owning process".to_string()]);
}

#[test]
fn unowned_endpoint_on_port_8080_is_medium() {
    let (risk, reasons) = calculate_risk(&endpoint("Established", "203.0.113.5", 8080, None));
    assert_eq!(risk, RiskLevel::Medium);
    assert_eq!(reasons, vec!["Unable to identify owning process".to_string()]);
}

#[test]
fn port_10000_is_not_a_high_port() {
    let (_, reasons) = calculate_risk(&endpoint("Established", "198.51.100.7", 10000, Some(3)));
    assert_eq!(reasons, vec!["Standard connection".to_string()]);
    let (risk, reasons) = calculate_risk(&endpoint("Established", "198.51.100.7", 10001, Some(3)));
    assert_eq!(risk, RiskLevel::Medium);
    assert_eq!(reasons, vec!["Connection to non-standard high port".to_string()]);
}

#[test]
fn classification_is_repeatable() {
    let e = endpoint("Established", "127.0.0.1", 445, None);
    let first = calculate_risk(&e);
    for _ in 0..5 {
        assert_eq!(calculate_risk(&e), first);
    }
}

#[test]
fn reasons_are_never_empty() {
    for (state, remote, port, owner) in [
        ("Established", "127.0.0.1", 80u16, Some(5u32)),
        ("", "", 0, Some(1)),
        ("TIME_WAIT", "::1", 65535, None),
    ] {
        let (_, reasons) = calculate_risk(&endpoint(state, remote, port, owner));
        assert!(!reasons.is_empty());
    }
}

#[test]
fn risk_names() {
    assert_eq!(RiskLevel::Low.as_str(), "low");
    assert_eq!(RiskLevel::Medium.as_str(), "medium");
    assert_eq!(RiskLevel::High.as_str(), "high");
}
