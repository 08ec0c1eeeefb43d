use std::collections::HashMap;
use netwatch::model::{Connection, RiskLevel};
use netwatch::snapshot::{resolve_owner, tcp_record, udp_record};
use netwatch::source::process_map;
use netwatch::windows::{
    PowerShellProcess, PowerShellTcpConnection, PowerShellUdpEndpoint, WindowsConnectionCollector,
};

fn tcp(owner: Option<u32>, remote: &str, port: u16, state: &str) -> PowerShellTcpConnection {
    PowerShellTcpConnection {
        owning_process: owner,
        local_address: "10.0.0.2".to_string(),
        local_port: 50123,
        remote_address: remote.to_string(),
        remote_port: port,
        state: state.to_string(),
    }
}

fn udp(owner: Option<u32>, port: u16) -> PowerShellUdpEndpoint {
    PowerShellUdpEndpoint {
        owning_process: owner,
        local_address: "0.0.0.0".to_string(),
        local_port: 5353,
        remote_address: "203.0.113.9".to_string(),
        remote_port: port,
    }
}

fn table() -> HashMap<u32, String> {
    let mut t = HashMap::new();
    t.insert(100, "chrome".to_string());
    t.insert(200, "sshd".to_string());
    t
}

#[test]
fn owner_names_resolve() {
    let t = table();
    assert_eq!(resolve_owner(Some(100), &t), "chrome");
    assert_eq!(resolve_owner(Some(7), &t), "unknown");
    assert_eq!(resolve_owner(None, &t), "system");
}

#[test]
fn udp_records_are_active_and_scored_as_established() {
    let c = WindowsConnectionCollector::new();
    let records = c.assemble_connections(&vec![], &vec![udp(Some(200), 3389), udp(None, 53)], &table(), 1_700_000_000_123);
    assert_eq!(records.len(), 2);
    for r in &records {
        assert_eq!(r.state, "Active");
        assert_eq!(r.protocol, "UDP");
    }
    assert_eq!(records[0].risk, RiskLevel::High);
    assert_eq!(records[0].risk_reasons, vec!["Connection to known high-risk port 3389".to_string()]);
    assert_eq!(records[0].process_name, "sshd");
    assert_eq!(records[1].process_name, "system");
    assert_eq!(records[1].pid, 0);
}

#[test]
fn tcp_records_carry_canonical_state() {
    let c = WindowsConnectionCollector::new();
    let records = c.assemble_connections(
        &vec![tcp(Some(100), "93.184.216.34", 443, "Established"), tcp(Some(9), "10.1.1.1", 3389, "Listen")],
        &vec![],
        &table(),
        5,
    );
    assert_eq!(records.len(), 2);
    assert_eq!(records[0].state, "ESTABLISHED");
    assert_eq!(records[0].process_name, "chrome");
    assert_eq!(records[0].pid, 100);
    assert_eq!(records[0].risk, RiskLevel::Low);
    assert_eq!(records[0].risk_reasons, vec!["Standard connection".to_string()]);
    assert_eq!(records[1].state, "LISTENING");
    assert_eq!(records[1].process_name, "unknown");
    assert_eq!(records[1].remote_port, 3389);
    assert_eq!(records[1].risk, RiskLevel::Low);
}

#[test]
fn snapshot_shares_timestamp_and_has_unique_ids() {
    let c = WindowsConnectionCollector::new();
    let records = c.assemble_connections(
        &vec![tcp(None, "203.0.113.5", 8080, "Established"), tcp(Some(100), "1.1.1.1", 80, "TIME_WAIT")],
        &vec![udp(Some(100), 0)],
        &table(),
        42,
    );
    assert_eq!(records.len(), 3);
    assert_eq!(records[0].protocol, "TCP");
    assert_eq!(records[2].protocol, "UDP");
    for r in &records {
        assert_eq!(r.captured_at, 42);
        assert_eq!(r.id.len(), 36);
    }
    assert_ne!(records[0].id, records[1].id);
    assert_ne!(records[1].id, records[2].id);
    assert_ne!(records[0].id, records[2].id);
    assert_eq!(records[0].process_name, "system");
    assert_eq!(records[0].risk, RiskLevel::Medium);
    assert_eq!(records[0].risk_reasons, vec!["Unable to identify owning process".to_string()]);
}

#[test]
fn single_records_are_exact() {
    let t = table();
    let r: Connection = tcp_record(&tcp(Some(200), "127.0.0.1", 22, "x"), "Established".to_string(), &t, "id-1".to_string(), 9);
    assert_eq!(r.id, "id-1");
    assert_eq!(r.state, "Established");
    assert_eq!(r.risk, RiskLevel::Low);
    assert_eq!(
        r.risk_reasons,
        vec!["Connection to administrative port 22".to_string(), "Localhost connection reduces risk".to_string()]
    );
    let u = udp_record(&udp(Some(5), 12345), &t, "id-2".to_string(), 9);
    assert_eq!(u.state, "Active");
    assert_eq!(u.process_name, "unknown");
    assert_eq!(u.risk, RiskLevel::Medium);
    assert_eq!(u.risk_reasons, vec!["Connection to non-standard high port".to_string()]);
}

#[test]
fn process_list_later_entries_win() {
    let procs = vec![
        PowerShellProcess { id: 1, name: "a".to_string() },
        PowerShellProcess { id: 2, name: "b".to_string() },
        PowerShellProcess { id: 1, name: "c".to_string() },
    ];
    let m = process_map(procs);
    assert_eq!(m.len(), 2);
    assert_eq!(m.get(&1).map(|s| s.as_str()), Some("c"));
    assert_eq!(m.get(&2).map(|s| s.as_str()), Some("b"));
}

#[test]
fn first_failing_source_decides_the_error() {
    let c = WindowsConnectionCollector::new();
    let r = c.get_connections(Err("tcp".to_string()), Err("udp".to_string()), Err("proc".to_string()), Err("time".to_string()));
    assert_eq!(r.unwrap_err(), "tcp");
    let r = c.get_connections(Ok(vec![]), Err("udp".to_string()), Err("proc".to_string()), Ok(1));
    assert_eq!(r.unwrap_err(), "udp");
    let r = c.get_connections(Ok(vec![]), Ok(vec![]), Err("proc".to_string()), Err("time".to_string()));
    assert_eq!(r.unwrap_err(), "proc");
    let r = c.get_connections(Ok(vec![]), Ok(vec![]), Ok(HashMap::new()), Err("Time error: x".to_string()));
    assert_eq!(r.unwrap_err(), "Time error: x");
}

#[test]
fn unowned_tcp_endpoint_end_to_end() {
    let c = WindowsConnectionCollector::new();
    let mut conn = tcp(None, "203.0.113.5", 8080, "Established");
    conn.local_address = "192.168.1.5".to_string();
    let records = c.get_connections(Ok(vec![conn]), Ok(vec![]), Ok(table()), Ok(77)).unwrap();
    assert_eq!(records.len(), 1);
    let r = &records[0];
    assert_eq!(r.process_name, "system");
    assert_eq!(r.pid, 0);
    assert_eq!(r.protocol, "TCP");
    assert_eq!(r.local_addr, "192.168.1.5");
    assert_eq!(r.risk, RiskLevel::Medium);
    assert_eq!(r.risk_reasons, vec!["Unable to identify owning process".to_string()]);
    assert_eq!(r.captured_at, 77);
}

#[test]
fn udp_records_from_get_connections_are_active() {
    let c = WindowsConnectionCollector::new();
    let records = c
        .get_connections(Ok(vec![tcp(Some(100), "1.1.1.1", 80, "Listen")]), Ok(vec![udp(Some(100), 445), udp(None, 0)]), Ok(table()), Ok(3))
        .unwrap();
    assert_eq!(records.len(), 3);
    assert_eq!(records[0].state, "LISTENING");
    for r in &records[1..] {
        assert_eq!(r.protocol, "UDP");
        assert_eq!(r.state, "Active");
    }
    assert_eq!(records[1].risk, RiskLevel::High);
}
