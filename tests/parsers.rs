use netwatch::text::{chars_of, rows_of, split_chars, trim_chars, words_of};
use netwatch::windows::WindowsConnectionCollector;

#[test]
fn tasklist_row_resolves_name_without_suffix() {
    let c = WindowsConnectionCollector::new();
    let out = "\"Image Name\",\"PID\",\"Session Name\",\"Session#\",\"Mem Usage\"\r\n\"notepad.exe\",\"1234\",\"Console\",\"1\",\"5,000 K\"\r\n";
    let table = c.parse_tasklist_output(out.to_string()).unwrap();
    assert_eq!(table.len(), 1);
    assert_eq!(table.get(&1234).map(|s| s.as_str()), Some("notepad"));
}

#[test]
fn tasklist_skips_bad_rows_and_keeps_last_duplicate() {
    let c = WindowsConnectionCollector::new();
    let out = "\"Image Name\",\"PID\"\n\"a.exe\",\"7\"\n\n\"b.exe\",\"x7\"\n\"c.exe.exe\",\"7\"\n\"lone\"\n\"svc\",\"+8\"\n";
    let table = c.parse_tasklist_output(out.to_string()).unwrap();
    assert_eq!(table.len(), 2);
    assert_eq!(table.get(&7).map(|s| s.as_str()), Some("c"));
    assert_eq!(table.get(&8).map(|s| s.as_str()), Some("svc"));
}

#[test]
fn tasklist_header_alone_gives_empty_table() {
    let c = WindowsConnectionCollector::new();
    assert!(c.parse_tasklist_output("\"1.exe\",\"1\"".to_string()).unwrap().is_empty());
    assert!(c.parse_tasklist_output(String::new()).unwrap().is_empty());
}

#[test]
fn netstat_tcp_row_is_parsed() {
    let c = WindowsConnectionCollector::new();
    let out = "\r\nActive Connections\r\n\r\n  Proto  Local Address          Foreign Address        State           PID\r\n  TCP    192.168.1.5:52344   93.184.216.34:443   ESTABLISHED   4567\r\n";
    let rows = c.parse_netstat_output(out.to_string()).unwrap();
    assert_eq!(rows.len(), 1);
    let r = &rows[0];
    assert_eq!(r.local_address, "192.168.1.5");
    assert_eq!(r.local_port, 52344);
    assert_eq!(r.remote_address, "93.184.216.34");
    assert_eq!(r.remote_port, 443);
    assert_eq!(r.state, "ESTABLISHED");
    assert_eq!(r.owning_process, Some(4567));
}

#[test]
fn netstat_tcp_handles_ipv6_short_rows_and_bad_ports() {
    let c = WindowsConnectionCollector::new();
    let out = "tcp [::1]:8080 [fe80::1%4]:x LISTENING 12\nTCP 1.2.3.4:99999 5.6.7.8 SYN_SENT\nUDP 0.0.0.0:53 *:* 9\nTCP a b\n";
    let rows = c.parse_netstat_output(out.to_string()).unwrap();
    assert_eq!(rows.len(), 2);
    assert_eq!(rows[0].local_address, "[::1]");
    assert_eq!(rows[0].local_port, 8080);
    assert_eq!(rows[0].remote_address, "[fe80::1%4]");
    assert_eq!(rows[0].remote_port, 0);
    assert_eq!(rows[0].state, "LISTENING");
    assert_eq!(rows[0].owning_process, Some(12));
    assert_eq!(rows[1].local_port, 0);
    assert_eq!(rows[1].remote_address, "5.6.7.8");
    assert_eq!(rows[1].remote_port, 0);
    assert_eq!(rows[1].state, "UNKNOWN");
    assert_eq!(rows[1].owning_process, Some(0));
}

#[test]
fn netstat_udp_rows_are_parsed() {
    let c = WindowsConnectionCollector::new();
    let out = "  Proto  Local Address  Foreign Address  State  PID\n  UDP    0.0.0.0:500    *:*    1234  extra\n  UDP    [::]:5353  *:*  88\n  TCP  1.1.1.1:1 2.2.2.2:2 ESTABLISHED 3\n";
    let rows = c.parse_udp_netstat_output(out.to_string()).unwrap();
    assert_eq!(rows.len(), 2);
    assert_eq!(rows[0].local_address, "0.0.0.0");
    assert_eq!(rows[0].local_port, 500);
    assert_eq!(rows[0].remote_address, "*");
    assert_eq!(rows[0].remote_port, 0);
    assert_eq!(rows[0].owning_process, Some(0));
    assert_eq!(rows[1].local_address, "[::]");
    assert_eq!(rows[1].local_port, 5353);
    assert_eq!(rows[1].owning_process, Some(0));
}

#[test]
fn netstat_udp_pid_is_last_of_five_columns() {
    let c = WindowsConnectionCollector::new();
    let rows = c.parse_udp_netstat_output("udp 10.0.0.1:137 *:* x 4\n".to_string()).unwrap();
    assert_eq!(rows.len(), 1);
    assert_eq!(rows[0].owning_process, Some(4));
}

#[test]
fn tcp_states_are_canonical() {
    let c = WindowsConnectionCollector::new();
    let cases = [
        ("Established", "ESTABLISHED"),
        ("Listen", "LISTENING"),
        ("TIME_WAIT", "TIME_WAIT"),
        ("close_wait", "CLOSE_WAIT"),
        ("SynSent", "SYNSENT"),
        ("syn_sent", "SYN_SENT"),
        ("Syn_Received", "SYN_RECEIVED"),
        ("fin_wait1", "FIN_WAIT1"),
        ("FIN_WAIT2", "FIN_WAIT2"),
        ("Closing", "CLOSING"),
        ("last_ack", "LAST_ACK"),
        ("Bound", "BOUND"),
        ("", ""),
    ];
    for (input, expected) in cases {
        assert_eq!(c.map_tcp_state(input), expected);
    }
}

#[test]
fn canonical_state_from_folded_forms() {
    assert_eq!(netwatch::windows::canonical_tcp_state("listen", "LISTEN".to_string()), "LISTENING");
    assert_eq!(netwatch::windows::canonical_tcp_state("bound", "BOUND".to_string()), "BOUND");
}

fn words(s: &str) -> Vec<Vec<char>> {
    words_of(&chars_of(s))
}

#[test]
fn tcp_connection_from_words_reads_columns() {
    let c = netwatch::windows::tcp_connection_from_words(&words("TCP 10.0.0.1:80 1.2.3.4:5 CLOSE_WAIT 77")).unwrap();
    assert_eq!(c.local_address, "10.0.0.1");
    assert_eq!(c.local_port, 80);
    assert_eq!(c.remote_address, "1.2.3.4");
    assert_eq!(c.remote_port, 5);
    assert_eq!(c.state, "CLOSE_WAIT");
    assert_eq!(c.owning_process, Some(77));
    assert!(netwatch::windows::tcp_connection_from_words(&words("TCP a b")).is_none());
}

#[test]
fn udp_endpoint_from_words_reads_columns() {
    let u = netwatch::windows::udp_endpoint_from_words(&words("UDP 127.0.0.1:1900 *:* 5 6")).unwrap();
    assert_eq!(u.local_address, "127.0.0.1");
    assert_eq!(u.local_port, 1900);
    assert_eq!(u.remote_address, "*");
    assert_eq!(u.owning_process, Some(6));
    assert!(netwatch::windows::udp_endpoint_from_words(&words("")).is_none());
}

#[test]
fn text_splitting_helpers() {
    let rows = rows_of(&chars_of("a\r\n\nb\n"));
    assert_eq!(rows, vec![vec!['a', '\r'], vec![], vec!['b']]);
    assert!(rows_of(&chars_of("")).is_empty());
    assert_eq!(words("  x\t y\u{3000}z  "), vec![vec!['x'], vec!['y'], vec!['z']]);
    assert_eq!(split_chars(&chars_of(",a,"), ','), vec![vec![], vec!['a'], vec![]]);
    assert_eq!(trim_chars(&chars_of("\"\"q\"\""), true), vec!['q']);
    assert_eq!(trim_chars(&chars_of(" \r\n "), false), Vec::<char>::new());
}

#[test]
fn rows_with_given_first_word() {
    let row = chars_of("  TCP    192.168.1.5:52344   93.184.216.34:443   ESTABLISHED   4567\r");
    let c = netwatch::windows::tcp_connection_from_row(&row, "TCP").unwrap();
    assert_eq!(c.local_port, 52344);
    assert_eq!(c.remote_port, 443);
    assert_eq!(c.state, "ESTABLISHED");
    assert_eq!(c.owning_process, Some(4567));
    assert!(netwatch::windows::tcp_connection_from_row(&row, "UDP").is_none());
    assert!(netwatch::windows::tcp_connection_from_row(&chars_of("Proto Local Foreign State PID"), "PROTO").is_none());
    let u = netwatch::windows::udp_endpoint_from_row(&chars_of("udp 0.0.0.0:500 *:* 1234"), "UDP").unwrap();
    assert_eq!(u.local_port, 500);
    assert_eq!(u.owning_process, Some(0));
    assert!(netwatch::windows::udp_endpoint_from_row(&chars_of(""), "UDP").is_none());
}
