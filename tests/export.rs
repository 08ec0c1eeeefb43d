use netwatch::export::{csv_document, csv_line, escape_csv_field, export_file_name, export_kind, ExportKind};
use netwatch::model::{Connection, RiskLevel};

fn conn(name: &str) -> Connection {
    Connection {
        id: "x".to_string(),
        process_name: name.to_string(),
        pid: 4321,
        protocol: "TCP".to_string(),
        local_addr: "10.0.0.2".to_string(),
        local_port: 50000,
        remote_addr: "93.184.216.34".to_string(),
        remote_port: 443,
        state: "ESTABLISHED".to_string(),
        risk: RiskLevel::Medium,
        risk_reasons: vec!["r".to_string()],
        captured_at: 1700000000123,
    }
}

#[test]
fn csv_field_with_comma_is_quoted() {
    assert_eq!(escape_csv_field("svc, helper"), "\"svc, helper\"");
    assert_eq!(escape_csv_field("say \"hi\", ok"), "\"say \"\"hi\"\", ok\"");
    assert_eq!(escape_csv_field("a\nb"), "\"a\nb\"");
    assert_eq!(escape_csv_field("\""), "\"\"\"\"");
    assert_eq!(escape_csv_field("plain"), "plain");
    assert_eq!(escape_csv_field(""), "");
}

#[test]
fn csv_row_quotes_process_name() {
    assert_eq!(
        csv_line(&conn("svc, \"helper\"")),
        "\"svc, \"\"helper\"\"\",4321,TCP,10.0.0.2,50000,93.184.216.34,443,ESTABLISHED,medium,1700000000123\n"
    );
}

#[test]
fn csv_document_has_header_and_rows() {
    let doc = csv_document(&vec![conn("a"), conn("b")]);
    assert_eq!(
        doc,
        "Process,PID,Protocol,Local Address,Local Port,Remote Address,Remote Port,State,Risk,Captured At\n\
a,4321,TCP,10.0.0.2,50000,93.184.216.34,443,ESTABLISHED,medium,1700000000123\n\
b,4321,TCP,10.0.0.2,50000,93.184.216.34,443,ESTABLISHED,medium,1700000000123\n"
    );
    assert_eq!(
        csv_document(&vec![]),
        "Process,PID,Protocol,Local Address,Local Port,Remote Address,Remote Port,State,Risk,Captured At\n"
    );
}

#[test]
fn export_formats_are_case_insensitive() {
    assert_eq!(export_kind("JSON"), Ok(ExportKind::Json));
    assert_eq!(export_kind("csv"), Ok(ExportKind::Csv));
    assert_eq!(export_kind("Xml"), Err("Unsupported export format: Xml".to_string()));
}

#[test]
fn export_file_name_uses_lower_case_extension() {
    assert_eq!(export_file_name(1700000000, "CSV"), "netwatch_connections_1700000000.csv");
    assert_eq!(export_file_name(0, "json"), "netwatch_connections_0.json");
}

#[test]
fn csv_row_quotes_every_text_field() {
    let mut c = conn("svc");
    c.state = "A,B".to_string();
    c.protocol = "T\"CP".to_string();
    c.local_addr = "fe80::1,x".to_string();
    assert_eq!(
        csv_line(&c),
        "svc,4321,\"T\"\"CP\",\"fe80::1,x\",50000,93.184.216.34,443,\"A,B\",medium,1700000000123\n"
    );
}
