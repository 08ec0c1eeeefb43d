//! The records of a snapshot and the risk classification of one endpoint.
use vstd::prelude::*;
use vstd::string::*;
use crate::text::{chars_of, equals_text, push_decimal, decimal_text};

verus! {

/// How far a connection is judged to be a risk, ordered `Low < Medium < High`.
#[derive(Debug, Clone, Copy, PartialEq, Eq, Structural)]
pub enum RiskLevel {
    Low,
    Medium,
    High,
}

/// The lower-case name of a risk level, as it appears in exports.
pub open spec fn risk_name(r: RiskLevel) -> Seq<char> {
    match r {
        RiskLevel::Low => "low"@,
        RiskLevel::Medium => "medium"@,
        RiskLevel::High => "high"@,
    }
}

/// The position of a level in the order `Low < Medium < High`.
pub open spec fn rank(r: RiskLevel) -> int {
    match r {
        RiskLevel::Low => 0,
        RiskLevel::Medium => 1,
        RiskLevel::High => 2,
    }
}

/// `r`, raised to `Medium` if it was below.
pub open spec fn at_least_medium(r: RiskLevel) -> RiskLevel {
    match r {
        RiskLevel::Low => RiskLevel::Medium,
        _ => r,
    }
}

/// `r`, one step lower; `Low` stays `Low`.
pub open spec fn one_step_down(r: RiskLevel) -> RiskLevel {
    match r {
        RiskLevel::High => RiskLevel::Medium,
        _ => RiskLevel::Low,
    }
}

impl RiskLevel {
    pub fn as_str(&self) -> (r: &'static str)
        ensures
            r@ == risk_name(*self),
    {
        match self {
            RiskLevel::Low => "low",
            RiskLevel::Medium => "medium",
            RiskLevel::High => "high",
        }
    }
}

/// One connection of a snapshot, as the library reports it.
#[derive(Debug, Clone)]
pub struct Connection {
    pub id: String,
    pub process_name: String,
    pub pid: u32,
    /// "TCP" or "UDP".
    pub protocol: String,
    pub local_addr: String,
    pub local_port: u16,
    pub remote_addr: String,
    pub remote_port: u16,
    pub state: String,
    pub risk: RiskLevel,
    pub risk_reasons: Vec<String>,
    /// Milliseconds since the Unix epoch.
    pub captured_at: u64,
}

/// A process id and the name it runs under.
#[derive(Debug, Clone)]
pub struct ProcessInfo {
    pub pid: u32,
    pub name: String,
}

/// One endpoint as the risk classifier sees it.
#[derive(Debug, Clone)]
pub struct NetworkEndpoint {
    pub protocol: String,
    pub local_address: String,
    pub local_port: u16,
    pub remote_address: String,
    pub remote_port: u16,
    pub state: String,
    pub owning_process_id: Option<u32>,
}

/// The views of a sequence of strings.
pub open spec fn texts(v: Seq<String>) -> Seq<Seq<char>> {
    v.map_values(|s: String| s@)
}

/// Remote ports whose established connections count as high risk.
pub open spec fn is_high_risk_port(p: u16) -> bool {
    p == 23 || p == 445 || p == 3389 || p == 5900 || p == 3306 || p == 27017 || p == 4444 || p
        == 1337 || p == 6667
}

/// Remote ports of administrative services.
pub open spec fn is_admin_port(p: u16) -> bool {
    p == 21 || p == 22 || p == 25 || p == 110 || p == 143 || p == 993 || p == 995
}

/// Remote addresses of the local host.
pub open spec fn is_loopback(a: Seq<char>) -> bool {
    a == "127.0.0.1"@ || a == "::1"@
}

pub open spec fn high_risk_reason(p: u16) -> Seq<char> {
    "Connection to known high-risk port "@ + decimal_text(p as nat)
}

pub open spec fn admin_reason(p: u16) -> Seq<char> {
    "Connection to administrative port "@ + decimal_text(p as nat)
}

pub open spec fn unowned_reason() -> Seq<char> {
    "Unable to identify owning process"@
}

pub open spec fn high_port_reason() -> Seq<char> {
    "Connection to non-standard high port"@
}

pub open spec fn loopback_reason() -> Seq<char> {
    "Localhost connection reduces risk"@
}

pub open spec fn standard_reason() -> Seq<char> {
    "Standard connection"@
}

/// Level and reasons after the port and owner rules, before the loopback rule.
pub open spec fn assess_before_loopback(
    state: Seq<char>,
    remote_port: u16,
    owner: Option<u32>,
) -> (RiskLevel, Seq<Seq<char>>) {
    let est = state == "Established"@;
    let p = remote_port;
    let s1: (RiskLevel, Seq<Seq<char>>) = if est && is_high_risk_port(p) {
        (RiskLevel::High, seq![high_risk_reason(p)])
    } else {
        (RiskLevel::Low, seq![])
    };
    let s2 = if est && is_admin_port(p) {
        (at_least_medium(s1.0), s1.1.push(admin_reason(p)))
    } else {
        s1
    };
    let s3 = if owner is None || owner == Some(0u32) {
        (at_least_medium(s2.0), s2.1.push(unowned_reason()))
    } else {
        s2
    };
    if p > 10000 && est {
        (at_least_medium(s3.0), s3.1.push(high_port_reason()))
    } else {
        s3
    }
}

/// The risk level and the reasons given for it, in the order the rules fire.
pub open spec fn assess(
    state: Seq<char>,
    remote_address: Seq<char>,
    remote_port: u16,
    owner: Option<u32>,
) -> (RiskLevel, Seq<Seq<char>>) {
    let s4 = assess_before_loopback(state, remote_port, owner);
    let s5 = if is_loopback(remote_address) {
        (
            one_step_down(s4.0),
            if s4.1.len() > 0 {
                s4.1.push(loopback_reason())
            } else {
                s4.1
            },
        )
    } else {
        s4
    };
    if s5.1.len() == 0 {
        (s5.0, seq![standard_reason()])
    } else {
        s5
    }
}

/// The classification of an endpoint.
pub open spec fn endpoint_risk(e: NetworkEndpoint) -> (RiskLevel, Seq<Seq<char>>) {
    assess(e.state@, e.remote_address@, e.remote_port, e.owning_process_id)
}

/// The classification of an endpoint before the loopback rule.
pub open spec fn endpoint_risk_before_loopback(e: NetworkEndpoint) -> (RiskLevel, Seq<Seq<char>>) {
    assess_before_loopback(e.state@, e.remote_port, e.owning_process_id)
}

fn raise(r: RiskLevel) -> (o: RiskLevel)
    ensures
        o == at_least_medium(r),
{
    match r {
        RiskLevel::Low => RiskLevel::Medium,
        _ => r,
    }
}

fn reason_with_port(prefix: &str, port: u16) -> (r: String)
    ensures
        r@ == prefix@ + decimal_text(port as nat),
{
    let mut s = String::from_str(prefix);
    push_decimal(&mut s, port as u64);
    s
}

/// Classifies one endpoint: its risk level and the reasons for it.
pub fn calculate_risk(connection: &NetworkEndpoint) -> (r: (RiskLevel, Vec<String>))
    ensures
        r.0 == endpoint_risk(*connection).0,
        texts(r.1@) == endpoint_risk(*connection).1,
        r.1@.len() > 0,
{
    let mut reasons: Vec<String> = Vec::new();
    let mut risk = RiskLevel::Low;
    let state = chars_of(connection.state.as_str());
    let established = equals_text(&state, "Established");
    let port = connection.remote_port;
    let high_risk = port == 23 || port == 445 || port == 3389 || port == 5900 || port == 3306
        || port == 27017 || port == 4444 || port == 1337 || port == 6667;
    let admin = port == 21 || port == 22 || port == 25 || port == 110 || port == 143 || port
        == 993 || port == 995;
    if established && high_risk {
        risk = RiskLevel::High;
        reasons.push(reason_with_port("Connection to known high-risk port ", port));
    }
    if established && admin {
        risk = raise(risk);
        reasons.push(reason_with_port("Connection to administrative port ", port));
    }
    let unowned = match connection.owning_process_id {
        Some(pid) => pid == 0,
        None => true,
    };
    if unowned {
        risk = raise(risk);
        reasons.push(String::from_str("Unable to identify owning process"));
    }
    if port > 10000 && established {
        risk = raise(risk);
        reasons.push(String::from_str("Connection to non-standard high port"));
    }
    let ghost before = (risk, texts(reasons@));
    assert(before == endpoint_risk_before_loopback(*connection)) by {
        assert(texts(reasons@) =~= endpoint_risk_before_loopback(*connection).1);
    }
    let remote = chars_of(connection.remote_address.as_str());
    if equals_text(&remote, "127.0.0.1") || equals_text(&remote, "::1") {
        risk = match risk {
            RiskLevel::High => RiskLevel::Medium,
            _ => RiskLevel::Low,
        };
        if reasons.len() > 0 {
            reasons.push(String::from_str("Localhost connection reduces risk"));
        }
    }
    if reasons.len() == 0 {
        reasons.push(String::from_str("Standard connection"));
    }
    assert(texts(reasons@) =~= endpoint_risk(*connection).1);
    (risk, reasons)
}

/// An established connection to a high-risk port is rated `High` before the loopback rule,
/// and its first reason names that port.
pub proof fn lemma_high_risk_port_rated_high(e: NetworkEndpoint)
    requires
        e.state@ == "Established"@,
        is_high_risk_port(e.remote_port),
    ensures
        endpoint_risk_before_loopback(e).0 == RiskLevel::High,
        endpoint_risk(e).1[0] == high_risk_reason(e.remote_port),
        endpoint_risk(e).1.contains(high_risk_reason(e.remote_port)),
{
    let b = endpoint_risk_before_loopback(e);
    assert(b.1[0] == high_risk_reason(e.remote_port));
    assert(endpoint_risk(e).1[0] == high_risk_reason(e.remote_port));
}

/// On a loopback remote address, once some rule has given a reason, the level ends exactly
/// one step below the level before the loopback rule, and the loopback reason comes last.
pub proof fn lemma_loopback_demotes_one_step(e: NetworkEndpoint)
    requires
        is_loopback(e.remote_address@),
        endpoint_risk_before_loopback(e).1.len() > 0,
    ensures
        rank(endpoint_risk(e).0) == rank(endpoint_risk_before_loopback(e).0) - 1,
        endpoint_risk(e).1 == endpoint_risk_before_loopback(e).1.push(loopback_reason()),
        endpoint_risk(e).1.last() == loopback_reason(),
{
}

/// The classification depends on the endpoint's state, remote address, remote port and owner
/// alone: endpoints that agree on these are classified alike.
pub proof fn lemma_assess_deterministic(a: NetworkEndpoint, b: NetworkEndpoint)
    requires
        a.state@ == b.state@,
        a.remote_address@ == b.remote_address@,
        a.remote_port == b.remote_port,
        a.owning_process_id == b.owning_process_id,
    ensures
        endpoint_risk(a) == endpoint_risk(b),
{
}

/// Every classification gives at least one reason.
pub proof fn lemma_reasons_never_empty(e: NetworkEndpoint)
    ensures
        endpoint_risk(e).1.len() > 0,
{
}

} // verus!
