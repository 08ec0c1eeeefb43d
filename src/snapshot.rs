//! Joins enumerated endpoints with the process table into classified connection records.
use vstd::prelude::*;
use vstd::string::*;
use std::collections::HashMap;
use crate::model::{Connection, NetworkEndpoint, calculate_risk, assess, texts};
use crate::windows::{
    PowerShellTcpConnection, PowerShellUdpEndpoint, WindowsConnectionCollector, names,
    canonical_state, lower_of, upper_of,
};

verus! {

broadcast use vstd::std_specs::hash::group_hash_axioms;

/// Relies on `uuid::Uuid::new_v4` and its hyphenated `Display`: a fresh random identifier
/// of 36 characters.
#[verifier::external_body]
fn fresh_id() -> (r: String)
    ensures
        r@.len() == 36,
{
    uuid::Uuid::new_v4().to_string()
}

/// The name shown for an owner: its table entry, "unknown" for an id the table lacks, and
/// "system" where there is no owner.
pub open spec fn owner_name(owner: Option<u32>, table: Map<u32, Seq<char>>) -> Seq<char> {
    match owner {
        Some(pid) => if table.contains_key(pid) {
            table[pid]
        } else {
            "unknown"@
        },
        None => "system"@,
    }
}

/// Whether `r` is the record of one endpoint: `shown_state` is the state it reports and
/// `risk_state` the state it is classified under.
pub open spec fn is_record(
    r: Connection,
    protocol: Seq<char>,
    owner: Option<u32>,
    local_address: Seq<char>,
    local_port: u16,
    remote_address: Seq<char>,
    remote_port: u16,
    shown_state: Seq<char>,
    risk_state: Seq<char>,
    table: Map<u32, Seq<char>>,
    captured_at: u64,
) -> bool {
    let risk = assess(risk_state, remote_address, remote_port, owner);
    &&& r.process_name@ == owner_name(owner, table)
    &&& r.pid == match owner {
        Some(p) => p,
        None => 0u32,
    }
    &&& r.protocol@ == protocol
    &&& r.local_addr@ == local_address
    &&& r.local_port == local_port
    &&& r.remote_addr@ == remote_address
    &&& r.remote_port == remote_port
    &&& r.state@ == shown_state
    &&& r.risk == risk.0
    &&& texts(r.risk_reasons@) == risk.1
    &&& r.captured_at == captured_at
}

/// Whether `r` is the record of a TCP connection whose canonical state is `state`.
pub open spec fn is_tcp_record(
    r: Connection,
    c: PowerShellTcpConnection,
    state: Seq<char>,
    table: Map<u32, Seq<char>>,
    captured_at: u64,
) -> bool {
    is_record(
        r,
        "TCP"@,
        c.owning_process,
        c.local_address@,
        c.local_port,
        c.remote_address@,
        c.remote_port,
        state,
        state,
        table,
        captured_at,
    )
}

/// Whether `r` is the record of a UDP endpoint: shown as "Active", classified as
/// "Established".
pub open spec fn is_udp_record(
    r: Connection,
    u: PowerShellUdpEndpoint,
    table: Map<u32, Seq<char>>,
    captured_at: u64,
) -> bool {
    is_record(
        r,
        "UDP"@,
        u.owning_process,
        u.local_address@,
        u.local_port,
        u.remote_address@,
        u.remote_port,
        "Active"@,
        "Established"@,
        table,
        captured_at,
    )
}

/// A UDP record shows the state "Active", though it is classified as "Established".
pub proof fn lemma_udp_record_shows_active(
    r: Connection,
    u: PowerShellUdpEndpoint,
    table: Map<u32, Seq<char>>,
    captured_at: u64,
)
    requires
        is_udp_record(r, u, table, captured_at),
    ensures
        r.state@ == "Active"@,
        r.risk == assess("Established"@, u.remote_address@, u.remote_port, u.owning_process).0,
{
}

/// The name shown for an owner, looked up in `table`.
pub fn resolve_owner(owner: Option<u32>, table: &HashMap<u32, String>) -> (r: String)
    ensures
        r@ == owner_name(owner, names(table@)),
{
    match owner {
        Some(pid) => match table.get(&pid) {
            Some(name) => name.clone(),
            None => String::from_str("unknown"),
        },
        None => String::from_str("system"),
    }
}

fn record(
    id: String,
    protocol: &str,
    owner: Option<u32>,
    local_address: String,
    local_port: u16,
    remote_address: String,
    remote_port: u16,
    shown_state: String,
    risk_state: String,
    table: &HashMap<u32, String>,
    captured_at: u64,
) -> (r: Connection)
    ensures
        r.id == id,
        is_record(
            r,
            protocol@,
            owner,
            local_address@,
            local_port,
            remote_address@,
            remote_port,
            shown_state@,
            risk_state@,
            names(table@),
            captured_at,
        ),
{
    let endpoint = NetworkEndpoint {
        protocol: String::from_str(protocol),
        local_address: String::from_str(local_address.as_str()),
        local_port,
        remote_address: String::from_str(remote_address.as_str()),
        remote_port,
        state: risk_state,
        owning_process_id: owner,
    };
    let (risk, risk_reasons) = calculate_risk(&endpoint);
    let process_name = resolve_owner(owner, table);
    Connection {
        id,
        process_name,
        pid: match owner {
            Some(p) => p,
            None => 0,
        },
        protocol: String::from_str(protocol),
        local_addr: local_address,
        local_port,
        remote_addr: remote_address,
        remote_port,
        state: shown_state,
        risk,
        risk_reasons,
        captured_at,
    }
}

/// The record of a TCP connection whose canonical state is `state`.
pub fn tcp_record(
    c: &PowerShellTcpConnection,
    state: String,
    table: &HashMap<u32, String>,
    id: String,
    captured_at: u64,
) -> (r: Connection)
    ensures
        r.id == id,
        is_tcp_record(r, *c, state@, names(table@), captured_at),
{
    let shown = String::from_str(state.as_str());
    record(
        id,
        "TCP",
        c.owning_process,
        String::from_str(c.local_address.as_str()),
        c.local_port,
        String::from_str(c.remote_address.as_str()),
        c.remote_port,
        shown,
        state,
        table,
        captured_at,
    )
}

/// The record of a UDP endpoint: shown as "Active", classified as "Established".
pub fn udp_record(
    u: &PowerShellUdpEndpoint,
    table: &HashMap<u32, String>,
    id: String,
    captured_at: u64,
) -> (r: Connection)
    ensures
        r.id == id,
        is_udp_record(r, *u, names(table@), captured_at),
{
    record(
        id,
        "UDP",
        u.owning_process,
        String::from_str(u.local_address.as_str()),
        u.local_port,
        String::from_str(u.remote_address.as_str()),
        u.remote_port,
        String::from_str("Active"),
        String::from_str("Established"),
        table,
        captured_at,
    )
}

/// Whether `r` is the snapshot of the given sources: the TCP records in order, then the UDP
/// records in order, all captured at `captured_at`; UDP records show "Active".
pub open spec fn is_snapshot(
    r: Seq<Connection>,
    tcp: Seq<PowerShellTcpConnection>,
    udp: Seq<PowerShellUdpEndpoint>,
    table: Map<u32, Seq<char>>,
    captured_at: u64,
) -> bool {
    &&& r.len() == tcp.len() + udp.len()
    &&& forall|i: int|
        0 <= i < tcp.len() ==> is_tcp_record(
            #[trigger] r[i],
            tcp[i],
            canonical_state(lower_of(tcp[i].state@), upper_of(tcp[i].state@)),
            table,
            captured_at,
        )
    &&& forall|j: int|
        0 <= j < udp.len() ==> is_udp_record(#[trigger] r[tcp.len() + j], udp[j], table, captured_at)
    &&& forall|j: int|
        0 <= j < udp.len() ==> (#[trigger] r[tcp.len() + j]).state@ == "Active"@ && r[tcp.len()
            + j].protocol@ == "UDP"@
    &&& forall|k: int| 0 <= k < r.len() ==> (#[trigger] r[k]).captured_at == captured_at
    &&& forall|k: int| 0 <= k < r.len() ==> (#[trigger] r[k]).id@.len() == 36
}

impl WindowsConnectionCollector {
    /// The records of one snapshot: the TCP connections in order, then the UDP endpoints in
    /// order, each with a fresh identifier and the one capture time.
    pub fn assemble_connections(
        &self,
        tcp: &Vec<PowerShellTcpConnection>,
        udp: &Vec<PowerShellUdpEndpoint>,
        table: &HashMap<u32, String>,
        captured_at: u64,
    ) -> (r: Vec<Connection>)
        ensures
            is_snapshot(r@, tcp@, udp@, names(table@), captured_at),
    {
        let mut out: Vec<Connection> = Vec::new();
        let mut i: usize = 0;
        while i < tcp.len()
            invariant
                i <= tcp@.len(),
                out@.len() == i,
                forall|k: int|
                    0 <= k < i ==> is_tcp_record(
                        #[trigger] out@[k],
                        tcp@[k],
                        canonical_state(lower_of(tcp@[k].state@), upper_of(tcp@[k].state@)),
                        names(table@),
                        captured_at,
                    ),
                forall|k: int| 0 <= k < out@.len() ==> (#[trigger] out@[k]).id@.len() == 36,
            decreases tcp@.len() - i,
        {
            let c = &tcp[i];
            let state = self.map_tcp_state(c.state.as_str());
            let id = fresh_id();
            out.push(tcp_record(c, state, table, id, captured_at));
            i = i + 1;
        }
        let mut j: usize = 0;
        while j < udp.len()
            invariant
                j <= udp@.len(),
                out@.len() == tcp@.len() + j,
                forall|k: int|
                    0 <= k < tcp@.len() ==> is_tcp_record(
                        #[trigger] out@[k],
                        tcp@[k],
                        canonical_state(lower_of(tcp@[k].state@), upper_of(tcp@[k].state@)),
                        names(table@),
                        captured_at,
                    ),
                forall|k: int|
                    0 <= k < j ==> is_udp_record(
                        #[trigger] out@[tcp@.len() + k],
                        udp@[k],
                        names(table@),
                        captured_at,
                    ),
                forall|k: int| 0 <= k < out@.len() ==> (#[trigger] out@[k]).id@.len() == 36,
            decreases udp@.len() - j,
        {
            let id = fresh_id();
            out.push(udp_record(&udp[j], table, id, captured_at));
            j = j + 1;
        }
        proof {
            assert forall|j: int| 0 <= j < udp@.len() implies (#[trigger] out@[tcp@.len() + j]).state@
                == "Active"@ && out@[tcp@.len() + j].protocol@ == "UDP"@ by {
                assert(is_udp_record(out@[tcp@.len() + j], udp@[j], names(table@), captured_at));
            }
            assert forall|k: int| 0 <= k < out@.len() implies (#[trigger] out@[k]).captured_at
                == captured_at by {
                if k < tcp@.len() {
                    assert(is_tcp_record(out@[k], tcp@[k], canonical_state(lower_of(tcp@[k].state@), upper_of(tcp@[k].state@)), names(table@), captured_at));
                } else {
                    assert(is_udp_record(out@[tcp@.len() + (k - tcp@.len())], udp@[k - tcp@.len()], names(table@), captured_at));
                }
            }
        }
        out
    }

    /// The snapshot, given what the sources gave, in the order they are read: the first
    /// source that failed decides the error (TCP endpoints, then UDP endpoints, then the
    /// process table, then the clock); otherwise the assembled records.
    pub fn get_connections(
        &self,
        tcp: Result<Vec<PowerShellTcpConnection>, String>,
        udp: Result<Vec<PowerShellUdpEndpoint>, String>,
        table: Result<HashMap<u32, String>, String>,
        captured_at: Result<u64, String>,
    ) -> (r: Result<Vec<Connection>, String>)
        ensures
            tcp is Err ==> r == Err::<Vec<Connection>, String>(tcp->Err_0),
            tcp is Ok && udp is Err ==> r == Err::<Vec<Connection>, String>(udp->Err_0),
            tcp is Ok && udp is Ok && table is Err ==> r == Err::<Vec<Connection>, String>(
                table->Err_0,
            ),
            tcp is Ok && udp is Ok && table is Ok && captured_at is Err ==> r == Err::<
                Vec<Connection>,
                String,
            >(captured_at->Err_0),
            tcp is Ok && udp is Ok && table is Ok && captured_at is Ok ==> r is Ok && is_snapshot(
                r->Ok_0@,
                tcp->Ok_0@,
                udp->Ok_0@,
                names(table->Ok_0@),
                captured_at->Ok_0,
            ),
    {
        let tcp = match tcp {
            Ok(v) => v,
            Err(e) => return Err(e),
        };
        let udp = match udp {
            Ok(v) => v,
            Err(e) => return Err(e),
        };
        let table = match table {
            Ok(t) => t,
            Err(e) => return Err(e),
        };
        let captured_at = match captured_at {
            Ok(t) => t,
            Err(e) => return Err(e),
        };
        Ok(self.assemble_connections(&tcp, &udp, &table, captured_at))
    }
}

} // verus!
