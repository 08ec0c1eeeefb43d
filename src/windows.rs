//! Endpoint and process rows as the Windows tools report them, and the parsers of their
//! plain-text output.
use vstd::prelude::*;
use vstd::string::*;
use std::collections::HashMap;
use crate::text::{
    chars_of, trim_chars, rows_of, words_of, split_chars, find_last, slice, parse_decimal,
    string_from, starts_with_text, equals_text, strip_exe, trimmed, text_rows, words, split_on,
    last_index_of, parse_unsigned, without_exe, views,
};

verus! {

broadcast use vstd::std_specs::hash::group_hash_axioms;

/// What `str::to_lowercase` makes of a text.
pub uninterp spec fn lower_of(s: Seq<char>) -> Seq<char>;

/// What `str::to_uppercase` makes of a text.
pub uninterp spec fn upper_of(s: Seq<char>) -> Seq<char>;

/// Relies on `str::to_lowercase`: the result depends on the characters alone.
#[verifier::external_body]
pub(crate) fn lowercase(s: &str) -> (r: String)
    ensures
        r@ == lower_of(s@),
{
    s.to_lowercase()
}

/// Relies on `str::to_uppercase`: the result depends on the characters alone.
#[verifier::external_body]
pub(crate) fn uppercase(s: &str) -> (r: String)
    ensures
        r@ == upper_of(s@),
{
    s.to_uppercase()
}

/// A TCP connection as the structured source or the `netstat` fallback reports it.
#[derive(Debug, Clone)]
pub struct PowerShellTcpConnection {
    pub owning_process: Option<u32>,
    pub local_address: String,
    pub local_port: u16,
    pub remote_address: String,
    pub remote_port: u16,
    pub state: String,
}

/// A UDP endpoint as the structured source or the `netstat` fallback reports it.
#[derive(Debug, Clone)]
pub struct PowerShellUdpEndpoint {
    pub owning_process: Option<u32>,
    pub local_address: String,
    pub local_port: u16,
    pub remote_address: String,
    pub remote_port: u16,
}

/// A process as the structured source reports it.
#[derive(Debug, Clone)]
pub struct PowerShellProcess {
    pub id: u32,
    pub name: String,
}

/// The contents of a TCP row.
pub struct TcpRowView {
    pub owning_process: Option<u32>,
    pub local_address: Seq<char>,
    pub local_port: u16,
    pub remote_address: Seq<char>,
    pub remote_port: u16,
    pub state: Seq<char>,
}

/// The contents of a UDP row.
pub struct UdpRowView {
    pub owning_process: Option<u32>,
    pub local_address: Seq<char>,
    pub local_port: u16,
    pub remote_address: Seq<char>,
    pub remote_port: u16,
}

impl View for PowerShellTcpConnection {
    type V = TcpRowView;

    open spec fn view(&self) -> TcpRowView {
        TcpRowView {
            owning_process: self.owning_process,
            local_address: self.local_address@,
            local_port: self.local_port,
            remote_address: self.remote_address@,
            remote_port: self.remote_port,
            state: self.state@,
        }
    }
}

impl View for PowerShellUdpEndpoint {
    type V = UdpRowView;

    open spec fn view(&self) -> UdpRowView {
        UdpRowView {
            owning_process: self.owning_process,
            local_address: self.local_address@,
            local_port: self.local_port,
            remote_address: self.remote_address@,
            remote_port: self.remote_port,
        }
    }
}

/// The address of an `address:port` word: what stands before its last colon.
pub open spec fn address_of(w: Seq<char>) -> Seq<char> {
    let k = last_index_of(w, ':');
    if k >= 0 {
        w.take(k)
    } else {
        w
    }
}

/// A number read as in a `netstat` column, 0 where it is no numeral in range.
pub open spec fn number_or_zero(s: Seq<char>, max: nat) -> nat {
    match parse_unsigned(s, max) {
        Some(n) => n,
        None => 0,
    }
}

/// The port of an `address:port` word: what follows its last colon, 0 where that is no port.
pub open spec fn port_of(w: Seq<char>) -> u16 {
    let k = last_index_of(w, ':');
    if k >= 0 {
        number_or_zero(w.skip(k + 1), 65535) as u16
    } else {
        0
    }
}

/// Whether a trimmed `netstat` row carries data: neither empty nor the header.
pub open spec fn is_data_line(line: Seq<char>) -> bool {
    line.len() > 0 && !("Proto"@.len() <= line.len() && line.take("Proto"@.len() as int) == "Proto"@)
}

/// The process id column of a `netstat` row of at least five words, else 0.
pub open spec fn pid_column(parts: Seq<Seq<char>>) -> u32 {
    if parts.len() >= 5 {
        number_or_zero(parts.last(), 0xFFFF_FFFF) as u32
    } else {
        0
    }
}

/// The TCP connection that the words of a data row of at least four words describe.
pub open spec fn tcp_of_words(parts: Seq<Seq<char>>) -> TcpRowView {
    TcpRowView {
        owning_process: Some(pid_column(parts)),
        local_address: address_of(parts[1]),
        local_port: port_of(parts[1]),
        remote_address: address_of(parts[2]),
        remote_port: port_of(parts[2]),
        state: if parts.len() >= 5 {
            parts[3]
        } else {
            "UNKNOWN"@
        },
    }
}

/// The UDP endpoint that the words of a data row of at least four words describe.
pub open spec fn udp_of_words(parts: Seq<Seq<char>>) -> UdpRowView {
    UdpRowView {
        owning_process: Some(pid_column(parts)),
        local_address: address_of(parts[1]),
        local_port: port_of(parts[1]),
        remote_address: address_of(parts[2]),
        remote_port: port_of(parts[2]),
    }
}

/// The first word of a trimmed row.
pub open spec fn first_word(row: Seq<char>) -> Seq<char> {
    words(trimmed(row, false))[0]
}

/// What one row of `netstat -p TCP` gives, if anything, where `first_upper` is its first
/// word in upper case.
pub open spec fn tcp_row_with(row: Seq<char>, first_upper: Seq<char>) -> Option<TcpRowView> {
    let line = trimmed(row, false);
    let parts = words(line);
    if is_data_line(line) && parts.len() >= 4 && first_upper == "TCP"@ {
        Some(tcp_of_words(parts))
    } else {
        None
    }
}

/// What one row of `netstat -p TCP` gives, if anything.
pub open spec fn tcp_row(row: Seq<char>) -> Option<TcpRowView> {
    tcp_row_with(row, upper_of(first_word(row)))
}

/// What one row of `netstat -p UDP` gives, if anything, where `first_upper` is its first
/// word in upper case.
pub open spec fn udp_row_with(row: Seq<char>, first_upper: Seq<char>) -> Option<UdpRowView> {
    let line = trimmed(row, false);
    let parts = words(line);
    if is_data_line(line) && parts.len() >= 4 && first_upper == "UDP"@ {
        Some(udp_of_words(parts))
    } else {
        None
    }
}

/// What one row of `netstat -p UDP` gives, if anything.
pub open spec fn udp_row(row: Seq<char>) -> Option<UdpRowView> {
    udp_row_with(row, upper_of(first_word(row)))
}

/// The TCP connections that the rows give, in row order.
pub open spec fn tcp_rows(rows: Seq<Seq<char>>) -> Seq<TcpRowView>
    decreases rows.len(),
{
    if rows.len() == 0 {
        seq![]
    } else {
        let rest = tcp_rows(rows.drop_last());
        match tcp_row(rows.last()) {
            Some(x) => rest.push(x),
            None => rest,
        }
    }
}

/// The UDP endpoints that the rows give, in row order.
pub open spec fn udp_rows(rows: Seq<Seq<char>>) -> Seq<UdpRowView>
    decreases rows.len(),
{
    if rows.len() == 0 {
        seq![]
    } else {
        let rest = udp_rows(rows.drop_last());
        match udp_row(rows.last()) {
            Some(x) => rest.push(x),
            None => rest,
        }
    }
}

pub open spec fn tcp_views(v: Seq<PowerShellTcpConnection>) -> Seq<TcpRowView> {
    v.map_values(|c: PowerShellTcpConnection| c@)
}

pub open spec fn udp_views(v: Seq<PowerShellUdpEndpoint>) -> Seq<UdpRowView> {
    v.map_values(|c: PowerShellUdpEndpoint| c@)
}

/// The address and port of an `address:port` word.
fn split_address(w: &Vec<char>) -> (r: (String, u16))
    ensures
        r.0@ == address_of(w@),
        r.1 == port_of(w@),
{
    let n = w.len();
    match find_last(w, ':') {
        Some(k) => {
            let addr = slice(w, 0, k);
            let tail = slice(w, k + 1, n);
            let port = match parse_decimal(&tail, 65535) {
                Some(p) => p as u16,
                None => 0,
            };
            proof {
                assert(addr@ =~= w@.take(k as int));
                assert(tail@ =~= w@.skip(k + 1));
            }
            (string_from(&addr), port)
        },
        None => (string_from(w), 0),
    }
}

fn pid_of(parts: &Vec<Vec<char>>) -> (r: u32)
    ensures
        r == pid_column(views(parts@)),
{
    if parts.len() >= 5 {
        match parse_decimal(&parts[parts.len() - 1], 0xFFFF_FFFF) {
            Some(p) => p,
            None => 0,
        }
    } else {
        0
    }
}

/// The words of a data row; `None` for a blank row, the header, or a row of fewer than
/// four words.
fn row_words(row: &Vec<char>) -> (r: Option<Vec<Vec<char>>>)
    ensures
        ({
            let line = trimmed(row@, false);
            let parts = words(line);
            match r {
                Some(ws) => is_data_line(line) && parts.len() >= 4 && views(ws@) == parts,
                None => !(is_data_line(line) && parts.len() >= 4),
            }
        }),
{
    let line = trim_chars(row, false);
    if line.len() == 0 || starts_with_text(&line, "Proto") {
        return None;
    }
    let parts = words_of(&line);
    if parts.len() < 4 {
        return None;
    }
    Some(parts)
}

/// The TCP connection that the words of a `netstat` data row describe: addresses and
/// ports from the second and third words, the state from the fourth of five or more, the
/// process id from the last of five or more. `None` for fewer than four words.
pub fn tcp_connection_from_words(parts: &Vec<Vec<char>>) -> (r: Option<PowerShellTcpConnection>)
    ensures
        parts@.len() >= 4 ==> r is Some && r->Some_0@ == tcp_of_words(views(parts@)),
        parts@.len() < 4 ==> r is None,
{
    if parts.len() < 4 {
        return None;
    }
    let (local_address, local_port) = split_address(&parts[1]);
    let (remote_address, remote_port) = split_address(&parts[2]);
    let state = if parts.len() >= 5 {
        string_from(&parts[3])
    } else {
        String::from_str("UNKNOWN")
    };
    let pid = pid_of(parts);
    Some(
        PowerShellTcpConnection {
            owning_process: Some(pid),
            local_address,
            local_port,
            remote_address,
            remote_port,
            state,
        },
    )
}

/// The UDP endpoint that the words of a `netstat` data row describe: addresses and ports
/// from the second and third words, the process id from the last of five or more. `None`
/// for fewer than four words.
pub fn udp_endpoint_from_words(parts: &Vec<Vec<char>>) -> (r: Option<PowerShellUdpEndpoint>)
    ensures
        parts@.len() >= 4 ==> r is Some && r->Some_0@ == udp_of_words(views(parts@)),
        parts@.len() < 4 ==> r is None,
{
    if parts.len() < 4 {
        return None;
    }
    let (local_address, local_port) = split_address(&parts[1]);
    let (remote_address, remote_port) = split_address(&parts[2]);
    let pid = pid_of(parts);
    Some(
        PowerShellUdpEndpoint {
            owning_process: Some(pid),
            local_address,
            local_port,
            remote_address,
            remote_port,
        },
    )
}

/// The TCP connection that one row of `netstat -p TCP` gives, if any, where `first_upper`
/// is the row's first word in upper case.
pub fn tcp_connection_from_row(row: &Vec<char>, first_upper: &str) -> (r: Option<
    PowerShellTcpConnection,
>)
    ensures
        match r {
            Some(c) => tcp_row_with(row@, first_upper@) == Some(c@),
            None => tcp_row_with(row@, first_upper@) is None,
        },
{
    match row_words(row) {
        Some(parts) => {
            if equals_text(&chars_of(first_upper), "TCP") {
                tcp_connection_from_words(&parts)
            } else {
                None
            }
        },
        None => None,
    }
}

/// The UDP endpoint that one row of `netstat -p UDP` gives, if any, where `first_upper` is
/// the row's first word in upper case.
pub fn udp_endpoint_from_row(row: &Vec<char>, first_upper: &str) -> (r: Option<
    PowerShellUdpEndpoint,
>)
    ensures
        match r {
            Some(c) => udp_row_with(row@, first_upper@) == Some(c@),
            None => udp_row_with(row@, first_upper@) is None,
        },
{
    match row_words(row) {
        Some(parts) => {
            if equals_text(&chars_of(first_upper), "UDP") {
                udp_endpoint_from_words(&parts)
            } else {
                None
            }
        },
        None => None,
    }
}

/// The first word of a data row in upper case; `None` where the row is no data row.
fn first_word_upper(row: &Vec<char>) -> (r: Option<String>)
    ensures
        match r {
            Some(u) => u@ == upper_of(first_word(row@)),
            None => !(is_data_line(trimmed(row@, false)) && words(trimmed(row@, false)).len() >= 4),
        },
{
    match row_words(row) {
        Some(parts) => {
            let first = string_from(&parts[0]);
            Some(uppercase(first.as_str()))
        },
        None => None,
    }
}

fn tcp_from_row(row: &Vec<char>) -> (r: Option<PowerShellTcpConnection>)
    ensures
        match r {
            Some(c) => tcp_row(row@) == Some(c@),
            None => tcp_row(row@) is None,
        },
{
    match first_word_upper(row) {
        Some(up) => tcp_connection_from_row(row, up.as_str()),
        None => None,
    }
}

fn udp_from_row(row: &Vec<char>) -> (r: Option<PowerShellUdpEndpoint>)
    ensures
        match r {
            Some(c) => udp_row(row@) == Some(c@),
            None => udp_row(row@) is None,
        },
{
    match first_word_upper(row) {
        Some(up) => udp_endpoint_from_row(row, up.as_str()),
        None => None,
    }
}

} // verus!

verus! {

/// The entry that one row of `tasklist /FO CSV` gives, if any: the process id of its second
/// field and the name of its first, with quotes and `.exe` suffixes removed.
pub open spec fn tasklist_entry(row: Seq<char>) -> Option<(u32, Seq<char>)> {
    let line = trimmed(row, false);
    let fields = split_on(line, ',');
    if line.len() > 0 && fields.len() >= 2 {
        match parse_unsigned(trimmed(fields[1], true), 0xFFFF_FFFF) {
            Some(pid) => Some((pid as u32, without_exe(trimmed(fields[0], true)))),
            None => None,
        }
    } else {
        None
    }
}

/// The process table that the rows give; a later row wins over an earlier one with its id.
pub open spec fn tasklist_table(rows: Seq<Seq<char>>) -> Map<u32, Seq<char>>
    decreases rows.len(),
{
    if rows.len() == 0 {
        Map::empty()
    } else {
        let rest = tasklist_table(rows.drop_last());
        match tasklist_entry(rows.last()) {
            Some((pid, name)) => rest.insert(pid, name),
            None => rest,
        }
    }
}

/// The rows of a text but its first, the header.
pub open spec fn body_rows(s: Seq<char>) -> Seq<Seq<char>> {
    let rows = text_rows(s);
    if rows.len() > 0 {
        rows.drop_first()
    } else {
        rows
    }
}

/// The names of a process table.
pub open spec fn names(m: Map<u32, String>) -> Map<u32, Seq<char>> {
    m.map_values(|s: String| s@)
}

/// The canonical name of a TCP state, given the state in lower and in upper case.
pub open spec fn canonical_state(lower: Seq<char>, upper: Seq<char>) -> Seq<char> {
    if lower == "established"@ {
        "ESTABLISHED"@
    } else if lower == "listen"@ {
        "LISTENING"@
    } else if lower == "time_wait"@ {
        "TIME_WAIT"@
    } else if lower == "close_wait"@ {
        "CLOSE_WAIT"@
    } else if lower == "syn_sent"@ {
        "SYN_SENT"@
    } else if lower == "syn_received"@ {
        "SYN_RECEIVED"@
    } else if lower == "fin_wait1"@ {
        "FIN_WAIT1"@
    } else if lower == "fin_wait2"@ {
        "FIN_WAIT2"@
    } else if lower == "closing"@ {
        "CLOSING"@
    } else if lower == "last_ack"@ {
        "LAST_ACK"@
    } else {
        upper
    }
}

/// The canonical name of a TCP state, given the state in lower case and in upper case.
pub fn canonical_tcp_state(lower: &str, upper: String) -> (r: String)
    ensures
        r@ == canonical_state(lower@, upper@),
{
    let l = chars_of(lower);
    if equals_text(&l, "established") {
        String::from_str("ESTABLISHED")
    } else if equals_text(&l, "listen") {
        String::from_str("LISTENING")
    } else if equals_text(&l, "time_wait") {
        String::from_str("TIME_WAIT")
    } else if equals_text(&l, "close_wait") {
        String::from_str("CLOSE_WAIT")
    } else if equals_text(&l, "syn_sent") {
        String::from_str("SYN_SENT")
    } else if equals_text(&l, "syn_received") {
        String::from_str("SYN_RECEIVED")
    } else if equals_text(&l, "fin_wait1") {
        String::from_str("FIN_WAIT1")
    } else if equals_text(&l, "fin_wait2") {
        String::from_str("FIN_WAIT2")
    } else if equals_text(&l, "closing") {
        String::from_str("CLOSING")
    } else if equals_text(&l, "last_ack") {
        String::from_str("LAST_ACK")
    } else {
        upper
    }
}

fn tasklist_from_row(row: &Vec<char>) -> (r: Option<(u32, String)>)
    ensures
        match r {
            Some((pid, name)) => tasklist_entry(row@) == Some((pid, name@)),
            None => tasklist_entry(row@) is None,
        },
{
    let line = trim_chars(row, false);
    if line.len() == 0 {
        return None;
    }
    let fields = split_chars(&line, ',');
    if fields.len() < 2 {
        return None;
    }
    let id_text = trim_chars(&fields[1], true);
    match parse_decimal(&id_text, 0xFFFF_FFFF) {
        Some(pid) => {
            let quoted = trim_chars(&fields[0], true);
            let name = strip_exe(&quoted);
            Some((pid, string_from(&name)))
        },
        None => None,
    }
}

/// Gathers connections on Windows, from the structured source with the plain-text tools
/// as fallback.
pub struct WindowsConnectionCollector;

impl WindowsConnectionCollector {
    pub fn new() -> Self {
        WindowsConnectionCollector
    }

    /// Reads the output of `netstat -ano -p TCP`: one connection per TCP data row, in order;
    /// other rows are skipped.
    pub fn parse_netstat_output(&self, output: String) -> (r: Result<
        Vec<PowerShellTcpConnection>,
        String,
    >)
        ensures
            r is Ok,
            tcp_views(r->Ok_0@) == tcp_rows(text_rows(output@)),
    {
        let text = chars_of(output.as_str());
        let rows = rows_of(&text);
        let ghost rs = text_rows(output@);
        let mut out: Vec<PowerShellTcpConnection> = Vec::new();
        let mut i: usize = 0;
        while i < rows.len()
            invariant
                i <= rows@.len() == rs.len(),
                views(rows@) == rs,
                tcp_views(out@) == tcp_rows(rs.take(i as int)),
            decreases rows@.len() - i,
        {
            let row = tcp_from_row(&rows[i]);
            proof {
                assert(rows@[i as int]@ == rs[i as int]);
                assert(rs.take(i + 1).drop_last() =~= rs.take(i as int));
            }
            match row {
                Some(c) => {
                    let ghost before = out@;
                    out.push(c);
                    proof {
                        assert(tcp_views(out@) =~= tcp_views(before).push(c@));
                    }
                },
                None => {},
            }
            i = i + 1;
        }
        proof {
            assert(rs.take(i as int) =~= rs);
        }
        Ok(out)
    }

    /// Reads the output of `netstat -ano -p UDP`: one endpoint per UDP data row, in order;
    /// other rows are skipped.
    pub fn parse_udp_netstat_output(&self, output: String) -> (r: Result<
        Vec<PowerShellUdpEndpoint>,
        String,
    >)
        ensures
            r is Ok,
            udp_views(r->Ok_0@) == udp_rows(text_rows(output@)),
    {
        let text = chars_of(output.as_str());
        let rows = rows_of(&text);
        let ghost rs = text_rows(output@);
        let mut out: Vec<PowerShellUdpEndpoint> = Vec::new();
        let mut i: usize = 0;
        while i < rows.len()
            invariant
                i <= rows@.len() == rs.len(),
                views(rows@) == rs,
                udp_views(out@) == udp_rows(rs.take(i as int)),
            decreases rows@.len() - i,
        {
            let row = udp_from_row(&rows[i]);
            proof {
                assert(rows@[i as int]@ == rs[i as int]);
                assert(rs.take(i + 1).drop_last() =~= rs.take(i as int));
            }
            match row {
                Some(c) => {
                    let ghost before = out@;
                    out.push(c);
                    proof {
                        assert(udp_views(out@) =~= udp_views(before).push(c@));
                    }
                },
                None => {},
            }
            i = i + 1;
        }
        proof {
            assert(rs.take(i as int) =~= rs);
        }
        Ok(out)
    }

    /// Reads the output of `tasklist /FO CSV`: after the header row, each row whose second
    /// field is a process id maps that id to the name of its first field.
    pub fn parse_tasklist_output(&self, output: String) -> (r: Result<HashMap<u32, String>, String>)
        ensures
            r is Ok,
            names(r->Ok_0@) == tasklist_table(body_rows(output@)),
    {
        let text = chars_of(output.as_str());
        let rows = rows_of(&text);
        let ghost rs = body_rows(output@);
        let mut table: HashMap<u32, String> = HashMap::new();
        let mut i: usize = 1;
        proof {
            assert(names(table@) =~= tasklist_table(rs.take(0)));
        }
        if rows.len() == 0 {
            return Ok(table);
        }
        while i < rows.len()
            invariant
                1 <= i <= rows@.len(),
                rs.len() == rows@.len() - 1,
                forall|k: int| 0 <= k < rs.len() ==> #[trigger] rs[k] == rows@[k + 1]@,
                names(table@) == tasklist_table(rs.take(i - 1)),
            decreases rows@.len() - i,
        {
            let entry = tasklist_from_row(&rows[i]);
            proof {
                assert(rs[i - 1] == rows@[i as int]@);
                assert(rs.take(i as int).drop_last() =~= rs.take(i - 1));
            }
            match entry {
                Some((pid, name)) => {
                    let ghost before = table@;
                    table.insert(pid, name);
                    proof {
                        assert(names(table@) =~= names(before).insert(pid, name@));
                    }
                },
                None => {},
            }
            i = i + 1;
        }
        proof {
            assert(rs.take(i - 1) =~= rs);
        }
        Ok(table)
    }

    /// The canonical upper-case name of a TCP state.
    pub fn map_tcp_state(&self, state: &str) -> (r: String)
        ensures
            r@ == canonical_state(lower_of(state@), upper_of(state@)),
    {
        let lower = lowercase(state);
        let upper = uppercase(state);
        canonical_tcp_state(lower.as_str(), upper)
    }
}

} // verus!
