//! Formatting of a connection list for export.
use vstd::prelude::*;
use vstd::string::*;
use crate::model::{Connection, risk_name};
use crate::text::{chars_of, equals_text, push_char, push_decimal, decimal_text, joined};
use crate::windows::{lower_of, lowercase};

verus! {

/// Whether a CSV field must be quoted: it holds a comma, a double quote or a line feed.
pub open spec fn needs_quotes(s: Seq<char>) -> bool {
    exists|i: int| 0 <= i < s.len() && (s[i] == ',' || s[i] == '"' || s[i] == '\n')
}

/// `s` with each double quote doubled.
pub open spec fn quotes_doubled(s: Seq<char>) -> Seq<char>
    decreases s.len(),
{
    if s.len() == 0 {
        seq![]
    } else {
        quotes_doubled(s.drop_last()) + if s.last() == '"' {
            seq!['"', '"']
        } else {
            seq![s.last()]
        }
    }
}

/// A field as it stands in a CSV row.
pub open spec fn csv_field(s: Seq<char>) -> Seq<char> {
    if needs_quotes(s) {
        seq!['"'] + quotes_doubled(s) + seq!['"']
    } else {
        s
    }
}

/// Quotes a CSV field where it holds a comma, a double quote or a line feed, doubling the
/// double quotes inside; any other field stays as it is.
pub fn escape_csv_field(field: &str) -> (r: String)
    ensures
        r@ == csv_field(field@),
{
    let v = chars_of(field);
    let mut quote = false;
    let mut i: usize = 0;
    while i < v.len()
        invariant
            i <= v@.len(),
            v@ == field@,
            quote ==> needs_quotes(field@),
            !quote ==> forall|k: int| 0 <= k < i ==> !(v@[k] == ',' || v@[k] == '"' || v@[k] == '\n'),
        decreases v@.len() - i,
    {
        if v[i] == ',' || v[i] == '"' || v[i] == '\n' {
            quote = true;
        }
        i = i + 1;
    }
    if !quote {
        return String::from_str(field);
    }
    let mut s = String::new();
    push_char(&mut s, '"');
    let mut j: usize = 0;
    while j < v.len()
        invariant
            j <= v@.len(),
            s@ == seq!['"'] + quotes_doubled(v@.take(j as int)),
        decreases v@.len() - j,
    {
        let c = v[j];
        push_char(&mut s, c);
        if c == '"' {
            push_char(&mut s, '"');
        }
        proof {
            assert(v@.take(j + 1).drop_last() =~= v@.take(j as int));
        }
        j = j + 1;
        assert(s@ =~= seq!['"'] + quotes_doubled(v@.take(j as int)));
    }
    push_char(&mut s, '"');
    proof {
        assert(v@.take(j as int) =~= v@);
    }
    s
}

/// The header row of a CSV export.
pub open spec fn csv_header() -> Seq<char> {
    "Process,PID,Protocol,Local Address,Local Port,Remote Address,Remote Port,State,Risk,Captured At\n"@
}

/// The CSV row of one connection after its first field.
pub open spec fn csv_row_tail(c: Connection) -> Seq<char> {
    ","@ + decimal_text(c.pid as nat) + ","@ + csv_field(c.protocol@) + ","@ + csv_field(
        c.local_addr@,
    )
        + ","@ + decimal_text(c.local_port as nat) + ","@ + csv_field(c.remote_addr@) + ","@
        + decimal_text(c.remote_port as nat) + ","@ + csv_field(c.state@) + ","@ + risk_name(c.risk) + ","@
        + decimal_text(c.captured_at as nat) + "\n"@
}

/// The CSV row of one connection.
pub open spec fn csv_row(c: Connection) -> Seq<char> {
    csv_field(c.process_name@) + csv_row_tail(c)
}

/// The CSV rows of a list of connections, in order.
pub open spec fn csv_rows(cs: Seq<Connection>) -> Seq<char>
    decreases cs.len(),
{
    if cs.len() == 0 {
        seq![]
    } else {
        csv_rows(cs.drop_last()) + csv_row(cs.last())
    }
}

fn append_owned(s: &mut String, t: String)
    ensures
        final(s)@ == old(s)@ + t@,
{
    s.append(t.as_str());
}

/// The CSV row of one connection.
pub fn csv_line(c: &Connection) -> (r: String)
    ensures
        r@ == csv_row(*c),
{
    let mut t = String::from_str(",");
    push_decimal(&mut t, c.pid as u64);
    t.append(",");
    append_owned(&mut t, escape_csv_field(c.protocol.as_str()));
    t.append(",");
    append_owned(&mut t, escape_csv_field(c.local_addr.as_str()));
    t.append(",");
    push_decimal(&mut t, c.local_port as u64);
    t.append(",");
    append_owned(&mut t, escape_csv_field(c.remote_addr.as_str()));
    t.append(",");
    push_decimal(&mut t, c.remote_port as u64);
    t.append(",");
    append_owned(&mut t, escape_csv_field(c.state.as_str()));
    t.append(",");
    t.append(c.risk.as_str());
    t.append(",");
    push_decimal(&mut t, c.captured_at);
    t.append("\n");
    let mut s = escape_csv_field(c.process_name.as_str());
    s.append(t.as_str());
    s
}

/// The CSV export of a list of connections: the header row, then one row per connection.
pub fn csv_document(connections: &Vec<Connection>) -> (r: String)
    ensures
        r@ == csv_header() + csv_rows(connections@),
{
    let mut s = String::from_str(
        "Process,PID,Protocol,Local Address,Local Port,Remote Address,Remote Port,State,Risk,Captured At\n",
    );
    let mut i: usize = 0;
    while i < connections.len()
        invariant
            i <= connections@.len(),
            s@ == csv_header() + csv_rows(connections@.take(i as int)),
        decreases connections@.len() - i,
    {
        let row = csv_line(&connections[i]);
        let ghost before = s@;
        s.append(row.as_str());
        proof {
            assert(connections@.take(i + 1).drop_last() =~= connections@.take(i as int));
        }
        i = i + 1;
        assert(s@ =~= csv_header() + csv_rows(connections@.take(i as int)));
    }
    proof {
        assert(connections@.take(i as int) =~= connections@);
    }
    s
}

/// The export formats.
#[derive(Debug, Clone, Copy, PartialEq, Eq, Structural)]
pub enum ExportKind {
    Json,
    Csv,
}

/// The export format that a lower-cased format name names, if any.
pub open spec fn kind_named(lower: Seq<char>) -> Option<ExportKind> {
    if lower == "json"@ {
        Some(ExportKind::Json)
    } else if lower == "csv"@ {
        Some(ExportKind::Csv)
    } else {
        None
    }
}

/// The export format that a lower-cased format name names, if any.
pub fn export_kind_of_lower(lower: &str) -> (r: Option<ExportKind>)
    ensures
        r == kind_named(lower@),
{
    let l = chars_of(lower);
    if equals_text(&l, "json") {
        Some(ExportKind::Json)
    } else if equals_text(&l, "csv") {
        Some(ExportKind::Csv)
    } else {
        None
    }
}

/// The export format that a format name names, whatever its case; otherwise the error that
/// an export with it ends in.
pub fn export_kind(format: &str) -> (r: Result<ExportKind, String>)
    ensures
        match kind_named(lower_of(format@)) {
            Some(k) => r == Ok::<ExportKind, String>(k),
            None => r is Err && r->Err_0@ == "Unsupported export format: "@ + format@,
        },
{
    let lower = lowercase(format);
    match export_kind_of_lower(lower.as_str()) {
        Some(k) => Ok(k),
        None => Err(joined("Unsupported export format: ", format)),
    }
}

/// The name of the file an export made at `timestamp` (seconds) is written to.
pub fn export_file_name(timestamp: u64, format: &str) -> (r: String)
    ensures
        r@ == "netwatch_connections_"@ + decimal_text(timestamp as nat) + "."@ + lower_of(
            format@,
        ),
{
    let mut s = String::from_str("netwatch_connections_");
    push_decimal(&mut s, timestamp);
    s.append(".");
    let lower = lowercase(format);
    s.append(lower.as_str());
    s
}

} // verus!

verus! {

/// A process name holding a comma opens its CSV row quoted, with its double quotes doubled.
pub proof fn lemma_comma_name_quoted(c: Connection, i: int)
    requires
        0 <= i < c.process_name@.len(),
        c.process_name@[i] == ',',
    ensures
        csv_field(c.process_name@) == seq!['"'] + quotes_doubled(c.process_name@) + seq!['"'],
        csv_row(c).take(csv_field(c.process_name@).len() as int) == csv_field(c.process_name@),
{
    let q = csv_field(c.process_name@);
    assert((q + csv_row_tail(c)).take(q.len() as int) =~= q);
}

} // verus!
