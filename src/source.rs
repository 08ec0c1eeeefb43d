//! The decisions between a structured source and its plain-text fallback. The caller runs
//! the commands and hands their outcomes in; these functions say what follows from them.
use vstd::prelude::*;
use vstd::string::*;
use std::collections::HashMap;
use crate::text::joined;
use crate::windows::{PowerShellProcess, names};

verus! {

broadcast use vstd::std_specs::hash::group_hash_axioms;

/// The three sources that a snapshot reads.
#[derive(Debug, Clone, Copy, PartialEq, Eq, Structural)]
pub enum SourceKind {
    Tcp,
    Udp,
    Processes,
}

/// How one run of an outside command ended.
pub enum CommandRun {
    /// The command could not be started; the text of the launch error.
    NotStarted(String),
    /// The command ran to an exit status. `stdout` is its output read as UTF-8, or the text
    /// of the decoding error; `stderr` its error output.
    Exited { success: bool, stdout: Result<String, String>, stderr: String },
}

/// What the structured output was read as: a list, a lone record, or neither (with the
/// text of the error from reading it as a lone record).
pub enum JsonShape<T> {
    Many(Vec<T>),
    Single(T),
    Malformed(String),
}

pub open spec fn succeeded(run: CommandRun) -> bool {
    match run {
        CommandRun::Exited { success, .. } => success,
        CommandRun::NotStarted(_) => false,
    }
}

pub open spec fn structured_decode_prefix(kind: SourceKind) -> Seq<char> {
    match kind {
        SourceKind::Tcp => "Failed to parse PowerShell output: "@,
        SourceKind::Udp => "Failed to parse PowerShell UDP output: "@,
        SourceKind::Processes => "Failed to parse PowerShell process output: "@,
    }
}

pub open spec fn malformed_prefix(kind: SourceKind) -> Seq<char> {
    match kind {
        SourceKind::Tcp => "Failed to parse TCP connections JSON: "@,
        SourceKind::Udp => "Failed to parse UDP endpoints JSON: "@,
        SourceKind::Processes => "Failed to parse processes JSON: "@,
    }
}

pub open spec fn fallback_decode_prefix(kind: SourceKind) -> Seq<char> {
    match kind {
        SourceKind::Tcp => "Failed to parse netstat output: "@,
        SourceKind::Udp => "Failed to parse UDP netstat output: "@,
        SourceKind::Processes => "Failed to parse tasklist output: "@,
    }
}

pub open spec fn not_started_prefix(kind: SourceKind) -> Seq<char> {
    match kind {
        SourceKind::Tcp => "Failed to execute PowerShell and fallback command: "@,
        SourceKind::Udp => "Failed to execute PowerShell and fallback UDP command: "@,
        SourceKind::Processes => "Failed to execute PowerShell and fallback process command: "@,
    }
}

pub open spec fn failed_prefix(kind: SourceKind) -> Seq<char> {
    match kind {
        SourceKind::Tcp => "PowerShell command failed and fallback also failed: "@,
        SourceKind::Udp => "PowerShell UDP command failed and fallback also failed: "@,
        SourceKind::Processes => "PowerShell process command failed and fallback also failed: "@,
    }
}

/// Whether the structured source's run can be used; otherwise the fallback is run.
pub fn primary_usable(run: &CommandRun) -> (r: bool)
    ensures
        r == succeeded(*run),
{
    match run {
        CommandRun::Exited { success, .. } => *success,
        CommandRun::NotStarted(_) => false,
    }
}

fn with_prefix(prefix: &str, detail: &String) -> (r: String)
    ensures
        r@ == prefix@ + detail@,
{
    joined(prefix, detail.as_str())
}

/// What came of the structured source: unusable (it could not start or failed), output
/// that is no UTF-8 (with the decoding error's text), or output read as JSON.
pub enum StructuredOutcome<T> {
    Unusable,
    Undecodable(String),
    Parsed(JsonShape<T>),
}

/// What a source does after its structured attempt: finish with rows or an error, or run
/// the plain-text fallback.
pub enum NextStep<T> {
    Done(Result<Vec<T>, String>),
    RunFallback,
}

/// The output of the structured source's run where it can be used: its text, or the text
/// of the decoding error. `None` where the run cannot be used.
pub fn structured_stdout(run: &CommandRun) -> (r: Option<Result<String, String>>)
    ensures
        !succeeded(*run) ==> r is None,
        succeeded(*run) ==> match *run {
            CommandRun::Exited { stdout, .. } => r == Some(stdout),
            CommandRun::NotStarted(_) => false,
        },
{
    match run {
        CommandRun::Exited { success, stdout, .. } => {
            if *success {
                match stdout {
                    Ok(t) => Some(Ok(t.clone())),
                    Err(e) => Some(Err(e.clone())),
                }
            } else {
                None
            }
        },
        CommandRun::NotStarted(_) => None,
    }
}

/// The records of the structured output: the list, the lone record as a list of one, or
/// an error naming what could not be read.
pub fn rows_from_shape<T>(kind: SourceKind, shape: JsonShape<T>) -> (r: Result<Vec<T>, String>)
    ensures
        match shape {
            JsonShape::Many(v) => r == Ok::<Vec<T>, String>(v),
            JsonShape::Single(x) => r is Ok && r->Ok_0@ == seq![x],
            JsonShape::Malformed(e) => r is Err && r->Err_0@ == malformed_prefix(kind) + e@,
        },
{
    match shape {
        JsonShape::Many(v) => Ok(v),
        JsonShape::Single(x) => {
            let mut v: Vec<T> = Vec::new();
            v.push(x);
            proof {
                assert(v@ =~= seq![x]);
            }
            Ok(v)
        },
        JsonShape::Malformed(e) => {
            let prefix = match kind {
                SourceKind::Tcp => "Failed to parse TCP connections JSON: ",
                SourceKind::Udp => "Failed to parse UDP endpoints JSON: ",
                SourceKind::Processes => "Failed to parse processes JSON: ",
            };
            Err(with_prefix(prefix, &e))
        },
    }
}

/// Whether output that cannot be read sends a source to its fallback, rather than ending it
/// in an error: so for the process table, not for the endpoint lists.
pub open spec fn falls_back_on_bad_output(kind: SourceKind) -> bool {
    kind == SourceKind::Processes
}

/// The step after the structured attempt of a source. An unusable run goes to the fallback;
/// a list or a lone record gives its rows; output that cannot be read goes to the fallback
/// for the process table and ends in an error naming it for the endpoint lists.
pub fn next_step<T>(kind: SourceKind, outcome: StructuredOutcome<T>) -> (r: NextStep<T>)
    ensures
        match outcome {
            StructuredOutcome::Unusable => r is RunFallback,
            StructuredOutcome::Undecodable(e) => if falls_back_on_bad_output(kind) {
                r is RunFallback
            } else {
                r is Done && r->Done_0 is Err && r->Done_0->Err_0@ == structured_decode_prefix(kind) + e@
            },
            StructuredOutcome::Parsed(JsonShape::Many(v)) => r == NextStep::Done(
                Ok::<Vec<T>, String>(v),
            ),
            StructuredOutcome::Parsed(JsonShape::Single(x)) => r is Done && r->Done_0 is Ok
                && r->Done_0->Ok_0@ == seq![x],
            StructuredOutcome::Parsed(JsonShape::Malformed(e)) => if falls_back_on_bad_output(
                kind,
            ) {
                r is RunFallback
            } else {
                r is Done && r->Done_0 is Err && r->Done_0->Err_0@ == malformed_prefix(kind) + e@
            },
        },
{
    let fall_back = match kind {
        SourceKind::Processes => true,
        _ => false,
    };
    match outcome {
        StructuredOutcome::Unusable => NextStep::RunFallback,
        StructuredOutcome::Undecodable(e) => {
            if fall_back {
                NextStep::RunFallback
            } else {
                let prefix = match kind {
                    SourceKind::Tcp => "Failed to parse PowerShell output: ",
                    SourceKind::Udp => "Failed to parse PowerShell UDP output: ",
                    SourceKind::Processes => "Failed to parse PowerShell process output: ",
                };
                NextStep::Done(Err(with_prefix(prefix, &e)))
            }
        },
        StructuredOutcome::Parsed(shape) => {
            let bad = match &shape {
                JsonShape::Malformed(_) => true,
                _ => false,
            };
            if bad && fall_back {
                NextStep::RunFallback
            } else {
                NextStep::Done(rows_from_shape(kind, shape))
            }
        },
    }
}

/// After the structured source failed: the fallback's text where it succeeded, else the
/// error, which tells a decoding failure of the fallback from a failure of both commands.
pub fn fallback_text(kind: SourceKind, primary: &CommandRun, fallback: &CommandRun) -> (r: Result<
    String,
    String,
>)
    ensures
        succeeded(*fallback) ==> match *fallback {
            CommandRun::Exited { stdout, .. } => match stdout {
                Ok(t) => r == Ok::<String, String>(t),
                Err(e) => r is Err && r->Err_0@ == fallback_decode_prefix(kind) + e@,
            },
            CommandRun::NotStarted(_) => false,
        },
        !succeeded(*fallback) ==> r is Err && match *primary {
            CommandRun::NotStarted(e) => r->Err_0@ == not_started_prefix(kind) + e@,
            CommandRun::Exited { stderr, .. } => r->Err_0@ == failed_prefix(kind) + stderr@,
        },
{
    if primary_usable(fallback) {
        match fallback {
            CommandRun::Exited { stdout, .. } => match stdout {
                Ok(t) => Ok(t.clone()),
                Err(e) => {
                    let prefix = match kind {
                        SourceKind::Tcp => "Failed to parse netstat output: ",
                        SourceKind::Udp => "Failed to parse UDP netstat output: ",
                        SourceKind::Processes => "Failed to parse tasklist output: ",
                    };
                    Err(with_prefix(prefix, e))
                },
            },
            CommandRun::NotStarted(_) => Err(String::new()),
        }
    } else {
        match primary {
            CommandRun::NotStarted(e) => {
                let prefix = match kind {
                    SourceKind::Tcp => "Failed to execute PowerShell and fallback command: ",
                    SourceKind::Udp => "Failed to execute PowerShell and fallback UDP command: ",
                    SourceKind::Processes =>
                        "Failed to execute PowerShell and fallback process command: ",
                };
                Err(with_prefix(prefix, e))
            },
            CommandRun::Exited { stderr, .. } => {
                let prefix = match kind {
                    SourceKind::Tcp => "PowerShell command failed and fallback also failed: ",
                    SourceKind::Udp => "PowerShell UDP command failed and fallback also failed: ",
                    SourceKind::Processes =>
                        "PowerShell process command failed and fallback also failed: ",
                };
                Err(with_prefix(prefix, stderr))
            },
        }
    }
}

/// The process table of a structured process list, in which a later process wins over an
/// earlier one with its id.
pub open spec fn process_table(procs: Seq<PowerShellProcess>) -> Map<u32, Seq<char>>
    decreases procs.len(),
{
    if procs.len() == 0 {
        Map::empty()
    } else {
        process_table(procs.drop_last()).insert(procs.last().id, procs.last().name@)
    }
}

/// The process table of a structured process list.
pub fn process_map(procs: Vec<PowerShellProcess>) -> (r: HashMap<u32, String>)
    ensures
        names(r@) == process_table(procs@),
{
    let mut table: HashMap<u32, String> = HashMap::new();
    let mut i: usize = 0;
    proof {
        assert(names(table@) =~= process_table(procs@.take(0)));
    }
    while i < procs.len()
        invariant
            i <= procs@.len(),
            names(table@) == process_table(procs@.take(i as int)),
        decreases procs@.len() - i,
    {
        let p = &procs[i];
        let ghost before = table@;
        table.insert(p.id, String::from_str(p.name.as_str()));
        proof {
            assert(procs@.take(i + 1).drop_last() =~= procs@.take(i as int));
            assert(names(table@) =~= names(before).insert(p.id, p.name@));
        }
        i = i + 1;
    }
    proof {
        assert(procs@.take(i as int) =~= procs@);
    }
    table
}

} // verus!
