//! The launcher's log output, modelled as structured records: output lines
//! forwarded from the child's streams, the child's exit status, and the
//! outcome of the launch attempt itself.  Rendering records as text is left
//! to the host.

use vstd::prelude::*;

verus! {

/// Which of the child's output streams a line came from.
#[derive(Clone, Copy, Debug, PartialEq, Eq, Structural)]
pub enum StreamSource {
    Stdout,
    Stderr,
}

/// The severity a record is logged at.
#[derive(Clone, Copy, Debug, PartialEq, Eq, Structural)]
pub enum LogLevel {
    Debug,
    Warn,
    Error,
}

/// How the child process ended: its exit code, or no code when the
/// operating system reported termination without one (e.g. by a signal).
#[derive(Clone, Copy, Debug, PartialEq, Eq)]
pub struct ProcessStatus {
    pub code: Option<i32>,
}

/// A successful exit: the process ended with exit code zero.
pub open spec fn status_success(status: ProcessStatus) -> bool {
    status.code == Some(0i32)
}

/// What waiting on the child process yielded: its final status, or a
/// failure of the wait itself.
#[derive(Clone, Copy, Debug, PartialEq, Eq)]
pub enum WaitResult {
    Exited(ProcessStatus),
    WaitFailed,
}

/// Why a launch attempt failed.  `NotFound` carries the directory that was
/// searched and `SpawnFailed` the operating system's complaint, both for
/// diagnostics.
#[derive(Debug, PartialEq, Eq)]
pub enum LaunchError {
    ResourceDirectoryUnavailable,
    NotFound { directory: String },
    SpawnFailed { message: String },
}

/// The outcome of a launch attempt: the child is running, or the attempt
/// failed and the host carries on without it.
#[derive(Debug, PartialEq, Eq)]
pub enum LaunchOutcome {
    Running,
    Failed(LaunchError),
}

/// The payload of one log record.
#[derive(Debug, PartialEq, Eq)]
pub enum LogMessage {
    OutputLine { source: StreamSource, text: String },
    ExitStatus { status: ProcessStatus },
    WaitError,
    LaunchSucceeded,
    LaunchFailed { error: LaunchError },
    CandidateNotExecutable { index: usize },
}

/// One entry handed to the host's logging sink.
#[derive(Debug, PartialEq, Eq)]
pub struct LogRecord {
    pub level: LogLevel,
    pub message: LogMessage,
}

/// The whitespace characters stripped from the end of an output line.
pub open spec fn is_ws(c: char) -> bool {
    c == ' ' || c == '\t' || c == '\r' || c == '\n'
}

/// `s` without its trailing whitespace.
pub open spec fn trim_end_spec(s: Seq<char>) -> Seq<char>
    decreases s.len(),
{
    if s.len() == 0 {
        s
    } else if is_ws(s.last()) {
        trim_end_spec(s.drop_last())
    } else {
        s
    }
}

/// Whether `c` counts as trailing whitespace.
pub fn is_whitespace_char(c: char) -> (r: bool)
    ensures
        r == is_ws(c),
{
    c == ' ' || c == '\t' || c == '\r' || c == '\n'
}

/// Strips trailing whitespace from one line of output.
pub fn trim_line_end(s: &str) -> (r: String)
    ensures
        r@ == trim_end_spec(s@),
{
    proof {
        assert(s@.subrange(0, s@.len() as int) =~= s@);
    }
    let mut n = s.unicode_len();
    while n > 0 && is_whitespace_char(s.get_char(n - 1))
        invariant
            n <= s@.len(),
            trim_end_spec(s@) == trim_end_spec(s@.subrange(0, n as int)),
        decreases n,
    {
        proof {
            let p = s@.subrange(0, n as int);
            assert(p.last() == s@[n - 1]);
            assert(p.drop_last() =~= s@.subrange(0, n - 1));
        }
        n = n - 1;
    }
    proof {
        let p = s@.subrange(0, n as int);
        if n > 0 {
            assert(p.last() == s@[n - 1]);
        } else {
            assert(p =~= Seq::<char>::empty());
        }
        assert(trim_end_spec(p) == p);
    }
    let r = s.substring_char(0, n);
    String::from_str(r)
}

/// Turns one raw line from the child's output into a log record: the line
/// is trimmed of trailing whitespace, dropped if nothing remains, and
/// otherwise forwarded at debug level, tagged with its stream of origin.
pub fn forward_output_line(source: StreamSource, raw: &str) -> (r: Option<LogRecord>)
    ensures
        r is Some <==> trim_end_spec(raw@).len() > 0,
        r matches Some(rec) ==> {
            &&& rec.level is Debug
            &&& rec.message matches LogMessage::OutputLine { source: s, text } && s == source
                && text@ == trim_end_spec(raw@)
        },
{
    let text = trim_line_end(raw);
    if text.as_str().is_empty() {
        None
    } else {
        Some(LogRecord { level: LogLevel::Debug, message: LogMessage::OutputLine { source, text } })
    }
}

/// The views of a sequence of owned lines.
pub open spec fn line_views(lines: Seq<String>) -> Seq<Seq<char>> {
    lines.map_values(|l: String| l@)
}

/// The trimmed texts of the lines among the first `n` that survive
/// trimming, in their original order.
pub open spec fn kept_lines_before(lines: Seq<Seq<char>>, n: int) -> Seq<Seq<char>>
    recommends
        n <= lines.len(),
    decreases n,
{
    if n <= 0 {
        Seq::empty()
    } else {
        let prefix = kept_lines_before(lines, n - 1);
        if trim_end_spec(lines[n - 1]).len() > 0 {
            prefix.push(trim_end_spec(lines[n - 1]))
        } else {
            prefix
        }
    }
}

/// The trimmed texts of the lines that survive trimming, in order.
pub open spec fn kept_lines(lines: Seq<Seq<char>>) -> Seq<Seq<char>> {
    kept_lines_before(lines, lines.len() as int)
}

/// The record is a debug-level output line tagged with `source`.
pub open spec fn record_is_output(rec: LogRecord, source: StreamSource) -> bool {
    &&& rec.level is Debug
    &&& rec.message matches LogMessage::OutputLine { source: s, .. } && s == source
}

/// The forwarded text of a record, empty for records of other kinds.
pub open spec fn record_text(rec: LogRecord) -> Seq<char> {
    match rec.message {
        LogMessage::OutputLine { text, .. } => text@,
        _ => Seq::empty(),
    }
}

/// The forwarded texts of a sequence of records.
pub open spec fn record_texts(recs: Seq<LogRecord>) -> Seq<Seq<char>> {
    recs.map_values(|rec: LogRecord| record_text(rec))
}

/// Forwards a batch of raw lines from one stream, in order: the records
/// are exactly the lines that survive trimming, trimmed, each at debug
/// level and tagged with `source`, in the order the lines arrived.
pub fn forward_lines(source: StreamSource, lines: &Vec<String>) -> (r: Vec<LogRecord>)
    ensures
        forall|k: int| 0 <= k < r@.len() ==> record_is_output(#[trigger] r@[k], source),
        record_texts(r@) == kept_lines(line_views(lines@)),
{
    let mut r: Vec<LogRecord> = Vec::new();
    let mut i: usize = 0;
    proof {
        assert(record_texts(r@) =~= kept_lines_before(line_views(lines@), 0));
    }
    while i < lines.len()
        invariant
            i <= lines@.len(),
            forall|k: int| 0 <= k < r@.len() ==> record_is_output(#[trigger] r@[k], source),
            record_texts(r@) == kept_lines_before(line_views(lines@), i as int),
        decreases lines@.len() - i,
    {
        let ghost prev = r@;
        if let Some(rec) = forward_output_line(source, lines[i].as_str()) {
            r.push(rec);
        }
        proof {
            assert(line_views(lines@)[i as int] == lines@[i as int]@);
            assert(record_texts(r@) =~= kept_lines_before(line_views(lines@), i + 1));
        }
        i = i + 1;
    }
    r
}

/// Classifies the end of the child process: a zero exit code is reported
/// at debug level, any other status at warning level with the status, and
/// a failure to wait at error level.
pub fn monitor_exit_record(wait: &WaitResult) -> (r: LogRecord)
    ensures
        *wait matches WaitResult::Exited(status) ==> r.message == (LogMessage::ExitStatus {
            status,
        }),
        *wait matches WaitResult::Exited(status) && status_success(status) ==> r.level is Debug,
        *wait matches WaitResult::Exited(status) && !status_success(status) ==> r.level is Warn,
        *wait is WaitFailed ==> r == (LogRecord { level: LogLevel::Error, message: LogMessage::WaitError }),
{
    match wait {
        WaitResult::Exited(status) => {
            let ok = match status.code {
                Some(c) => c == 0,
                None => false,
            };
            let level = if ok {
                LogLevel::Debug
            } else {
                LogLevel::Warn
            };
            LogRecord { level, message: LogMessage::ExitStatus { status: *status } }
        },
        WaitResult::WaitFailed => LogRecord { level: LogLevel::Error, message: LogMessage::WaitError },
    }
}

/// Reports the outcome of the whole launch attempt: success at debug
/// level, every failure absorbed into a warning record for the host's log
/// rather than an error surfaced to the host's control flow.
pub fn report_launch_outcome(outcome: LaunchOutcome) -> (r: LogRecord)
    ensures
        outcome is Running ==> r == (LogRecord {
            level: LogLevel::Debug,
            message: LogMessage::LaunchSucceeded,
        }),
        outcome matches LaunchOutcome::Failed(e) ==> r == (LogRecord {
            level: LogLevel::Warn,
            message: LogMessage::LaunchFailed { error: e },
        }),
{
    match outcome {
        LaunchOutcome::Running => LogRecord {
            level: LogLevel::Debug,
            message: LogMessage::LaunchSucceeded,
        },
        LaunchOutcome::Failed(e) => LogRecord {
            level: LogLevel::Warn,
            message: LogMessage::LaunchFailed { error: e },
        },
    }
}

/// A warning that the candidate at `index` exists but is not executable.
pub fn candidate_skip_record(index: usize) -> (r: LogRecord)
    ensures
        r == (LogRecord {
            level: LogLevel::Warn,
            message: LogMessage::CandidateNotExecutable { index },
        }),
{
    LogRecord { level: LogLevel::Warn, message: LogMessage::CandidateNotExecutable { index } }
}

} // verus!
