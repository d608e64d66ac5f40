//! Level-tagged log lines, log file names, and size-bounded rotation of the
//! log file set.
use vstd::prelude::*;

use crate::clock::{format_timestamp, local_now, timestamp_text, ClockReading};
use crate::text::digit_char;

verus! {

/// Build version of the agent, embedded in log file names and registration requests.
pub const VERSION: &'static str = "0.1.0";

/// Size above which the current log file is rotated before the next append (10 MiB).
pub const MAX_LOG_SIZE_BYTES: u64 = 10 * 1024 * 1024;

/// Number of historical generations kept beside the current log file.
pub const MAX_GENERATIONS: usize = 5;

/// Severity of a log record.
#[derive(Clone, Copy, Debug, PartialEq, Eq, Structural)]
pub enum LogLevel {
    Info,
    Warn,
    Error,
}

/// The tag written for `level`.
pub open spec fn level_name(level: LogLevel) -> Seq<char> {
    match level {
        LogLevel::Info => seq!['I', 'N', 'F', 'O'],
        LogLevel::Warn => seq!['W', 'A', 'R', 'N'],
        LogLevel::Error => seq!['E', 'R', 'R', 'O', 'R'],
    }
}

/// The level named by an upper-cased tag; anything unrecognised is `Info`.
pub open spec fn level_named(upper: Seq<char>) -> LogLevel {
    if upper == seq!['W', 'A', 'R', 'N'] {
        LogLevel::Warn
    } else if upper == seq!['E', 'R', 'R', 'O', 'R'] {
        LogLevel::Error
    } else {
        LogLevel::Info
    }
}

/// What `str::to_uppercase` returns for the characters `s`.
pub uninterp spec fn upper_of(s: Seq<char>) -> Seq<char>;

/// Relies on str::to_uppercase: the result depends on the characters alone.
#[verifier::external_body]
fn uppercase(s: &str) -> (r: String)
    ensures
        r@ == upper_of(s@),
{
    s.to_uppercase()
}

/// Whether two strings hold the same characters.
fn same_text(a: &str, b: &str) -> (r: bool)
    ensures
        r == (a@ == b@),
{
    String::from_str(a) == String::from_str(b)
}

impl LogLevel {
    /// The tag written for this level.
    pub fn as_str(&self) -> (r: &'static str)
        ensures
            r@ == level_name(*self),
    {
        proof {
            reveal_strlit("INFO");
            reveal_strlit("WARN");
            reveal_strlit("ERROR");
        }
        match self {
            LogLevel::Info => {
                assert("INFO"@ =~= level_name(*self));
                "INFO"
            },
            LogLevel::Warn => {
                assert("WARN"@ =~= level_name(*self));
                "WARN"
            },
            LogLevel::Error => {
                assert("ERROR"@ =~= level_name(*self));
                "ERROR"
            },
        }
    }

    /// The level of an already upper-cased tag; anything unrecognised is `Info`.
    pub fn from_upper(upper: &str) -> (r: LogLevel)
        ensures
            r == level_named(upper@),
    {
        proof {
            reveal_strlit("WARN");
            reveal_strlit("ERROR");
            assert("WARN"@ =~= seq!['W', 'A', 'R', 'N']);
            assert("ERROR"@ =~= seq!['E', 'R', 'R', 'O', 'R']);
        }
        if same_text(upper, "WARN") {
            LogLevel::Warn
        } else if same_text(upper, "ERROR") {
            LogLevel::Error
        } else {
            LogLevel::Info
        }
    }
}

impl From<String> for LogLevel {
    /// Parses a level name case-insensitively; anything unrecognised is `Info`.
    fn from(s: String) -> (r: LogLevel) {
        let upper = uppercase(s.as_str());
        LogLevel::from_upper(upper.as_str())
    }
}

impl vstd::std_specs::convert::FromSpecImpl<String> for LogLevel {
    open spec fn obeys_from_spec() -> bool {
        true
    }

    open spec fn from_spec(s: String) -> LogLevel {
        level_named(upper_of(s@))
    }
}

/// `[<ts>][<LEVEL>] <message>` followed by a line feed.
pub open spec fn log_line(ts: Seq<char>, level: LogLevel, message: Seq<char>) -> Seq<char> {
    seq!['['] + ts + seq![']', '['] + level_name(level) + seq![']', ' '] + message + seq!['\n']
}

/// Encodes one log record as a line.
pub fn format_log_line(ts: &str, level: LogLevel, message: &str) -> (r: String)
    ensures
        r@ == log_line(ts@, level, message@),
{
    proof {
        reveal_strlit("[");
        reveal_strlit("][");
        reveal_strlit("] ");
        reveal_strlit("\n");
    }
    let mut out = String::from_str("[");
    out.append(ts);
    out.append("][");
    out.append(level.as_str());
    out.append("] ");
    out.append(message);
    out.append("\n");
    assert(out@ =~= log_line(ts@, level, message@));
    out
}

/// Encodes one log record stamped with the local wall clock.
pub fn log_line_now(level: LogLevel, message: &str) -> (r: String)
    ensures
        exists|t: ClockReading| t.wf() && r@ == log_line(timestamp_text(t), level, message@),
{
    let t = local_now();
    let ts = format_timestamp(&t);
    format_log_line(ts.as_str(), level, message)
}

/// Name of the current log file, `runtime_<VERSION>.log`.
pub open spec fn log_file_name() -> Seq<char> {
    seq!['r', 'u', 'n', 't', 'i', 'm', 'e', '_'] + VERSION@ + seq!['.', 'l', 'o', 'g']
}

/// Name of the file in slot `i`: the current file for 0, generation `i` otherwise.
pub open spec fn slot_name(i: nat) -> Seq<char> {
    if i == 0 {
        log_file_name()
    } else {
        log_file_name() + seq!['.', digit_char(i)]
    }
}

/// The name of the current log file for this build.
pub fn get_log_filename() -> (r: String)
    ensures
        r@ == log_file_name(),
{
    proof {
        reveal_strlit("runtime_");
        reveal_strlit(".log");
    }
    let mut out = String::from_str("runtime_");
    out.append(VERSION);
    out.append(".log");
    assert(out@ =~= log_file_name());
    out
}

/// What `Path::join` gives for `base` and `part`, as text.
pub uninterp spec fn path_joined(base: Seq<char>, part: Seq<char>) -> Seq<char>;

/// Relies on std::path::Path::join: the joined path depends on its two parts alone.
#[verifier::external_body]
fn join_path(base: &str, part: &str) -> (r: String)
    ensures
        r@ == path_joined(base@, part@),
{
    std::path::Path::new(base).join(part).to_string_lossy().into_owned()
}

/// The log directory, `logs` under the agent's configuration directory.
pub fn get_logs_dir(config_dir: &str) -> (r: String)
    ensures
        r@ == path_joined(config_dir@, seq!['l', 'o', 'g', 's']),
{
    proof {
        reveal_strlit("logs");
        assert("logs"@ =~= seq!['l', 'o', 'g', 's']);
    }
    join_path(config_dir, "logs")
}

/// Whether a current log file of `size` bytes is rotated before the next append.
pub fn needs_rotation(size: u64) -> (r: bool)
    ensures
        r == (size > MAX_LOG_SIZE_BYTES),
{
    size > MAX_LOG_SIZE_BYTES
}

} // verus!
