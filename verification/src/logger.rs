//! Log entries handed to the host application, and the rule that decides
//! which records become entries.

use log::{Level, LevelFilter};
use vstd::prelude::*;
use vstd::std_specs::convert::FromSpecImpl;
use vstd::string::{StringExecFns, StringSliceAdditionalSpecFns};

verus! {

/// `log::Level`, the severity of a log record.
#[verifier::external_type_specification]
pub struct ExLevel(Level);

/// `log::LevelFilter`, the most verbose severity that is let through.
#[verifier::external_type_specification]
pub struct ExLevelFilter(LevelFilter);

/// Prefix of the log targets whose records are handed to the host.
pub const LOG_TARGET: &'static str = "rust_lib_roxy";

/// The severity level of a log entry.
#[derive(Debug, Clone, Copy, PartialEq, Eq, Structural)]
pub enum LoggingLevel {
    Error,
    Warn,
    Info,
    Debug,
    Trace,
}

/// A log entry that represents a single log message with metadata.
#[derive(Debug, Clone)]
pub struct LogEntry {
    /// The number of microseconds since the Unix epoch when this log entry
    /// was created.
    pub micros_since_epoch: u128,
    /// The severity level of this log entry.
    pub level: LoggingLevel,
    /// The source file information in the format `filename:line_number`, or
    /// just the target name if file information is not available.
    pub file_info: String,
    /// The actual log message.
    pub msg: String,
}

/// The level of an entry made from a record of the given level.
pub open spec fn entry_level(level: Level) -> LoggingLevel {
    match level {
        Level::Trace => LoggingLevel::Trace,
        Level::Debug => LoggingLevel::Debug,
        Level::Info => LoggingLevel::Info,
        Level::Warn => LoggingLevel::Warn,
        Level::Error => LoggingLevel::Error,
    }
}

/// The filter that lets through records up to the given level.
pub open spec fn filter_for(level: LoggingLevel) -> LevelFilter {
    match level {
        LoggingLevel::Trace => LevelFilter::Trace,
        LoggingLevel::Debug => LevelFilter::Debug,
        LoggingLevel::Info => LevelFilter::Info,
        LoggingLevel::Warn => LevelFilter::Warn,
        LoggingLevel::Error => LevelFilter::Error,
    }
}

impl From<Level> for LoggingLevel {
    fn from(value: Level) -> (level: Self) {
        match value {
            Level::Trace => LoggingLevel::Trace,
            Level::Debug => LoggingLevel::Debug,
            Level::Info => LoggingLevel::Info,
            Level::Warn => LoggingLevel::Warn,
            Level::Error => LoggingLevel::Error,
        }
    }
}

impl FromSpecImpl<Level> for LoggingLevel {
    open spec fn obeys_from_spec() -> bool {
        true
    }

    open spec fn from_spec(value: Level) -> Self {
        entry_level(value)
    }
}

impl From<LoggingLevel> for LevelFilter {
    fn from(value: LoggingLevel) -> (filter: Self) {
        match value {
            LoggingLevel::Trace => LevelFilter::Trace,
            LoggingLevel::Debug => LevelFilter::Debug,
            LoggingLevel::Info => LevelFilter::Info,
            LoggingLevel::Warn => LevelFilter::Warn,
            LoggingLevel::Error => LevelFilter::Error,
        }
    }
}

impl FromSpecImpl<LoggingLevel> for LevelFilter {
    open spec fn obeys_from_spec() -> bool {
        true
    }

    open spec fn from_spec(value: LoggingLevel) -> Self {
        filter_for(value)
    }
}

/// How verbose a level is: 1 for errors up to 5 for traces.
pub open spec fn verbosity(level: Level) -> nat {
    match level {
        Level::Error => 1,
        Level::Warn => 2,
        Level::Info => 3,
        Level::Debug => 4,
        Level::Trace => 5,
    }
}

/// The most verbose level a filter lets through, 0 when it lets nothing
/// through.
pub open spec fn filter_verbosity(filter: LevelFilter) -> nat {
    match filter {
        LevelFilter::Off => 0,
        LevelFilter::Error => 1,
        LevelFilter::Warn => 2,
        LevelFilter::Info => 3,
        LevelFilter::Debug => 4,
        LevelFilter::Trace => 5,
    }
}

/// Whether `text` begins with `prefix`.
pub open spec fn has_prefix(text: Seq<u8>, prefix: Seq<u8>) -> bool {
    prefix.len() <= text.len() && text.subrange(0, prefix.len() as int) == prefix
}

/// Whether a record of the given level and target is handed to the host:
/// its level must pass the filter and its target must begin with
/// [`LOG_TARGET`].
pub open spec fn is_enabled(level: Level, max_level: LevelFilter, target: &str) -> bool {
    verbosity(level) <= filter_verbosity(max_level) && has_prefix(
        target.spec_bytes(),
        LOG_TARGET.spec_bytes(),
    )
}

fn level_rank(level: Level) -> (rank: u8)
    ensures
        rank == verbosity(level),
{
    match level {
        Level::Error => 1,
        Level::Warn => 2,
        Level::Info => 3,
        Level::Debug => 4,
        Level::Trace => 5,
    }
}

fn filter_rank(filter: LevelFilter) -> (rank: u8)
    ensures
        rank == filter_verbosity(filter),
{
    match filter {
        LevelFilter::Off => 0,
        LevelFilter::Error => 1,
        LevelFilter::Warn => 2,
        LevelFilter::Info => 3,
        LevelFilter::Debug => 4,
        LevelFilter::Trace => 5,
    }
}

fn starts_with(text: &[u8], prefix: &[u8]) -> (found: bool)
    ensures
        found == has_prefix(text@, prefix@),
{
    if prefix.len() > text.len() {
        return false;
    }
    let mut i: usize = 0;
    while i < prefix.len()
        invariant
            i <= prefix.len() <= text.len(),
            text@.subrange(0, i as int) == prefix@.subrange(0, i as int),
        decreases prefix.len() - i,
    {
        if text[i] != prefix[i] {
            assert(text@.subrange(0, prefix.len() as int)[i as int] != prefix@[i as int]);
            return false;
        }
        i += 1;
        assert(text@.subrange(0, i as int) =~= text@.subrange(0, i - 1).push(text@[i - 1]));
        assert(prefix@.subrange(0, i as int) =~= prefix@.subrange(0, i - 1).push(prefix@[i - 1]));
    }
    assert(prefix@.subrange(0, i as int) =~= prefix@);
    true
}

/// Decides whether a record of the given level and target is handed to the
/// host, under the given maximum level.
pub fn enabled(level: Level, max_level: LevelFilter, target: &str) -> (enabled: bool)
    ensures
        enabled == is_enabled(level, max_level, target),
{
    level_rank(level) <= filter_rank(max_level) && starts_with(
        target.as_bytes(),
        LOG_TARGET.as_bytes(),
    )
}

/// The character that stands for a decimal digit.
pub open spec fn digit_char(digit: nat) -> char {
    if digit == 0 {
        '0'
    } else if digit == 1 {
        '1'
    } else if digit == 2 {
        '2'
    } else if digit == 3 {
        '3'
    } else if digit == 4 {
        '4'
    } else if digit == 5 {
        '5'
    } else if digit == 6 {
        '6'
    } else if digit == 7 {
        '7'
    } else if digit == 8 {
        '8'
    } else {
        '9'
    }
}

/// A number written in decimal, without leading zeros.
pub open spec fn decimal_text(n: nat) -> Seq<char>
    decreases n,
{
    if n < 10 {
        seq![digit_char(n)]
    } else {
        decimal_text(n / 10).push(digit_char(n % 10))
    }
}

fn digit_text(digit: u32) -> (text: &'static str)
    requires
        digit < 10,
    ensures
        text@ == seq![digit_char(digit as nat)],
{
    proof {
        reveal_strlit("0");
        reveal_strlit("1");
        reveal_strlit("2");
        reveal_strlit("3");
        reveal_strlit("4");
        reveal_strlit("5");
        reveal_strlit("6");
        reveal_strlit("7");
        reveal_strlit("8");
        reveal_strlit("9");
    }
    let text = if digit == 0 {
        "0"
    } else if digit == 1 {
        "1"
    } else if digit == 2 {
        "2"
    } else if digit == 3 {
        "3"
    } else if digit == 4 {
        "4"
    } else if digit == 5 {
        "5"
    } else if digit == 6 {
        "6"
    } else if digit == 7 {
        "7"
    } else if digit == 8 {
        "8"
    } else {
        "9"
    };
    assert(text@ =~= seq![digit_char(digit as nat)]);
    text
}

fn decimal(n: u32) -> (text: String)
    ensures
        text@ == decimal_text(n as nat),
    decreases n,
{
    if n < 10 {
        digit_text(n).to_owned()
    } else {
        let mut text = decimal(n / 10);
        let digit = digit_text(n % 10);
        text.append(digit);
        assert(text@ =~= decimal_text(n as nat));
        text
    }
}

/// Where a record comes from: `file:line` when the file is known, with line
/// 0 standing for an unknown line, and otherwise the target.
pub open spec fn file_info_text(file: Option<&str>, line: Option<u32>, target: &str) -> Seq<char> {
    match file {
        Some(name) => name@ + seq![':'] + decimal_text(
            match line {
                Some(number) => number as nat,
                None => 0,
            },
        ),
        None => target@,
    }
}

impl LogEntry {
    /// Builds the entry for a log record, from what the record holds and the
    /// time at which it was taken.
    pub fn from(
        micros_since_epoch: u128,
        level: Level,
        file: Option<&str>,
        line: Option<u32>,
        target: &str,
        msg: String,
    ) -> (entry: Self)
        ensures
            entry.micros_since_epoch == micros_since_epoch,
            entry.level == entry_level(level),
            entry.file_info@ == file_info_text(file, line, target),
            entry.msg == msg,
    {
        let file_info = match file {
            Some(name) => {
                let number = match line {
                    Some(number) => number,
                    None => 0,
                };
                proof {
                    reveal_strlit(":");
                }
                let mut text = name.to_owned();
                text.append(":");
                text.append(decimal(number).as_str());
                assert(text@ =~= file_info_text(file, line, target));
                text
            },
            None => target.to_owned(),
        };
        LogEntry { micros_since_epoch, level: LoggingLevel::from(level), file_info, msg }
    }
}

} // verus!
