//! The lines that servers log: a timestamp, the level, then the text.
use vstd::prelude::*;
use crate::text::{append_str, push_signed_decimal, push_zero_padded, signed_decimal_text, zero_padded};

verus! {

/// The level of a log line.
#[derive(Debug, PartialEq, Eq, Clone, Copy, Structural)]
pub enum Log {
    Standard,
    Error,
    Warning,
    Debug,
}

impl Log {
    /// What a log line shows for its level, between the timestamp and the text.
    pub open spec fn spec_label(self) -> Seq<char> {
        match self {
            Log::Standard => " "@,
            Log::Error => " ERROR "@,
            Log::Warning => " WARNING "@,
            Log::Debug => " DEBUG "@,
        }
    }

    pub fn label(&self) -> (r: &'static str)
        ensures
            r@ == self.spec_label(),
    {
        match self {
            Log::Standard => " ",
            Log::Error => " ERROR ",
            Log::Warning => " WARNING ",
            Log::Debug => " DEBUG ",
        }
    }

    /// Whether lines of this level go to standard error (errors and warnings) rather than standard output.
    pub fn to_error_stream(&self) -> (r: bool)
        ensures
            r == (*self == Log::Error || *self == Log::Warning),
    {
        match self {
            Log::Error | Log::Warning => true,
            _ => false,
        }
    }
}

/// The local date and time at which a line is logged.
#[derive(Debug, Clone, Copy, PartialEq, Eq, Structural)]
pub struct LogStamp {
    pub year: i32,
    pub month: u32,
    pub day: u32,
    pub hour: u32,
    pub minute: u32,
    pub second: u32,
    pub millis: u32,
}

/// The prefix of a log line: `[YYYY-MM-DD HH:MM:SS.mmm]` (each field zero-padded to its width) followed by
/// the level's label.
pub open spec fn log_prefix_text(stamp: LogStamp, log: Log) -> Seq<char> {
    "["@ + signed_decimal_text(stamp.year as int) + "-"@ + zero_padded(stamp.month as nat, 2) + "-"@
        + zero_padded(stamp.day as nat, 2) + " "@ + zero_padded(stamp.hour as nat, 2) + ":"@
        + zero_padded(stamp.minute as nat, 2) + ":"@ + zero_padded(stamp.second as nat, 2) + "."@
        + zero_padded(stamp.millis as nat, 3) + "]"@ + log.spec_label()
}

/// The prefix of a line logged at `stamp` with level `log`.
pub fn log_prefix(stamp: &LogStamp, log: Log) -> (r: String)
    ensures
        r@ == log_prefix_text(*stamp, log),
{
    let mut s = String::new();
    append_str(&mut s, "[");
    push_signed_decimal(&mut s, stamp.year as i64);
    append_str(&mut s, "-");
    push_zero_padded(&mut s, stamp.month as u64, 2);
    append_str(&mut s, "-");
    push_zero_padded(&mut s, stamp.day as u64, 2);
    append_str(&mut s, " ");
    push_zero_padded(&mut s, stamp.hour as u64, 2);
    append_str(&mut s, ":");
    push_zero_padded(&mut s, stamp.minute as u64, 2);
    append_str(&mut s, ":");
    push_zero_padded(&mut s, stamp.second as u64, 2);
    append_str(&mut s, ".");
    push_zero_padded(&mut s, stamp.millis as u64, 3);
    append_str(&mut s, "]");
    append_str(&mut s, log.label());
    assert(s@ =~= log_prefix_text(*stamp, log));
    s
}

/// A whole log line: the prefix, then the text.
pub fn log_line(stamp: &LogStamp, log: Log, output: &str) -> (r: String)
    ensures
        r@ == log_prefix_text(*stamp, log) + output@,
{
    let mut s = log_prefix(stamp, log);
    append_str(&mut s, output);
    s
}

} // verus!
