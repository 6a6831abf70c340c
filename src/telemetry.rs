//! The shape of the proxy's log lines, and which connection errors count as
//! noise.
use vstd::prelude::*;
use vstd::string::{StringExecFns, StringSliceAdditionalSpecFns};
use crate::text::{contains, contains_bytes};

verus! {

/// Severity of a log line.
#[derive(Clone, Copy, Debug, PartialEq, Eq, Structural)]
pub enum Level {
    Info,
    Warn,
    Error,
}

/// The name of `level` as written in a log line.
pub open spec fn level_name(level: Level) -> Seq<char> {
    match level {
        Level::Info => "INFO"@,
        Level::Warn => "WARN"@,
        Level::Error => "ERROR"@,
    }
}

/// The log line `[timestamp] [LEVEL] message`, ending in a newline.
pub open spec fn log_line(timestamp: Seq<char>, level: Level, message: Seq<char>) -> Seq<char> {
    "["@ + timestamp + "] ["@ + level_name(level) + "] "@ + message + "\n"@
}

impl Level {
    /// The name of the level as written in a log line.
    pub fn as_str(&self) -> (r: &'static str)
        ensures
            r@ == level_name(*self),
    {
        match self {
            Level::Info => "INFO",
            Level::Warn => "WARN",
            Level::Error => "ERROR",
        }
    }
}

/// Formats one log line from its timestamp, level and message.
pub fn format_log_line(timestamp: &str, level: Level, message: &str) -> (r: String)
    ensures
        r@ == log_line(timestamp@, level, message@),
{
    let mut line = "[".to_owned();
    line.append(timestamp);
    line.append("] [");
    line.append(level.as_str());
    line.append("] ");
    line.append(message);
    line.append("\n");
    line
}

/// Relies on `chrono::Local::now` and its `format`: the local time now, as
/// date, time and milliseconds (`2024-01-31 09:05:07.123`).
#[verifier::external_body]
fn local_timestamp() -> (r: String) {
    chrono::Local::now().format("%Y-%m-%d %H:%M:%S%.3f").to_string()
}

/// A log line stamped with the local time now.
pub fn stamped_log_line(level: Level, message: &str) -> (r: String)
    ensures
        exists|timestamp: Seq<char>| r@ == log_line(timestamp, level, message@),
{
    let timestamp = local_timestamp();
    format_log_line(timestamp.as_str(), level, message)
}

/// Whether a client connection error described by `message` is ordinary
/// transport noise (a reset connection or a broken pipe), which is logged at
/// low severity only.
pub open spec fn is_noise(message: Seq<u8>) -> bool {
    contains(message, "connection reset".spec_bytes()) || contains(message, "broken pipe".spec_bytes())
}

/// Whether a client connection error described by `message` is transport
/// noise.
pub fn is_transport_noise(message: &str) -> (r: bool)
    ensures
        r == is_noise(message.spec_bytes()),
{
    let m = message.as_bytes();
    contains_bytes(m, "connection reset".as_bytes()) || contains_bytes(m, "broken pipe".as_bytes())
}

} // verus!
