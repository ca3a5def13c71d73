//! Decisions of the command line: how verbose logging is, and how the API
//! host is reached.
use vstd::prelude::*;
use crate::text::{chars_of, starts_with_word};

verus! {

/// How much the client logs, from nothing to everything.
#[derive(Debug, Clone, Copy, PartialEq, Eq, Structural)]
pub enum LogLevel {
    Silent,
    Error,
    Warn,
    Info,
    Debug,
    Trace,
}

/// The log level for a count of `-v` flags: errors only by default; `-v`
/// adds warnings, `-vv` info, `-vvv` debug and `-vvvv` (or more) trace; a
/// negative count silences logging.
pub open spec fn level_for(verbose: i8) -> LogLevel {
    if verbose < 0 {
        LogLevel::Silent
    } else if verbose == 0 {
        LogLevel::Error
    } else if verbose == 1 {
        LogLevel::Warn
    } else if verbose == 2 {
        LogLevel::Info
    } else if verbose == 3 {
        LogLevel::Debug
    } else {
        LogLevel::Trace
    }
}

/// How much a level lets through: each level shows all that the levels
/// below it show.
pub open spec fn level_rank(l: LogLevel) -> nat {
    match l {
        LogLevel::Silent => 0,
        LogLevel::Error => 1,
        LogLevel::Warn => 2,
        LogLevel::Info => 3,
        LogLevel::Debug => 4,
        LogLevel::Trace => 5,
    }
}

/// The log level for `verbose` occurrences of the `-v` flag.
pub fn log_level(verbose: i8) -> (l: LogLevel)
    ensures
        l == level_for(verbose),
{
    if verbose < 0 {
        LogLevel::Silent
    } else if verbose == 0 {
        LogLevel::Error
    } else if verbose == 1 {
        LogLevel::Warn
    } else if verbose == 2 {
        LogLevel::Info
    } else if verbose == 3 {
        LogLevel::Debug
    } else {
        LogLevel::Trace
    }
}

impl LogLevel {
    /// The name of this level in a logger filter.
    pub fn filter_name(self) -> (name: &'static str)
        ensures
            name@ == (match self {
                LogLevel::Silent => "none"@,
                LogLevel::Error => "error"@,
                LogLevel::Warn => "warn"@,
                LogLevel::Info => "info"@,
                LogLevel::Debug => "debug"@,
                LogLevel::Trace => "trace"@,
            }),
    {
        match self {
            LogLevel::Silent => "none",
            LogLevel::Error => "error",
            LogLevel::Warn => "warn",
            LogLevel::Info => "info",
            LogLevel::Debug => "debug",
            LogLevel::Trace => "trace",
        }
    }
}

/// The transports by which the API host can be reached.
#[derive(Debug, Clone, Copy, PartialEq, Eq, Structural)]
pub enum HostScheme {
    Https,
    Http,
}

/// Whether `s` begins with `word`.
pub open spec fn begins_with(s: Seq<char>, word: Seq<char>) -> bool {
    word.len() <= s.len() && s.take(word.len() as int) == word
}

/// The transport that an API host URL names: HTTPS for `https://`, HTTP
/// for `http://`, and none for any other beginning.
pub open spec fn host_scheme_of(host: Seq<char>) -> Option<HostScheme> {
    if begins_with(host, "https://"@) {
        Some(HostScheme::Https)
    } else if begins_with(host, "http://"@) {
        Some(HostScheme::Http)
    } else {
        None
    }
}

/// The transport that an API host URL names: HTTPS for `https://`, HTTP
/// for `http://`, and none for any other beginning.
pub fn api_host_scheme(host: &str) -> (r: Option<HostScheme>)
    ensures
        r == host_scheme_of(host@),
{
    let v = chars_of(host);
    if starts_with_word(&v, "https://") {
        Some(HostScheme::Https)
    } else if starts_with_word(&v, "http://") {
        Some(HostScheme::Http)
    } else {
        None
    }
}

} // verus!
