//! Log severities and how they are read from an environment value.

use vstd::prelude::*;
use vstd::string::*;

verus! {

/// An ordered severity threshold, from `Off` (nothing) to `Trace` (everything).
#[derive(Clone, Copy, Debug, PartialEq, Eq, Structural)]
pub enum LogLevel {
    Off,
    Error,
    Warn,
    Info,
    Debug,
    Trace,
}

impl LogLevel {
    /// The position of the level in the order `Off < Error < Warn < Info < Debug < Trace`.
    pub open spec fn rank(self) -> nat {
        match self {
            LogLevel::Off => 0,
            LogLevel::Error => 1,
            LogLevel::Warn => 2,
            LogLevel::Info => 3,
            LogLevel::Debug => 4,
            LogLevel::Trace => 5,
        }
    }

    /// The upper-case name of the level.
    pub open spec fn name(self) -> Seq<char> {
        match self {
            LogLevel::Off => "OFF"@,
            LogLevel::Error => "ERROR"@,
            LogLevel::Warn => "WARN"@,
            LogLevel::Info => "INFO"@,
            LogLevel::Debug => "DEBUG"@,
            LogLevel::Trace => "TRACE"@,
        }
    }

    /// The position of the level in the severity order.
    pub fn severity(&self) -> (r: u8)
        ensures
            r == self.rank(),
    {
        match self {
            LogLevel::Off => 0,
            LogLevel::Error => 1,
            LogLevel::Warn => 2,
            LogLevel::Info => 3,
            LogLevel::Debug => 4,
            LogLevel::Trace => 5,
        }
    }
}

/// The ASCII lower-case form of a character; other characters are unchanged.
pub open spec fn ascii_lower(c: char) -> char {
    if 'A' <= c && c <= 'Z' {
        ((c as u8) + 32) as char
    } else {
        c
    }
}

/// Equality of two strings up to the case of ASCII letters.
pub open spec fn eq_ignore_ascii_case(a: Seq<char>, b: Seq<char>) -> bool {
    &&& a.len() == b.len()
    &&& forall|i: int| 0 <= i < a.len() ==> ascii_lower(a[i]) == ascii_lower(b[i])
}

/// The level that a name stands for: the first level, in severity order,
/// whose name equals the text up to ASCII case.
pub open spec fn level_of_name(text: Seq<char>) -> Option<LogLevel> {
    if eq_ignore_ascii_case(text, LogLevel::Off.name()) {
        Some(LogLevel::Off)
    } else if eq_ignore_ascii_case(text, LogLevel::Error.name()) {
        Some(LogLevel::Error)
    } else if eq_ignore_ascii_case(text, LogLevel::Warn.name()) {
        Some(LogLevel::Warn)
    } else if eq_ignore_ascii_case(text, LogLevel::Info.name()) {
        Some(LogLevel::Info)
    } else if eq_ignore_ascii_case(text, LogLevel::Debug.name()) {
        Some(LogLevel::Debug)
    } else if eq_ignore_ascii_case(text, LogLevel::Trace.name()) {
        Some(LogLevel::Trace)
    } else {
        None
    }
}

/// The level that a raw environment value resolves to.
pub open spec fn level_of_value(value: Option<Seq<char>>, default: LogLevel) -> LogLevel {
    match value {
        Some(v) => match level_of_name(v) {
            Some(level) => level,
            None => default,
        },
        None => default,
    }
}

/// Calls `log::LevelFilter::from_str`. Trusted: it walks the six level names
/// in severity order and returns the first that matches the text up to ASCII
/// case, or an error when none does.
#[verifier::external_body]
pub(crate) fn parse_level_filter(text: &str) -> (r: Option<LogLevel>)
    ensures
        r == level_of_name(text@),
{
    let parsed: Result<log::LevelFilter, log::ParseLevelError> = std::str::FromStr::from_str(text);
    match parsed {
        Ok(log::LevelFilter::Off) => Some(LogLevel::Off),
        Ok(log::LevelFilter::Error) => Some(LogLevel::Error),
        Ok(log::LevelFilter::Warn) => Some(LogLevel::Warn),
        Ok(log::LevelFilter::Info) => Some(LogLevel::Info),
        Ok(log::LevelFilter::Debug) => Some(LogLevel::Debug),
        Ok(log::LevelFilter::Trace) => Some(LogLevel::Trace),
        Err(_) => None,
    }
}

/// Resolves the log level from the raw value of its variable, `None` when the
/// variable is unset or unreadable. An unset or unrecognised value resolves
/// to `default`.
pub fn read_log_level_from_env_var(value: Option<&str>, default: LogLevel) -> (r: LogLevel)
    ensures
        r == level_of_value(crate::text::view_of(value), default),
{
    match value {
        Some(v) => match parse_level_filter(v) {
            Some(level) => level,
            None => default,
        },
        None => default,
    }
}

/// A value whose text is a level's name, in any ASCII case, resolves to that level.
pub proof fn level_name_resolves_to_level(text: Seq<char>, level: LogLevel, default: LogLevel)
    requires
        eq_ignore_ascii_case(text, level.name()),
    ensures
        level_of_value(Some(text), default) == level,
{
    reveal_strlit("OFF");
    reveal_strlit("ERROR");
    reveal_strlit("WARN");
    reveal_strlit("INFO");
    reveal_strlit("DEBUG");
    reveal_strlit("TRACE");
    let found = level_of_name(text);
    if found != Some(level) {
        // Two names that both match the text have the same length and the
        // same letters up to case, which no two level names do.
        assert(ascii_lower(text[0]) == ascii_lower(level.name()[0]));
        assert(ascii_lower(text[1]) == ascii_lower(level.name()[1]));
    }
}

/// An unset value, or one that names no level, resolves to the default unchanged.
pub proof fn unreadable_level_resolves_to_default(value: Option<Seq<char>>, default: LogLevel)
    requires
        value is None || level_of_name(value->0) is None,
    ensures
        level_of_value(value, default) == default,
{
}

} // verus!
