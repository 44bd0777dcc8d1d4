//! Boolean flags read from environment values.

use vstd::prelude::*;
use vstd::string::*;
use crate::text::{lowercase, lowercase_of, str_eq, text_of, view_of};

verus! {

/// The boolean that an already lower-cased value stands for: `true` for
/// `"true"` and `"1"`, `false` for `"false"` and `"0"`, otherwise `default`.
pub open spec fn bool_of_lowered(lowered: Seq<char>, default: bool) -> bool {
    if lowered == "true"@ || lowered == "1"@ {
        true
    } else if lowered == "false"@ || lowered == "0"@ {
        false
    } else {
        default
    }
}

/// Whether an already lower-cased value is one of the four recognised words.
pub open spec fn is_bool_word(lowered: Seq<char>) -> bool {
    lowered == "true"@ || lowered == "1"@ || lowered == "false"@ || lowered == "0"@
}

/// The flag that a raw environment value resolves to.
pub open spec fn bool_of_value(value: Option<Seq<char>>, default: bool) -> bool {
    match value {
        Some(v) => bool_of_lowered(lowercase_of(v), default),
        None => default,
    }
}

/// Reads a flag from a value that has already been lower-cased.
pub fn parse_bool_lowered(lowered: &str, default: bool) -> (r: bool)
    ensures
        r == bool_of_lowered(lowered@, default),
{
    if str_eq(lowered, "true") || str_eq(lowered, "1") {
        true
    } else if str_eq(lowered, "false") || str_eq(lowered, "0") {
        false
    } else {
        default
    }
}

/// Resolves a flag from the raw value of its variable, `None` when the
/// variable is unset or unreadable. Never fails: anything unrecognised
/// resolves to `default`.
pub fn read_bool_env_var(value: Option<&str>, default: bool) -> (r: bool)
    ensures
        r == bool_of_value(view_of(value), default),
{
    match value {
        Some(v) => {
            let lowered = lowercase(v);
            parse_bool_lowered(lowered.as_str(), default)
        },
        None => default,
    }
}

/// Whether JIT optimizations are disabled, from the raw value of
/// `ELASTIC_APM_PROFILER_DISABLE_OPTIMIZATIONS`. They are not, unless the
/// value says so.
pub fn disable_optimizations(value: Option<&str>) -> (r: bool)
    ensures
        r == bool_of_value(view_of(value), false),
{
    read_bool_env_var(value, false)
}

/// Whether inlining is enabled, from the raw value of
/// `ELASTIC_APM_PROFILER_ENABLE_INLINING`, with the caller's default.
pub fn enable_inlining(value: Option<&str>, default: bool) -> (r: bool)
    ensures
        r == bool_of_value(view_of(value), default),
{
    read_bool_env_var(value, default)
}

/// Whether the IL of rewritten methods is logged, from the raw value of
/// `ELASTIC_APM_PROFILER_LOG_IL`. It is not, unless the value says so.
pub fn log_il(value: Option<&str>) -> (r: bool)
    ensures
        r == bool_of_value(view_of(value), false),
{
    read_bool_env_var(value, false)
}

/// Whether call-target instrumentation is enabled, from the raw value of
/// `ELASTIC_APM_PROFILER_CALLTARGET_ENABLED`. It is, unless the value says
/// otherwise.
pub fn calltarget_enabled(value: Option<&str>) -> (r: bool)
    ensures
        r == bool_of_value(view_of(value), true),
{
    read_bool_env_var(value, true)
}

/// The word that a boolean is written as.
pub open spec fn bool_word(b: bool) -> Seq<char> {
    if b {
        "true"@
    } else {
        "false"@
    }
}

/// The note for a value that is none of the recognised words.
pub open spec fn unknown_value_note(key: Seq<char>, raw: Seq<char>, default: bool) -> Seq<char> {
    "Unknown value for "@ + key + ": "@ + raw + ". Setting to "@ + bool_word(default)
}

/// The note for a variable that could not be read.
pub open spec fn unreadable_note(key: Seq<char>, problem: Seq<char>, default: bool) -> Seq<char> {
    "Problem reading "@ + key + ": "@ + problem + ". Setting to "@ + bool_word(default)
}

/// The note that goes with a lower-cased value: none when it is a
/// recognised word, else one that names the key, the raw value and the
/// default.
pub open spec fn note_of_lowered(
    key: Seq<char>,
    raw: Seq<char>,
    lowered: Seq<char>,
    default: bool,
) -> Option<Seq<char>> {
    if is_bool_word(lowered) {
        None
    } else {
        Some(unknown_value_note(key, raw, default))
    }
}

/// The note that goes with what was read of a variable.
pub open spec fn note_of_read(
    key: Seq<char>,
    read: Result<&str, &str>,
    default: bool,
) -> Option<Seq<char>> {
    match read {
        Ok(raw) => note_of_lowered(key, raw@, lowercase_of(raw@), default),
        Err(problem) => Some(unreadable_note(key, problem@, default)),
    }
}

fn word_of(b: bool) -> (r: &'static str)
    ensures
        r@ == bool_word(b),
{
    if b {
        "true"
    } else {
        "false"
    }
}

/// The informational note for a value whose lower-cased form is `lowered`.
pub fn fallback_note_lowered(key: &str, raw: &str, lowered: &str, default: bool) -> (r: Option<
    String,
>)
    ensures
        text_of(r) == note_of_lowered(key@, raw@, lowered@, default),
{
    if str_eq(lowered, "true") || str_eq(lowered, "1") || str_eq(lowered, "false") || str_eq(
        lowered,
        "0",
    ) {
        None
    } else {
        let mut note = String::new();
        note.append("Unknown value for ");
        note.append(key);
        note.append(": ");
        note.append(raw);
        note.append(". Setting to ");
        note.append(word_of(default));
        assert(note@ =~= unknown_value_note(key@, raw@, default));
        Some(note)
    }
}

/// The informational note to log when a flag falls back to its default:
/// `read` is the raw value of the variable `key`, or the reason why it could
/// not be read. There is no note when the value is a recognised word.
pub fn fallback_note(key: &str, read: Result<&str, &str>, default: bool) -> (r: Option<String>)
    ensures
        text_of(r) == note_of_read(key@, read, default),
{
    match read {
        Ok(raw) => {
            let lowered = lowercase(raw);
            fallback_note_lowered(key, raw, lowered.as_str(), default)
        },
        Err(problem) => {
            let mut note = String::new();
            note.append("Problem reading ");
            note.append(key);
            note.append(": ");
            note.append(problem);
            note.append(". Setting to ");
            note.append(word_of(default));
            assert(note@ =~= unreadable_note(key@, problem@, default));
            Some(note)
        },
    }
}

/// A recognised word decides the flag whatever the default is; anything
/// else, and an unset variable, resolves to the default.
pub proof fn flag_resolution(value: Option<Seq<char>>, default: bool)
    ensures
        value is None ==> bool_of_value(value, default) == default,
        value is Some && !is_bool_word(lowercase_of(value->0)) ==> bool_of_value(value, default)
            == default,
        value is Some && is_bool_word(lowercase_of(value->0)) ==> bool_of_value(value, default)
            == bool_of_value(value, !default),
{
}

/// A flag falls back to its default with a note, and is decided by its value
/// without one.
pub proof fn note_goes_with_fallback(key: Seq<char>, raw: &str, default: bool)
    ensures
        note_of_read(key, Ok(raw), default) is None <==> is_bool_word(lowercase_of(raw@)),
        note_of_read(key, Ok(raw), default) is Some ==> bool_of_value(Some(raw@), default)
            == default,
{
}

} // verus!
