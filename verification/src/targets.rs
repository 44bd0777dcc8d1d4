//! Log targets and how the set of them is read from an environment value.

use vstd::prelude::*;
use vstd::string::*;
use crate::text::{lowercase, lowercase_of, split, split_on, str_eq, view_of, views};

verus! {

/// A destination for log records.
#[derive(Clone, Copy, Debug, PartialEq, Eq, Structural)]
pub enum LogTarget {
    File,
    Stdout,
}

impl LogTarget {
    /// The lower-case word that selects the target.
    pub open spec fn word(self) -> Seq<char> {
        match self {
            LogTarget::File => "file"@,
            LogTarget::Stdout => "stdout"@,
        }
    }
}

/// A set of log targets that is never empty.
#[derive(Clone, Copy, Debug, PartialEq, Eq, Structural)]
pub struct LogTargets {
    file: bool,
    stdout: bool,
}

impl View for LogTargets {
    type V = Set<LogTarget>;

    closed spec fn view(&self) -> Set<LogTarget> {
        Set::new(
            |t: LogTarget|
                match t {
                    LogTarget::File => self.file,
                    LogTarget::Stdout => self.stdout,
                },
        )
    }
}

impl LogTargets {
    /// The invariant of the type: at least one target is selected.
    pub closed spec fn wf(self) -> bool {
        self.file || self.stdout
    }

    /// A well-formed set holds `File` or `Stdout`.
    pub proof fn never_empty(self)
        requires
            self.wf(),
        ensures
            self@.contains(LogTarget::File) || self@.contains(LogTarget::Stdout),
    {
    }

    /// The set that holds only `File`: what an unset or empty selection means.
    pub fn file_only() -> (r: LogTargets)
        ensures
            r.wf(),
            r@ == set![LogTarget::File],
    {
        let r = LogTargets { file: true, stdout: false };
        assert(r@ =~= set![LogTarget::File]);
        r
    }

    /// Whether the set holds `target`.
    pub fn contains(&self, target: LogTarget) -> (r: bool)
        ensures
            r == self@.contains(target),
    {
        match target {
            LogTarget::File => self.file,
            LogTarget::Stdout => self.stdout,
        }
    }
}

/// The targets whose word is among the tokens.
pub open spec fn recognised(tokens: Seq<Seq<char>>) -> Set<LogTarget> {
    Set::new(|t: LogTarget| exists|i: int| 0 <= i < tokens.len() && #[trigger] tokens[i] == t.word())
}

/// The target set that lower-cased tokens select: the recognised ones, or
/// `File` alone when none is recognised.
pub open spec fn targets_of_lowered(tokens: Seq<Seq<char>>) -> Set<LogTarget> {
    let found = recognised(tokens);
    if found.contains(LogTarget::File) || found.contains(LogTarget::Stdout) {
        found
    } else {
        set![LogTarget::File]
    }
}

/// The target set that a raw environment value selects.
pub open spec fn targets_of_value(value: Option<Seq<char>>) -> Set<LogTarget> {
    match value {
        Some(v) => targets_of_lowered(split_on(v, ';').map_values(|t: Seq<char>| lowercase_of(t))),
        None => set![LogTarget::File],
    }
}

/// Lower-cases each token.
pub fn lower_tokens(tokens: &Vec<String>) -> (r: Vec<String>)
    ensures
        views(r@) == views(tokens@).map_values(|t: Seq<char>| lowercase_of(t)),
{
    let mut out: Vec<String> = Vec::new();
    let mut i: usize = 0;
    while i < tokens.len()
        invariant
            i <= tokens.len(),
            out.len() == i,
            forall|j: int| 0 <= j < i ==> (#[trigger] out@[j])@ == lowercase_of(tokens@[j]@),
        decreases tokens.len() - i,
    {
        out.push(lowercase(tokens[i].as_str()));
        i += 1;
    }
    assert(views(out@) =~= views(tokens@).map_values(|t: Seq<char>| lowercase_of(t)));
    out
}

/// Selects the targets named by tokens that have already been lower-cased.
/// Tokens other than `file` and `stdout` are dropped; when nothing is left
/// the result is `File` alone.
pub fn targets_from_lowered(tokens: &Vec<String>) -> (r: LogTargets)
    ensures
        r.wf(),
        r@ == targets_of_lowered(views(tokens@)),
{
    let mut file = false;
    let mut stdout = false;
    let mut i: usize = 0;
    let ghost words = views(tokens@);
    while i < tokens.len()
        invariant
            i <= tokens.len(),
            words == views(tokens@),
            file == (exists|j: int| 0 <= j < i && #[trigger] words[j] == LogTarget::File.word()),
            stdout == (exists|j: int| 0 <= j < i && #[trigger] words[j] == LogTarget::Stdout.word()),
        decreases tokens.len() - i,
    {
        assert(words[i as int] == tokens@[i as int]@);
        if str_eq(tokens[i].as_str(), "file") {
            file = true;
        }
        if str_eq(tokens[i].as_str(), "stdout") {
            stdout = true;
        }
        i += 1;
    }
    let found = LogTargets { file, stdout };
    assert(found@ =~= recognised(words));
    if file || stdout {
        found
    } else {
        LogTargets::file_only()
    }
}

/// Resolves the target set from the raw value of its variable, `None` when
/// the variable is unset or unreadable. The value is a `;`-separated list of
/// target words in any case.
pub fn read_log_targets_from_env_var(value: Option<&str>) -> (r: LogTargets)
    ensures
        r.wf(),
        r@ == targets_of_value(view_of(value)),
{
    match value {
        Some(v) => {
            let tokens = split(v, ';');
            let lowered = lower_tokens(&tokens);
            targets_from_lowered(&lowered)
        },
        None => LogTargets::file_only(),
    }
}

} // verus!
