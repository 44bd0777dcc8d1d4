//! Resolution of the directory that the log files go to.
//!
//! The resolver decides; its caller touches the file system. The caller
//! asks for the pending request, carries it out, reports what it found, and
//! repeats until the resolver has finished.

use vstd::prelude::*;

verus! {

/// One of the two directories that can hold the log files.
#[derive(Clone, Copy, Debug, PartialEq, Eq, Structural)]
pub enum DirChoice {
    /// The directory named by the override variable.
    Override,
    /// The default directory of the platform.
    Default,
}

/// What the caller is asked to do next.
#[derive(Clone, Copy, Debug, PartialEq, Eq, Structural)]
pub enum DirRequest {
    /// Report whether the directory exists, and whether it is a directory.
    Probe(DirChoice),
    /// Create the directory with its parents and report whether that worked.
    Create(DirChoice),
    /// Nothing: the resolution is known.
    Finished,
}

/// What the caller found.
#[derive(Clone, Copy, Debug, PartialEq, Eq, Structural)]
pub enum DirReport {
    Probed { exists: bool, is_dir: bool },
    Created { ok: bool },
}

/// The outcome: the directory to use, and whether it can be used at all.
#[derive(Clone, Copy, Debug, PartialEq, Eq, Structural)]
pub struct LogDirectoryResolution {
    pub choice: DirChoice,
    pub is_valid: bool,
}

/// The resolver's state.
#[derive(Clone, Copy, Debug, PartialEq, Eq, Structural)]
pub enum DirState {
    /// The first candidate is being probed. `retry` says whether the default
    /// is another directory, to fall back on when the candidate cannot be
    /// used.
    ProbingFirst { choice: DirChoice, retry: bool },
    /// The candidate was a file; the default is being probed in its place.
    ProbingDefault,
    /// The candidate does not exist and is being created.
    CreatingFirst { choice: DirChoice, retry: bool },
    /// The candidate could not be created; the default is being created.
    CreatingDefault,
    /// The resolution is known.
    Resolved(LogDirectoryResolution),
}

impl DirState {
    /// The state before anything is known: the override is the candidate
    /// when there is one, else the default.
    pub open spec fn initial(has_override: bool, override_is_default: bool) -> DirState {
        if has_override {
            DirState::ProbingFirst { choice: DirChoice::Override, retry: !override_is_default }
        } else {
            DirState::ProbingFirst { choice: DirChoice::Default, retry: false }
        }
    }

    /// The request that is pending in a state.
    pub open spec fn pending(self) -> DirRequest {
        match self {
            DirState::ProbingFirst { choice, .. } => DirRequest::Probe(choice),
            DirState::ProbingDefault => DirRequest::Probe(DirChoice::Default),
            DirState::CreatingFirst { choice, .. } => DirRequest::Create(choice),
            DirState::CreatingDefault => DirRequest::Create(DirChoice::Default),
            DirState::Resolved(_) => DirRequest::Finished,
        }
    }

    /// Whether a report answers the pending request.
    pub open spec fn answered_by(self, report: DirReport) -> bool {
        match (self.pending(), report) {
            (DirRequest::Probe(_), DirReport::Probed { .. }) => true,
            (DirRequest::Create(_), DirReport::Created { .. }) => true,
            _ => false,
        }
    }

    /// The state after a report. A report that does not answer the pending
    /// request changes nothing.
    ///
    /// A directory is used when it is found as a directory, or is missing
    /// and could be created. A first candidate that cannot be used is given
    /// up for the default when the default is another directory; a candidate
    /// with nothing left to fall back on is resolved as invalid.
    pub open spec fn next(self, report: DirReport) -> DirState {
        match (self, report) {
            (DirState::ProbingFirst { choice, retry }, DirReport::Probed { exists, is_dir }) => {
                if !exists {
                    DirState::CreatingFirst { choice, retry }
                } else if is_dir {
                    DirState::Resolved(LogDirectoryResolution { choice, is_valid: true })
                } else if retry {
                    DirState::ProbingDefault
                } else {
                    DirState::Resolved(LogDirectoryResolution { choice, is_valid: false })
                }
            },
            (DirState::ProbingDefault, DirReport::Probed { exists, is_dir }) => {
                if !exists {
                    DirState::CreatingFirst { choice: DirChoice::Default, retry: false }
                } else {
                    DirState::Resolved(
                        LogDirectoryResolution { choice: DirChoice::Default, is_valid: is_dir },
                    )
                }
            },
            (DirState::CreatingFirst { choice, retry }, DirReport::Created { ok }) => {
                if ok {
                    DirState::Resolved(LogDirectoryResolution { choice, is_valid: true })
                } else if retry {
                    DirState::CreatingDefault
                } else {
                    DirState::Resolved(LogDirectoryResolution { choice, is_valid: false })
                }
            },
            (DirState::CreatingDefault, DirReport::Created { ok }) => DirState::Resolved(
                LogDirectoryResolution { choice: DirChoice::Default, is_valid: ok },
            ),
            _ => self,
        }
    }

    /// The resolution, once it is known.
    pub open spec fn outcome(self) -> Option<LogDirectoryResolution> {
        match self {
            DirState::Resolved(resolution) => Some(resolution),
            _ => None,
        }
    }

    /// An upper bound on the number of answers still needed.
    pub open spec fn answers_left(self) -> nat {
        match self {
            DirState::ProbingFirst { .. } => 3,
            DirState::ProbingDefault => 2,
            DirState::CreatingFirst { retry, .. } => if retry {
                2
            } else {
                1
            },
            DirState::CreatingDefault => 1,
            DirState::Resolved(_) => 0,
        }
    }

    /// Whether the state still considers the override.
    pub open spec fn considers_override(self) -> bool {
        match self {
            DirState::ProbingFirst { choice, .. } => choice == DirChoice::Override,
            DirState::CreatingFirst { choice, .. } => choice == DirChoice::Override,
            DirState::Resolved(resolution) => resolution.choice == DirChoice::Override,
            _ => false,
        }
    }

    /// Starts a resolution. `has_override` says whether the override variable
    /// is set, `override_is_default` whether it names the default directory.
    pub fn start(has_override: bool, override_is_default: bool) -> (r: DirState)
        ensures
            r == DirState::initial(has_override, override_is_default),
    {
        if has_override {
            DirState::ProbingFirst { choice: DirChoice::Override, retry: !override_is_default }
        } else {
            DirState::ProbingFirst { choice: DirChoice::Default, retry: false }
        }
    }

    /// What the caller has to do next.
    pub fn request(&self) -> (r: DirRequest)
        ensures
            r == self.pending(),
    {
        match self {
            DirState::ProbingFirst { choice, .. } => DirRequest::Probe(*choice),
            DirState::ProbingDefault => DirRequest::Probe(DirChoice::Default),
            DirState::CreatingFirst { choice, .. } => DirRequest::Create(*choice),
            DirState::CreatingDefault => DirRequest::Create(DirChoice::Default),
            DirState::Resolved(_) => DirRequest::Finished,
        }
    }

    /// Takes in what the caller found.
    ///
    /// A candidate that is found as a directory is used. One that exists but
    /// is no directory is given up for the default. One that does not exist
    /// is created; when that fails the default is created in its place. In
    /// each case the default is tried only when it is another directory, and
    /// only once: a directory that can be neither found nor created, with
    /// nothing left to fall back on, makes the resolution invalid.
    pub fn advance(self, report: DirReport) -> (r: DirState)
        ensures
            r == self.next(report),
    {
        match self {
            DirState::ProbingFirst { choice, retry } => match report {
                DirReport::Probed { exists, is_dir } => {
                    if !exists {
                        DirState::CreatingFirst { choice, retry }
                    } else if is_dir {
                        DirState::Resolved(LogDirectoryResolution { choice, is_valid: true })
                    } else if retry {
                        DirState::ProbingDefault
                    } else {
                        DirState::Resolved(LogDirectoryResolution { choice, is_valid: false })
                    }
                },
                DirReport::Created { .. } => self,
            },
            DirState::ProbingDefault => match report {
                DirReport::Probed { exists, is_dir } => {
                    if !exists {
                        DirState::CreatingFirst { choice: DirChoice::Default, retry: false }
                    } else {
                        DirState::Resolved(
                            LogDirectoryResolution { choice: DirChoice::Default, is_valid: is_dir },
                        )
                    }
                },
                DirReport::Created { .. } => self,
            },
            DirState::CreatingFirst { choice, retry } => match report {
                DirReport::Created { ok } => {
                    if ok {
                        DirState::Resolved(LogDirectoryResolution { choice, is_valid: true })
                    } else if retry {
                        DirState::CreatingDefault
                    } else {
                        DirState::Resolved(LogDirectoryResolution { choice, is_valid: false })
                    }
                },
                DirReport::Probed { .. } => self,
            },
            DirState::CreatingDefault => match report {
                DirReport::Created { ok } => DirState::Resolved(
                    LogDirectoryResolution { choice: DirChoice::Default, is_valid: ok },
                ),
                DirReport::Probed { .. } => self,
            },
            DirState::Resolved(_) => self,
        }
    }

    /// The resolution, or `None` while a request is pending.
    pub fn resolution(&self) -> (r: Option<LogDirectoryResolution>)
        ensures
            r == self.outcome(),
            r is None <==> self.pending() != DirRequest::Finished,
    {
        match self {
            DirState::Resolved(resolution) => Some(*resolution),
            _ => None,
        }
    }
}

/// What holds of one directory on disk.
pub struct DirFacts {
    /// Something exists at the path.
    pub exists: bool,
    /// What exists at the path is a directory.
    pub is_dir: bool,
    /// Creating the directory with its parents succeeds.
    pub creatable: bool,
}

impl DirFacts {
    /// Whether the facts agree with each other: creating a directory that
    /// exists succeeds, and creating one where a file is in the way fails.
    pub open spec fn coherent(self) -> bool {
        self.exists ==> self.creatable == self.is_dir
    }

    /// Whether the log files can go to the directory: it exists as a
    /// directory, or it is missing and can be created.
    pub open spec fn usable(self) -> bool {
        if self.exists {
            self.is_dir
        } else {
            self.creatable
        }
    }
}

impl DirReport {
    /// Whether the report shows the directory asked about as usable: found
    /// as a directory, or created.
    pub open spec fn shows_usable(self) -> bool {
        match self {
            DirReport::Probed { exists, is_dir } => exists && is_dir,
            DirReport::Created { ok } => ok,
        }
    }
}

impl DirRequest {
    /// The directory that a request asks about.
    pub open spec fn about(self) -> Option<DirChoice> {
        match self {
            DirRequest::Probe(choice) => Some(choice),
            DirRequest::Create(choice) => Some(choice),
            DirRequest::Finished => None,
        }
    }
}

/// The facts of the directory that a choice names.
pub open spec fn facts_of(choice: DirChoice, override_dir: DirFacts, default_dir: DirFacts) -> DirFacts {
    match choice {
        DirChoice::Override => override_dir,
        DirChoice::Default => default_dir,
    }
}

/// What a truthful caller reports on a request.
pub open spec fn truthful_report(
    request: DirRequest,
    override_dir: DirFacts,
    default_dir: DirFacts,
) -> DirReport {
    match request {
        DirRequest::Probe(choice) => {
            let facts = facts_of(choice, override_dir, default_dir);
            DirReport::Probed { exists: facts.exists, is_dir: facts.exists && facts.is_dir }
        },
        DirRequest::Create(choice) => DirReport::Created {
            ok: facts_of(choice, override_dir, default_dir).creatable,
        },
        DirRequest::Finished => DirReport::Created { ok: false },
    }
}

/// The state after a truthful caller has answered `answers` requests.
pub open spec fn run(
    state: DirState,
    override_dir: DirFacts,
    default_dir: DirFacts,
    answers: nat,
) -> DirState
    decreases answers,
{
    if answers == 0 {
        state
    } else {
        run(
            state.next(truthful_report(state.pending(), override_dir, default_dir)),
            override_dir,
            default_dir,
            (answers - 1) as nat,
        )
    }
}

/// The directory that the log files go to, told from the facts alone: the
/// first candidate when it is usable; else the default, when it is another
/// directory, and valid when that is usable; else the first candidate,
/// invalid.
pub open spec fn resolution_of(
    has_override: bool,
    override_is_default: bool,
    override_dir: DirFacts,
    default_dir: DirFacts,
) -> LogDirectoryResolution {
    let first = if has_override {
        DirChoice::Override
    } else {
        DirChoice::Default
    };
    if facts_of(first, override_dir, default_dir).usable() {
        LogDirectoryResolution { choice: first, is_valid: true }
    } else if has_override && !override_is_default {
        LogDirectoryResolution { choice: DirChoice::Default, is_valid: default_dir.usable() }
    } else {
        LogDirectoryResolution { choice: first, is_valid: false }
    }
}

/// With a truthful caller the resolver finishes within three answers, and
/// what it resolves is what the facts say: the resolution is valid exactly
/// when the directory it names exists as a directory, or was missing and
/// could be created.
pub proof fn resolver_agrees_with_the_facts(
    has_override: bool,
    override_is_default: bool,
    override_dir: DirFacts,
    default_dir: DirFacts,
)
    requires
        override_dir.coherent(),
        default_dir.coherent(),
    ensures
        ({
            let end = run(
                DirState::initial(has_override, override_is_default),
                override_dir,
                default_dir,
                3,
            );
            &&& end.outcome() == Some(
                resolution_of(has_override, override_is_default, override_dir, default_dir),
            )
            &&& end.outcome()->0.is_valid <==> facts_of(
                end.outcome()->0.choice,
                override_dir,
                default_dir,
            ).usable()
        }),
{
    reveal_with_fuel(run, 4);
}

/// The resolution is valid exactly when the last report showed the
/// directory it names as found or created; an unusable directory with
/// nothing left to fall back on makes it invalid.
pub proof fn valid_exactly_when_shown_usable(state: DirState, report: DirReport)
    requires
        state.outcome() is None,
        state.next(report).outcome() is Some,
    ensures
        state.answered_by(report),
        state.pending().about() == Some(state.next(report).outcome()->0.choice),
        state.next(report).outcome()->0.is_valid <==> report.shows_usable(),
{
}

/// Every answer brings the resolution nearer, so that it is known after
/// three answers at most; any other report changes nothing.
pub proof fn resolution_terminates(state: DirState, report: DirReport)
    ensures
        state.answers_left() <= 3,
        state.answers_left() == 0 <==> state.outcome() is Some,
        state.answered_by(report) ==> state.next(report).answers_left() < state.answers_left(),
        !state.answered_by(report) ==> state.next(report) == state,
{
}

/// An override that exists but is no directory is given up for the default,
/// when that is another directory: from then on the override is never asked
/// about again, and never chosen.
pub proof fn file_in_place_of_directory_falls_back(second: DirReport, third: DirReport)
    ensures
        ({
            let first = DirState::initial(true, false);
            let after = first.next(DirReport::Probed { exists: true, is_dir: false });
            &&& after.pending() == DirRequest::Probe(DirChoice::Default)
            &&& !after.next(second).considers_override()
            &&& !after.next(second).next(third).considers_override()
            &&& after.next(second).next(third).outcome() is Some ==> after.next(second).next(
                third,
            ).outcome()->0.choice == DirChoice::Default
        }),
{
}

/// A default that exists but is no directory cannot be used: with no other
/// directory to fall back on, the resolution is invalid at once.
pub proof fn file_in_place_of_the_default_is_invalid(
    has_override: bool,
    override_is_default: bool,
)
    requires
        !has_override || override_is_default,
    ensures
        DirState::initial(has_override, override_is_default).next(
            DirReport::Probed { exists: true, is_dir: false },
        ).outcome() is Some,
        !DirState::initial(has_override, override_is_default).next(
            DirReport::Probed { exists: true, is_dir: false },
        ).outcome()->0.is_valid,
{
}

/// Once the override is out of consideration it stays out.
pub proof fn override_is_not_reconsidered(state: DirState, report: DirReport)
    requires
        !state.considers_override(),
    ensures
        !state.next(report).considers_override(),
{
}

/// A resolution that is known does not change.
pub proof fn resolution_is_final(state: DirState, report: DirReport)
    requires
        state.outcome() is Some,
    ensures
        state.next(report) == state,
{
}

} // verus!
