//! Loading of the integration manifest.
//!
//! The loader decides; its caller reads the environment and the file. The
//! records of the manifest are the caller's: the loader hands them on as it
//! got them, in their order, and never looks inside.

use vstd::prelude::*;
use vstd::string::*;
use com::sys::HRESULT;
use crate::paths::E_FAIL;
use crate::text::text_of;

verus! {

/// What became of reading and parsing the manifest file.
pub enum ManifestRead<T> {
    /// The file could not be opened or read; the text says why.
    Unreadable(String),
    /// The file is no valid manifest; the text is the parser's diagnostic.
    Malformed(String),
    /// The records of the manifest, in file order.
    Parsed(Vec<T>),
}

/// What the caller found.
pub enum LoaderEvent<T> {
    /// The value of the manifest variable, or why it could not be read.
    PathVariable(Result<String, String>),
    /// What became of the manifest file.
    Manifest(ManifestRead<T>),
}

/// What the caller is asked to do next.
pub enum LoaderRequest {
    /// Read `ELASTIC_APM_PROFILER_INTEGRATIONS`.
    ReadPathVariable,
    /// Open the file at `path` and parse it.
    ReadManifest { path: String },
    /// Nothing: the outcome is known.
    Return,
}

/// The outcome of loading: the records or the failure code, and the warning
/// to log with a failure.
pub struct LoadOutcome<T> {
    pub result: Result<Vec<T>, HRESULT>,
    pub warning: Option<String>,
}

/// The loader's state.
pub enum LoaderState<T> {
    /// The manifest variable has not been read yet.
    AwaitingPath,
    /// The manifest at `path` has not been read yet.
    AwaitingManifest { path: String },
    /// The outcome is known.
    Finished(LoadOutcome<T>),
}

/// The kind of request, without what it carries.
#[derive(Clone, Copy, Debug, PartialEq, Eq, Structural)]
pub enum RequestKind {
    ReadPathVariable,
    ReadManifest,
    Return,
}

/// The warning for a manifest variable that could not be read.
pub open spec fn missing_variable_warning(problem: Seq<char>) -> Seq<char> {
    "Problem reading ELASTIC_APM_PROFILER_INTEGRATIONS environment variable: "@ + problem
        + ". profiler is disabled."@
}

/// The warning for a manifest file that could not be read or parsed.
pub open spec fn manifest_warning(path: Seq<char>, problem: Seq<char>) -> Seq<char> {
    "Problem reading integrations file "@ + path + ": "@ + problem + ". profiler is disabled."@
}

impl<T> LoadOutcome<T> {
    /// Whether the outcome is the generic failure with the given warning.
    pub open spec fn is_failure_with(self, warning: Seq<char>) -> bool {
        &&& self.result == Err::<Vec<T>, HRESULT>(E_FAIL)
        &&& text_of(self.warning) == Some(warning)
    }

    /// Whether the outcome is the given records, with no warning.
    pub open spec fn is_success_with(self, records: Vec<T>) -> bool {
        &&& self.result == Ok::<Vec<T>, HRESULT>(records)
        &&& self.warning is None
    }
}

impl<T> LoaderState<T> {
    /// The kind of request that is pending in a state.
    pub open spec fn pending(self) -> RequestKind {
        match self {
            LoaderState::AwaitingPath => RequestKind::ReadPathVariable,
            LoaderState::AwaitingManifest { .. } => RequestKind::ReadManifest,
            LoaderState::Finished(_) => RequestKind::Return,
        }
    }

    /// Whether `after` is the state that follows `self` on `event`.
    ///
    /// A missing variable, an unreadable file and a malformed manifest all
    /// end in the generic failure, each with its warning. A parsed manifest
    /// ends in its records, unchanged. An event that does not answer the
    /// pending request changes nothing.
    pub open spec fn steps_to(self, event: LoaderEvent<T>, after: LoaderState<T>) -> bool {
        match (self, event) {
            (LoaderState::AwaitingPath, LoaderEvent::PathVariable(Ok(path))) => {
                after == (LoaderState::<T>::AwaitingManifest { path })
            },
            (LoaderState::AwaitingPath, LoaderEvent::PathVariable(Err(problem))) => {
                &&& after is Finished
                &&& after->Finished_0.is_failure_with(missing_variable_warning(problem@))
            },
            (
                LoaderState::AwaitingManifest { path },
                LoaderEvent::Manifest(ManifestRead::Parsed(records)),
            ) => {
                &&& after is Finished
                &&& after->Finished_0.is_success_with(records)
            },
            (
                LoaderState::AwaitingManifest { path },
                LoaderEvent::Manifest(ManifestRead::Unreadable(problem)),
            ) => {
                &&& after is Finished
                &&& after->Finished_0.is_failure_with(manifest_warning(path@, problem@))
            },
            (
                LoaderState::AwaitingManifest { path },
                LoaderEvent::Manifest(ManifestRead::Malformed(problem)),
            ) => {
                &&& after is Finished
                &&& after->Finished_0.is_failure_with(manifest_warning(path@, problem@))
            },
            _ => after == self,
        }
    }

    /// The state before anything is known.
    pub fn start() -> (r: LoaderState<T>)
        ensures
            r == LoaderState::<T>::AwaitingPath,
    {
        LoaderState::AwaitingPath
    }

    /// What the caller has to do next.
    pub fn request(&self) -> (r: LoaderRequest)
        ensures
            match r {
                LoaderRequest::ReadPathVariable => self.pending() == RequestKind::ReadPathVariable,
                LoaderRequest::ReadManifest { path } => self == (LoaderState::<
                    T,
                >::AwaitingManifest { path }),
                LoaderRequest::Return => self.pending() == RequestKind::Return,
            },
    {
        match self {
            LoaderState::AwaitingPath => LoaderRequest::ReadPathVariable,
            LoaderState::AwaitingManifest { path } => LoaderRequest::ReadManifest {
                path: path.clone(),
            },
            LoaderState::Finished(_) => LoaderRequest::Return,
        }
    }

    /// The outcome, once it is known; else the state as it was.
    pub fn finish(self) -> (r: Result<LoadOutcome<T>, LoaderState<T>>)
        ensures
            match self {
                LoaderState::Finished(outcome) => r == Ok::<LoadOutcome<T>, LoaderState<T>>(
                    outcome,
                ),
                _ => r == Err::<LoadOutcome<T>, LoaderState<T>>(self),
            },
    {
        match self {
            LoaderState::Finished(outcome) => Ok(outcome),
            other => Err(other),
        }
    }
}

fn missing_variable(problem: &str) -> (r: String)
    ensures
        r@ == missing_variable_warning(problem@),
{
    let mut warning = String::new();
    warning.append("Problem reading ELASTIC_APM_PROFILER_INTEGRATIONS environment variable: ");
    warning.append(problem);
    warning.append(". profiler is disabled.");
    assert(warning@ =~= missing_variable_warning(problem@));
    warning
}

fn unusable_manifest(path: &str, problem: &str) -> (r: String)
    ensures
        r@ == manifest_warning(path@, problem@),
{
    let mut warning = String::new();
    warning.append("Problem reading integrations file ");
    warning.append(path);
    warning.append(": ");
    warning.append(problem);
    warning.append(". profiler is disabled.");
    assert(warning@ =~= manifest_warning(path@, problem@));
    warning
}

/// Takes the loading of the integration manifest one step further.
///
/// The manifest variable is read first. When it is missing the outcome is
/// `E_FAIL` and no file is asked for. Else the file it names is read and
/// parsed; when that fails the outcome is `E_FAIL` too, and the warning names
/// the path and the reason. Else the outcome is the parsed records, as they
/// are: nothing is filtered, reordered or checked.
pub fn load_integrations<T>(state: LoaderState<T>, event: LoaderEvent<T>) -> (r: LoaderState<T>)
    ensures
        state.steps_to(event, r),
{
    match state {
        LoaderState::AwaitingPath => match event {
            LoaderEvent::PathVariable(Ok(path)) => LoaderState::AwaitingManifest { path },
            LoaderEvent::PathVariable(Err(problem)) => LoaderState::Finished(
                LoadOutcome {
                    result: Err(E_FAIL),
                    warning: Some(missing_variable(problem.as_str())),
                },
            ),
            LoaderEvent::Manifest(_) => LoaderState::AwaitingPath,
        },
        LoaderState::AwaitingManifest { path } => match event {
            LoaderEvent::Manifest(ManifestRead::Parsed(records)) => LoaderState::Finished(
                LoadOutcome { result: Ok(records), warning: None },
            ),
            LoaderEvent::Manifest(ManifestRead::Unreadable(problem)) => LoaderState::Finished(
                LoadOutcome {
                    result: Err(E_FAIL),
                    warning: Some(unusable_manifest(path.as_str(), problem.as_str())),
                },
            ),
            LoaderEvent::Manifest(ManifestRead::Malformed(problem)) => LoaderState::Finished(
                LoadOutcome {
                    result: Err(E_FAIL),
                    warning: Some(unusable_manifest(path.as_str(), problem.as_str())),
                },
            ),
            LoaderEvent::PathVariable(_) => LoaderState::AwaitingManifest { path },
        },
        LoaderState::Finished(outcome) => LoaderState::Finished(outcome),
    }
}

/// Loading the same parsed manifest twice gives the same records in the
/// same order, and they are the parsed ones.
pub proof fn loading_is_repeatable<T>(
    path: String,
    records: Vec<T>,
    first: LoaderState<T>,
    second: LoaderState<T>,
)
    requires
        (LoaderState::<T>::AwaitingManifest { path }).steps_to(
            LoaderEvent::Manifest(ManifestRead::Parsed(records)),
            first,
        ),
        (LoaderState::<T>::AwaitingManifest { path }).steps_to(
            LoaderEvent::Manifest(ManifestRead::Parsed(records)),
            second,
        ),
    ensures
        first is Finished,
        second is Finished,
        first->Finished_0.result == second->Finished_0.result,
        first->Finished_0.result == Ok::<Vec<T>, HRESULT>(records),
        first->Finished_0.result->Ok_0@ == records@,
{
}

/// With the manifest variable missing, loading fails with `E_FAIL` at once:
/// the file is never asked for.
pub proof fn missing_variable_fails_without_a_file<T>(problem: String, after: LoaderState<T>)
    requires
        LoaderState::<T>::AwaitingPath.steps_to(LoaderEvent::PathVariable(Err(problem)), after),
    ensures
        after is Finished,
        after->Finished_0.result == Err::<Vec<T>, HRESULT>(E_FAIL),
        after->Finished_0.warning is Some,
        after.pending() == RequestKind::Return,
{
}

/// A file is asked for only after the manifest variable was read, and its
/// path is the variable's value.
pub proof fn file_is_read_only_at_the_named_path<T>(
    before: LoaderState<T>,
    event: LoaderEvent<T>,
    after: LoaderState<T>,
)
    requires
        before.steps_to(event, after),
        before.pending() != RequestKind::ReadManifest,
        after.pending() == RequestKind::ReadManifest,
    ensures
        before is AwaitingPath,
        event == LoaderEvent::<T>::PathVariable(Ok(after->path)),
{
}

/// Every failure carries the one failure code and a warning; success
/// carries neither.
pub proof fn failures_are_uniform<T>(
    before: LoaderState<T>,
    event: LoaderEvent<T>,
    after: LoaderState<T>,
)
    requires
        before.steps_to(event, after),
        !(before is Finished),
        after is Finished,
    ensures
        after->Finished_0.result is Err ==> after->Finished_0.result == Err::<Vec<T>, HRESULT>(
            E_FAIL,
        ) && after->Finished_0.warning is Some,
        after->Finished_0.result is Ok ==> after->Finished_0.warning is None,
{
}

} // verus!
