//! The profiler's own location and the default log directory.

use vstd::prelude::*;
use vstd::string::*;
use com::sys::HRESULT;
use crate::text::text_of;

verus! {

/// The generic failure code handed to the host when a required resource is missing.
pub const E_FAIL: HRESULT = -0x7FFF_BFFB;

/// The file name of the profiler on Windows.
pub const WINDOWS_PROFILER_FILE: &'static str = "elastic_apm_profiler.dll";

/// The log directory on targets other than Windows.
pub const UNIX_LOG_DIR: &'static str = "/var/log/elastic/apm-agent-dotnet";

/// The family of the target the profiler runs on.
#[derive(Clone, Copy, Debug, PartialEq, Eq, Structural)]
pub enum Platform {
    Windows,
    Other,
}

/// A directory: a root path and the segments to append to it, one by one.
#[derive(Debug)]
pub struct DirPath {
    pub root: String,
    pub segments: Vec<String>,
}

impl View for DirPath {
    type V = (Seq<char>, Seq<Seq<char>>);

    open spec fn view(&self) -> (Seq<char>, Seq<Seq<char>>) {
        (self.root@, crate::text::views(self.segments@))
    }
}

/// The values of the four variables that may hold the profiler's path,
/// `None` for one that is unset or unreadable.
pub struct ProfilerPaths {
    /// `CORECLR_PROFILER_PATH_64` or `_32`, by the target's pointer width.
    pub coreclr_for_width: Option<String>,
    /// `CORECLR_PROFILER_PATH`.
    pub coreclr: Option<String>,
    /// `COR_PROFILER_PATH_64` or `_32`, by the target's pointer width.
    pub framework_for_width: Option<String>,
    /// `COR_PROFILER_PATH`.
    pub framework: Option<String>,
}

/// The first of the candidates that is set, if any.
pub open spec fn first_set_of(candidates: Seq<Option<String>>) -> Option<Seq<char>>
    decreases candidates.len(),
{
    if candidates.len() == 0 {
        None
    } else if candidates[0] is Some {
        text_of(candidates[0])
    } else {
        first_set_of(candidates.drop_first())
    }
}

/// What `first_set_of` finds is set, and every candidate before it is unset;
/// it finds nothing only when every candidate is unset.
pub proof fn first_set_is_first(candidates: Seq<Option<String>>)
    ensures
        match first_set_of(candidates) {
            Some(found) => exists|i: int|
                0 <= i < candidates.len() && #[trigger] text_of(candidates[i]) == Some(found)
                    && forall|j: int| 0 <= j < i ==> candidates[j] is None,
            None => forall|j: int| 0 <= j < candidates.len() ==> candidates[j] is None,
        },
    decreases candidates.len(),
{
    if candidates.len() == 0 {
    } else if candidates[0] is Some {
        assert(text_of(candidates[0]) == first_set_of(candidates));
    } else {
        let rest = candidates.drop_first();
        first_set_is_first(rest);
        match first_set_of(rest) {
            Some(found) => {
                let i = choose|i: int|
                    0 <= i < rest.len() && #[trigger] text_of(rest[i]) == Some(found)
                        && forall|j: int| 0 <= j < i ==> rest[j] is None;
                assert(text_of(candidates[i + 1]) == Some(found));
                assert forall|j: int| 0 <= j < i + 1 implies candidates[j] is None by {
                    if j > 0 {
                        assert(rest[j - 1] is None);
                    }
                }
            },
            None => {
                assert forall|j: int| 0 <= j < candidates.len() implies candidates[j] is None by {
                    if j > 0 {
                        assert(rest[j - 1] is None);
                    }
                }
            },
        }
    }
}

/// Tries the candidates in order and returns the first that is set.
pub fn first_set(candidates: Vec<Option<String>>) -> (r: Option<String>)
    ensures
        text_of(r) == first_set_of(candidates@),
{
    let ghost all = candidates@;
    assert(all.skip(0) =~= all);
    for candidate in it: candidates
        invariant
            it.seq() == all,
            first_set_of(all) == first_set_of(all.skip(it.index() as int)),
    {
        let ghost rest = all.skip(it.index() as int);
        assert(rest[0] == candidate);
        assert(rest.drop_first() =~= all.skip(it.index() + 1));
        if candidate.is_some() {
            return candidate;
        }
    }
    assert(all.skip(all.len() as int).len() == 0);
    None
}

/// The profiler's path as the four variables give it.
pub open spec fn profiler_dir_of(paths: ProfilerPaths) -> Seq<char> {
    match first_set_of(
        seq![paths.coreclr_for_width, paths.coreclr, paths.framework_for_width, paths.framework],
    ) {
        Some(found) => found,
        None => Seq::<char>::empty(),
    }
}

/// The profiler's path: the first that is set of the CoreCLR variable for
/// the pointer width, the CoreCLR variable, the .NET Framework variable for
/// the pointer width and the .NET Framework variable; empty when none is.
pub fn get_profiler_dir(paths: ProfilerPaths) -> (r: String)
    ensures
        r@ == profiler_dir_of(paths),
{
    let mut candidates: Vec<Option<String>> = Vec::new();
    candidates.push(paths.coreclr_for_width);
    candidates.push(paths.coreclr);
    candidates.push(paths.framework_for_width);
    candidates.push(paths.framework);
    assert(candidates@ =~= seq![
        paths.coreclr_for_width,
        paths.coreclr,
        paths.framework_for_width,
        paths.framework,
    ]);
    match first_set(candidates) {
        Some(found) => found,
        None => String::new(),
    }
}

/// The path of the native profiler file, or the failure code when it cannot
/// be told.
pub open spec fn native_profiler_file_of(
    platform: Platform,
    coreclr_for_width: Option<String>,
    coreclr: Option<String>,
) -> Result<Seq<char>, HRESULT> {
    match platform {
        Platform::Windows => Ok(WINDOWS_PROFILER_FILE@),
        Platform::Other => match first_set_of(seq![coreclr_for_width, coreclr]) {
            Some(found) => Ok(found),
            None => Err(E_FAIL),
        },
    }
}

/// The characters of the path in a result.
pub open spec fn file_text_of(r: Result<String, HRESULT>) -> Result<Seq<char>, HRESULT> {
    match r {
        Ok(path) => Ok(path@),
        Err(code) => Err(code),
    }
}

/// The path of the native profiler file. On Windows it is a fixed file name.
/// Elsewhere it is the value of the CoreCLR variable for the pointer width,
/// else of the CoreCLR variable; when neither is set the result is `E_FAIL`.
pub fn get_native_profiler_file(
    platform: Platform,
    coreclr_for_width: Option<String>,
    coreclr: Option<String>,
) -> (r: Result<String, HRESULT>)
    ensures
        file_text_of(r) == native_profiler_file_of(platform, coreclr_for_width, coreclr),
{
    match platform {
        Platform::Windows => Ok(WINDOWS_PROFILER_FILE.to_owned()),
        Platform::Other => {
            let mut candidates: Vec<Option<String>> = Vec::new();
            candidates.push(coreclr_for_width);
            candidates.push(coreclr);
            assert(candidates@ =~= seq![coreclr_for_width, coreclr]);
            match first_set(candidates) {
                Some(found) => Ok(found),
                None => Err(E_FAIL),
            }
        },
    }
}

/// The warning that goes with a native profiler file that cannot be told.
pub open spec fn native_profiler_warning(problem: Seq<char>) -> Seq<char> {
    "problem getting env var CORECLR_PROFILER_PATH: "@ + problem
}

/// The warning to log when the native profiler file is looked up, if any:
/// `coreclr` is the value of the CoreCLR variable, or why it could not be
/// read.
pub open spec fn native_profiler_warning_of(
    platform: Platform,
    coreclr_for_width: Option<&str>,
    coreclr: Result<&str, &str>,
) -> Option<Seq<char>> {
    match (platform, coreclr_for_width, coreclr) {
        (Platform::Other, None, Err(problem)) => Some(native_profiler_warning(problem@)),
        _ => None,
    }
}

/// The warning to log when the native profiler file is looked up. There is
/// one exactly when the lookup fails: elsewhere than on Windows, with the
/// CoreCLR variable for the pointer width unset and the CoreCLR variable
/// unreadable; it names that variable and the reason.
pub fn native_profiler_file_warning(
    platform: Platform,
    coreclr_for_width: Option<&str>,
    coreclr: Result<&str, &str>,
) -> (r: Option<String>)
    ensures
        text_of(r) == native_profiler_warning_of(platform, coreclr_for_width, coreclr),
        r is Some <==> platform == Platform::Other && coreclr_for_width is None && coreclr is Err,
{
    match platform {
        Platform::Windows => None,
        Platform::Other => match coreclr_for_width {
            Some(_) => None,
            None => match coreclr {
                Ok(_) => None,
                Err(problem) => {
                    let mut warning = String::new();
                    warning.append("problem getting env var CORECLR_PROFILER_PATH: ");
                    warning.append(problem);
                    assert(warning@ =~= native_profiler_warning(problem@));
                    Some(warning)
                },
            },
        },
    }
}

/// The lookup of the native profiler file fails exactly when there is a
/// warning to log for it.
pub proof fn warning_goes_with_failure(
    platform: Platform,
    coreclr_for_width: Option<String>,
    coreclr: Result<String, String>,
)
    ensures
        native_profiler_file_of(
            platform,
            coreclr_for_width,
            match coreclr {
                Ok(path) => Some(path),
                Err(_) => None,
            },
        ) is Err <==> platform == Platform::Other && coreclr_for_width is None && coreclr is Err,
{
    reveal_with_fuel(first_set_of, 3);
}

/// The default log directory. On Windows it is `elastic/apm-agent-dotnet/logs`
/// under the program data folder when that is known, else `logs` under the
/// profiler's path; elsewhere it is a fixed directory.
pub open spec fn default_log_dir_of(
    platform: Platform,
    program_data: Option<String>,
    profiler: ProfilerPaths,
) -> (Seq<char>, Seq<Seq<char>>) {
    match platform {
        Platform::Windows => match program_data {
            Some(folder) => (folder@, seq!["elastic"@, "apm-agent-dotnet"@, "logs"@]),
            None => (profiler_dir_of(profiler), seq!["logs"@]),
        },
        Platform::Other => (UNIX_LOG_DIR@, Seq::<Seq<char>>::empty()),
    }
}

/// The default log directory of the platform.
pub fn get_default_log_dir(
    platform: Platform,
    program_data: Option<String>,
    profiler: ProfilerPaths,
) -> (r: DirPath)
    ensures
        r@ == default_log_dir_of(platform, program_data, profiler),
{
    let mut segments: Vec<String> = Vec::new();
    match platform {
        Platform::Windows => match program_data {
            Some(folder) => {
                segments.push("elastic".to_owned());
                segments.push("apm-agent-dotnet".to_owned());
                segments.push("logs".to_owned());
                let r = DirPath { root: folder, segments };
                assert(r@.1 =~= seq!["elastic"@, "apm-agent-dotnet"@, "logs"@]);
                r
            },
            None => {
                segments.push("logs".to_owned());
                let r = DirPath { root: get_profiler_dir(profiler), segments };
                assert(r@.1 =~= seq!["logs"@]);
                r
            },
        },
        Platform::Other => {
            let r = DirPath { root: UNIX_LOG_DIR.to_owned(), segments };
            assert(r@.1 =~= Seq::<Seq<char>>::empty());
            r
        },
    }
}

/// The directory to try first for the log files: the override when one is
/// set, else the default.
pub fn get_log_dir(override_dir: Option<String>, default_dir: DirPath) -> (r: DirPath)
    ensures
        r@ == match override_dir {
            Some(dir) => (dir@, Seq::<Seq<char>>::empty()),
            None => default_dir@,
        },
{
    match override_dir {
        Some(dir) => {
            let r = DirPath { root: dir, segments: Vec::new() };
            assert(r@.1 =~= Seq::<Seq<char>>::empty());
            r
        },
        None => default_dir,
    }
}

} // verus!
