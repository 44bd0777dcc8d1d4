//! The logging plan: which sinks the process logs to, at which level, and
//! how the log file is named and rotated.

use vstd::prelude::*;
use vstd::string::*;
use crate::level::{level_of_value, read_log_level_from_env_var, LogLevel};
use crate::logdir::{
    facts_of, resolution_of, resolver_agrees_with_the_facts, DirChoice, DirFacts, DirState,
    LogDirectoryResolution,
};
use crate::targets::{LogTarget, LogTargets};
use crate::text::{decimal, decimal_of, view_of};

verus! {

/// The layout of a log line: time stamp, level, message.
pub const LOG_PATTERN: &'static str = "[{d(%Y-%m-%dT%H:%M:%S.%f%:z)}] [{l:<5}] {m}{n}";

/// The size at which the log file is rotated: 5 MiB.
pub const MAX_LOG_FILE_BYTES: u64 = 5242880;

/// The number of rotated log files that are kept.
pub const MAX_LOG_BACKUPS: u32 = 10;

/// The name of the console sink.
pub const STDOUT_SINK: &'static str = "stdout";

/// The name of the file sink.
pub const FILE_SINK: &'static str = "file";

/// When the log file is rotated and how many backups are kept.
#[derive(Clone, Copy, Debug, PartialEq, Eq, Structural)]
pub struct RollingPolicy {
    pub max_size_bytes: u64,
    pub window_size: u32,
}

/// A rotating log file in one of the two directories.
#[derive(Debug)]
pub struct FileSink {
    /// The directory that holds the file and its backups.
    pub dir: DirChoice,
    /// The name of the log file.
    pub file_name: String,
    /// The name of a backup, with `{}` in place of its index.
    pub rolling_name: String,
    pub policy: RollingPolicy,
}

/// A destination of the plan.
#[derive(Debug)]
pub enum Sink {
    Console,
    RollingFile(FileSink),
}

/// What a sink is, with its names as sequences of characters.
pub enum SinkView {
    Console,
    RollingFile { dir: DirChoice, file_name: Seq<char>, rolling_name: Seq<char>, policy: RollingPolicy },
}

impl View for Sink {
    type V = SinkView;

    open spec fn view(&self) -> SinkView {
        match self {
            Sink::Console => SinkView::Console,
            Sink::RollingFile(file) => SinkView::RollingFile {
                dir: file.dir,
                file_name: file.file_name@,
                rolling_name: file.rolling_name@,
                policy: file.policy,
            },
        }
    }
}

impl SinkView {
    /// The name under which the sink is attached to the root logger.
    pub open spec fn name(self) -> Seq<char> {
        match self {
            SinkView::Console => STDOUT_SINK@,
            SinkView::RollingFile { .. } => FILE_SINK@,
        }
    }
}

impl Sink {
    /// The name under which the sink is attached to the root logger.
    pub fn name(&self) -> (r: &'static str)
        ensures
            r@ == self@.name(),
    {
        match self {
            Sink::Console => STDOUT_SINK,
            Sink::RollingFile(_) => FILE_SINK,
        }
    }
}

/// The composed configuration: a level and the sinks in the order in which
/// they are attached.
#[derive(Debug)]
pub struct LoggingPlan {
    pub level: LogLevel,
    pub sinks: Vec<Sink>,
}

impl View for LoggingPlan {
    type V = (LogLevel, Seq<SinkView>);

    open spec fn view(&self) -> (LogLevel, Seq<SinkView>) {
        (self.level, self.sinks@.map_values(|s: Sink| s@))
    }
}

/// The rotation policy of the log file.
pub open spec fn rolling_policy_of() -> RollingPolicy {
    RollingPolicy { max_size_bytes: MAX_LOG_FILE_BYTES, window_size: MAX_LOG_BACKUPS }
}

/// The name of the log file of a process.
pub open spec fn log_file_name_of(process_name: Seq<char>, pid: u32) -> Seq<char> {
    "elastic_apm_profiler_"@ + process_name + "_"@ + decimal_of(pid as nat) + ".log"@
}

/// The name of a backup of the log file of a process, with `{}` in place of
/// its index.
pub open spec fn rolling_file_name_of(process_name: Seq<char>, pid: u32) -> Seq<char> {
    "elastic_apm_profiler_"@ + process_name + "_"@ + decimal_of(pid as nat) + "_{}.log"@
}

/// The file sink of a process in a directory.
pub open spec fn file_sink_of(dir: DirChoice, process_name: Seq<char>, pid: u32) -> SinkView {
    SinkView::RollingFile {
        dir,
        file_name: log_file_name_of(process_name, pid),
        rolling_name: rolling_file_name_of(process_name, pid),
        policy: rolling_policy_of(),
    }
}

/// The sinks of a process: the console when `Stdout` is selected, then the
/// file when `File` is selected and a directory was resolved and is valid.
pub open spec fn sinks_of(
    process_name: Seq<char>,
    pid: u32,
    targets: Set<LogTarget>,
    dir: Option<LogDirectoryResolution>,
) -> Seq<SinkView> {
    let console = if targets.contains(LogTarget::Stdout) {
        seq![SinkView::Console]
    } else {
        Seq::<SinkView>::empty()
    };
    let file = if targets.contains(LogTarget::File) && dir is Some && dir->0.is_valid {
        seq![file_sink_of(dir->0.choice, process_name, pid)]
    } else {
        Seq::<SinkView>::empty()
    };
    console + file
}

/// The rotation policy of the log file: rotate at 5 MiB, keep 10 backups.
pub fn rolling_policy() -> (r: RollingPolicy)
    ensures
        r == rolling_policy_of(),
        r.max_size_bytes == 5242880,
        r.window_size == 10,
{
    RollingPolicy { max_size_bytes: MAX_LOG_FILE_BYTES, window_size: MAX_LOG_BACKUPS }
}

fn file_stem(process_name: &str, pid: u32) -> (r: String)
    ensures
        r@ == "elastic_apm_profiler_"@ + process_name@ + "_"@ + decimal_of(pid as nat),
{
    let mut name = String::new();
    name.append("elastic_apm_profiler_");
    name.append(process_name);
    name.append("_");
    let digits = decimal(pid);
    name.append(digits.as_str());
    assert(name@ =~= "elastic_apm_profiler_"@ + process_name@ + "_"@ + decimal_of(pid as nat));
    name
}

/// The name of the log file of a process:
/// `elastic_apm_profiler_<process_name>_<pid>.log`.
pub fn log_file_name(process_name: &str, pid: u32) -> (r: String)
    ensures
        r@ == log_file_name_of(process_name@, pid),
{
    let mut name = file_stem(process_name, pid);
    name.append(".log");
    name
}

/// The name of a backup of the log file of a process, with `{}` in place of
/// its index: `elastic_apm_profiler_<process_name>_<pid>_{}.log`.
pub fn rolling_file_name(process_name: &str, pid: u32) -> (r: String)
    ensures
        r@ == rolling_file_name_of(process_name@, pid),
{
    let mut name = file_stem(process_name, pid);
    name.append("_{}.log");
    name
}

/// Starts the resolution of the log directory when the targets call for
/// one: the directory is resolved, and created, only when `File` is selected.
pub fn directory_resolver(targets: LogTargets, has_override: bool, override_is_default: bool) -> (r:
    Option<DirState>)
    ensures
        r == if targets@.contains(LogTarget::File) {
            Some(DirState::initial(has_override, override_is_default))
        } else {
            None
        },
{
    if targets.contains(LogTarget::File) {
        Some(DirState::start(has_override, override_is_default))
    } else {
        None
    }
}

/// Composes the logging plan of a process.
///
/// The level is read from the raw value of its variable and is `Warn` when
/// that is unset or names no level. The console sink is planned when
/// `Stdout` is among the targets. The file sink is planned when `File` is
/// among them and `dir` is a valid resolution; with no valid directory the
/// file is left out and the rest of the plan stands, so that the plan may
/// hold no sink at all.
pub fn initialize_logging(
    process_name: &str,
    pid: u32,
    targets: LogTargets,
    level_value: Option<&str>,
    dir: Option<LogDirectoryResolution>,
) -> (r: LoggingPlan)
    ensures
        r@.0 == level_of_value(view_of(level_value), LogLevel::Warn),
        r@.1 == sinks_of(process_name@, pid, targets@, dir),
{
    let level = read_log_level_from_env_var(level_value, LogLevel::Warn);
    let mut sinks: Vec<Sink> = Vec::new();
    if targets.contains(LogTarget::Stdout) {
        sinks.push(Sink::Console);
    }
    if targets.contains(LogTarget::File) {
        match dir {
            Some(resolution) => {
                if resolution.is_valid {
                    sinks.push(
                        Sink::RollingFile(
                            FileSink {
                                dir: resolution.choice,
                                file_name: log_file_name(process_name, pid),
                                rolling_name: rolling_file_name(process_name, pid),
                                policy: rolling_policy(),
                            },
                        ),
                    );
                }
            },
            None => {},
        }
    }
    let plan = LoggingPlan { level, sinks };
    assert(plan@.1 =~= sinks_of(process_name@, pid, targets@, dir));
    plan
}

/// The sink names of a plan.
pub open spec fn sink_names(sinks: Seq<SinkView>) -> Seq<Seq<char>> {
    sinks.map_values(|s: SinkView| s.name())
}

/// Without a valid directory the file is left out, and the console stays
/// exactly when it was selected.
pub proof fn invalid_directory_disables_only_the_file(
    process_name: Seq<char>,
    pid: u32,
    targets: Set<LogTarget>,
    dir: Option<LogDirectoryResolution>,
)
    requires
        dir is None || !dir->0.is_valid,
    ensures
        sinks_of(process_name, pid, targets, dir) == if targets.contains(LogTarget::Stdout) {
            seq![SinkView::Console]
        } else {
            Seq::<SinkView>::empty()
        },
{
    assert(sinks_of(process_name, pid, targets, dir) =~= if targets.contains(LogTarget::Stdout) {
        seq![SinkView::Console]
    } else {
        Seq::<SinkView>::empty()
    });
}

/// The file is planned exactly when `File` is selected and the directory
/// that the resolver names, asked of a truthful caller, exists as a
/// directory or was missing and could be created; the console is planned
/// exactly when `Stdout` is selected.
pub proof fn file_exactly_when_the_directory_is_usable(
    process_name: Seq<char>,
    pid: u32,
    targets: Set<LogTarget>,
    has_override: bool,
    override_is_default: bool,
    override_dir: DirFacts,
    default_dir: DirFacts,
)
    requires
        override_dir.coherent(),
        default_dir.coherent(),
    ensures
        ({
            let resolved = resolution_of(
                has_override,
                override_is_default,
                override_dir,
                default_dir,
            );
            let usable = facts_of(resolved.choice, override_dir, default_dir).usable();
            let console = if targets.contains(LogTarget::Stdout) {
                seq![SinkView::Console]
            } else {
                Seq::<SinkView>::empty()
            };
            let file = if targets.contains(LogTarget::File) && usable {
                seq![file_sink_of(resolved.choice, process_name, pid)]
            } else {
                Seq::<SinkView>::empty()
            };
            sinks_of(process_name, pid, targets, Some(resolved)) == console + file
        }),
{
    resolver_agrees_with_the_facts(has_override, override_is_default, override_dir, default_dir);
}

/// A plan holds each sink once at most, the console before the file: the
/// names of its sinks are distinct.
pub proof fn sink_names_are_distinct(
    process_name: Seq<char>,
    pid: u32,
    targets: Set<LogTarget>,
    dir: Option<LogDirectoryResolution>,
)
    ensures
        sinks_of(process_name, pid, targets, dir).len() <= 2,
        sink_names(sinks_of(process_name, pid, targets, dir)).no_duplicates(),
{
    reveal_strlit("stdout");
    reveal_strlit("file");
    let sinks = sinks_of(process_name, pid, targets, dir);
    let names = sink_names(sinks);
    assert(STDOUT_SINK@.len() != FILE_SINK@.len());
    assert forall|i: int, j: int| 0 <= i < names.len() && 0 <= j < names.len() && i != j implies names[i]
        != names[j] by {
        assert(sinks.len() == 2);
        assert(sinks[0] == SinkView::Console);
        assert(sinks[1] is RollingFile);
    }
}

/// The file sink rotates at 5 MiB and keeps ten backups, whatever the
/// process and the directory.
pub proof fn file_sink_rotation(dir: DirChoice, process_name: Seq<char>, pid: u32)
    ensures
        file_sink_of(dir, process_name, pid)->policy.max_size_bytes == 5 * 1024 * 1024,
        file_sink_of(dir, process_name, pid)->policy.window_size == 10,
{
}

} // verus!
