//! The names of the environment variables that the profiler reads.

use vstd::prelude::*;

verus! {

/// Path of the integration manifest.
pub const ELASTIC_APM_PROFILER_INTEGRATIONS: &'static str = "ELASTIC_APM_PROFILER_INTEGRATIONS";

/// `;`-separated log targets, `file` and `stdout`.
pub const ELASTIC_APM_PROFILER_LOG_TARGETS: &'static str = "ELASTIC_APM_PROFILER_LOG_TARGETS";

/// Name of the log level.
pub const ELASTIC_APM_PROFILER_LOG: &'static str = "ELASTIC_APM_PROFILER_LOG";

/// Directory that overrides the default log directory.
pub const ELASTIC_APM_PROFILER_LOG_DIR: &'static str = "ELASTIC_APM_PROFILER_LOG_DIR";

/// Whether to log the IL of rewritten methods. Off unless the value says so.
pub const ELASTIC_APM_PROFILER_LOG_IL: &'static str = "ELASTIC_APM_PROFILER_LOG_IL";

/// Whether call-target instrumentation is enabled. On unless the value says
/// otherwise.
pub const ELASTIC_APM_PROFILER_CALLTARGET_ENABLED: &'static str =
    "ELASTIC_APM_PROFILER_CALLTARGET_ENABLED";

/// Whether the JIT may inline instrumented methods.
pub const ELASTIC_APM_PROFILER_ENABLE_INLINING: &'static str =
    "ELASTIC_APM_PROFILER_ENABLE_INLINING";

/// Whether JIT optimizations are disabled. Off unless the value says so.
pub const ELASTIC_APM_PROFILER_DISABLE_OPTIMIZATIONS: &'static str =
    "ELASTIC_APM_PROFILER_DISABLE_OPTIMIZATIONS";

/// The common application data folder on Windows.
pub const PROGRAMDATA: &'static str = "PROGRAMDATA";

/// The width of a pointer on the target the profiler is built for.
#[derive(Clone, Copy, Debug, PartialEq, Eq, Structural)]
pub enum PointerWidth {
    Bits32,
    Bits64,
}

/// The runtime whose variables name the profiler's path.
#[derive(Clone, Copy, Debug, PartialEq, Eq, Structural)]
pub enum Runtime {
    /// .NET Core and later: the `CORECLR_` variables.
    CoreClr,
    /// .NET Framework: the `COR_` variables.
    Framework,
}

/// The name of the variable that holds the profiler's path for one runtime,
/// for any pointer width.
pub open spec fn profiler_path_name(runtime: Runtime) -> Seq<char> {
    match runtime {
        Runtime::CoreClr => "CORECLR_PROFILER_PATH"@,
        Runtime::Framework => "COR_PROFILER_PATH"@,
    }
}

/// The name of the variable that holds the profiler's path for one runtime
/// and one pointer width.
pub open spec fn profiler_path_name_for_width(runtime: Runtime, width: PointerWidth) -> Seq<char> {
    match (runtime, width) {
        (Runtime::CoreClr, PointerWidth::Bits64) => "CORECLR_PROFILER_PATH_64"@,
        (Runtime::CoreClr, PointerWidth::Bits32) => "CORECLR_PROFILER_PATH_32"@,
        (Runtime::Framework, PointerWidth::Bits64) => "COR_PROFILER_PATH_64"@,
        (Runtime::Framework, PointerWidth::Bits32) => "COR_PROFILER_PATH_32"@,
    }
}

/// The variable that holds the profiler's path for one runtime.
pub fn profiler_path_variable(runtime: Runtime) -> (r: &'static str)
    ensures
        r@ == profiler_path_name(runtime),
{
    match runtime {
        Runtime::CoreClr => "CORECLR_PROFILER_PATH",
        Runtime::Framework => "COR_PROFILER_PATH",
    }
}

/// The variable that holds the profiler's path for one runtime and pointer
/// width. It is read before the variable without a width.
pub fn profiler_path_variable_for_width(runtime: Runtime, width: PointerWidth) -> (r: &'static str)
    ensures
        r@ == profiler_path_name_for_width(runtime, width),
{
    match runtime {
        Runtime::CoreClr => match width {
            PointerWidth::Bits64 => "CORECLR_PROFILER_PATH_64",
            PointerWidth::Bits32 => "CORECLR_PROFILER_PATH_32",
        },
        Runtime::Framework => match width {
            PointerWidth::Bits64 => "COR_PROFILER_PATH_64",
            PointerWidth::Bits32 => "COR_PROFILER_PATH_32",
        },
    }
}

} // verus!
