use profiler_env::envvars::{get_env_vars, of_interest};
use profiler_env::paths::{
    first_set, get_default_log_dir, get_log_dir, get_native_profiler_file, get_profiler_dir,
    native_profiler_file_warning, DirPath, Platform, ProfilerPaths, E_FAIL,
};
use profiler_env::text::{chars_of, decimal, starts_with, str_eq};
use profiler_env::variables::{
    profiler_path_variable, profiler_path_variable_for_width, PointerWidth, Runtime,
};

fn paths(a: Option<&str>, b: Option<&str>, c: Option<&str>, d: Option<&str>) -> ProfilerPaths {
    ProfilerPaths {
        coreclr_for_width: a.map(String::from),
        coreclr: b.map(String::from),
        framework_for_width: c.map(String::from),
        framework: d.map(String::from),
    }
}

fn strings(items: &[&str]) -> Vec<String> {
    items.iter().map(|s| s.to_string()).collect()
}

#[test]
fn failure_code_is_the_generic_failure() {
    assert_eq!(E_FAIL, 0x8000_4005u32 as i32);
    assert_eq!(E_FAIL, -2147467259);
}

#[test]
fn first_set_returns_the_first_present_candidate() {
    assert_eq!(first_set(vec![]), None);
    assert_eq!(first_set(vec![None, None]), None);
    assert_eq!(
        first_set(vec![None, Some("b".to_string()), Some("c".to_string())]),
        Some("b".to_string())
    );
    assert_eq!(first_set(vec![Some("".to_string()), Some("c".to_string())]), Some("".to_string()));
}

#[test]
fn profiler_dir_prefers_the_width_specific_coreclr_path() {
    assert_eq!(get_profiler_dir(paths(Some("a"), Some("b"), Some("c"), Some("d"))), "a");
    assert_eq!(get_profiler_dir(paths(None, Some("b"), Some("c"), Some("d"))), "b");
    assert_eq!(get_profiler_dir(paths(None, None, Some("c"), Some("d"))), "c");
    assert_eq!(get_profiler_dir(paths(None, None, None, Some("d"))), "d");
}

#[test]
fn profiler_dir_is_empty_when_nothing_is_set() {
    assert_eq!(get_profiler_dir(paths(None, None, None, None)), "");
}

#[test]
fn native_profiler_file_on_windows_is_fixed() {
    assert_eq!(
        get_native_profiler_file(Platform::Windows, None, None),
        Ok("elastic_apm_profiler.dll".to_string())
    );
    assert_eq!(
        get_native_profiler_file(Platform::Windows, Some("x".to_string()), Some("y".to_string())),
        Ok("elastic_apm_profiler.dll".to_string())
    );
}

#[test]
fn native_profiler_file_elsewhere_comes_from_the_coreclr_variables() {
    assert_eq!(
        get_native_profiler_file(Platform::Other, Some("/p64.so".to_string()), Some("/p.so".to_string())),
        Ok("/p64.so".to_string())
    );
    assert_eq!(
        get_native_profiler_file(Platform::Other, None, Some("/p.so".to_string())),
        Ok("/p.so".to_string())
    );
}

#[test]
fn native_profiler_file_fails_when_no_variable_is_set() {
    assert_eq!(get_native_profiler_file(Platform::Other, None, None), Err(E_FAIL));
}

#[test]
fn failed_lookup_of_the_native_profiler_file_has_a_warning() {
    assert_eq!(
        native_profiler_file_warning(Platform::Other, None, Err("environment variable not found")),
        Some(
            "problem getting env var CORECLR_PROFILER_PATH: environment variable not found"
                .to_string()
        )
    );
}

#[test]
fn successful_lookup_of_the_native_profiler_file_has_no_warning() {
    assert_eq!(native_profiler_file_warning(Platform::Other, None, Ok("/p.so")), None);
    assert_eq!(native_profiler_file_warning(Platform::Other, Some("/p64.so"), Err("gone")), None);
    assert_eq!(native_profiler_file_warning(Platform::Windows, None, Err("gone")), None);
    assert_eq!(native_profiler_file_warning(Platform::Windows, Some("a"), Ok("b")), None);
}

#[test]
fn default_log_dir_elsewhere_is_fixed() {
    let dir = get_default_log_dir(
        Platform::Other,
        Some("C:\\ProgramData".to_string()),
        paths(Some("a"), None, None, None),
    );
    assert_eq!(dir.root, "/var/log/elastic/apm-agent-dotnet");
    assert!(dir.segments.is_empty());
}

#[test]
fn default_log_dir_on_windows_is_under_program_data() {
    let dir = get_default_log_dir(
        Platform::Windows,
        Some("C:\\ProgramData".to_string()),
        paths(Some("a"), None, None, None),
    );
    assert_eq!(dir.root, "C:\\ProgramData");
    assert_eq!(dir.segments, strings(&["elastic", "apm-agent-dotnet", "logs"]));
}

#[test]
fn default_log_dir_on_windows_falls_back_to_the_profiler_dir() {
    let dir = get_default_log_dir(Platform::Windows, None, paths(None, Some("C:\\prof"), None, None));
    assert_eq!(dir.root, "C:\\prof");
    assert_eq!(dir.segments, strings(&["logs"]));
    let dir = get_default_log_dir(Platform::Windows, None, paths(None, None, None, None));
    assert_eq!(dir.root, "");
    assert_eq!(dir.segments, strings(&["logs"]));
}

#[test]
fn log_dir_is_the_override_when_set() {
    let default_dir = DirPath { root: "/var/log/x".to_string(), segments: strings(&["logs"]) };
    let dir = get_log_dir(Some("/tmp/logs".to_string()), default_dir);
    assert_eq!(dir.root, "/tmp/logs");
    assert!(dir.segments.is_empty());
}

#[test]
fn log_dir_is_the_default_when_no_override_is_set() {
    let default_dir = DirPath { root: "/var/log/x".to_string(), segments: strings(&["logs"]) };
    let dir = get_log_dir(None, default_dir);
    assert_eq!(dir.root, "/var/log/x");
    assert_eq!(dir.segments, strings(&["logs"]));
}

#[test]
fn profiler_path_variables_are_named_by_runtime_and_width() {
    assert_eq!(profiler_path_variable(Runtime::CoreClr), "CORECLR_PROFILER_PATH");
    assert_eq!(profiler_path_variable(Runtime::Framework), "COR_PROFILER_PATH");
    assert_eq!(
        profiler_path_variable_for_width(Runtime::CoreClr, PointerWidth::Bits64),
        "CORECLR_PROFILER_PATH_64"
    );
    assert_eq!(
        profiler_path_variable_for_width(Runtime::CoreClr, PointerWidth::Bits32),
        "CORECLR_PROFILER_PATH_32"
    );
    assert_eq!(
        profiler_path_variable_for_width(Runtime::Framework, PointerWidth::Bits64),
        "COR_PROFILER_PATH_64"
    );
    assert_eq!(
        profiler_path_variable_for_width(Runtime::Framework, PointerWidth::Bits32),
        "COR_PROFILER_PATH_32"
    );
}

#[test]
fn env_report_lists_the_variables_of_interest() {
    let vars = vec![
        ("PATH".to_string(), "/bin".to_string()),
        ("ELASTIC_APM_PROFILER_LOG".to_string(), "debug".to_string()),
        ("CORECLR_ENABLE_PROFILING".to_string(), "1".to_string()),
        ("HOME".to_string(), "/root".to_string()),
        ("COR_PROFILER".to_string(), "{x}".to_string()),
    ];
    assert_eq!(
        get_env_vars(&vars),
        "  ELASTIC_APM_PROFILER_LOG=\"debug\"\n  CORECLR_ENABLE_PROFILING=\"1\"\n  COR_PROFILER=\"{x}\""
    );
}

#[test]
fn env_report_of_one_variable_has_no_line_feed() {
    let vars = vec![
        ("A".to_string(), "1".to_string()),
        ("ELASTIC_X".to_string(), "".to_string()),
    ];
    assert_eq!(get_env_vars(&vars), "  ELASTIC_X=\"\"");
}

#[test]
fn env_report_is_empty_without_variables_of_interest() {
    assert_eq!(get_env_vars(&Vec::new()), "");
    let vars = vec![
        ("elastic_lower".to_string(), "1".to_string()),
        ("XCOR_".to_string(), "1".to_string()),
        ("COR".to_string(), "1".to_string()),
    ];
    assert_eq!(get_env_vars(&vars), "");
}

#[test]
fn variables_of_interest_are_told_by_prefix() {
    assert!(of_interest("ELASTIC_"));
    assert!(of_interest("CORECLR_PROFILER"));
    assert!(of_interest("COR_PROFILER"));
    assert!(!of_interest("ELASTIC"));
    assert!(!of_interest("MY_ELASTIC_VAR"));
    assert!(!of_interest(""));
}

#[test]
fn text_helpers_compare_by_characters() {
    assert!(str_eq("abc", "abc"));
    assert!(!str_eq("abc", "abd"));
    assert!(!str_eq("abc", "ab"));
    assert!(starts_with("abc", ""));
    assert!(starts_with("abc", "ab"));
    assert!(starts_with("abc", "abc"));
    assert!(!starts_with("abc", "abcd"));
    assert!(!starts_with("abc", "b"));
    assert_eq!(chars_of("aé"), vec!['a', 'é']);
}

#[test]
fn decimal_writes_numbers_without_leading_zeros() {
    assert_eq!(decimal(0), "0");
    assert_eq!(decimal(7), "7");
    assert_eq!(decimal(10), "10");
    assert_eq!(decimal(1234), "1234");
    assert_eq!(decimal(90807), "90807");
    assert_eq!(decimal(u32::MAX), "4294967295");
}
