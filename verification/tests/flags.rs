use profiler_env::flags::{
    calltarget_enabled, disable_optimizations, enable_inlining, fallback_note,
    fallback_note_lowered, log_il, parse_bool_lowered, read_bool_env_var,
};

#[test]
fn true_words_resolve_to_true() {
    for word in ["true", "TRUE", "1"] {
        assert!(read_bool_env_var(Some(word), false), "{}", word);
        assert!(read_bool_env_var(Some(word), true), "{}", word);
    }
}

#[test]
fn false_words_resolve_to_false() {
    for word in ["false", "FALSE", "0"] {
        assert!(!read_bool_env_var(Some(word), true), "{}", word);
        assert!(!read_bool_env_var(Some(word), false), "{}", word);
    }
}

#[test]
fn mixed_case_words_are_recognised() {
    assert!(read_bool_env_var(Some("True"), false));
    assert!(read_bool_env_var(Some("tRuE"), false));
    assert!(!read_bool_env_var(Some("False"), true));
}

#[test]
fn other_values_resolve_to_the_default() {
    for word in ["", "yes", "no", "2", "on", " true", "true ", "truee", "t"] {
        assert!(read_bool_env_var(Some(word), true), "{:?}", word);
        assert!(!read_bool_env_var(Some(word), false), "{:?}", word);
    }
}

#[test]
fn unset_variable_resolves_to_the_default() {
    assert!(read_bool_env_var(None, true));
    assert!(!read_bool_env_var(None, false));
}

#[test]
fn lowered_words_are_matched_exactly() {
    assert!(parse_bool_lowered("true", false));
    assert!(parse_bool_lowered("1", false));
    assert!(!parse_bool_lowered("false", true));
    assert!(!parse_bool_lowered("0", true));
    assert!(!parse_bool_lowered("TRUE", false));
    assert!(parse_bool_lowered("FALSE", true));
}

#[test]
fn disable_optimizations_is_off_by_default() {
    assert!(!disable_optimizations(None));
    assert!(!disable_optimizations(Some("maybe")));
    assert!(disable_optimizations(Some("1")));
    assert!(disable_optimizations(Some("TRUE")));
    assert!(!disable_optimizations(Some("false")));
}

#[test]
fn enable_inlining_uses_the_callers_default() {
    assert!(enable_inlining(None, true));
    assert!(!enable_inlining(None, false));
    assert!(enable_inlining(Some("junk"), true));
    assert!(!enable_inlining(Some("0"), true));
    assert!(enable_inlining(Some("True"), false));
}

#[test]
fn log_il_is_off_by_default() {
    assert!(!log_il(None));
    assert!(log_il(Some("true")));
    assert!(!log_il(Some("")));
}

#[test]
fn calltarget_is_on_by_default() {
    assert!(calltarget_enabled(None));
    assert!(calltarget_enabled(Some("whatever")));
    assert!(!calltarget_enabled(Some("FALSE")));
    assert!(!calltarget_enabled(Some("0")));
}

#[test]
fn recognised_value_has_no_note() {
    assert_eq!(fallback_note("K", Ok("TRUE"), false), None);
    assert_eq!(fallback_note("K", Ok("0"), true), None);
    assert_eq!(fallback_note_lowered("K", "TRUE", "true", false), None);
}

#[test]
fn unknown_value_note_names_key_value_and_default() {
    assert_eq!(
        fallback_note("ELASTIC_APM_PROFILER_LOG_IL", Ok("Yes"), false),
        Some("Unknown value for ELASTIC_APM_PROFILER_LOG_IL: Yes. Setting to false".to_string())
    );
    assert_eq!(
        fallback_note_lowered("K", "MAYBE", "maybe", true),
        Some("Unknown value for K: MAYBE. Setting to true".to_string())
    );
}

#[test]
fn unreadable_variable_note_names_key_problem_and_default() {
    assert_eq!(
        fallback_note("K", Err("environment variable not found"), true),
        Some("Problem reading K: environment variable not found. Setting to true".to_string())
    );
}
