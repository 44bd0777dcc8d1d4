use profiler_env::manifest::{
    load_integrations, LoadOutcome, LoaderEvent, LoaderRequest, LoaderState, ManifestRead,
};
use profiler_env::paths::E_FAIL;

#[derive(Debug, Clone, PartialEq)]
struct Record {
    name: String,
    methods: Vec<String>,
}

fn record(name: &str, methods: &[&str]) -> Record {
    Record { name: name.to_string(), methods: methods.iter().map(|m| m.to_string()).collect() }
}

fn outcome(state: LoaderState<Record>) -> LoadOutcome<Record> {
    match state.finish() {
        Ok(outcome) => outcome,
        Err(_) => panic!("the loader has not finished"),
    }
}

fn load(path: &str, read: ManifestRead<Record>) -> LoadOutcome<Record> {
    let state = LoaderState::start();
    let state = load_integrations(state, LoaderEvent::PathVariable(Ok(path.to_string())));
    outcome(load_integrations(state, LoaderEvent::Manifest(read)))
}

#[test]
fn loader_asks_for_the_variable_first() {
    let state: LoaderState<Record> = LoaderState::start();
    assert!(matches!(state.request(), LoaderRequest::ReadPathVariable));
    assert!(state.finish().is_err());
}

#[test]
fn loader_asks_for_the_file_that_the_variable_names() {
    let state: LoaderState<Record> = LoaderState::start();
    let state = load_integrations(state, LoaderEvent::PathVariable(Ok("/etc/i.yml".to_string())));
    match state.request() {
        LoaderRequest::ReadManifest { path } => assert_eq!(path, "/etc/i.yml"),
        _ => panic!("the manifest was expected to be asked for"),
    }
}

#[test]
fn missing_variable_fails_and_asks_for_no_file() {
    let state: LoaderState<Record> = LoaderState::start();
    let state = load_integrations(
        state,
        LoaderEvent::PathVariable(Err("environment variable not found".to_string())),
    );
    assert!(matches!(state.request(), LoaderRequest::Return));
    let outcome = outcome(state);
    assert_eq!(outcome.result, Err(E_FAIL));
    assert_eq!(
        outcome.warning,
        Some(
            "Problem reading ELASTIC_APM_PROFILER_INTEGRATIONS environment variable: \
             environment variable not found. profiler is disabled."
                .to_string()
        )
    );
}

#[test]
fn unreadable_file_fails_with_a_warning_that_names_the_path() {
    let outcome = load("/etc/i.yml", ManifestRead::Unreadable("No such file".to_string()));
    assert_eq!(outcome.result, Err(E_FAIL));
    assert_eq!(
        outcome.warning,
        Some(
            "Problem reading integrations file /etc/i.yml: No such file. profiler is disabled."
                .to_string()
        )
    );
}

#[test]
fn malformed_manifest_fails_with_the_parsers_diagnostic() {
    let outcome = load("i.yml", ManifestRead::Malformed("expected a sequence at line 1".to_string()));
    assert_eq!(outcome.result, Err(E_FAIL));
    assert_eq!(
        outcome.warning,
        Some(
            "Problem reading integrations file i.yml: expected a sequence at line 1. \
             profiler is disabled."
                .to_string()
        )
    );
}

#[test]
fn parsed_records_are_returned_unchanged() {
    let records = vec![record("b", &["m2", "m1"]), record("a", &[]), record("b", &["m2", "m1"])];
    let outcome = load("i.yml", ManifestRead::Parsed(records.clone()));
    assert_eq!(outcome.result, Ok(records));
    assert_eq!(outcome.warning, None);
}

#[test]
fn empty_manifest_is_a_success() {
    let outcome = load("i.yml", ManifestRead::Parsed(Vec::new()));
    assert_eq!(outcome.result, Ok(Vec::new()));
    assert_eq!(outcome.warning, None);
}

#[test]
fn loading_twice_gives_equal_records_in_the_same_order() {
    let records = vec![record("x", &["a"]), record("y", &["b", "c"])];
    let first = load("i.yml", ManifestRead::Parsed(records.clone()));
    let second = load("i.yml", ManifestRead::Parsed(records.clone()));
    assert_eq!(first.result, second.result);
    assert_eq!(first.result, Ok(records));
}

#[test]
fn loading_the_same_yaml_twice_gives_equal_records() {
    let text = "- alpha\n- beta\n- alpha\n";
    let parse = || -> ManifestRead<String> {
        match serde_yaml::from_str::<Vec<String>>(text) {
            Ok(records) => ManifestRead::Parsed(records),
            Err(e) => ManifestRead::Malformed(e.to_string()),
        }
    };
    let run = |read: ManifestRead<String>| {
        let state = load_integrations(
            LoaderState::start(),
            LoaderEvent::PathVariable(Ok("i.yml".to_string())),
        );
        match load_integrations(state, LoaderEvent::Manifest(read)).finish() {
            Ok(outcome) => outcome.result,
            Err(_) => panic!("the loader has not finished"),
        }
    };
    let first = run(parse());
    let second = run(parse());
    assert_eq!(first, second);
    assert_eq!(first, Ok(vec!["alpha".to_string(), "beta".to_string(), "alpha".to_string()]));
}

#[test]
fn events_that_answer_nothing_are_ignored() {
    let state: LoaderState<Record> = LoaderState::start();
    let state = load_integrations(state, LoaderEvent::Manifest(ManifestRead::Parsed(Vec::new())));
    assert!(matches!(state.request(), LoaderRequest::ReadPathVariable));
    let state = load_integrations(state, LoaderEvent::PathVariable(Ok("a.yml".to_string())));
    let state = load_integrations(state, LoaderEvent::PathVariable(Ok("b.yml".to_string())));
    match state.request() {
        LoaderRequest::ReadManifest { path } => assert_eq!(path, "a.yml"),
        _ => panic!("the manifest was expected to be asked for"),
    }
    let state = load_integrations(state, LoaderEvent::Manifest(ManifestRead::Parsed(vec![record("r", &[])])));
    let state = load_integrations(state, LoaderEvent::PathVariable(Err("late".to_string())));
    let outcome = outcome(state);
    assert_eq!(outcome.result, Ok(vec![record("r", &[])]));
}
