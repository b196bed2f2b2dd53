use replmux_runtime_cli::client::{error_detail, normalize_base_url, supported_scheme, ErrorDetail};
use replmux_runtime_cli::models::UpdateFields;
use replmux_runtime_cli::{
    EnvironmentSpec, Runtime, RuntimeCreate, RuntimeStatus, RuntimeUpdate, SnapshotPolicy,
};

#[test]
fn create_request_defaults_to_python() {
    let request = RuntimeCreate::new("analysis");
    assert_eq!(request.name, "analysis");
    assert_eq!(request.language, "python");
    assert_eq!(request.environment, EnvironmentSpec::default());
    assert_eq!(request.environment.executable, "python3");
    assert_eq!(request.snapshot_policy.interval_executions, 25);
    assert_eq!(request.snapshot_policy.mode, "logical");
}

#[test]
fn empty_update_is_detected() {
    assert!(RuntimeUpdate::default().is_empty());
    let update = RuntimeUpdate { status: Some(RuntimeStatus::Failed), ..RuntimeUpdate::default() };
    assert!(!update.is_empty());
    assert_eq!(RuntimeStatus::Hibernated.text(), "hibernated");
}

fn runtime() -> Runtime {
    Runtime {
        id: "rt_123".to_owned(),
        name: "analysis".to_owned(),
        language: "python".to_owned(),
        environment: EnvironmentSpec {
            kind: "python".to_owned(),
            executable: "python3".to_owned(),
            digest: Some("sha256:1".to_owned()),
        },
        snapshot_policy: SnapshotPolicy { interval_executions: 25, mode: "logical".to_owned() },
        status: RuntimeStatus::Idle,
        worker_generation: 0,
        revision: 1,
        created_at: "2026-07-23T00:00:00+00:00".to_owned(),
        updated_at: "2026-07-23T00:00:00+00:00".to_owned(),
    }
}

fn fields() -> UpdateFields {
    UpdateFields {
        name: None,
        language: None,
        status: None,
        environment_kind: None,
        executable: None,
        environment_digest: None,
        snapshot_interval: None,
        snapshot_mode: None,
    }
}

#[test]
fn partial_updates_keep_the_rest_of_the_current_runtime() {
    let mut update = fields();
    update.executable = Some("python3.12".to_owned());
    update.snapshot_interval = Some(5);
    assert!(update.needs_current());
    let current = runtime();
    let request = update.into_update(Some(&current)).unwrap();
    let environment = request.environment.unwrap();
    assert_eq!(environment.kind, "python");
    assert_eq!(environment.executable, "python3.12");
    assert_eq!(environment.digest, Some("sha256:1".to_owned()));
    let policy = request.snapshot_policy.unwrap();
    assert_eq!(policy.interval_executions, 5);
    assert_eq!(policy.mode, "logical");
    assert!(request.name.is_none());

    let mut rename = fields();
    rename.name = Some("renamed".to_owned());
    assert!(!rename.needs_current());
    let request = rename.into_update(None).unwrap();
    assert_eq!(request.name, Some("renamed".to_owned()));
    assert!(request.environment.is_none());
    assert_eq!(
        fields().into_update(None),
        Err("update requires at least one field".to_owned())
    );
}

#[test]
fn base_url_gets_one_trailing_slash() {
    assert_eq!(normalize_base_url("http://127.0.0.1:8000"), "http://127.0.0.1:8000/");
    assert_eq!(normalize_base_url("http://h/api///"), "http://h/api/");
    assert!(supported_scheme("https"));
    assert!(!supported_scheme("ftp"));
}

#[test]
fn api_error_includes_fastapi_detail_text() {
    let body = r#"{"detail":"Runtime not found: rt_missing"}"#;
    assert_eq!(
        error_detail(body, Some(ErrorDetail::Text("Runtime not found: rt_missing".to_owned()))),
        "Runtime not found: rt_missing"
    );
    assert_eq!(error_detail("oops", Some(ErrorDetail::Text(String::new()))), "oops");
    assert_eq!(error_detail("{\"detail\":[1]}", Some(ErrorDetail::Json("[1]".to_owned()))), "[1]");
    assert_eq!(error_detail("", None), "request failed without an error body");
}
