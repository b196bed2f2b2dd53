use replmux_runtime_cli::kernel::{
    check_existing_kernel, connection_document, connection_socket, default_kernel_directory,
    execution_socket,
    kernel_not_found,
    kernel_status, parse_pid, sort_by_name, startup_step, stop_step, validate_name,
    ManagerEnvironment, StartupAction, StopAction, StopPhase,
};
use replmux_runtime_cli::KernelManager;

#[test]
fn validates_safe_kernel_names() {
    assert!(validate_name("analysis-1_test.py").is_ok());
    assert!(validate_name("").is_err());
    assert!(validate_name("../escape").is_err());
    assert!(validate_name("with space").is_err());
}

#[test]
fn refuses_non_ascii_names_with_the_rule() {
    assert_eq!(
        validate_name("caf\u{e9}"),
        Err("kernel name must contain only letters, numbers, '.', '_' or '-'".to_owned())
    );
}

fn environment() -> ManagerEnvironment {
    ManagerEnvironment {
        kernel_dir: None,
        python: None,
        kernel_script: None,
        home: Some("/home/u".to_owned()),
        default_kernel_script: "minimal_kernel_clean.py".to_owned(),
    }
}

#[test]
fn manager_falls_back_on_the_environment() {
    let manager = KernelManager::from_options(None, None, None, environment()).unwrap();
    assert_eq!(manager.directory(), "/home/u/.jupyter-repl/kernels");
    assert_eq!(manager.python(), "python3");
    assert_eq!(manager.kernel_script(), "minimal_kernel_clean.py");
    let mut env = environment();
    env.python = Some("/usr/bin/python3.12".to_owned());
    env.kernel_script = Some("/opt/k.py".to_owned());
    let manager =
        KernelManager::from_options(Some("/tmp/k".to_owned()), None, None, env).unwrap();
    assert_eq!(manager.directory(), "/tmp/k");
    assert_eq!(manager.python(), "/usr/bin/python3.12");
    assert_eq!(manager.kernel_script(), "/opt/k.py");
    assert_eq!(default_kernel_directory(None, None), ".jupyter-repl/kernels");
    assert_eq!(default_kernel_directory(Some("/x".to_owned()), None), "/x");
}

#[test]
fn kernel_files_sit_in_the_directory() {
    let manager = KernelManager::from_options(Some("/tmp/k/".to_owned()), None, None, environment())
        .unwrap();
    assert_eq!(manager.connection_path("a"), "/tmp/k/a.json");
    assert_eq!(manager.pid_path("a"), "/tmp/k/a.pid");
    assert_eq!(manager.socket_path("a"), "/tmp/k/a.sock");
    assert_eq!(manager.connection_file("a.b").unwrap(), "/tmp/k/a.b.json");
    assert!(manager.connection_file("a/b").is_err());
    assert_eq!(
        manager.check_kernel_script(false),
        Err("kernel script not found: minimal_kernel_clean.py (set --kernel-script or MULTIREPL_KERNEL_SCRIPT)".to_owned())
    );
    assert!(manager.check_kernel_script(true).is_ok());
}

#[test]
fn create_refuses_a_running_kernel_and_clears_a_dead_one() {
    assert_eq!(
        check_existing_kernel("a", true, Some(41), true),
        Err("kernel 'a' is already running (pid 41)".to_owned())
    );
    assert_eq!(check_existing_kernel("a", true, Some(41), false), Ok(true));
    assert_eq!(check_existing_kernel("a", true, None, false), Ok(true));
    assert_eq!(check_existing_kernel("a", false, Some(41), true), Ok(false));
}

#[test]
fn startup_waits_then_records_or_gives_up() {
    assert_eq!(startup_step("a", true, false, None), StartupAction::Wait);
    assert_eq!(startup_step("a", true, true, None), StartupAction::RecordPid);
    assert_eq!(
        startup_step("a", true, false, Some("exit status: 1")),
        StartupAction::Abandon("kernel 'a' exited during startup with exit status: 1".to_owned())
    );
    assert_eq!(
        startup_step("a", false, true, None),
        StartupAction::GiveUp("kernel 'a' failed to start within 5 seconds".to_owned())
    );
}

#[test]
fn delete_escalates_from_request_to_kill() {
    let (phase, action) = stop_step(StopPhase::Start, true, true);
    assert_eq!(action, StopAction::RequestShutdown);
    let (phase, action) = stop_step(phase, true, true);
    assert_eq!(action, StopAction::Terminate);
    let (phase, action) = stop_step(phase, true, true);
    assert_eq!(action, StopAction::Wait);
    let (_, action) = stop_step(phase, true, false);
    assert_eq!(action, StopAction::Kill);
    assert_eq!(stop_step(StopPhase::Start, false, true).1, StopAction::Done);
    assert_eq!(stop_step(StopPhase::Terminating, false, false).1, StopAction::Done);
}

#[test]
fn statuses_are_listed_by_name() {
    let rows = vec![
        kernel_status("beta".to_owned(), Some(2), true),
        kernel_status("alpha".to_owned(), Some(1), false),
        kernel_status("Zed".to_owned(), None, false),
        kernel_status("alp".to_owned(), None, true),
    ];
    let sorted = sort_by_name(rows);
    let names: Vec<&str> = sorted.iter().map(|row| row.name.as_str()).collect();
    assert_eq!(names, vec!["Zed", "alp", "alpha", "beta"]);
    let statuses: Vec<&str> = sorted.iter().map(|row| row.status.as_str()).collect();
    assert_eq!(statuses, vec!["no-pid", "no-pid", "dead", "running"]);
}

#[test]
fn pid_files_are_read_like_u32_from_str() {
    assert_eq!(parse_pid("p", " 1234\n"), Ok(1234));
    assert_eq!(parse_pid("p", "+7"), Ok(7));
    assert_eq!(parse_pid("p", "4294967295"), Ok(u32::MAX));
    assert_eq!(
        parse_pid("/k/a.pid", "4294967296"),
        Err("invalid PID file /k/a.pid: number too large to fit in target type".to_owned())
    );
    assert_eq!(
        parse_pid("/k/a.pid", "  "),
        Err("invalid PID file /k/a.pid: cannot parse integer from empty string".to_owned())
    );
    assert_eq!(
        parse_pid("/k/a.pid", "-1"),
        Err("invalid PID file /k/a.pid: invalid digit found in string".to_owned())
    );
    assert_eq!(
        parse_pid("/k/a.pid", "+"),
        Err("invalid PID file /k/a.pid: invalid digit found in string".to_owned())
    );
    for text in ["12a", "99999999999x", "", "+", "-", "0", "00042"] {
        let expected = text
            .trim()
            .parse::<u32>()
            .map_err(|error| format!("invalid PID file p: {error}"));
        assert_eq!(parse_pid("p", text), expected, "{text}");
    }
}

#[test]
fn execution_needs_a_socket_path() {
    assert_eq!(execution_socket("a", Some("/k/a.sock")), Ok("/k/a.sock".to_owned()));
    assert_eq!(
        execution_socket("a", None),
        Err("kernel 'a' connection has no socket_path".to_owned())
    );
    assert_eq!(kernel_not_found("a"), "kernel 'a' not found");
}

#[test]
fn written_pid_reads_back() {
    for pid in [0u32, 7, 1234, 65_536, u32::MAX] {
        let written = replmux_runtime_cli::text::decimal_string(pid as u128);
        assert_eq!(written, pid.to_string());
        assert_eq!(parse_pid("p", &written), Ok(pid));
    }
}

#[test]
fn execution_socket_is_read_from_the_connection_file() {
    assert_eq!(
        connection_socket("a", "/k/a.json", r#"{"socket_path":"/k/a.sock","pid":1}"#),
        Ok("/k/a.sock".to_owned())
    );
    assert_eq!(
        connection_socket("a", "/k/a.json", r#"{"socket_path":7}"#),
        Err("kernel 'a' connection has no socket_path".to_owned())
    );
    assert_eq!(
        connection_socket("a", "/k/a.json", r#"{"shell_port":1}"#),
        Err("kernel 'a' connection has no socket_path".to_owned())
    );
    assert!(connection_socket("a", "/k/a.json", "{")
        .unwrap_err()
        .starts_with("invalid connection file /k/a.json: "));
}

#[test]
fn connection_document_is_the_parsed_file() {
    assert_eq!(
        connection_document("/k/a.json", "{\n  \"socket_path\": \"/k/a.sock\"\n}\n"),
        Ok("{\"socket_path\":\"/k/a.sock\"}".to_owned())
    );
    assert!(connection_document("/k/a.json", "not json")
        .unwrap_err()
        .starts_with("invalid connection file /k/a.json: "));
}

#[test]
fn created_kernel_connection_file_lists_under_its_name() {
    assert_eq!(
        replmux_runtime_cli::paths::json_file_stem("analysis-1_test.py.json"),
        Some("analysis-1_test.py".to_owned())
    );
}
