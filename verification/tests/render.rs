use replmux_runtime_cli::kernel::ReplValue;
use replmux_runtime_cli::render::{
    attached_line, deleted_line, heartbeat_line, kernel_table, result_line, runtime_deleted_line,
    runtime_lines, runtime_table, started_line,
};
use replmux_runtime_cli::{
    EnvironmentSpec, KernelStatus, ReplResponse, Runtime, RuntimeList, RuntimeStatus,
    SnapshotPolicy,
};

fn runtime(id: &str, name: &str, status: RuntimeStatus, revision: u64) -> Runtime {
    Runtime {
        id: id.to_owned(),
        name: name.to_owned(),
        language: "python".to_owned(),
        environment: EnvironmentSpec {
            kind: "python".to_owned(),
            executable: "python3".to_owned(),
            digest: None,
        },
        snapshot_policy: SnapshotPolicy { interval_executions: 25, mode: "logical".to_owned() },
        status,
        worker_generation: 0,
        revision,
        created_at: "2026-07-23T00:00:00+00:00".to_owned(),
        updated_at: "2026-07-23T00:00:01+00:00".to_owned(),
    }
}

#[test]
fn kernel_table_pads_like_the_format_widths() {
    assert_eq!(kernel_table(&Vec::new()), vec!["No kernels found.".to_owned()]);
    let rows = vec![
        KernelStatus { name: "analysis".to_owned(), pid: Some(4242), status: "running".to_owned() },
        KernelStatus { name: "old".to_owned(), pid: None, status: "no-pid".to_owned() },
    ];
    let lines = kernel_table(&rows);
    assert_eq!(lines.len(), 3);
    assert_eq!(lines[0], format!("{:<24} {:<10} STATUS", "NAME", "PID"));
    assert_eq!(lines[1], format!("{:<24} {:<10} {}", "analysis", "4242", "running"));
    assert_eq!(lines[2], format!("{:<24} {:<10} {}", "old", "?", "no-pid"));
}

#[test]
fn kernel_lines_name_the_kernel() {
    assert_eq!(started_line("analysis", 7), "Kernel 'analysis' started (pid 7)");
    assert_eq!(attached_line("analysis"), "Kernel 'analysis' attached.");
    assert_eq!(deleted_line("analysis"), "Kernel 'analysis' shut down.");
    assert_eq!(heartbeat_line(true), ("alive".to_owned(), Ok(())));
    assert_eq!(
        heartbeat_line(false),
        ("unresponsive".to_owned(), Err("kernel heartbeat is unresponsive".to_owned()))
    );
}

fn execution(ok: bool, mode: Option<&str>, result: Option<ReplValue>, error: Option<&str>) -> ReplResponse {
    ReplResponse {
        ok,
        mode: mode.map(str::to_owned),
        code: None,
        result,
        stdout: String::new(),
        stderr: String::new(),
        error: error.map(str::to_owned),
    }
}

#[test]
fn only_evaluated_values_are_printed() {
    let text = Some(ReplValue::Text("16".to_owned()));
    assert_eq!(result_line(&execution(true, Some("eval"), text.clone(), None)), Ok(Some("16".to_owned())));
    assert_eq!(result_line(&execution(true, Some("exec"), text, None)), Ok(None));
    let json = Some(ReplValue::Json("[1,2]".to_owned()));
    assert_eq!(result_line(&execution(true, Some("eval"), json, None)), Ok(Some("[1,2]".to_owned())));
    assert_eq!(
        result_line(&execution(false, None, None, Some("NameError: x"))),
        Err("NameError: x".to_owned())
    );
    assert_eq!(
        result_line(&execution(false, None, None, None)),
        Err("kernel execution failed".to_owned())
    );
}

#[test]
fn runtime_table_pads_like_the_format_widths() {
    let list = RuntimeList {
        items: vec![runtime("rt_123", "analysis", RuntimeStatus::Hibernated, 12)],
        total: 1,
        limit: 50,
        offset: 0,
    };
    let lines = runtime_table(&list);
    assert_eq!(
        lines,
        vec![
            format!("{:<35}  {:<24}  {:<11}  {:<10}  REV", "ID", "NAME", "STATUS", "LANGUAGE"),
            format!(
                "{:<35}  {:<24}  {:<11}  {:<10}  {}",
                "rt_123", "analysis", "hibernated", "python", 12
            ),
            String::new(),
            "1 runtime(s)".to_owned(),
        ]
    );
}

#[test]
fn runtime_details_list_every_field() {
    let lines = runtime_lines(&runtime("rt_1", "a", RuntimeStatus::Idle, 3));
    assert_eq!(lines[0], "id:                rt_1");
    assert_eq!(lines[2], "status:            idle");
    assert_eq!(lines[4], "executable:        python3");
    assert_eq!(lines[5], "worker generation: 0");
    assert_eq!(lines[6], "revision:          3");
    assert_eq!(lines[8], "updated:           2026-07-23T00:00:01+00:00");
    assert_eq!(runtime_deleted_line("rt_1"), "Deleted rt_1");
}
