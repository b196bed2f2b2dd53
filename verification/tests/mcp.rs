use replmux_runtime_cli::broker::{KernelOperation, KernelResponse, TransportMode};
use replmux_runtime_cli::kernel::ReplValue;
use replmux_runtime_cli::mcp::{
    append_output, finish_repl, finish_repl_manage, generated_name, repl_output, require_name,
    tool_definitions,
    McpBody, McpReply, McpRequest, McpResult, McpServer, McpStep, ToolArguments, ToolKind,
};
use replmux_runtime_cli::ReplResponse;

fn server() -> McpServer {
    McpServer::new(
        None,
        None,
        None,
        TransportMode::Local,
        "/tmp/replmux-mcp-test.sock".to_owned(),
    )
}

fn no_arguments() -> ToolArguments {
    ToolArguments { name: None, code: None, action: None, kernelspec: None }
}

fn request(id: Option<&str>, method: &str) -> McpRequest {
    McpRequest {
        id: id.map(str::to_owned),
        method: Some(method.to_owned()),
        protocol_version: None,
        tool_name: None,
        arguments: no_arguments(),
    }
}

fn reply(step: McpStep) -> McpReply {
    match step {
        McpStep::Reply(reply) => reply,
        other => panic!("expected an answer, got {other:?}"),
    }
}

fn tool_text(step: McpStep) -> (String, bool) {
    match reply(step).body {
        McpBody::Result(McpResult::ToolText { text, is_error }) => (text, is_error),
        other => panic!("expected tool text, got {other:?}"),
    }
}

#[test]
fn initializes_and_advertises_two_tools() {
    let mut initialize = request(Some("1"), "initialize");
    initialize.protocol_version = Some("2025-06-18".to_owned());
    let answer = reply(server().handle(&initialize, "repl-1-1"));
    assert_eq!(answer.id, "1");
    match answer.body {
        McpBody::Result(McpResult::Initialize { protocol_version }) => {
            assert_eq!(protocol_version, "2025-06-18")
        }
        other => panic!("unexpected body: {other:?}"),
    }

    let tools = reply(server().handle(&request(Some("2"), "tools/list"), "repl-1-1"));
    match tools.body {
        McpBody::Result(McpResult::Tools { tools }) => assert_eq!(tools.len(), 2),
        other => panic!("unexpected body: {other:?}"),
    }
}

#[test]
fn ignores_notifications_and_rejects_unknown_methods() {
    assert!(matches!(
        server().handle(&request(None, "notifications/initialized"), "repl-1-1"),
        McpStep::Ignore
    ));
    let response = reply(server().handle(&request(Some("3"), "missing"), "repl-1-1"));
    match response.body {
        McpBody::Error { code, message } => {
            assert_eq!(code, -32601);
            assert_eq!(message, "method not found: missing");
        }
        other => panic!("unexpected body: {other:?}"),
    }
}

#[test]
fn initialize_defaults_the_protocol_version_and_ping_is_empty() {
    match reply(server().handle(&request(Some("1"), "initialize"), "g")).body {
        McpBody::Result(McpResult::Initialize { protocol_version }) => {
            assert_eq!(protocol_version, "2024-11-05")
        }
        other => panic!("unexpected body: {other:?}"),
    }
    assert!(matches!(
        reply(server().handle(&request(Some("null"), "ping"), "g")).body,
        McpBody::Result(McpResult::Empty)
    ));
}

fn call(tool: Option<&str>, arguments: ToolArguments) -> McpRequest {
    McpRequest {
        id: Some("7".to_owned()),
        method: Some("tools/call".to_owned()),
        protocol_version: None,
        tool_name: tool.map(str::to_owned),
        arguments,
    }
}

#[test]
fn tool_calls_become_kernel_operations() {
    let mut arguments = no_arguments();
    arguments.name = Some("analysis".to_owned());
    arguments.code = Some("1 + 1".to_owned());
    match server().handle(&call(Some("repl"), arguments), "g") {
        McpStep::Dispatch { id, tool, operation: KernelOperation::Exec { name, code } } => {
            assert_eq!(id, "7");
            assert_eq!(tool, ToolKind::Repl);
            assert_eq!(name, "analysis");
            assert_eq!(code, "1 + 1");
        }
        other => panic!("unexpected step: {other:?}"),
    }
    let mut arguments = no_arguments();
    arguments.action = Some("create".to_owned());
    match server().handle(&call(Some("repl-manage"), arguments), "repl-9-100") {
        McpStep::Dispatch {
            tool: ToolKind::ReplManage,
            operation: KernelOperation::Create { name, kernelspec: None },
            ..
        } => assert_eq!(name, "repl-9-100"),
        other => panic!("unexpected step: {other:?}"),
    }
}

#[test]
fn tool_call_errors_are_reported_at_the_right_level() {
    match reply(server().handle(&call(None, no_arguments()), "g")).body {
        McpBody::Error { code, message } => {
            assert_eq!(code, -32602);
            assert_eq!(message, "name must be a non-empty string");
        }
        other => panic!("unexpected body: {other:?}"),
    }
    match reply(server().handle(&call(Some("other"), no_arguments()), "g")).body {
        McpBody::Error { code, message } => {
            assert_eq!(code, -32602);
            assert_eq!(message, "unknown tool: other");
        }
        other => panic!("unexpected body: {other:?}"),
    }
    assert_eq!(
        tool_text(server().handle(&call(Some("repl"), no_arguments()), "g")),
        ("name must be a non-empty string".to_owned(), true)
    );
    let mut arguments = no_arguments();
    arguments.action = Some("delete".to_owned());
    arguments.name = Some(String::new());
    assert_eq!(
        tool_text(server().handle(&call(Some("repl-manage"), arguments), "g")),
        ("name is required for delete".to_owned(), true)
    );
    let mut arguments = no_arguments();
    arguments.action = Some("restart".to_owned());
    assert_eq!(
        tool_text(server().handle(&call(Some("repl-manage"), arguments), "g")),
        ("unsupported repl-manage action: restart".to_owned(), true)
    );
}

fn response(ok: bool, result: Option<ReplValue>, stdout: &str, stderr: &str) -> ReplResponse {
    ReplResponse {
        ok,
        mode: None,
        code: None,
        result,
        stdout: stdout.to_owned(),
        stderr: stderr.to_owned(),
        error: if ok { None } else { Some("ZeroDivisionError".to_owned()) },
    }
}

#[test]
fn execution_text_follows_the_documented_shape() {
    assert_eq!(repl_output(&response(true, None, "", "")), "(ok)");
    assert_eq!(
        repl_output(&response(true, Some(ReplValue::Text("42".to_owned())), "", "")),
        "42"
    );
    assert_eq!(
        repl_output(&response(true, Some(ReplValue::Json("[1,2]".to_owned())), "hi\n", "")),
        "[1,2]\nstdout: hi"
    );
    assert_eq!(
        repl_output(&response(false, None, "", " warn \n")),
        "ZeroDivisionError\nstderr: warn"
    );
    assert_eq!(repl_output(&response(true, None, "out\n", "")), "stdout: out");
    let mut output = String::new();
    append_output(&mut output, "stdout", "x");
    append_output(&mut output, "stderr", "y");
    assert_eq!(output, "stdout: x\nstderr: y");
    assert_eq!(require_name(Some("a"), "connect"), Ok("a".to_owned()));
    assert_eq!(require_name(None, "connect"), Err("name is required for connect".to_owned()));
}

#[test]
fn finished_calls_carry_their_text() {
    let executed = KernelResponse::Executed {
        response: response(true, Some(ReplValue::Text("6".to_owned())), "", ""),
    };
    match finish_repl("4".to_owned(), Ok(executed)).body {
        McpBody::Result(McpResult::ToolText { text, is_error }) => {
            assert_eq!(text, "6");
            assert!(!is_error);
        }
        other => panic!("unexpected body: {other:?}"),
    }
    match finish_repl("4".to_owned(), Ok(KernelResponse::Heartbeat { alive: true })).body {
        McpBody::Result(McpResult::ToolText { text, is_error }) => {
            assert_eq!(text, "replmux returned an unexpected execution response");
            assert!(is_error);
        }
        other => panic!("unexpected body: {other:?}"),
    }
    match finish_repl_manage("5".to_owned(), Err("kernel 'x' not found".to_owned())).body {
        McpBody::Result(McpResult::ToolText { text, is_error }) => {
            assert_eq!(text, "kernel 'x' not found");
            assert!(is_error);
        }
        other => panic!("unexpected body: {other:?}"),
    }
    let tools = tool_definitions();
    assert_eq!(tools[0].name, "repl");
    assert_eq!(tools[1].required, vec!["action".to_owned()]);
}

#[test]
fn generated_names_carry_the_process_and_the_time() {
    assert_eq!(generated_name(4242, 1700000000), "repl-4242-1700000000");
    assert_eq!(generated_name(0, 0), "repl-0-0");
}
