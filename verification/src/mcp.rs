//! The Model Context Protocol server: which JSON-RPC requests it answers,
//! the two tools it offers, and how tool calls become kernel requests and
//! kernel responses become tool text.
use vstd::prelude::*;

use crate::broker::{KernelOperation, KernelRequest, KernelResponse, TransportMode};
use crate::kernel::{ReplResponse, ReplValue};
use crate::text::{decimal, push_char, push_decimal, push_str, str_equal, trim, trimmed};

verus! {

/// A server that serves kernel requests with the caller's settings.
#[derive(Debug, Clone)]
pub struct McpServer {
    kernel_dir: Option<String>,
    python: Option<String>,
    kernel_script: Option<String>,
    transport: TransportMode,
    broker_socket: String,
}

/// The string-valued fields of a tool call's `arguments`.
#[derive(Debug, Clone)]
pub struct ToolArguments {
    pub name: Option<String>,
    pub code: Option<String>,
    pub action: Option<String>,
    pub kernelspec: Option<String>,
}

/// What the server reads of one JSON-RPC request: the JSON text of its
/// `id` when present, its `method`, `params.protocolVersion`, `params.name`
/// and `params.arguments`, each when it is a string.
#[derive(Debug, Clone)]
pub struct McpRequest {
    pub id: Option<String>,
    pub method: Option<String>,
    pub protocol_version: Option<String>,
    pub tool_name: Option<String>,
    pub arguments: ToolArguments,
}

/// One input property of a tool.
#[derive(Debug, Clone)]
pub struct ToolProperty {
    pub name: String,
    pub description: Option<String>,
    pub choices: Vec<String>,
}

/// A tool the server offers; every property is a string and no other
/// property is allowed.
#[derive(Debug, Clone)]
pub struct ToolDefinition {
    pub name: String,
    pub description: String,
    pub properties: Vec<ToolProperty>,
    pub required: Vec<String>,
}

/// The result of a request that succeeded.
#[derive(Debug, Clone)]
pub enum McpResult {
    /// The answer to `initialize`, with the protocol version agreed on.
    Initialize { protocol_version: String },
    /// The empty answer to `ping`.
    Empty,
    /// The tools offered.
    Tools { tools: Vec<ToolDefinition> },
    /// The text of a tool call, flagged when it reports an error.
    ToolText { text: String, is_error: bool },
}

/// The body of a JSON-RPC answer.
#[derive(Debug, Clone)]
pub enum McpBody {
    Result(McpResult),
    Error { code: i32, message: String },
}

/// A JSON-RPC answer to the request with the given id (its JSON text).
#[derive(Debug, Clone)]
pub struct McpReply {
    pub id: String,
    pub body: McpBody,
}

/// The tool a call was for.
#[derive(Debug, Clone, Copy, PartialEq, Eq, Structural)]
pub enum ToolKind {
    Repl,
    ReplManage,
}

/// What the server does with a request.
#[derive(Debug, Clone)]
pub enum McpStep {
    /// A notification: no answer.
    Ignore,
    /// Answer right away.
    Reply(McpReply),
    /// Serve the kernel operation, then answer with `finish_repl` or
    /// `finish_repl_manage`.
    Dispatch { id: String, tool: ToolKind, operation: KernelOperation },
}

/// The protocol version offered when the client names none.
pub open spec fn default_protocol_version() -> Seq<char> {
    "2024-11-05"@
}

/// A request's method, or the empty text.
pub open spec fn method_text(request: McpRequest) -> Seq<char> {
    match request.method {
        Some(m) => m@,
        None => ""@,
    }
}

/// Whether an optional text is present and not empty.
pub open spec fn non_empty(value: Option<String>) -> bool {
    value matches Some(v) && v@.len() > 0
}

/// The message for a missing or empty field.
pub open spec fn required_text(field: Seq<char>) -> Seq<char> {
    field + " must be a non-empty string"@
}

/// A field that must be a non-empty string.
pub fn required_string(value: &Option<String>, field: &str) -> (r: Result<String, String>)
    ensures
        non_empty(*value) ==> r == Ok::<String, String>(value->0),
        !non_empty(*value) ==> (r matches Err(e) && e@ == required_text(field@)),
{
    match value {
        Some(v) => {
            if v.as_str().unicode_len() > 0 {
                return Ok(v.clone());
            }
        },
        None => {},
    }
    let mut e = field.to_owned();
    push_str(&mut e, " must be a non-empty string");
    Err(e)
}

/// The name a `repl-manage` action needs.
pub fn require_name(name: Option<&str>, action: &str) -> (r: Result<String, String>)
    ensures
        (name matches Some(n) && n@.len() > 0) ==> (r matches Ok(s) && s@ == name->0@),
        !(name matches Some(n) && n@.len() > 0) ==> (r matches Err(e) && e@
            == "name is required for "@ + action@),
{
    match name {
        Some(n) => {
            if n.unicode_len() > 0 {
                return Ok(n.to_owned());
            }
        },
        None => {},
    }
    let mut e = "name is required for ".to_owned();
    push_str(&mut e, action);
    Err(e)
}

/// The name of a kernel created without one: the server's process id and
/// the seconds after the Unix epoch.
pub open spec fn generated_name_text(pid: nat, seconds: nat) -> Seq<char> {
    "repl-"@ + decimal(pid) + "-"@ + decimal(seconds)
}

/// Writes the name of a kernel that process `pid` creates at `seconds`
/// without a name.
pub fn generated_name(pid: u32, seconds: u64) -> (r: String)
    ensures
        r@ == generated_name_text(pid as nat, seconds as nat),
{
    let mut s = "repl-".to_owned();
    push_decimal(&mut s, pid as u128);
    push_str(&mut s, "-");
    push_decimal(&mut s, seconds as u128);
    s
}

/// `output` with a labelled line appended, on a new line unless `output`
/// is empty.
pub open spec fn appended(output: Seq<char>, label: Seq<char>, value: Seq<char>) -> Seq<char> {
    (if output.len() > 0 {
        output.push('\n')
    } else {
        output
    }) + label + seq![':', ' '] + value
}

/// Appends `label: value` to `output`, on a new line unless `output` is
/// empty.
pub fn append_output(output: &mut String, label: &str, value: &str)
    ensures
        final(output)@ == appended(old(output)@, label@, value@),
{
    if output.as_str().unicode_len() > 0 {
        push_char(output, '\n');
    }
    push_str(output, label);
    push_char(output, ':');
    push_char(output, ' ');
    push_str(output, value);
}

/// The text of the execution, before standard output and error.
pub open spec fn outcome_text(response: ReplResponse) -> Seq<char> {
    if !response.ok {
        match response.error {
            Some(e) => e@,
            None => "execution failed"@,
        }
    } else {
        match response.result {
            Some(ReplValue::Text(s)) => s@,
            Some(ReplValue::Json(t)) => t@,
            None => seq![],
        }
    }
}

/// The tool text of an execution: its value or error, then its trimmed
/// standard output and error on labelled lines, or `(ok)` when all are
/// empty.
pub open spec fn repl_text(response: ReplResponse) -> Seq<char> {
    let base = outcome_text(response);
    let with_out = if response.stdout@.len() > 0 {
        appended(base, "stdout"@, trimmed(response.stdout@))
    } else {
        base
    };
    let with_err = if response.stderr@.len() > 0 {
        appended(with_out, "stderr"@, trimmed(response.stderr@))
    } else {
        with_out
    };
    if with_err.len() == 0 {
        "(ok)"@
    } else {
        with_err
    }
}

/// The tool text of an execution.
pub fn repl_output(response: &ReplResponse) -> (r: String)
    ensures
        r@ == repl_text(*response),
{
    let mut output = String::new();
    if !response.ok {
        match &response.error {
            Some(e) => push_str(&mut output, e.as_str()),
            None => push_str(&mut output, "execution failed"),
        }
    } else {
        match &response.result {
            Some(ReplValue::Text(s)) => push_str(&mut output, s.as_str()),
            Some(ReplValue::Json(t)) => push_str(&mut output, t.as_str()),
            None => {},
        }
    }
    assert(output@ =~= outcome_text(*response));
    if response.stdout.as_str().unicode_len() > 0 {
        let t = trim(response.stdout.as_str());
        append_output(&mut output, "stdout", t.as_str());
    }
    if response.stderr.as_str().unicode_len() > 0 {
        let t = trim(response.stderr.as_str());
        append_output(&mut output, "stderr", t.as_str());
    }
    if output.as_str().unicode_len() == 0 {
        return "(ok)".to_owned();
    }
    output
}

/// A tool call's text as an answer.
pub open spec fn is_tool_reply(reply: McpReply, id: Seq<char>, text: Seq<char>, is_error: bool) -> bool {
    &&& reply.id@ == id
    &&& reply.body matches McpBody::Result(McpResult::ToolText { text: t, is_error: e })
    &&& t@ == text
    &&& e == is_error
}

/// A JSON-RPC error as an answer.
pub open spec fn is_error_reply(reply: McpReply, id: Seq<char>, code: int, message: Seq<char>) -> bool {
    &&& reply.id@ == id
    &&& reply.body matches McpBody::Error { code: c, message: m }
    &&& c == code
    &&& m@ == message
}

fn tool_reply(id: String, text: String, is_error: bool) -> (r: McpReply)
    ensures
        is_tool_reply(r, id@, text@, is_error),
{
    McpReply { id, body: McpBody::Result(McpResult::ToolText { text, is_error }) }
}

fn error_reply(id: String, code: i32, message: String) -> (r: McpReply)
    ensures
        is_error_reply(r, id@, code as int, message@),
{
    McpReply { id, body: McpBody::Error { code, message } }
}

/// The answer to a `repl` call once the kernel was asked to execute.
pub fn finish_repl(id: String, outcome: Result<KernelResponse, String>) -> (r: McpReply)
    ensures
        outcome matches Err(e) ==> is_tool_reply(r, id@, e@, true),
        outcome matches Ok(KernelResponse::Executed { response }) ==> is_tool_reply(
            r,
            id@,
            repl_text(response),
            false,
        ),
        (outcome matches Ok(resp) && !(resp is Executed)) ==> is_tool_reply(
            r,
            id@,
            "replmux returned an unexpected execution response"@,
            true,
        ),
{
    match outcome {
        Err(error) => tool_reply(id, error, true),
        Ok(KernelResponse::Executed { response }) => tool_reply(id, repl_output(&response), false),
        Ok(_) => tool_reply(
            id,
            "replmux returned an unexpected execution response".to_owned(),
            true,
        ),
    }
}

/// The answer to a `repl-manage` call, from the pretty JSON text of the
/// kernel response or the error.
pub fn finish_repl_manage(id: String, outcome: Result<String, String>) -> (r: McpReply)
    ensures
        outcome matches Ok(text) ==> is_tool_reply(r, id@, text@, false),
        outcome matches Err(e) ==> is_tool_reply(r, id@, e@, true),
{
    match outcome {
        Ok(text) => tool_reply(id, text, false),
        Err(error) => tool_reply(id, error, true),
    }
}

/// The two tools the server offers, as `tool_definitions` builds them.
pub open spec fn is_tool_catalog(r: Seq<ToolDefinition>) -> bool {
    &&& r.len() == 2
    &&& r[0].name@ == "repl"@
    &&& r[1].name@ == "repl-manage"@
    &&& r[0].required@.len() == 2
    &&& r[0].required@[0]@ == "name"@
    &&& r[0].required@[1]@ == "code"@
    &&& r[1].required@.len() == 1
    &&& r[1].required@[0]@ == "action"@
    &&& r[0].description@
        == "Execute code in a named persistent Replmux kernel. State persists across calls."@
    &&& r[1].description@ == "Create, list, connect to, or delete Replmux kernels."@
    &&& r[0].properties@.len() == 2
    &&& r[0].properties@[0].name@ == "name"@
    &&& (r[0].properties@[0].description matches Some(d) && d@ == "Running kernel name"@)
    &&& r[0].properties@[0].choices@.len() == 0
    &&& r[0].properties@[1].name@ == "code"@
    &&& (r[0].properties@[1].description matches Some(d) && d@ == "Code in the kernel's language"@)
    &&& r[0].properties@[1].choices@.len() == 0
    &&& r[1].properties@.len() == 3
    &&& r[1].properties@[0].name@ == "action"@
    &&& r[1].properties@[0].description is None
    &&& r[1].properties@[0].choices@.len() == 4
    &&& r[1].properties@[0].choices@[0]@ == "create"@
    &&& r[1].properties@[0].choices@[1]@ == "list"@
    &&& r[1].properties@[0].choices@[2]@ == "connect"@
    &&& r[1].properties@[0].choices@[3]@ == "delete"@
    &&& r[1].properties@[1].name@ == "name"@
    &&& (r[1].properties@[1].description matches Some(d) && d@ == "Kernel name; optional for create"@)
    &&& r[1].properties@[1].choices@.len() == 0
    &&& r[1].properties@[2].name@ == "kernelspec"@
    &&& (r[1].properties@[2].description matches Some(d)
        && d@ == "Installed kernelspec name or kernel.json path for create"@)
    &&& r[1].properties@[2].choices@.len() == 0
}

/// The tools the server offers: `repl` to execute code in a named kernel,
/// and `repl-manage` to create, list, connect to or delete kernels.
pub fn tool_definitions() -> (r: Vec<ToolDefinition>)
    ensures
        is_tool_catalog(r@),
{
    let repl = ToolDefinition {
        name: "repl".to_owned(),
        description: "Execute code in a named persistent Replmux kernel. State persists across calls.".to_owned(),
        properties: vec![
            ToolProperty {
                name: "name".to_owned(),
                description: Some("Running kernel name".to_owned()),
                choices: Vec::new(),
            },
            ToolProperty {
                name: "code".to_owned(),
                description: Some("Code in the kernel's language".to_owned()),
                choices: Vec::new(),
            },
        ],
        required: vec!["name".to_owned(), "code".to_owned()],
    };
    let manage = ToolDefinition {
        name: "repl-manage".to_owned(),
        description: "Create, list, connect to, or delete Replmux kernels.".to_owned(),
        properties: vec![
            ToolProperty {
                name: "action".to_owned(),
                description: None,
                choices: vec![
                    "create".to_owned(),
                    "list".to_owned(),
                    "connect".to_owned(),
                    "delete".to_owned(),
                ],
            },
            ToolProperty {
                name: "name".to_owned(),
                description: Some("Kernel name; optional for create".to_owned()),
                choices: Vec::new(),
            },
            ToolProperty {
                name: "kernelspec".to_owned(),
                description: Some(
                    "Installed kernelspec name or kernel.json path for create".to_owned(),
                ),
                choices: Vec::new(),
            },
        ],
        required: vec!["action".to_owned()],
    };
    vec![repl, manage]
}

impl McpServer {
    /// A server that serves kernel requests with these settings.
    pub fn new(
        kernel_dir: Option<String>,
        python: Option<String>,
        kernel_script: Option<String>,
        transport: TransportMode,
        broker_socket: String,
    ) -> (r: Self)
        ensures
            r.kernel_dir_view() == kernel_dir,
            r.python_view() == python,
            r.kernel_script_view() == kernel_script,
            r.transport_view() == transport,
            r.broker_socket_view() == broker_socket@,
    {
        McpServer { kernel_dir, python, kernel_script, transport, broker_socket }
    }

    /// The kernel directory of the requests.
    pub closed spec fn kernel_dir_view(&self) -> Option<String> {
        self.kernel_dir
    }

    /// The interpreter of the requests.
    pub closed spec fn python_view(&self) -> Option<String> {
        self.python
    }

    /// The kernel script of the requests.
    pub closed spec fn kernel_script_view(&self) -> Option<String> {
        self.kernel_script
    }

    /// How requests are served.
    pub closed spec fn transport_view(&self) -> TransportMode {
        self.transport
    }

    /// The broker socket.
    pub closed spec fn broker_socket_view(&self) -> Seq<char> {
        self.broker_socket@
    }

    /// How requests are served.
    pub fn transport(&self) -> (r: TransportMode)
        ensures
            r == self.transport_view(),
    {
        self.transport
    }

    /// The broker socket.
    pub fn broker_socket(&self) -> (r: &str)
        ensures
            r@ == self.broker_socket_view(),
    {
        self.broker_socket.as_str()
    }

    /// A kernel request for `operation` with the server's settings.
    pub fn kernel_request(&self, operation: KernelOperation) -> (r: KernelRequest)
        ensures
            r.operation == operation,
            r.kernel_dir == self.kernel_dir_view(),
            r.python == self.python_view(),
            r.kernel_script == self.kernel_script_view(),
    {
        KernelRequest {
            operation,
            kernel_dir: self.kernel_dir.clone(),
            python: self.python.clone(),
            kernel_script: self.kernel_script.clone(),
        }
    }

    /// What to do with a request. Requests without an id are notifications
    /// and get no answer; `initialize`, `ping` and `tools/list` are answered
    /// at once; `tools/call` either fails at once or asks for a kernel
    /// operation; any other method is not found (-32601). A tool call
    /// without a tool name, or for an unknown tool, is refused as invalid
    /// (-32602); a call with missing arguments is answered by a tool error.
    /// `generated_name` names a kernel created without a name.
    pub fn handle(&self, request: &McpRequest, generated_name: &str) -> (r: McpStep)
        ensures
            request.id is None ==> r is Ignore,
            request.id matches Some(id) ==> step_for(id@, *request, generated_name@, r),
    {
        let id = match &request.id {
            Some(id) => id.clone(),
            None => {
                return McpStep::Ignore;
            },
        };
        let method = match &request.method {
            Some(m) => m.as_str(),
            None => "",
        };
        if str_equal(method, "initialize") {
            let version = match &request.protocol_version {
                Some(v) => v.clone(),
                None => "2024-11-05".to_owned(),
            };
            McpStep::Reply(
                McpReply {
                    id,
                    body: McpBody::Result(McpResult::Initialize { protocol_version: version }),
                },
            )
        } else if str_equal(method, "ping") {
            McpStep::Reply(McpReply { id, body: McpBody::Result(McpResult::Empty) })
        } else if str_equal(method, "tools/list") {
            McpStep::Reply(
                McpReply {
                    id,
                    body: McpBody::Result(McpResult::Tools { tools: tool_definitions() }),
                },
            )
        } else if str_equal(method, "tools/call") {
            self.call_tool(id, request, generated_name)
        } else {
            let mut message = "method not found: ".to_owned();
            push_str(&mut message, method);
            McpStep::Reply(error_reply(id, -32601, message))
        }
    }

    fn call_tool(&self, id: String, request: &McpRequest, generated_name: &str) -> (r: McpStep)
        ensures
            tool_step_for(id@, *request, generated_name@, r),
    {
        let tool = match required_string(&request.tool_name, "name") {
            Ok(tool) => tool,
            Err(error) => {
                return McpStep::Reply(error_reply(id, -32602, error));
            },
        };
        let arguments = &request.arguments;
        if str_equal(tool.as_str(), "repl") {
            let name = match required_string(&arguments.name, "name") {
                Ok(name) => name,
                Err(error) => {
                    return McpStep::Reply(tool_reply(id, error, true));
                },
            };
            let code = match required_string(&arguments.code, "code") {
                Ok(code) => code,
                Err(error) => {
                    return McpStep::Reply(tool_reply(id, error, true));
                },
            };
            McpStep::Dispatch {
                id,
                tool: ToolKind::Repl,
                operation: KernelOperation::Exec { name, code },
            }
        } else if str_equal(tool.as_str(), "repl-manage") {
            let action = match required_string(&arguments.action, "action") {
                Ok(action) => action,
                Err(error) => {
                    return McpStep::Reply(tool_reply(id, error, true));
                },
            };
            let supplied = match &arguments.name {
                Some(n) => Some(n.as_str()),
                None => None,
            };
            let operation = if str_equal(action.as_str(), "create") {
                KernelOperation::Create {
                    name: match supplied {
                        Some(n) => n.to_owned(),
                        None => generated_name.to_owned(),
                    },
                    kernelspec: arguments.kernelspec.clone(),
                }
            } else if str_equal(action.as_str(), "list") {
                KernelOperation::List
            } else if str_equal(action.as_str(), "connect") {
                match require_name(supplied, action.as_str()) {
                    Ok(name) => KernelOperation::Connect { name },
                    Err(error) => {
                        return McpStep::Reply(tool_reply(id, error, true));
                    },
                }
            } else if str_equal(action.as_str(), "delete") {
                match require_name(supplied, action.as_str()) {
                    Ok(name) => KernelOperation::Delete { name },
                    Err(error) => {
                        return McpStep::Reply(tool_reply(id, error, true));
                    },
                }
            } else {
                let mut error = "unsupported repl-manage action: ".to_owned();
                push_str(&mut error, action.as_str());
                return McpStep::Reply(tool_reply(id, error, true));
            };
            McpStep::Dispatch { id, tool: ToolKind::ReplManage, operation }
        } else {
            let mut error = "unknown tool: ".to_owned();
            push_str(&mut error, tool.as_str());
            McpStep::Reply(error_reply(id, -32602, error))
        }
    }
}

/// The step for a request with id `id`, as `handle` decides it.
pub open spec fn step_for(id: Seq<char>, request: McpRequest, generated: Seq<char>, r: McpStep) -> bool {
    let method = method_text(request);
    if method == "initialize"@ {
        match r {
            McpStep::Reply(reply) => reply.id@ == id && match reply.body {
                McpBody::Result(McpResult::Initialize { protocol_version: v }) => v@ == (
                match request.protocol_version {
                    Some(p) => p@,
                    None => default_protocol_version(),
                }),
                _ => false,
            },
            _ => false,
        }
    } else if method == "ping"@ {
        r matches McpStep::Reply(reply) && reply.id@ == id && reply.body matches McpBody::Result(
            McpResult::Empty,
        )
    } else if method == "tools/list"@ {
        match r {
            McpStep::Reply(reply) => reply.id@ == id && match reply.body {
                McpBody::Result(McpResult::Tools { tools }) => is_tool_catalog(tools@),
                _ => false,
            },
            _ => false,
        }
    } else if method == "tools/call"@ {
        tool_step_for(id, request, generated, r)
    } else {
        r matches McpStep::Reply(reply) && is_error_reply(
            reply,
            id,
            -32601,
            "method not found: "@ + method,
        )
    }
}

/// The step for a `tools/call` request with id `id`.
pub open spec fn tool_step_for(
    id: Seq<char>,
    request: McpRequest,
    generated: Seq<char>,
    r: McpStep,
) -> bool {
    let args = request.arguments;
    if !non_empty(request.tool_name) {
        r matches McpStep::Reply(reply) && is_error_reply(reply, id, -32602, required_text("name"@))
    } else {
        let tool = request.tool_name->0@;
        if tool == "repl"@ {
            if !non_empty(args.name) {
                r matches McpStep::Reply(reply) && is_tool_reply(
                    reply,
                    id,
                    required_text("name"@),
                    true,
                )
            } else if !non_empty(args.code) {
                r matches McpStep::Reply(reply) && is_tool_reply(
                    reply,
                    id,
                    required_text("code"@),
                    true,
                )
            } else {
                match r {
                    McpStep::Dispatch { id: i, tool: ToolKind::Repl, operation } => i@ == id
                        && match operation {
                        KernelOperation::Exec { name, code } => name@ == args.name->0@ && code@
                            == args.code->0@,
                        _ => false,
                    },
                    _ => false,
                }
            }
        } else if tool == "repl-manage"@ {
            if !non_empty(args.action) {
                r matches McpStep::Reply(reply) && is_tool_reply(
                    reply,
                    id,
                    required_text("action"@),
                    true,
                )
            } else {
                let action = args.action->0@;
                if action == "create"@ {
                    match r {
                        McpStep::Dispatch { id: i, tool: ToolKind::ReplManage, operation } => i@
                            == id && match operation {
                            KernelOperation::Create { name, kernelspec } => name@ == (
                            match args.name {
                                Some(n) => n@,
                                None => generated,
                            }) && kernelspec == args.kernelspec,
                            _ => false,
                        },
                        _ => false,
                    }
                } else if action == "list"@ {
                    r matches McpStep::Dispatch { id: i, tool: ToolKind::ReplManage, operation }
                        && i@ == id && operation is List
                } else if action == "connect"@ || action == "delete"@ {
                    if non_empty(args.name) {
                        r matches McpStep::Dispatch {
                            id: i,
                            tool: ToolKind::ReplManage,
                            operation,
                        } && i@ == id && (if action == "connect"@ {
                            operation matches KernelOperation::Connect { name } && name@
                                == args.name->0@
                        } else {
                            operation matches KernelOperation::Delete { name } && name@
                                == args.name->0@
                        })
                    } else {
                        r matches McpStep::Reply(reply) && is_tool_reply(
                            reply,
                            id,
                            "name is required for "@ + action,
                            true,
                        )
                    }
                } else {
                    r matches McpStep::Reply(reply) && is_tool_reply(
                        reply,
                        id,
                        "unsupported repl-manage action: "@ + action,
                        true,
                    )
                }
            }
        } else {
            r matches McpStep::Reply(reply) && is_error_reply(
                reply,
                id,
                -32602,
                "unknown tool: "@ + tool,
            )
        }
    }
}

/// The actions a `repl-manage` call carries out.
pub open spec fn manage_action(action: Seq<char>) -> bool {
    action == "create"@ || action == "list"@ || action == "connect"@ || action == "delete"@
}

/// The actions the tool catalog offers for `repl-manage` are exactly those
/// a `repl-manage` call carries out: an offered action is dispatched (or,
/// for `connect` and `delete` without a name, asks for one), and any other
/// action is refused as unsupported.
pub proof fn lemma_catalog_actions_are_accepted(
    tools: Seq<ToolDefinition>,
    id: Seq<char>,
    request: McpRequest,
    generated: Seq<char>,
    r: McpStep,
)
    requires
        is_tool_catalog(tools),
        tool_step_for(id, request, generated, r),
        request.tool_name matches Some(t) && t@ == "repl-manage"@,
        request.arguments.action matches Some(a) && a@.len() > 0,
    ensures
        ({
            let action = request.arguments.action->0@;
            let choices = tools[1].properties@[0].choices@;
            &&& (exists|i: int| 0 <= i < choices.len() && #[trigger] choices[i]@ == action)
                <==> manage_action(action)
            &&& manage_action(action) ==> (r is Dispatch || (r matches McpStep::Reply(reply)
                && is_tool_reply(reply, id, "name is required for "@ + action, true)))
            &&& !manage_action(action) ==> (r matches McpStep::Reply(reply) && is_tool_reply(
                reply,
                id,
                "unsupported repl-manage action: "@ + action,
                true,
            ))
        }),
{
    let action = request.arguments.action->0@;
    let choices = tools[1].properties@[0].choices@;
    reveal_strlit("repl");
    reveal_strlit("repl-manage");
    reveal_strlit("create");
    reveal_strlit("list");
    reveal_strlit("connect");
    reveal_strlit("delete");
    if !manage_action(action) {
        assert forall|i: int| 0 <= i < choices.len() implies #[trigger] choices[i]@ != action by {
            if i == 0 {
            } else if i == 1 {
            } else if i == 2 {
            } else {
                assert(i == 3);
            }
        }
    }
    if manage_action(action) {
        if action == "create"@ {
            assert(choices[0]@ == action);
        } else if action == "list"@ {
            assert(choices[1]@ == action);
        } else if action == "connect"@ {
            assert(choices[2]@ == action);
        } else {
            assert(choices[3]@ == action);
        }
    }
}

/// A `repl-manage` call that creates a kernel names it as the caller asked:
/// the created kernel is the supplied `name` whenever the arguments carry
/// one, and the generated name only when they carry none; the kernelspec is
/// passed on as given.
pub proof fn lemma_create_keeps_the_supplied_name(
    id: Seq<char>,
    request: McpRequest,
    generated: Seq<char>,
    r: McpStep,
)
    requires
        tool_step_for(id, request, generated, r),
        request.tool_name matches Some(t) && t@ == "repl-manage"@,
        request.arguments.action matches Some(a) && a@ == "create"@,
    ensures
        r matches McpStep::Dispatch { id: i, tool: ToolKind::ReplManage, operation } && i@ == id
            && (operation matches KernelOperation::Create { name, kernelspec } && kernelspec
            == request.arguments.kernelspec && (request.arguments.name matches Some(n) ==> name@
            == n@) && (request.arguments.name is None ==> name@ == generated)),
{
    reveal_strlit("repl");
    reveal_strlit("repl-manage");
    reveal_strlit("create");
}

/// The tool text of an execution keeps what it printed whether or not it
/// succeeded: a failed execution's text begins with its error, and a
/// non-empty standard output `s` ends the text as the line
/// `stdout: ` + `s` trimmed (followed only by the `stderr: ` line when the
/// standard error is non-empty).
pub proof fn lemma_repl_text_keeps_printed_output(response: ReplResponse)
    ensures
        ({
            let text = repl_text(response);
            let out_line = "stdout: "@ + trimmed(response.stdout@);
            let err_line = "stderr: "@ + trimmed(response.stderr@);
            let tail = if response.stderr@.len() > 0 {
                if response.stdout@.len() > 0 {
                    out_line + seq!['\n'] + err_line
                } else {
                    err_line
                }
            } else {
                out_line
            };
            &&& (response.stdout@.len() > 0 || response.stderr@.len() > 0) ==> (tail.len()
                <= text.len() && text.subrange(text.len() - tail.len(), text.len() as int)
                == tail)
            &&& !response.ok ==> (response.error matches Some(e) ==> (e@.len() <= text.len()
                && text.subrange(0, e@.len() as int) == e@))
        }),
{
    reveal_strlit("stdout: ");
    reveal_strlit("stderr: ");
    reveal_strlit("stdout");
    reveal_strlit("stderr");
    let base = outcome_text(response);
    let with_out = if response.stdout@.len() > 0 {
        appended(base, "stdout"@, trimmed(response.stdout@))
    } else {
        base
    };
    let out_line = "stdout: "@ + trimmed(response.stdout@);
    let err_line = "stderr: "@ + trimmed(response.stderr@);
    if response.stdout@.len() > 0 {
        assert("stdout"@ + seq![':', ' '] + trimmed(response.stdout@) =~= out_line);
        assert(with_out =~= (if base.len() > 0 { base.push('\n') } else { base }) + out_line);
    }
    if response.stderr@.len() > 0 {
        assert("stderr"@ + seq![':', ' '] + trimmed(response.stderr@) =~= err_line);
    }
    let text = repl_text(response);
    if response.stdout@.len() > 0 && response.stderr@.len() > 0 {
        let p = if base.len() > 0 { base.push('\n') } else { base };
        assert(with_out.len() > 0);
        assert(text =~= (p + out_line).push('\n') + err_line);
        assert(text =~= p + (out_line + seq!['\n'] + err_line));
    } else if response.stderr@.len() > 0 {
        let p = if with_out.len() > 0 { with_out.push('\n') } else { with_out };
        assert(text =~= p + err_line);
    }
    if !response.ok && response.error is Some {
        let e = response.error->0@;
        assert(base == e);
        if e.len() > 0 {
            assert(text.subrange(0, e.len() as int) =~= e);
        }
    }
}

} // verus!
