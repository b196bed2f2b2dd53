//! Local kernel lifecycle: names and files of kernels, the decisions taken
//! while a kernel starts and stops, and the listing of kernels.
use vstd::prelude::*;
use vstd::string::StringSliceAdditionalSpecFns;

use crate::json::{json_compact, json_compact_text, json_text_field, json_text_member};
use crate::paths::{join_path, json_stem, last_dot_before, path_join};
use crate::text::{
    chars_of, decimal, is_white_space, opt_text, push_decimal, push_str, trim, trimmed,
};

verus! {

broadcast use vstd::seq_lib::group_to_multiset_ensures;

/// Where a kernel manager keeps kernel files, and how it starts kernels.
#[derive(Debug, Clone)]
pub struct KernelManager {
    directory: String,
    python: String,
    kernel_script: String,
}

/// The settings a kernel manager falls back on when an option is absent:
/// the `MULTIREPL_KERNEL_DIR`, `MULTIREPL_PYTHON`, `MULTIREPL_KERNEL_SCRIPT`
/// and `HOME` variables, and the kernel script found next to the program.
pub struct ManagerEnvironment {
    pub kernel_dir: Option<String>,
    pub python: Option<String>,
    pub kernel_script: Option<String>,
    pub home: Option<String>,
    pub default_kernel_script: String,
}

/// The default kernel directory: the variable, else `.jupyter-repl/kernels`
/// under the home directory, else that path relative to the working
/// directory.
pub open spec fn default_directory(kernel_dir: Option<Seq<char>>, home: Option<Seq<char>>) -> Seq<
    char,
> {
    match kernel_dir {
        Some(d) => d,
        None => match home {
            Some(h) => path_join(h, ".jupyter-repl/kernels"@),
            None => ".jupyter-repl/kernels"@,
        },
    }
}

/// The default kernel directory for the given variables.
pub fn default_kernel_directory(kernel_dir: Option<String>, home: Option<String>) -> (r: String)
    ensures
        r@ == default_directory(opt_text(kernel_dir), opt_text(home)),
{
    match kernel_dir {
        Some(d) => d,
        None => match home {
            Some(h) => join_path(h.as_str(), ".jupyter-repl/kernels"),
            None => ".jupyter-repl/kernels".to_owned(),
        },
    }
}

/// Whether `c` may appear in a kernel name.
pub open spec fn is_name_char(c: char) -> bool {
    ||| ('0' <= c && c <= '9')
    ||| ('A' <= c && c <= 'Z')
    ||| ('a' <= c && c <= 'z')
    ||| c == '.'
    ||| c == '_'
    ||| c == '-'
}

/// A kernel name is non-empty and made of ASCII letters, digits, `.`, `_`
/// and `-`, so that it names a file inside the kernel directory.
pub open spec fn valid_kernel_name(name: Seq<char>) -> bool {
    name.len() > 0 && forall|i: int| 0 <= i < name.len() ==> is_name_char(#[trigger] name[i])
}

/// Refuses names that are empty or hold other characters than ASCII
/// letters, digits, `.`, `_` and `-`.
pub fn validate_name(name: &str) -> (r: Result<(), String>)
    ensures
        r is Ok <==> valid_kernel_name(name@),
        r matches Err(e) ==> e@
            == "kernel name must contain only letters, numbers, '.', '_' or '-'"@,
{
    let v = chars_of(name);
    let mut ok = v.len() > 0;
    let mut i: usize = 0;
    while i < v.len()
        invariant
            v@ == name@,
            i <= v@.len(),
            ok == (v@.len() > 0 && forall|j: int| 0 <= j < i ==> is_name_char(#[trigger] v@[j])),
        decreases v@.len() - i,
    {
        let c = v[i];
        let allowed = ('0' <= c && c <= '9') || ('A' <= c && c <= 'Z') || ('a' <= c && c <= 'z')
            || c == '.' || c == '_' || c == '-';
        ok = ok && allowed;
        i = i + 1;
    }
    if !ok {
        return Err("kernel name must contain only letters, numbers, '.', '_' or '-'".to_owned());
    }
    Ok(())
}

/// The text `name` followed by `suffix`.
pub open spec fn named_file(name: Seq<char>, suffix: Seq<char>) -> Seq<char> {
    name + suffix
}

fn with_suffix(name: &str, suffix: &str) -> (r: String)
    ensures
        r@ == named_file(name@, suffix@),
{
    let mut s = name.to_owned();
    push_str(&mut s, suffix);
    s
}

impl KernelManager {
    /// The directory that holds the kernels' files.
    pub closed spec fn directory_view(&self) -> Seq<char> {
        self.directory@
    }

    /// The interpreter that runs the bundled kernel worker.
    pub closed spec fn python_view(&self) -> Seq<char> {
        self.python@
    }

    /// The bundled kernel worker script.
    pub closed spec fn kernel_script_view(&self) -> Seq<char> {
        self.kernel_script@
    }

    /// A manager from the given options, each falling back on the
    /// environment: the directory on `default_kernel_directory`, the
    /// interpreter on `MULTIREPL_PYTHON` then `python3`, the script on
    /// `MULTIREPL_KERNEL_SCRIPT` then the script found next to the program.
    pub fn from_options(
        directory: Option<String>,
        python: Option<String>,
        kernel_script: Option<String>,
        environment: ManagerEnvironment,
    ) -> (r: Result<Self, String>)
        ensures
            r matches Ok(m) && m.directory_view() == (match directory {
                Some(d) => d@,
                None => default_directory(
                    opt_text(environment.kernel_dir),
                    opt_text(environment.home),
                ),
            }) && m.python_view() == (match (python, environment.python) {
                (Some(p), _) => p@,
                (None, Some(p)) => p@,
                (None, None) => "python3"@,
            }) && m.kernel_script_view() == (match (kernel_script, environment.kernel_script) {
                (Some(s), _) => s@,
                (None, Some(s)) => s@,
                (None, None) => environment.default_kernel_script@,
            }),
    {
        let directory = match directory {
            Some(d) => d,
            None => default_kernel_directory(environment.kernel_dir, environment.home),
        };
        let python = match python {
            Some(p) => p,
            None => match environment.python {
                Some(p) => p,
                None => "python3".to_owned(),
            },
        };
        let kernel_script = match kernel_script {
            Some(s) => s,
            None => match environment.kernel_script {
                Some(s) => s,
                None => environment.default_kernel_script,
            },
        };
        Ok(KernelManager { directory, python, kernel_script })
    }

    /// The directory that holds the kernels' files.
    pub fn directory(&self) -> (r: &str)
        ensures
            r@ == self.directory_view(),
    {
        self.directory.as_str()
    }

    /// The interpreter that runs the bundled kernel worker.
    pub fn python(&self) -> (r: &str)
        ensures
            r@ == self.python_view(),
    {
        self.python.as_str()
    }

    /// The bundled kernel worker script.
    pub fn kernel_script(&self) -> (r: &str)
        ensures
            r@ == self.kernel_script_view(),
    {
        self.kernel_script.as_str()
    }

    /// The connection file of kernel `name`.
    pub fn connection_path(&self, name: &str) -> (r: String)
        ensures
            r@ == path_join(self.directory_view(), named_file(name@, ".json"@)),
    {
        join_path(self.directory.as_str(), with_suffix(name, ".json").as_str())
    }

    /// The file that records the process id of kernel `name`.
    pub fn pid_path(&self, name: &str) -> (r: String)
        ensures
            r@ == path_join(self.directory_view(), named_file(name@, ".pid"@)),
    {
        join_path(self.directory.as_str(), with_suffix(name, ".pid").as_str())
    }

    /// The REPL socket of kernel `name`.
    pub fn socket_path(&self, name: &str) -> (r: String)
        ensures
            r@ == path_join(self.directory_view(), named_file(name@, ".sock"@)),
    {
        join_path(self.directory.as_str(), with_suffix(name, ".sock").as_str())
    }

    /// The connection file of a kernel that a request names, once the name
    /// is checked.
    pub fn connection_file(&self, name: &str) -> (r: Result<String, String>)
        ensures
            valid_kernel_name(name@) ==> (r matches Ok(p) && p@ == path_join(
                self.directory_view(),
                named_file(name@, ".json"@),
            )),
            !valid_kernel_name(name@) ==> (r matches Err(e) && e@
                == "kernel name must contain only letters, numbers, '.', '_' or '-'"@),
    {
        match validate_name(name) {
            Ok(()) => Ok(self.connection_path(name)),
            Err(e) => Err(e),
        }
    }

    /// The refusal of `create` when the kernel script is missing.
    pub fn check_kernel_script(&self, script_exists: bool) -> (r: Result<(), String>)
        ensures
            script_exists <==> r is Ok,
            r matches Err(e) ==> e@ == "kernel script not found: "@ + self.kernel_script_view()
                + " (set --kernel-script or MULTIREPL_KERNEL_SCRIPT)"@,
    {
        if script_exists {
            Ok(())
        } else {
            let mut e = "kernel script not found: ".to_owned();
            push_str(&mut e, self.kernel_script.as_str());
            push_str(&mut e, " (set --kernel-script or MULTIREPL_KERNEL_SCRIPT)");
            Err(e)
        }
    }
}

/// A valid kernel name holds no separator, so each file of the kernel sits
/// directly in the kernel directory under the name followed by its suffix.
pub proof fn lemma_kernel_files_stay_in_directory(
    directory: Seq<char>,
    name: Seq<char>,
    suffix: Seq<char>,
)
    requires
        valid_kernel_name(name),
        forall|i: int| 0 <= i < suffix.len() ==> suffix[i] != '/',
    ensures
        forall|i: int| 0 <= i < named_file(name, suffix).len() ==> named_file(name, suffix)[i] != '/',
        path_join(directory, named_file(name, suffix)) == (if directory.len() == 0
            || directory.last() == '/' {
            directory
        } else {
            directory + seq!['/']
        }) + named_file(name, suffix),
{
    let f = named_file(name, suffix);
    assert forall|i: int| 0 <= i < f.len() implies f[i] != '/' by {
        if i < name.len() {
            assert(is_name_char(name[i]));
        } else {
            assert(f[i] == suffix[i - name.len()]);
        }
    }
    assert(is_name_char(name[0]));
}

/// The message for a kernel that has no connection file.
pub open spec fn not_found_text(name: Seq<char>) -> Seq<char> {
    "kernel '"@ + name + "' not found"@
}

/// The message for a kernel that has no connection file.
pub fn kernel_not_found(name: &str) -> (r: String)
    ensures
        r@ == not_found_text(name@),
{
    let mut e = "kernel '".to_owned();
    push_str(&mut e, name);
    push_str(&mut e, "' not found");
    e
}

/// What `create` does with the files of an earlier kernel of the same name:
/// refuse while its recorded process is alive, else remove them (`Ok(true)`),
/// or go on when there are none (`Ok(false)`).
pub fn check_existing_kernel(
    name: &str,
    connection_exists: bool,
    pid: Option<u32>,
    pid_alive: bool,
) -> (r: Result<bool, String>)
    ensures
        (connection_exists && pid is Some && pid_alive) ==> (r matches Err(e) && e@ == "kernel '"@
            + name@ + "' is already running (pid "@ + decimal(pid->0 as nat) + ")"@),
        !(connection_exists && pid is Some && pid_alive) ==> r == Ok::<bool, String>(
            connection_exists,
        ),
{
    if connection_exists {
        match pid {
            Some(p) => {
                if pid_alive {
                    let mut e = "kernel '".to_owned();
                    push_str(&mut e, name);
                    push_str(&mut e, "' is already running (pid ");
                    push_decimal(&mut e, p as u128);
                    push_str(&mut e, ")");
                    return Err(e);
                }
            },
            None => {},
        }
    }
    Ok(connection_exists)
}

/// The next move while a freshly spawned kernel starts.
#[derive(Debug, Clone, PartialEq, Eq)]
pub enum StartupAction {
    /// The connection file appeared: record the process id and succeed.
    RecordPid,
    /// The process exited: remove the kernel's files and fail with the message.
    Abandon(String),
    /// Nothing yet: sleep one poll interval and look again.
    Wait,
    /// The deadline passed: kill and reap the process, remove the files and
    /// fail with the message.
    GiveUp(String),
}

/// Decides the next move while kernel `name` starts, from whether the
/// deadline is still ahead, whether its connection file exists, and, when it
/// does not, the exit status of the process if it has ended.
pub fn startup_step(
    name: &str,
    before_deadline: bool,
    connection_exists: bool,
    exit_status: Option<&str>,
) -> (r: StartupAction)
    ensures
        !before_deadline ==> (r matches StartupAction::GiveUp(e) && e@ == "kernel '"@ + name@
            + "' failed to start within 5 seconds"@),
        before_deadline && connection_exists ==> r == StartupAction::RecordPid,
        before_deadline && !connection_exists && exit_status is Some ==> (r matches StartupAction::Abandon(
            e,
        ) && e@ == "kernel '"@ + name@ + "' exited during startup with "@ + exit_status->0@),
        before_deadline && !connection_exists && exit_status is None ==> r == StartupAction::Wait,
{
    if !before_deadline {
        let mut e = "kernel '".to_owned();
        push_str(&mut e, name);
        push_str(&mut e, "' failed to start within 5 seconds");
        return StartupAction::GiveUp(e);
    }
    if connection_exists {
        return StartupAction::RecordPid;
    }
    match exit_status {
        Some(status) => {
            let mut e = "kernel '".to_owned();
            push_str(&mut e, name);
            push_str(&mut e, "' exited during startup with ");
            push_str(&mut e, status);
            StartupAction::Abandon(e)
        },
        None => StartupAction::Wait,
    }
}

/// Where `delete` stands while it stops a kernel's process.
#[derive(Debug, Clone, Copy, PartialEq, Eq, Structural)]
pub enum StopPhase {
    /// The recorded process has not been looked at yet.
    Start,
    /// A shutdown request went over the kernel's control channel.
    ShutdownRequested,
    /// The process was sent `SIGTERM`; the deadline runs.
    Terminating,
}

/// The next move of `delete` while it stops a kernel's process.
#[derive(Debug, Clone, Copy, PartialEq, Eq, Structural)]
pub enum StopAction {
    /// Ask the kernel to shut down over its control channel (errors ignored).
    RequestShutdown,
    /// Send `SIGTERM` and start the deadline.
    Terminate,
    /// Sleep one poll interval and look again.
    Wait,
    /// Send `SIGKILL`; the process is then considered stopped.
    Kill,
    /// The process is stopped: remove the kernel's files.
    Done,
}

/// One step of stopping a kernel's recorded process, from whether it is
/// alive and whether the deadline is still ahead. A signal is only ever
/// sent to a process seen alive.
pub fn stop_step(phase: StopPhase, alive: bool, before_deadline: bool) -> (r: (
    StopPhase,
    StopAction,
))
    ensures
        !alive ==> r.1 == StopAction::Done,
        alive && phase == StopPhase::Start ==> r == (
            StopPhase::ShutdownRequested,
            StopAction::RequestShutdown,
        ),
        alive && phase == StopPhase::ShutdownRequested ==> r == (
            StopPhase::Terminating,
            StopAction::Terminate,
        ),
        alive && phase == StopPhase::Terminating && before_deadline ==> r == (
            StopPhase::Terminating,
            StopAction::Wait,
        ),
        alive && phase == StopPhase::Terminating && !before_deadline ==> r == (
            StopPhase::Terminating,
            StopAction::Kill,
        ),
        r.1 == StopAction::Done ==> r.0 == phase,
{
    if !alive {
        return (phase, StopAction::Done);
    }
    match phase {
        StopPhase::Start => (StopPhase::ShutdownRequested, StopAction::RequestShutdown),
        StopPhase::ShutdownRequested => (StopPhase::Terminating, StopAction::Terminate),
        StopPhase::Terminating => {
            if before_deadline {
                (StopPhase::Terminating, StopAction::Wait)
            } else {
                (StopPhase::Terminating, StopAction::Kill)
            }
        },
    }
}

/// A kernel's process is sent `SIGTERM` only after a shutdown request, and
/// `SIGKILL` only after `SIGTERM` once the deadline has passed.
pub proof fn lemma_signals_follow_the_shutdown_order(
    phase: StopPhase,
    alive: bool,
    before_deadline: bool,
)
    ensures
        ({
            let (next, action) = stop_step_spec(phase, alive, before_deadline);
            &&& action == StopAction::Terminate ==> phase == StopPhase::ShutdownRequested && alive
            &&& action == StopAction::Kill ==> phase == StopPhase::Terminating && alive
                && !before_deadline
            &&& action == StopAction::RequestShutdown ==> phase == StopPhase::Start && alive
        }),
{
}

/// What `stop_step` does, as a function.
pub open spec fn stop_step_spec(phase: StopPhase, alive: bool, before_deadline: bool) -> (
    StopPhase,
    StopAction,
) {
    if !alive {
        (phase, StopAction::Done)
    } else {
        match phase {
            StopPhase::Start => (StopPhase::ShutdownRequested, StopAction::RequestShutdown),
            StopPhase::ShutdownRequested => (StopPhase::Terminating, StopAction::Terminate),
            StopPhase::Terminating => if before_deadline {
                (StopPhase::Terminating, StopAction::Wait)
            } else {
                (StopPhase::Terminating, StopAction::Kill)
            },
        }
    }
}

/// The reply of a kernel to one execution.
#[derive(Debug, Clone, PartialEq, Eq)]
pub enum ReplValue {
    /// The value was a JSON string.
    Text(String),
    /// Any other JSON value, in its compact JSON text.
    Json(String),
}

/// The response of the kernel worker to one execution.
#[derive(Debug, Clone, PartialEq, Eq)]
pub struct ReplResponse {
    pub ok: bool,
    pub mode: Option<String>,
    pub code: Option<String>,
    pub result: Option<ReplValue>,
    pub stdout: String,
    pub stderr: String,
    pub error: Option<String>,
}

/// The socket that executes code in kernel `name`, from the `socket_path`
/// text of its connection file.
pub fn execution_socket(name: &str, socket_path: Option<&str>) -> (r: Result<String, String>)
    ensures
        socket_path matches Some(p) ==> (r matches Ok(s) && s@ == p@),
        socket_path is None ==> (r matches Err(e) && e@ == "kernel '"@ + name@
            + "' connection has no socket_path"@),
{
    match socket_path {
        Some(p) => Ok(p.to_owned()),
        None => {
            let mut e = "kernel '".to_owned();
            push_str(&mut e, name);
            push_str(&mut e, "' connection has no socket_path");
            Err(e)
        },
    }
}

/// The connection document of a kernel, read from the text of its
/// connection file at `path`: the document as compact JSON, or the parse
/// error naming the file.
pub fn connection_document(path: &str, contents: &str) -> (r: Result<String, String>)
    ensures
        match json_compact(contents.spec_bytes()) {
            Ok(t) => r matches Ok(d) && d@ == t,
            Err(e) => r matches Err(m) && m@ == "invalid connection file "@ + path@ + ": "@ + e,
        },
{
    match json_compact_text(contents.as_bytes()) {
        Ok(document) => Ok(document),
        Err(e) => {
            let mut message = "invalid connection file ".to_owned();
            push_str(&mut message, path);
            push_str(&mut message, ": ");
            push_str(&mut message, e.as_str());
            Err(message)
        },
    }
}

/// The socket of kernel `name` from the text of its connection file at
/// `path`, given what reading its `socket_path` member gave.
pub open spec fn socket_of_connection(
    name: Seq<char>,
    path: Seq<char>,
    member: Result<Option<(bool, Seq<char>)>, Seq<char>>,
) -> Result<Seq<char>, Seq<char>> {
    match member {
        Err(e) => Err("invalid connection file "@ + path + ": "@ + e),
        Ok(Some((true, socket))) => Ok(socket),
        Ok(_) => Err("kernel '"@ + name + "' connection has no socket_path"@),
    }
}

/// The socket that executes code in kernel `name`, read from the text of
/// its connection file at `path`.
pub fn connection_socket(name: &str, path: &str, contents: &str) -> (r: Result<String, String>)
    ensures
        match socket_of_connection(name@, path@, json_text_member(contents@, "socket_path"@)) {
            Ok(socket) => r matches Ok(s) && s@ == socket,
            Err(message) => r matches Err(e) && e@ == message,
        },
{
    match json_text_field(contents, "socket_path") {
        Err(e) => {
            let mut message = "invalid connection file ".to_owned();
            push_str(&mut message, path);
            push_str(&mut message, ": ");
            push_str(&mut message, e.as_str());
            Err(message)
        },
        Ok(Some((true, socket))) => execution_socket(name, Some(socket.as_str())),
        Ok(_) => execution_socket(name, None),
    }
}

/// One row of `kernel list`.
#[derive(Debug, Clone, PartialEq, Eq)]
pub struct KernelStatus {
    pub name: String,
    pub pid: Option<u32>,
    pub status: String,
}

/// The status word of a kernel from its recorded process.
pub open spec fn status_word(pid: Option<u32>, alive: bool) -> Seq<char> {
    match pid {
        Some(_) => if alive {
            "running"@
        } else {
            "dead"@
        },
        None => "no-pid"@,
    }
}

/// The row of kernel `name` whose recorded process is `pid` (alive or not).
pub fn kernel_status(name: String, pid: Option<u32>, alive: bool) -> (r: KernelStatus)
    ensures
        r.name@ == name@,
        r.pid == pid,
        r.status@ == status_word(pid, alive),
{
    let status = match pid {
        Some(_) => if alive {
            "running".to_owned()
        } else {
            "dead".to_owned()
        },
        None => "no-pid".to_owned(),
    };
    KernelStatus { name, pid, status }
}

/// Whether `a` comes no later than `b` in the order of their characters'
/// code points (the byte order of their UTF-8 texts).
pub open spec fn text_le(a: Seq<char>, b: Seq<char>) -> bool
    decreases a.len(),
{
    if a.len() == 0 {
        true
    } else if b.len() == 0 {
        false
    } else if a[0] != b[0] {
        a[0] < b[0]
    } else {
        text_le(a.drop_first(), b.drop_first())
    }
}

/// Any two texts are ordered one way or the other.
pub proof fn lemma_text_le_total(a: Seq<char>, b: Seq<char>)
    ensures
        text_le(a, b) || text_le(b, a),
    decreases a.len(),
{
    if a.len() > 0 && b.len() > 0 && a[0] == b[0] {
        lemma_text_le_total(a.drop_first(), b.drop_first());
    }
}

/// The order of texts is transitive.
pub proof fn lemma_text_le_transitive(a: Seq<char>, b: Seq<char>, c: Seq<char>)
    requires
        text_le(a, b),
        text_le(b, c),
    ensures
        text_le(a, c),
    decreases a.len(),
{
    if a.len() > 0 && b.len() > 0 && c.len() > 0 && a[0] == b[0] && b[0] == c[0] {
        lemma_text_le_transitive(a.drop_first(), b.drop_first(), c.drop_first());
    }
}

fn text_le_exec(a: &str, b: &str) -> (r: bool)
    ensures
        r == text_le(a@, b@),
{
    let av = chars_of(a);
    let bv = chars_of(b);
    let mut i: usize = 0;
    assert(a@.subrange(0, a@.len() as int) =~= a@);
    assert(b@.subrange(0, b@.len() as int) =~= b@);
    while i < av.len() && i < bv.len() && av[i] == bv[i]
        invariant
            av@ == a@,
            bv@ == b@,
            i <= av@.len(),
            i <= bv@.len(),
            text_le(a@, b@) == text_le(a@.subrange(i as int, a@.len() as int), b@.subrange(
                i as int,
                b@.len() as int,
            )),
        decreases av@.len() - i,
    {
        assert(a@.subrange(i as int, a@.len() as int).drop_first() =~= a@.subrange(
            i + 1,
            a@.len() as int,
        ));
        assert(b@.subrange(i as int, b@.len() as int).drop_first() =~= b@.subrange(
            i + 1,
            b@.len() as int,
        ));
        i = i + 1;
    }
    let ghost sa = a@.subrange(i as int, a@.len() as int);
    let ghost sb = b@.subrange(i as int, b@.len() as int);
    if i == av.len() {
        assert(sa.len() == 0);
        true
    } else if i == bv.len() {
        assert(sb.len() == 0);
        false
    } else {
        assert(sa[0] == av@[i as int] && sb[0] == bv@[i as int]);
        av[i] < bv[i]
    }
}

/// Whether rows are in order of their names.
pub open spec fn sorted_by_name(rows: Seq<KernelStatus>) -> bool {
    forall|i: int, j: int| 0 <= i < j < rows.len() ==> text_le(rows[i].name@, rows[j].name@)
}

/// The rows in order of their names (a stable insertion sort).
pub fn sort_by_name(rows: Vec<KernelStatus>) -> (r: Vec<KernelStatus>)
    ensures
        sorted_by_name(r@),
        r@.to_multiset() == rows@.to_multiset(),
{
    broadcast use vstd::multiset::group_multiset_axioms;

    let ghost all = rows@;
    let mut rest = rows;
    let mut out: Vec<KernelStatus> = Vec::new();
    while rest.len() > 0
        invariant
            sorted_by_name(out@),
            out@.to_multiset().add(rest@.to_multiset()) == all.to_multiset(),
        decreases rest@.len(),
    {
        let ghost rest_before = rest@;
        let row = rest.remove(0);
        let mut k: usize = out.len();
        while k > 0 && !text_le_exec(out[k - 1].name.as_str(), row.name.as_str())
            invariant
                k <= out@.len(),
                sorted_by_name(out@),
                forall|m: int| k <= m < out@.len() ==> !text_le(out@[m].name@, row.name@),
            decreases k,
        {
            k = k - 1;
        }
        proof {
            assert forall|m: int| k <= m < out@.len() implies text_le(row.name@, out@[m].name@)
                by {
                lemma_text_le_total(row.name@, out@[m].name@);
            }
            if k > 0 {
                assert forall|m: int| 0 <= m < k implies text_le(out@[m].name@, row.name@) by {
                    if m < k - 1 {
                        lemma_text_le_transitive(out@[m].name@, out@[k - 1].name@, row.name@);
                    }
                }
            }
        }
        let ghost before = out@;
        out.insert(k, row);
        proof {
            assert forall|a: int, b: int| 0 <= a < b < out@.len() implies text_le(
                out@[a].name@,
                out@[b].name@,
            ) by {
                if a < k && b == k {
                } else if a == k && b > k {
                    assert(out@[b] == before[b - 1]);
                } else if a < k && b > k {
                    assert(out@[a] == before[a] && out@[b] == before[b - 1]);
                    lemma_text_le_transitive(out@[a].name@, row.name@, out@[b].name@);
                } else if a > k {
                    assert(out@[a] == before[a - 1] && out@[b] == before[b - 1]);
                } else {
                    assert(out@[a] == before[a] && out@[b] == before[b]);
                }
            }
            assert(rest_before.to_multiset().count(rest_before[0]) > 0);
            assert(out@.to_multiset().add(rest@.to_multiset()) =~= all.to_multiset());
        }
    }
    assert(rest@.to_multiset() =~= vstd::multiset::Multiset::empty());
    assert(out@.to_multiset().add(rest@.to_multiset()) =~= out@.to_multiset());
    out
}

/// How `u32::from_str` fails.
#[derive(Debug, Clone, Copy, PartialEq, Eq, Structural)]
pub enum IntErrorKind {
    Empty,
    InvalidDigit,
    PosOverflow,
}

/// The message std gives for each way of failing.
pub open spec fn int_error_text(kind: IntErrorKind) -> Seq<char> {
    match kind {
        IntErrorKind::Empty => "cannot parse integer from empty string"@,
        IntErrorKind::InvalidDigit => "invalid digit found in string"@,
        IntErrorKind::PosOverflow => "number too large to fit in target type"@,
    }
}

/// Reads decimal digits from the left onto `acc`: a non-digit fails, and
/// so does a value above `u32::MAX`, whichever comes first.
pub open spec fn read_digits(s: Seq<char>, acc: nat) -> Result<nat, IntErrorKind>
    decreases s.len(),
{
    if s.len() == 0 {
        Ok(acc)
    } else if !('0' <= s[0] && s[0] <= '9') {
        Err(IntErrorKind::InvalidDigit)
    } else {
        let next = 10 * acc + (s[0] as u32 - 48);
        if next > u32::MAX {
            Err(IntErrorKind::PosOverflow)
        } else {
            read_digits(s.drop_first(), next as nat)
        }
    }
}

/// How `u32::from_str` reads a text: an optional `+` then decimal digits;
/// a lone sign is an invalid digit.
pub open spec fn parse_u32(s: Seq<char>) -> Result<nat, IntErrorKind> {
    if s.len() == 0 {
        Err(IntErrorKind::Empty)
    } else if (s[0] == '+' || s[0] == '-') && s.len() == 1 {
        Err(IntErrorKind::InvalidDigit)
    } else if s[0] == '+' {
        read_digits(s.drop_first(), 0)
    } else {
        read_digits(s, 0)
    }
}

/// What a PID file holds: a process id once its text is trimmed, or the
/// message naming the file.
pub open spec fn pid_of(path: Seq<char>, contents: Seq<char>) -> Result<nat, Seq<char>> {
    match parse_u32(trimmed(contents)) {
        Ok(v) => Ok(v),
        Err(kind) => Err("invalid PID file "@ + path + ": "@ + int_error_text(kind)),
    }
}

fn read_digits_exec(s: &Vec<char>, start: usize) -> (r: Result<u32, IntErrorKind>)
    requires
        start <= s@.len(),
    ensures
        match read_digits(s@.subrange(start as int, s@.len() as int), 0) {
            Ok(v) => r == Ok::<u32, IntErrorKind>(v as u32),
            Err(k) => r == Err::<u32, IntErrorKind>(k),
        },
{
    let mut acc: u32 = 0;
    let mut i: usize = start;
    while i < s.len()
        invariant
            start <= i <= s@.len(),
            read_digits(s@.subrange(start as int, s@.len() as int), 0) == read_digits(
                s@.subrange(i as int, s@.len() as int),
                acc as nat,
            ),
        decreases s@.len() - i,
    {
        let ghost rest = s@.subrange(i as int, s@.len() as int);
        assert(rest[0] == s@[i as int]);
        assert(rest.drop_first() =~= s@.subrange(i + 1, s@.len() as int));
        let c = s[i];
        if !('0' <= c && c <= '9') {
            return Err(IntErrorKind::InvalidDigit);
        }
        let d = (c as u32) - 48;
        if acc > 429496729 || (acc == 429496729 && d > 5) {
            return Err(IntErrorKind::PosOverflow);
        }
        acc = acc * 10 + d;
        i = i + 1;
    }
    Ok(acc)
}

/// Reads a process id from the text of a PID file.
pub fn parse_pid(path: &str, contents: &str) -> (r: Result<u32, String>)
    ensures
        match pid_of(path@, contents@) {
            Ok(v) => r == Ok::<u32, String>(v as u32),
            Err(message) => r matches Err(e) && e@ == message,
        },
{
    let t = trim(contents);
    let v = chars_of(t.as_str());
    let parsed = if v.len() == 0 {
        Err(IntErrorKind::Empty)
    } else if (v[0] == '+' || v[0] == '-') && v.len() == 1 {
        Err(IntErrorKind::InvalidDigit)
    } else if v[0] == '+' {
        assert(v@.subrange(1, v@.len() as int) =~= v@.drop_first());
        read_digits_exec(&v, 1)
    } else {
        assert(v@.subrange(0, v@.len() as int) =~= v@);
        read_digits_exec(&v, 0)
    };
    match parsed {
        Ok(p) => Ok(p),
        Err(kind) => {
            let mut e = "invalid PID file ".to_owned();
            push_str(&mut e, path);
            push_str(&mut e, ": ");
            let text = match kind {
                IntErrorKind::Empty => "cannot parse integer from empty string",
                IntErrorKind::InvalidDigit => "invalid digit found in string",
                IntErrorKind::PosOverflow => "number too large to fit in target type",
            };
            push_str(&mut e, text);
            Err(e)
        },
    }
}


proof fn lemma_read_digits_push(x: Seq<char>, c: char, acc: nat)
    ensures
        read_digits(x.push(c), acc) == (match read_digits(x, acc) {
            Ok(v) => if !('0' <= c && c <= '9') {
                Err(IntErrorKind::InvalidDigit)
            } else if 10 * v + (c as u32 - 48) > u32::MAX {
                Err(IntErrorKind::PosOverflow)
            } else {
                Ok((10 * v + (c as u32 - 48)) as nat)
            },
            Err(e) => Err(e),
        }),
    decreases x.len(),
{
    reveal_with_fuel(read_digits, 2);
    if x.len() > 0 {
        assert(x.push(c)[0] == x[0]);
        assert(x.push(c).drop_first() =~= x.drop_first().push(c));
        if '0' <= x[0] && x[0] <= '9' {
            let next = 10 * acc + (x[0] as u32 - 48);
            if next <= u32::MAX {
                lemma_read_digits_push(x.drop_first(), c, next as nat);
            }
        }
    } else {
        assert(x.push(c).drop_first() =~= Seq::<char>::empty());
    }
}

proof fn lemma_decimal_reads_back(n: nat)
    requires
        n <= u32::MAX,
    ensures
        read_digits(decimal(n), 0) == Ok::<nat, IntErrorKind>(n),
        decimal(n).len() > 0,
        forall|i: int| 0 <= i < decimal(n).len() ==> '0' <= #[trigger] decimal(n)[i] && decimal(
            n,
        )[i] <= '9',
    decreases n,
{
    let d = n % 10;
    assert((48 + d) as char as u32 == 48 + d) by {
        vstd::utf8::char_u32_cast((48 + d) as char, (48 + d) as u32);
    }
    reveal_with_fuel(read_digits, 2);
    if n < 10 {
        assert(decimal(n) == seq![crate::text::digit_char(n)]);
        assert(seq![crate::text::digit_char(n)].drop_first() =~= Seq::<char>::empty());
    } else {
        lemma_decimal_reads_back(n / 10);
        lemma_read_digits_push(decimal(n / 10), crate::text::digit_char(d), 0);
        let s = decimal(n);
        assert forall|i: int| 0 <= i < s.len() implies '0' <= #[trigger] s[i] && s[i] <= '9' by {
            if i < s.len() - 1 {
                assert(s[i] == decimal(n / 10)[i]);
            }
        }
    }
}

/// The process id that `create` writes (`pid.to_string()`) reads back from
/// the PID file as the same id.
pub proof fn lemma_written_pid_reads_back(path: Seq<char>, pid: u32)
    ensures
        pid_of(path, decimal(pid as nat)) == Ok::<nat, Seq<char>>(pid as nat),
{
    let s = decimal(pid as nat);
    lemma_decimal_reads_back(pid as nat);
    assert(!is_white_space(s[0])) by {
        vstd::utf8::char_u32_cast(s[0], s[0] as u32);
    }
    assert(!is_white_space(s.last())) by {
        vstd::utf8::char_u32_cast(s.last(), s.last() as u32);
    }
    assert(crate::text::trim_start(s) == s);
    assert(crate::text::trim_end(s) == s);
}

/// A kernel that `create` started shows up in the kernel list: its
/// connection file is listed under the kernel's name, the process id written
/// to its PID file reads back, and while that process is alive its row says
/// `running`.
pub proof fn lemma_created_kernel_is_listed(name: Seq<char>, pid_path: Seq<char>, pid: u32)
    requires
        valid_kernel_name(name),
    ensures
        json_stem(named_file(name, ".json"@)) == Some(name),
        pid_of(pid_path, decimal(pid as nat)) == Ok::<nat, Seq<char>>(pid as nat),
        status_word(Some(pid), true) == "running"@,
{
    reveal_strlit(".json");
    let f = named_file(name, ".json"@);
    let n = name.len() as int;
    assert(f.len() == n + 5);
    assert(f[n] == '.' && f[n + 1] == 'j' && f[n + 2] == 's' && f[n + 3] == 'o' && f[n + 4] == 'n');
    assert(last_dot_before(f, n + 2) == last_dot_before(f, n + 1));
    assert(last_dot_before(f, n + 3) == last_dot_before(f, n + 2));
    assert(last_dot_before(f, n + 4) == last_dot_before(f, n + 3));
    assert(last_dot_before(f, n + 5) == last_dot_before(f, n + 4));
    assert(last_dot_before(f, n + 1) == Some(n));
    assert(f.subrange(n + 1, n + 5) =~= seq!['j', 's', 'o', 'n']);
    assert(f.subrange(0, n) =~= name);
    assert(is_name_char(name[0]));
    lemma_written_pid_reads_back(pid_path, pid);
}

/// Kernel names are the non-empty texts of ASCII letters of either case,
/// digits, `.`, `_` and `-` (`u8::is_ascii_alphanumeric` or one of the three
/// marks), by code point: upper-case letters are accepted as lower-case
/// ones are, and every other character is refused.
pub proof fn lemma_name_characters(name: Seq<char>)
    ensures
        valid_kernel_name(name) <==> (name.len() > 0 && forall|i: int|
            0 <= i < name.len() ==> {
                let c = #[trigger] name[i] as u32;
                ||| 48 <= c <= 57
                ||| 65 <= c <= 90
                ||| 97 <= c <= 122
                ||| c == 46
                ||| c == 95
                ||| c == 45
            }),
{
    assert forall|i: int| 0 <= i < name.len() implies is_name_char(#[trigger] name[i]) == {
        let c = name[i] as u32;
        ||| 48 <= c <= 57
        ||| 65 <= c <= 90
        ||| 97 <= c <= 122
        ||| c == 46
        ||| c == 95
        ||| c == 45
    } by {
        vstd::utf8::char_u32_cast(name[i], name[i] as u32);
    }
}

} // verus!
