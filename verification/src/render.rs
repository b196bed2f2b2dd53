//! The plain-text lines the command line prints for kernel responses and
//! runtime records.
use vstd::prelude::*;

use crate::kernel::{KernelStatus, ReplResponse, ReplValue};
use crate::models::{status_text, Runtime, RuntimeList};
use crate::text::{decimal, push_char, push_decimal, push_str, str_equal};

verus! {

/// `n` spaces.
pub open spec fn spaces(n: nat) -> Seq<char> {
    Seq::new(n, |i: int| ' ')
}

/// `text` padded with spaces on the right to `width` characters (`{:<width}`).
pub open spec fn padded(text: Seq<char>, width: nat) -> Seq<char> {
    if text.len() >= width {
        text
    } else {
        text + spaces((width - text.len()) as nat)
    }
}

/// Appends `text` padded with spaces on the right to `width` characters.
pub fn push_padded(out: &mut String, text: &str, width: usize)
    ensures
        final(out)@ == old(out)@ + padded(text@, width as nat),
{
    let ghost start = out@;
    push_str(out, text);
    let n = text.unicode_len();
    let mut k: usize = n;
    assert(spaces(0) =~= Seq::<char>::empty());
    assert(out@ =~= start + text@ + spaces(0));
    while k < width
        invariant
            n == text@.len(),
            k >= n,
            k == n || k <= width,
            out@ == start + text@ + spaces((k - n) as nat),
        decreases width - k,
    {
        push_char(out, ' ');
        assert(spaces((k + 1 - n) as nat) =~= spaces((k - n) as nat).push(' '));
        k = k + 1;
    }
    proof {
        if text@.len() >= width {
            assert(k == n);
            assert(out@ =~= start + text@);
        } else {
            assert(k == width);
        }
    }
}

/// The text of a recorded process id, or `?`.
pub open spec fn pid_text(pid: Option<u32>) -> Seq<char> {
    match pid {
        Some(p) => decimal(p as nat),
        None => seq!['?'],
    }
}

/// One row of the kernel table.
pub open spec fn table_row(row: KernelStatus) -> Seq<char> {
    padded(row.name@, 24) + seq![' '] + padded(pid_text(row.pid), 10) + seq![' '] + row.status@
}

/// The header of the kernel table.
pub open spec fn table_header() -> Seq<char> {
    padded("NAME"@, 24) + seq![' '] + padded("PID"@, 10) + seq![' '] + "STATUS"@
}

/// The lines of `kernel list`: a notice when there are no kernels, else a
/// header and one row per kernel.
pub fn kernel_table(kernels: &Vec<KernelStatus>) -> (r: Vec<String>)
    ensures
        kernels@.len() == 0 ==> r@.len() == 1 && r@[0]@ == "No kernels found."@,
        kernels@.len() > 0 ==> r@.len() == kernels@.len() + 1 && r@[0]@ == table_header()
            && forall|i: int| 0 <= i < kernels@.len() ==> #[trigger] r@[i + 1]@ == table_row(
            kernels@[i],
        ),
{
    let mut lines: Vec<String> = Vec::new();
    if kernels.len() == 0 {
        lines.push("No kernels found.".to_owned());
        return lines;
    }
    let mut header = String::new();
    push_padded(&mut header, "NAME", 24);
    push_char(&mut header, ' ');
    push_padded(&mut header, "PID", 10);
    push_char(&mut header, ' ');
    push_str(&mut header, "STATUS");
    lines.push(header);
    let mut i: usize = 0;
    while i < kernels.len()
        invariant
            i <= kernels@.len(),
            lines@.len() == i + 1,
            lines@[0]@ == table_header(),
            forall|j: int| 0 <= j < i ==> #[trigger] lines@[j + 1]@ == table_row(kernels@[j]),
        decreases kernels@.len() - i,
    {
        let row = &kernels[i];
        let mut line = String::new();
        push_padded(&mut line, row.name.as_str(), 24);
        push_char(&mut line, ' ');
        let mut pid = String::new();
        match row.pid {
            Some(p) => push_decimal(&mut pid, p as u128),
            None => push_char(&mut pid, '?'),
        }
        push_padded(&mut line, pid.as_str(), 10);
        push_char(&mut line, ' ');
        push_str(&mut line, row.status.as_str());
        assert(line@ =~= table_row(kernels@[i as int]));
        lines.push(line);
        i = i + 1;
    }
    lines
}

/// The line printed after a kernel started.
pub fn started_line(name: &str, pid: u32) -> (r: String)
    ensures
        r@ == "Kernel '"@ + name@ + "' started (pid "@ + decimal(pid as nat) + ")"@,
{
    let mut s = "Kernel '".to_owned();
    push_str(&mut s, name);
    push_str(&mut s, "' started (pid ");
    push_decimal(&mut s, pid as u128);
    push_str(&mut s, ")");
    s
}

/// The line printed after a kernel was attached.
pub fn attached_line(name: &str) -> (r: String)
    ensures
        r@ == "Kernel '"@ + name@ + "' attached."@,
{
    let mut s = "Kernel '".to_owned();
    push_str(&mut s, name);
    push_str(&mut s, "' attached.");
    s
}

/// The line printed after a kernel was deleted.
pub fn deleted_line(name: &str) -> (r: String)
    ensures
        r@ == "Kernel '"@ + name@ + "' shut down."@,
{
    let mut s = "Kernel '".to_owned();
    push_str(&mut s, name);
    push_str(&mut s, "' shut down.");
    s
}

/// The line printed for a heartbeat, and the failure of the command when
/// the kernel did not answer.
pub fn heartbeat_line(alive: bool) -> (r: (String, Result<(), String>))
    ensures
        alive ==> r.0@ == "alive"@ && r.1 is Ok,
        !alive ==> r.0@ == "unresponsive"@ && (r.1 matches Err(e) && e@
            == "kernel heartbeat is unresponsive"@),
{
    if alive {
        ("alive".to_owned(), Ok(()))
    } else {
        ("unresponsive".to_owned(), Err("kernel heartbeat is unresponsive".to_owned()))
    }
}

/// What printing an execution shows: the failure of the command when the
/// execution failed, else the value of an evaluated expression (if any).
pub open spec fn printed_result(response: ReplResponse) -> Result<Option<Seq<char>>, Seq<char>> {
    if !response.ok {
        Err(
            match response.error {
                Some(e) => e@,
                None => "kernel execution failed"@,
            },
        )
    } else if response.mode matches Some(m) && m@ == "eval"@ {
        match response.result {
            Some(ReplValue::Text(s)) => Ok(Some(s@)),
            Some(ReplValue::Json(t)) => Ok(Some(t@)),
            None => Ok(None),
        }
    } else {
        Ok(None)
    }
}

/// The value line of an execution, or the failure of the command; standard
/// output and error are printed as they are after it.
pub fn result_line(response: &ReplResponse) -> (r: Result<Option<String>, String>)
    ensures
        match printed_result(*response) {
            Ok(Some(line)) => r matches Ok(Some(l)) && l@ == line,
            Ok(None) => r matches Ok(None),
            Err(message) => r matches Err(e) && e@ == message,
        },
{
    if !response.ok {
        return Err(
            match &response.error {
                Some(e) => e.clone(),
                None => "kernel execution failed".to_owned(),
            },
        );
    }
    let is_eval = match &response.mode {
        Some(m) => str_equal(m.as_str(), "eval"),
        None => false,
    };
    if !is_eval {
        return Ok(None);
    }
    match &response.result {
        Some(ReplValue::Text(s)) => Ok(Some(s.clone())),
        Some(ReplValue::Json(t)) => Ok(Some(t.clone())),
        None => Ok(None),
    }
}

/// The header of the runtime table.
pub open spec fn runtime_header() -> Seq<char> {
    padded("ID"@, 35) + "  "@ + padded("NAME"@, 24) + "  "@ + padded("STATUS"@, 11) + "  "@
        + padded("LANGUAGE"@, 10) + "  REV"@
}

/// One row of the runtime table.
pub open spec fn runtime_row(r: Runtime) -> Seq<char> {
    padded(r.id@, 35) + "  "@ + padded(r.name@, 24) + "  "@ + padded(status_text(r.status), 11)
        + "  "@ + padded(r.language@, 10) + "  "@ + decimal(r.revision as nat)
}

/// The lines of `runtime list`: a header, one row per runtime of the page,
/// an empty line and the total count.
pub fn runtime_table(list: &RuntimeList) -> (r: Vec<String>)
    ensures
        r@.len() == list.items@.len() + 3,
        r@[0]@ == runtime_header(),
        forall|i: int| 0 <= i < list.items@.len() ==> #[trigger] r@[i + 1]@ == runtime_row(
            list.items@[i],
        ),
        r@[list.items@.len() as int + 1]@.len() == 0,
        r@[list.items@.len() as int + 2]@ == decimal(list.total as nat) + " runtime(s)"@,
{
    let mut lines: Vec<String> = Vec::new();
    let mut header = String::new();
    push_padded(&mut header, "ID", 35);
    push_str(&mut header, "  ");
    push_padded(&mut header, "NAME", 24);
    push_str(&mut header, "  ");
    push_padded(&mut header, "STATUS", 11);
    push_str(&mut header, "  ");
    push_padded(&mut header, "LANGUAGE", 10);
    push_str(&mut header, "  REV");
    lines.push(header);
    let mut i: usize = 0;
    while i < list.items.len()
        invariant
            i <= list.items@.len(),
            lines@.len() == i + 1,
            lines@[0]@ == runtime_header(),
            forall|j: int| 0 <= j < i ==> #[trigger] lines@[j + 1]@ == runtime_row(
                list.items@[j],
            ),
        decreases list.items@.len() - i,
    {
        let runtime = &list.items[i];
        let mut line = String::new();
        push_padded(&mut line, runtime.id.as_str(), 35);
        push_str(&mut line, "  ");
        push_padded(&mut line, runtime.name.as_str(), 24);
        push_str(&mut line, "  ");
        let status = runtime.status.text();
        push_padded(&mut line, status.as_str(), 11);
        push_str(&mut line, "  ");
        push_padded(&mut line, runtime.language.as_str(), 10);
        push_str(&mut line, "  ");
        push_decimal(&mut line, runtime.revision as u128);
        assert(line@ =~= runtime_row(list.items@[i as int]));
        lines.push(line);
        i = i + 1;
    }
    lines.push(String::new());
    let mut count = String::new();
    push_decimal(&mut count, list.total as u128);
    push_str(&mut count, " runtime(s)");
    lines.push(count);
    lines
}

/// The line printed after a runtime was deleted.
pub fn runtime_deleted_line(runtime_id: &str) -> (r: String)
    ensures
        r@ == "Deleted "@ + runtime_id@,
{
    let mut s = "Deleted ".to_owned();
    push_str(&mut s, runtime_id);
    s
}

/// The lines that describe one runtime.
pub open spec fn runtime_detail(r: Runtime) -> Seq<Seq<char>> {
    seq![
        "id:                "@ + r.id@,
        "name:              "@ + r.name@,
        "status:            "@ + status_text(r.status),
        "language:          "@ + r.language@,
        "executable:        "@ + r.environment.executable@,
        "worker generation: "@ + decimal(r.worker_generation as nat),
        "revision:          "@ + decimal(r.revision as nat),
        "created:           "@ + r.created_at@,
        "updated:           "@ + r.updated_at@,
    ]
}

fn labelled(label: &str, value: &str) -> (r: String)
    ensures
        r@ == label@ + value@,
{
    let mut s = label.to_owned();
    push_str(&mut s, value);
    s
}

fn labelled_number(label: &str, value: u64) -> (r: String)
    ensures
        r@ == label@ + decimal(value as nat),
{
    let mut s = label.to_owned();
    push_decimal(&mut s, value as u128);
    s
}

/// The lines that describe one runtime: its id, name, status, language,
/// executable, worker generation, revision and times.
pub fn runtime_lines(runtime: &Runtime) -> (r: Vec<String>)
    ensures
        r@.len() == 9,
        forall|i: int| 0 <= i < 9 ==> #[trigger] r@[i]@ == runtime_detail(*runtime)[i],
{
    let status = runtime.status.text();
    let lines = vec![
        labelled("id:                ", runtime.id.as_str()),
        labelled("name:              ", runtime.name.as_str()),
        labelled("status:            ", status.as_str()),
        labelled("language:          ", runtime.language.as_str()),
        labelled("executable:        ", runtime.environment.executable.as_str()),
        labelled_number("worker generation: ", runtime.worker_generation),
        labelled_number("revision:          ", runtime.revision),
        labelled("created:           ", runtime.created_at.as_str()),
        labelled("updated:           ", runtime.updated_at.as_str()),
    ];
    lines
}

} // verus!
