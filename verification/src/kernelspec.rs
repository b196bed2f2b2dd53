//! Standard Jupyter kernelspecs: where they are looked up, how their
//! command line is prepared, and the connection document written for a
//! kernel started from one.
use vstd::prelude::*;
use vstd::utf8::encode_utf8;

use crate::hex::{decoded_key, hex_chars, hex_string};
use crate::kernel::text_le;
use crate::paths::{join_path, path_join};
use crate::text::{contains, contains_text, push_str, replace_all, replace_text};

verus! {

/// A `kernel.json` file: the command line and environment of a kernel.
#[derive(Debug, Clone)]
pub struct KernelSpec {
    pub argv: Vec<String>,
    pub env: Vec<(String, String)>,
    pub display_name: String,
    pub language: String,
}

/// The program, arguments and environment that start a kernel.
#[derive(Debug, Clone)]
pub struct PreparedKernel {
    pub program: String,
    pub arguments: Vec<String>,
    pub environment: Vec<(String, String)>,
}

/// Pairs of texts seen through their views.
pub open spec fn pairs_view(pairs: Seq<(String, String)>) -> Seq<(Seq<char>, Seq<char>)> {
    pairs.map_values(|p: (String, String)| (p.0@, p.1@))
}

/// Whether the keys of `pairs` strictly ascend in the order of their
/// texts, as the entries of a sorted map do: no key occurs twice.
pub open spec fn keys_ascending(pairs: Seq<(Seq<char>, Seq<char>)>) -> bool {
    forall|i: int, j: int|
        0 <= i < j < pairs.len() ==> text_le(#[trigger] pairs[i].0, #[trigger] pairs[j].0)
            && pairs[i].0 != pairs[j].0
}

impl KernelSpec {
    /// The environment of a kernelspec is a map: its keys ascend and none
    /// occurs twice.
    pub open spec fn well_formed(&self) -> bool {
        keys_ascending(pairs_view(self.env@))
    }
}

impl PreparedKernel {
    /// The environment of a prepared kernel is a map: its keys ascend and
    /// none occurs twice.
    pub open spec fn well_formed(&self) -> bool {
        keys_ascending(pairs_view(self.environment@))
    }
}

/// Texts seen through their views.
pub open spec fn texts_view(texts: Seq<String>) -> Seq<Seq<char>> {
    texts.map_values(|t: String| t@)
}

proof fn lemma_texts_view_push(s: Seq<String>, x: String)
    ensures
        texts_view(s.push(x)) == texts_view(s).push(x@),
{
    assert(texts_view(s.push(x)) =~= texts_view(s).push(x@));
}

proof fn lemma_pairs_view_push(s: Seq<(String, String)>, x: (String, String))
    ensures
        pairs_view(s.push(x)) == pairs_view(s).push((x.0@, x.1@)),
{
    assert(pairs_view(s.push(x)) =~= pairs_view(s).push((x.0@, x.1@)));
}

/// The reference `${key}` to a variable.
pub open spec fn variable_reference(key: Seq<char>) -> Seq<char> {
    seq!['$', '{'] + key + seq!['}']
}

/// `value` with each variable reference replaced by the variable's value,
/// the variables taken in order.
pub open spec fn expand(value: Seq<char>, vars: Seq<(Seq<char>, Seq<char>)>) -> Seq<char>
    decreases vars.len(),
{
    if vars.len() == 0 {
        value
    } else {
        expand(replace_all(value, variable_reference(vars[0].0), vars[0].1), vars.drop_first())
    }
}

/// Replaces each `${key}` in `value` by the variable's value, taking the
/// variables in the order given.
pub fn expand_environment(value: &str, vars: &Vec<(String, String)>) -> (r: String)
    ensures
        r@ == expand(value@, pairs_view(vars@)),
{
    let ghost all = pairs_view(vars@);
    let mut expanded = value.to_owned();
    let mut i: usize = 0;
    assert(all.subrange(0, all.len() as int) =~= all);
    while i < vars.len()
        invariant
            i <= vars@.len(),
            all == pairs_view(vars@),
            expand(value@, all) == expand(expanded@, all.subrange(i as int, all.len() as int)),
        decreases vars@.len() - i,
    {
        let ghost rest = all.subrange(i as int, all.len() as int);
        assert(rest[0] == (vars@[i as int].0@, vars@[i as int].1@));
        assert(rest.drop_first() =~= all.subrange(i + 1, all.len() as int));
        let mut reference = "${".to_owned();
        push_str(&mut reference, vars[i].0.as_str());
        push_str(&mut reference, "}");
        proof {
            reveal_strlit("${");
            reveal_strlit("}");
            assert(reference@ =~= variable_reference(vars@[i as int].0@));
        }
        expanded = replace_text(expanded.as_str(), reference.as_str(), vars[i].1.as_str());
        i = i + 1;
    }
    assert(all.subrange(all.len() as int, all.len() as int) =~= Seq::<(Seq<char>, Seq<char>)>::empty());
    expanded
}

/// The placeholder a kernelspec writes for the connection file.
pub open spec fn connection_placeholder() -> Seq<char> {
    "{connection_file}"@
}

/// What preparing a kernelspec gives: the expanded command line with the
/// connection file in place of its placeholder, or the first failure.
pub open spec fn prepared(
    argv: Seq<Seq<char>>,
    env: Seq<(Seq<char>, Seq<char>)>,
    connection_file: Option<Seq<char>>,
    vars: Seq<(Seq<char>, Seq<char>)>,
) -> Result<(Seq<char>, Seq<Seq<char>>, Seq<(Seq<char>, Seq<char>)>), Seq<char>> {
    let expanded = argv.map_values(|a: Seq<char>| expand(a, vars));
    if expanded.len() == 0 {
        Err("kernelspec argv cannot be empty"@)
    } else {
        match connection_file {
            None => Err("connection file path is not valid UTF-8"@),
            Some(file) => {
                let replaced = expanded.map_values(
                    |a: Seq<char>| replace_all(a, connection_placeholder(), file),
                );
                if !(exists|i: int| 0 <= i < replaced.len() && contains(replaced[i], file)) {
                    Err("kernelspec argv must contain {connection_file}"@)
                } else {
                    Ok(
                        (
                            replaced[0],
                            replaced.drop_first(),
                            env.map_values(
                                |p: (Seq<char>, Seq<char>)| (p.0, expand(p.1, vars)),
                            ),
                        ),
                    )
                }
            },
        }
    }
}

/// Prepares the command line of a kernelspec: expands variable references
/// in its arguments and environment, puts the connection file in place of
/// `{connection_file}`, and insists that the connection file then appears.
/// `connection_file` is absent when its path is not UTF-8.
pub fn prepare(spec: &KernelSpec, connection_file: Option<&str>, vars: &Vec<(String, String)>) -> (r:
    Result<PreparedKernel, String>)
    ensures
        match prepared(
            texts_view(spec.argv@),
            pairs_view(spec.env@),
            match connection_file {
                Some(f) => Some(f@),
                None => None,
            },
            pairs_view(vars@),
        ) {
            Ok((program, arguments, environment)) => (r matches Ok(p) && p.program@ == program
                && texts_view(p.arguments@) == arguments && pairs_view(p.environment@)
                == environment),
            Err(message) => (r matches Err(e) && e@ == message),
        },
        spec.well_formed() ==> (r matches Ok(p) ==> p.well_formed()),
{
    let ghost vs = pairs_view(vars@);
    let ghost argv_view = texts_view(spec.argv@);
    let ghost expanded = argv_view.map_values(|a: Seq<char>| expand(a, vs));
    let mut argv: Vec<String> = Vec::new();
    let mut i: usize = 0;
    while i < spec.argv.len()
        invariant
            i <= spec.argv@.len(),
            vs == pairs_view(vars@),
            argv_view == texts_view(spec.argv@),
            expanded == argv_view.map_values(|a: Seq<char>| expand(a, vs)),
            texts_view(argv@) == expanded.subrange(0, i as int),
        decreases spec.argv@.len() - i,
    {
        let arg = expand_environment(spec.argv[i].as_str(), vars);
        proof {
            lemma_texts_view_push(argv@, arg);
            assert(argv_view[i as int] == spec.argv@[i as int]@);
            assert(expanded[i as int] == arg@);
        }
        argv.push(arg);
        assert(texts_view(argv@) =~= expanded.subrange(0, i + 1));
        i = i + 1;
    }
    assert(expanded.subrange(0, expanded.len() as int) =~= expanded);
    if argv.len() == 0 {
        return Err("kernelspec argv cannot be empty".to_owned());
    }
    let file = match connection_file {
        Some(f) => f,
        None => {
            return Err("connection file path is not valid UTF-8".to_owned());
        },
    };
    let ghost replaced = expanded.map_values(
        |a: Seq<char>| replace_all(a, connection_placeholder(), file@),
    );
    let mut replaced_args: Vec<String> = Vec::new();
    let mut found = false;
    let mut k: usize = 0;
    proof {
        reveal_strlit("{connection_file}");
    }
    while k < argv.len()
        invariant
            k <= argv@.len(),
            texts_view(argv@) == expanded,
            replaced == expanded.map_values(
                |a: Seq<char>| replace_all(a, connection_placeholder(), file@),
            ),
            texts_view(replaced_args@) == replaced.subrange(0, k as int),
            found == (exists|j: int| 0 <= j < k && contains(replaced[j], file@)),
            connection_placeholder().len() > 0,
        decreases argv@.len() - k,
    {
        assert(argv@[k as int]@ == expanded[k as int]);
        let arg = replace_text(argv[k].as_str(), "{connection_file}", file);
        assert(texts_view(argv@)[k as int] == argv@[k as int]@);
        assert(replaced[k as int] == arg@);
        if contains_text(arg.as_str(), file) {
            found = true;
        }
        proof {
            lemma_texts_view_push(replaced_args@, arg);
        }
        replaced_args.push(arg);
        assert(texts_view(replaced_args@) =~= replaced.subrange(0, k + 1));
        k = k + 1;
    }
    assert(replaced.subrange(0, replaced.len() as int) =~= replaced);
    if !found {
        return Err("kernelspec argv must contain {connection_file}".to_owned());
    }
    let program = replaced_args.remove(0);
    assert(texts_view(replaced_args@) =~= replaced.drop_first());
    let ghost env_target = pairs_view(spec.env@).map_values(
        |p: (Seq<char>, Seq<char>)| (p.0, expand(p.1, vs)),
    );
    let mut environment: Vec<(String, String)> = Vec::new();
    let mut m: usize = 0;
    while m < spec.env.len()
        invariant
            m <= spec.env@.len(),
            vs == pairs_view(vars@),
            env_target == pairs_view(spec.env@).map_values(
                |p: (Seq<char>, Seq<char>)| (p.0, expand(p.1, vs)),
            ),
            pairs_view(environment@) == env_target.subrange(0, m as int),
        decreases spec.env@.len() - m,
    {
        let key = spec.env[m].0.clone();
        assert(key@ == spec.env@[m as int].0@);
        let value = expand_environment(spec.env[m].1.as_str(), vars);
        proof {
            lemma_pairs_view_push(environment@, (key, value));
            assert(pairs_view(spec.env@)[m as int] == (spec.env@[m as int].0@, spec.env@[m as int].1@));
            assert(env_target[m as int] == (key@, value@));
        }
        environment.push((key, value));
        assert(pairs_view(environment@) =~= env_target.subrange(0, m + 1));
        m = m + 1;
    }
    assert(env_target.subrange(0, env_target.len() as int) =~= env_target);
    let r = PreparedKernel { program, arguments: replaced_args, environment };
    proof {
        let keys = pairs_view(spec.env@);
        assert forall|i: int, j: int| 0 <= i < j < env_target.len() implies env_target[i].0
            == keys[i].0 && env_target[j].0 == keys[j].0 by {}
    }
    Ok(r)
}

/// Where a kernelspec is read from: a file given directly, or the first of
/// several candidate files that exists.
#[derive(Debug, Clone)]
pub enum KernelspecLookup {
    File(String),
    Candidates(Vec<String>),
}

/// Where `load` reads a kernelspec named `name_or_path`: when that path
/// exists, the path itself, or its `kernel.json` when it is a directory
/// (`existing` gives whether it is one); otherwise `name/kernel.json` in
/// each search directory in turn.
pub fn load(name_or_path: &str, existing: Option<bool>, directories: &Vec<String>) -> (r:
    KernelspecLookup)
    ensures
        existing == Some(true) ==> (r matches KernelspecLookup::File(p) && p@ == path_join(
            name_or_path@,
            "kernel.json"@,
        )),
        existing == Some(false) ==> (r matches KernelspecLookup::File(p) && p@ == name_or_path@),
        existing is None ==> (r matches KernelspecLookup::Candidates(c) && c@.len()
            == directories@.len() && forall|i: int|
            0 <= i < c@.len() ==> #[trigger] c@[i]@ == path_join(
                path_join(directories@[i]@, name_or_path@),
                "kernel.json"@,
            )),
{
    match existing {
        Some(true) => KernelspecLookup::File(join_path(name_or_path, "kernel.json")),
        Some(false) => KernelspecLookup::File(name_or_path.to_owned()),
        None => {
            let mut candidates: Vec<String> = Vec::new();
            let mut i: usize = 0;
            while i < directories.len()
                invariant
                    i <= directories@.len(),
                    candidates@.len() == i,
                    forall|j: int|
                        0 <= j < i ==> #[trigger] candidates@[j]@ == path_join(
                            path_join(directories@[j]@, name_or_path@),
                            "kernel.json"@,
                        ),
                decreases directories@.len() - i,
            {
                let directory = join_path(directories[i].as_str(), name_or_path);
                candidates.push(join_path(directory.as_str(), "kernel.json"));
                i = i + 1;
            }
            KernelspecLookup::Candidates(candidates)
        },
    }
}

/// The message when no candidate file exists.
pub fn kernelspec_not_found(name_or_path: &str) -> (r: String)
    ensures
        r@ == "Jupyter kernelspec not found: "@ + name_or_path@,
{
    let mut e = "Jupyter kernelspec not found: ".to_owned();
    push_str(&mut e, name_or_path);
    e
}

/// The pieces of `s` between `:` separators, as `env::split_paths` gives
/// them on Unix (an empty text gives one empty piece).
pub open spec fn split_colons(s: Seq<char>) -> Seq<Seq<char>>
    decreases s.len(),
{
    match first_colon(s, 0) {
        None => seq![s],
        Some(k) => {
            proof {
                lemma_first_colon_bounds(s, 0);
            }
            seq![s.subrange(0, k)] + split_colons(s.subrange(k + 1, s.len() as int))
        },
    }
}

/// The index of the first `:` in `s` at or after `i`.
pub open spec fn first_colon(s: Seq<char>, i: int) -> Option<int>
    decreases s.len() - i,
{
    if i < 0 || i >= s.len() {
        None
    } else if s[i] == ':' {
        Some(i)
    } else {
        first_colon(s, i + 1)
    }
}

/// A colon found from `i` on lies at or after `i` inside the text.
pub proof fn lemma_first_colon_bounds(s: Seq<char>, i: int)
    requires
        0 <= i,
    ensures
        first_colon(s, i) matches Some(k) ==> i <= k < s.len() && s[k] == ':',
    decreases s.len() - i,
{
    if i < s.len() && s[i] != ':' {
        lemma_first_colon_bounds(s, i + 1);
    }
}

/// The directories searched for kernelspecs, in order: each `JUPYTER_PATH`
/// entry's `kernels`, then the XDG data home's `jupyter/kernels`, then two
/// places under the home directory, then four system places.
pub open spec fn search_list(
    jupyter_path: Option<Seq<char>>,
    data_home: Option<Seq<char>>,
    home: Option<Seq<char>>,
) -> Seq<Seq<char>> {
    let from_path = match jupyter_path {
        Some(p) => split_colons(p).map_values(|d: Seq<char>| path_join(d, "kernels"@)),
        None => seq![],
    };
    let from_data = match data_home {
        Some(d) => seq![path_join(d, "jupyter/kernels"@)],
        None => seq![],
    };
    let from_home = match home {
        Some(h) => seq![
            path_join(h, "Library/Jupyter/kernels"@),
            path_join(h, ".local/share/jupyter/kernels"@),
        ],
        None => seq![],
    };
    from_path + from_data + from_home + seq![
        "/Library/Jupyter/kernels"@,
        "/opt/homebrew/share/jupyter/kernels"@,
        "/usr/local/share/jupyter/kernels"@,
        "/usr/share/jupyter/kernels"@,
    ]
}

fn push_joined(list: &mut Vec<String>, base: &str, rel: &str)
    ensures
        texts_view(final(list)@) == texts_view(old(list)@).push(path_join(base@, rel@)),
{
    let ghost before = texts_view(list@);
    list.push(join_path(base, rel));
    assert(texts_view(list@) =~= before.push(path_join(base@, rel@)));
}

fn push_text(list: &mut Vec<String>, text: &str)
    ensures
        texts_view(final(list)@) == texts_view(old(list)@).push(text@),
{
    let ghost before = texts_view(list@);
    list.push(text.to_owned());
    assert(texts_view(list@) =~= before.push(text@));
}

/// The directories searched for kernelspecs, given the `JUPYTER_PATH`,
/// `XDG_DATA_HOME` and `HOME` variables.
pub fn search_directories(
    jupyter_path: Option<&str>,
    data_home: Option<&str>,
    home: Option<&str>,
) -> (r: Vec<String>)
    ensures
        texts_view(r@) == search_list(
            match jupyter_path {
                Some(p) => Some(p@),
                None => None,
            },
            match data_home {
                Some(d) => Some(d@),
                None => None,
            },
            match home {
                Some(h) => Some(h@),
                None => None,
            },
        ),
{
    let mut directories: Vec<String> = Vec::new();
    match jupyter_path {
        Some(paths) => {
            let v = crate::text::chars_of(paths);
            let ghost target = split_colons(paths@).map_values(
                |d: Seq<char>| path_join(d, "kernels"@),
            );
            let mut start: usize = 0;
            let mut piece: Vec<char> = Vec::new();
            let mut i: usize = 0;
            assert(v@.subrange(0, v@.len() as int) =~= v@);
            while i < v.len()
                invariant
                    v@ == paths@,
                    start <= i <= v@.len(),
                    piece@ == v@.subrange(start as int, i as int),
                    forall|j: int| start <= j < i ==> v@[j] != ':',
                    target == split_colons(paths@).map_values(
                        |d: Seq<char>| path_join(d, "kernels"@),
                    ),
                    target == texts_view(directories@) + split_colons(
                        v@.subrange(start as int, v@.len() as int),
                    ).map_values(|d: Seq<char>| path_join(d, "kernels"@)),
                decreases v@.len() - i,
            {
                let ghost rest = v@.subrange(start as int, v@.len() as int);
                if v[i] == ':' {
                    proof {
                        assert forall|j: int| 0 <= j < i - start implies rest[j] != ':' by {
                            assert(rest[j] == v@[start + j]);
                        }
                        assert(rest[i - start] == ':');
                        lemma_first_colon_prefix(rest, 0, (i - start) as int);
                        assert(rest.subrange(0, i - start) =~= piece@);
                        assert(rest.subrange(i - start + 1, rest.len() as int) =~= v@.subrange(
                            i + 1,
                            v@.len() as int,
                        ));
                    }
                    let text = crate::text::string_of(&piece);
                    let ghost before = texts_view(directories@);
                    push_joined(&mut directories, text.as_str(), "kernels");
                    proof {
                        let tail = split_colons(v@.subrange(i + 1, v@.len() as int));
                        assert(split_colons(rest) == seq![piece@] + tail);
                        assert((seq![piece@] + tail).map_values(
                            |d: Seq<char>| path_join(d, "kernels"@),
                        ) =~= seq![path_join(piece@, "kernels"@)] + tail.map_values(
                            |d: Seq<char>| path_join(d, "kernels"@),
                        ));
                        assert(texts_view(directories@) + tail.map_values(
                            |d: Seq<char>| path_join(d, "kernels"@),
                        ) =~= before + (seq![path_join(piece@, "kernels"@)] + tail.map_values(
                            |d: Seq<char>| path_join(d, "kernels"@),
                        )));
                    }
                    piece = Vec::new();
                    start = i + 1;
                    assert(piece@ =~= v@.subrange(start as int, i + 1));
                } else {
                    piece.push(v[i]);
                    assert(piece@ =~= v@.subrange(start as int, i + 1));
                }
                i = i + 1;
            }
            proof {
                let rest = v@.subrange(start as int, v@.len() as int);
                assert forall|j: int| 0 <= j < rest.len() implies rest[j] != ':' by {
                    assert(rest[j] == v@[start + j]);
                }
                lemma_no_colon(rest, 0);
                assert(rest =~= piece@);
            }
            let text = crate::text::string_of(&piece);
            let ghost before = texts_view(directories@);
            push_joined(&mut directories, text.as_str(), "kernels");
            assert(seq![piece@].map_values(|d: Seq<char>| path_join(d, "kernels"@)) =~= seq![
                path_join(piece@, "kernels"@),
            ]);
        },
        None => {},
    }
    let ghost after_path = texts_view(directories@);
    match data_home {
        Some(d) => push_joined(&mut directories, d, "jupyter/kernels"),
        None => {},
    }
    let ghost after_data = texts_view(directories@);
    match home {
        Some(h) => {
            push_joined(&mut directories, h, "Library/Jupyter/kernels");
            push_joined(&mut directories, h, ".local/share/jupyter/kernels");
        },
        None => {},
    }
    let ghost after_home = texts_view(directories@);
    push_text(&mut directories, "/Library/Jupyter/kernels");
    push_text(&mut directories, "/opt/homebrew/share/jupyter/kernels");
    push_text(&mut directories, "/usr/local/share/jupyter/kernels");
    push_text(&mut directories, "/usr/share/jupyter/kernels");
    proof {
        let target = search_list(
            match jupyter_path {
                Some(p) => Some(p@),
                None => None,
            },
            match data_home {
                Some(d) => Some(d@),
                None => None,
            },
            match home {
                Some(h) => Some(h@),
                None => None,
            },
        );
        assert(texts_view(directories@) =~= target);
    }
    directories
}

proof fn lemma_first_colon_prefix(s: Seq<char>, i: int, k: int)
    requires
        0 <= i <= k < s.len(),
        s[k] == ':',
        forall|j: int| i <= j < k ==> s[j] != ':',
    ensures
        first_colon(s, i) == Some(k),
    decreases k - i,
{
    if i < k {
        lemma_first_colon_prefix(s, i + 1, k);
    }
}

proof fn lemma_no_colon(s: Seq<char>, i: int)
    requires
        0 <= i,
        forall|j: int| 0 <= j < s.len() ==> s[j] != ':',
    ensures
        first_colon(s, i) is None,
    decreases s.len() - i,
{
    if i < s.len() {
        lemma_no_colon(s, i + 1);
    }
}

/// The connection document of a kernel started from a kernelspec.
#[derive(Debug, Clone)]
pub struct ConnectionInfo {
    pub shell_port: u16,
    pub iopub_port: u16,
    pub stdin_port: u16,
    pub control_port: u16,
    pub hb_port: u16,
    pub ip: String,
    pub key: String,
    pub transport: String,
    pub signature_scheme: String,
    pub kernel_name: String,
}

/// The connection document for five reserved ports (shell, iopub, stdin,
/// control and heartbeat, in that order) and the random bytes of the
/// signing key, written as lowercase hexadecimal.
pub fn connection_info(ports: &Vec<u16>, key_bytes: &[u8]) -> (r: ConnectionInfo)
    requires
        ports@.len() == 5,
        2 * key_bytes@.len() <= usize::MAX,
    ensures
        r.shell_port == ports@[0],
        r.iopub_port == ports@[1],
        r.stdin_port == ports@[2],
        r.control_port == ports@[3],
        r.hb_port == ports@[4],
        r.ip@ == "127.0.0.1"@,
        r.key@ == hex_chars(key_bytes@),
        r.transport@ == "tcp"@,
        r.signature_scheme@ == "hmac-sha256"@,
        r.kernel_name@ == ""@,
{
    ConnectionInfo {
        shell_port: ports[0],
        iopub_port: ports[1],
        stdin_port: ports[2],
        control_port: ports[3],
        hb_port: ports[4],
        ip: "127.0.0.1".to_owned(),
        key: hex_string(key_bytes),
        transport: "tcp".to_owned(),
        signature_scheme: "hmac-sha256".to_owned(),
        kernel_name: "".to_owned(),
    }
}

/// The key written into a connection document decodes, when the document
/// is read back, to the random bytes it was made from.
pub proof fn lemma_written_key_decodes(key_bytes: Seq<u8>)
    requires
        key_bytes.len() > 0,
    ensures
        decoded_key(encode_utf8(hex_chars(key_bytes))) == key_bytes,
{
    let chars = hex_chars(key_bytes);
    let ascii = crate::hex::hex_ascii(key_bytes);
    crate::hex::lemma_hex_round_trip(key_bytes);
    assert(vstd::utf8::is_ascii_chars(chars)) by {
        assert forall|i: int| 0 <= i < chars.len() implies '\0' <= #[trigger] chars[i] <= '\u{7f}' by {
            let b = key_bytes[i / 2];
            assert(b / 16 < 16 && b % 16 < 16);
            assert(ascii[i] <= 102);
        }
    }
    vstd::utf8::is_ascii_chars_encode_utf8(chars);
    assert(encode_utf8(chars) =~= ascii);
}


/// A prepared command line always passes the connection file to the
/// kernel: the program or one of its arguments holds it.
pub proof fn lemma_prepared_command_holds_connection_file(
    argv: Seq<Seq<char>>,
    env: Seq<(Seq<char>, Seq<char>)>,
    file: Seq<char>,
    vars: Seq<(Seq<char>, Seq<char>)>,
)
    ensures
        prepared(argv, env, Some(file), vars) matches Ok((program, arguments, _)) ==> exists|i: int|
            0 <= i < arguments.len() + 1 && contains((seq![program] + arguments)[i], file),
{
    if let Ok((program, arguments, _)) = prepared(argv, env, Some(file), vars) {
        let expanded = argv.map_values(|a: Seq<char>| expand(a, vars));
        let replaced = expanded.map_values(
            |a: Seq<char>| replace_all(a, connection_placeholder(), file),
        );
        assert(seq![program] + arguments =~= replaced);
        let i = choose|i: int| 0 <= i < replaced.len() && contains(replaced[i], file);
        assert(contains((seq![program] + arguments)[i], file));
    }
}

/// Where the home directory's kernelspecs are searched: whenever `HOME` is
/// set to `h`, whatever `JUPYTER_PATH` and `XDG_DATA_HOME` are,
/// `h/Library/Jupyter/kernels` and `h/.local/share/jupyter/kernels` are
/// searched right after the XDG entry (if any) and right before the four
/// system places, which always end the list; without `HOME` these two
/// entries are all that is missing.
pub proof fn lemma_home_kernelspecs_are_searched(
    jupyter_path: Option<Seq<char>>,
    data_home: Option<Seq<char>>,
    h: Seq<char>,
)
    ensures
        ({
            let with_home = search_list(jupyter_path, data_home, Some(h));
            let without = search_list(jupyter_path, data_home, None);
            let n = with_home.len() as int;
            &&& n >= 6
            &&& with_home[n - 6] == path_join(h, "Library/Jupyter/kernels"@)
            &&& with_home[n - 5] == path_join(h, ".local/share/jupyter/kernels"@)
            &&& with_home[n - 4] == "/Library/Jupyter/kernels"@
            &&& with_home[n - 3] == "/opt/homebrew/share/jupyter/kernels"@
            &&& with_home[n - 2] == "/usr/local/share/jupyter/kernels"@
            &&& with_home[n - 1] == "/usr/share/jupyter/kernels"@
            &&& (data_home matches Some(d) ==> with_home[n - 7] == path_join(d, "jupyter/kernels"@))
            &&& without.len() + 2 == n
            &&& without == with_home.subrange(0, n - 6) + with_home.subrange(n - 4, n)
        }),
{
    let with_home = search_list(jupyter_path, data_home, Some(h));
    let without = search_list(jupyter_path, data_home, None);
    let n = with_home.len() as int;
    assert(without =~= with_home.subrange(0, n - 6) + with_home.subrange(n - 4, n));
}

} // verus!
