//! File-system paths held as text, joined and split the way Unix paths are.
use vstd::prelude::*;

use crate::text::{chars_of, push_char, push_str, string_of};

verus! {

/// `base` joined with `rel` (`Path::join` on Unix): an absolute `rel`
/// replaces `base`; otherwise a separator is added unless `base` is empty
/// or already ends with one.
pub open spec fn path_join(base: Seq<char>, rel: Seq<char>) -> Seq<char> {
    if rel.len() > 0 && rel[0] == '/' {
        rel
    } else if base.len() == 0 || base.last() == '/' {
        base + rel
    } else {
        base + seq!['/'] + rel
    }
}

/// Joins `rel` onto `base`.
pub fn join_path(base: &str, rel: &str) -> (r: String)
    ensures
        r@ == path_join(base@, rel@),
{
    let b = chars_of(base);
    let r = chars_of(rel);
    if r.len() > 0 && r[0] == '/' {
        return rel.to_owned();
    }
    let mut out = base.to_owned();
    if b.len() > 0 && b[b.len() - 1] != '/' {
        push_char(&mut out, '/');
    }
    push_str(&mut out, rel);
    out
}

/// The index of the last `.` in `s` before position `end`, if any.
pub open spec fn last_dot_before(s: Seq<char>, end: int) -> Option<int>
    decreases end,
{
    if end <= 0 {
        None
    } else if s[end - 1] == '.' {
        Some(end - 1)
    } else {
        last_dot_before(s, end - 1)
    }
}

/// The stem of a file name whose extension is exactly `json`
/// (`Path::file_stem` and `Path::extension`): the name is split at its last
/// dot, which must not be its first character.
pub open spec fn json_stem(file_name: Seq<char>) -> Option<Seq<char>> {
    match last_dot_before(file_name, file_name.len() as int) {
        Some(k) => if k > 0 && file_name.subrange(k + 1, file_name.len() as int) == seq![
            'j',
            's',
            'o',
            'n',
        ] {
            Some(file_name.subrange(0, k))
        } else {
            None
        },
        None => None,
    }
}

/// The stem of a file name with the extension `json`, if it has one.
pub fn json_file_stem(file_name: &str) -> (r: Option<String>)
    ensures
        r matches Some(stem) ==> json_stem(file_name@) == Some(stem@),
        r is None ==> json_stem(file_name@) is None,
{
    let v = chars_of(file_name);
    let n = v.len();
    let mut end: usize = n;
    while end > 0 && v[end - 1] != '.'
        invariant
            end <= n,
            n == v@.len(),
            v@ == file_name@,
            last_dot_before(v@, n as int) == last_dot_before(v@, end as int),
        decreases end,
    {
        end = end - 1;
    }
    if end <= 1 {
        return None;
    }
    let k = end - 1;
    assert(last_dot_before(v@, end as int) == Some(k as int));
    if n - end != 4 || v[end] != 'j' || v[end + 1] != 's' || v[end + 2] != 'o' || v[end + 3]
        != 'n' {
        proof {
            let ext = v@.subrange(end as int, n as int);
            assert(ext.len() == n - end);
            if n - end == 4 {
                let ext = v@.subrange(end as int, n as int);
                assert(ext[0] == v@[end as int]);
                assert(ext[1] == v@[end + 1]);
                assert(ext[2] == v@[end + 2]);
                assert(ext[3] == v@[end + 3]);
            }
        }
        return None;
    }
    assert(v@.subrange(end as int, n as int) =~= seq!['j', 's', 'o', 'n']);
    let mut stem: Vec<char> = Vec::new();
    let mut i: usize = 0;
    while i < k
        invariant
            i <= k,
            k < n,
            n == v@.len(),
            stem@ == v@.subrange(0, i as int),
        decreases k - i,
    {
        stem.push(v[i]);
        assert(stem@ =~= v@.subrange(0, i + 1));
        i = i + 1;
    }
    Some(string_of(&stem))
}

} // verus!
