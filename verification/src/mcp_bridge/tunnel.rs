//! Recognising the public URL that `cloudflared` announces for a Quick
//! Tunnel: the leftmost `https://<label>.trycloudflare.com` in a line of its
//! output, where the label is one or more of `[a-z0-9-]`.
use vstd::prelude::*;
use crate::text::chars_of;
use crate::text::string_from_chars;

verus! {

pub open spec fn is_label_char(c: char) -> bool {
    ('a' <= c <= 'z') || ('0' <= c <= '9') || c == '-'
}

pub open spec fn https_prefix() -> Seq<char> {
    seq!['h', 't', 't', 'p', 's', ':', '/', '/']
}

pub open spec fn tunnel_suffix() -> Seq<char> {
    seq!['.', 't', 'r', 'y', 'c', 'l', 'o', 'u', 'd', 'f', 'l', 'a', 'r', 'e', '.', 'c', 'o', 'm']
}

/// Length of the run of label characters starting at `i`.
pub open spec fn label_run(line: Seq<char>, i: int) -> nat
    decreases line.len() - i,
{
    if 0 <= i < line.len() && is_label_char(line[i]) {
        1 + label_run(line, i + 1)
    } else {
        0
    }
}

/// Whether `pat` occurs in `line` at position `i`.
pub open spec fn occurs_at(line: Seq<char>, i: int, pat: Seq<char>) -> bool {
    0 <= i && i + pat.len() <= line.len() && line.subrange(i, i + pat.len() as int) == pat
}

/// The length of the tunnel URL starting at `i`, if one starts there.
/// The label run is maximal: a shorter label would be followed by a label
/// character, never by the `.` the suffix starts with.
pub open spec fn match_len_at(line: Seq<char>, i: int) -> Option<nat> {
    let k = label_run(line, i + 8);
    if occurs_at(line, i, https_prefix()) && k >= 1 && occurs_at(line, i + 8 + k, tunnel_suffix()) {
        Some((8 + k + 18) as nat)
    } else {
        None
    }
}

fn occurs_at_exec(v: &Vec<char>, i: usize, pat: &Vec<char>) -> (b: bool)
    ensures
        b == occurs_at(v@, i as int, pat@),
{
    if i > v.len() || pat.len() > v.len() - i {
        return false;
    }
    let mut j: usize = 0;
    while j < pat.len()
        invariant
            i + pat@.len() <= v@.len(),
            j <= pat@.len(),
            forall|k: int| 0 <= k < j ==> v@[i + k] == pat@[k],
        decreases pat@.len() - j,
    {
        assert(i + j < v@.len());
        assert(v@.len() == v.len());
        if v[i + j] != pat[j] {
            proof {
                assert(v@.subrange(i as int, i + pat@.len())[j as int] != pat@[j as int]);
            }
            return false;
        }
        j = j + 1;
    }
    proof {
        assert(v@.subrange(i as int, i + pat@.len()) =~= pat@);
    }
    true
}

fn label_run_exec(v: &Vec<char>, i: usize) -> (k: usize)
    requires
        i <= v@.len(),
    ensures
        k == label_run(v@, i as int),
        i + k <= v@.len(),
{
    let mut e = i;
    while e < v.len() && (('a' <= v[e] && v[e] <= 'z') || ('0' <= v[e] && v[e] <= '9') || v[e] == '-')
        invariant
            i <= e <= v@.len(),
            forall|k: int| i <= k < e ==> is_label_char(#[trigger] v@[k]),
        decreases v@.len() - e,
    {
        e = e + 1;
    }
    proof {
        lemma_label_run(v@, i as int, e as int);
    }
    e - i
}

proof fn lemma_label_run(line: Seq<char>, i: int, e: int)
    requires
        0 <= i <= e <= line.len(),
        forall|k: int| i <= k < e ==> is_label_char(#[trigger] line[k]),
        e == line.len() || !is_label_char(line[e]),
    ensures
        label_run(line, i) == e - i,
    decreases e - i,
{
    if i < e {
        lemma_label_run(line, i + 1, e);
    }
}

/// The leftmost Quick Tunnel URL in `line`, if there is one.
pub fn find_tunnel_url(line: &str) -> (url: Option<String>)
    ensures
        match url {
            None => forall|i: int| 0 <= i < line@.len() ==> #[trigger] match_len_at(line@, i) is None,
            Some(u) => exists|i: int|
                0 <= i < line@.len() && (#[trigger] match_len_at(line@, i) matches Some(n)
                    && u@ == line@.subrange(i, i + n)) && forall|j: int|
                    0 <= j < i ==> #[trigger] match_len_at(line@, j) is None,
        },
{
    let v = chars_of(line);
    let prefix: Vec<char> = vec!['h', 't', 't', 'p', 's', ':', '/', '/'];
    let suffix: Vec<char> = vec!['.', 't', 'r', 'y', 'c', 'l', 'o', 'u', 'd', 'f', 'l', 'a', 'r', 'e', '.', 'c', 'o', 'm'];
    proof {
        assert(prefix@ =~= https_prefix());
        assert(suffix@ =~= tunnel_suffix());
    }
    let mut i: usize = 0;
    while i < v.len()
        invariant
            v@ == line@,
            prefix@ == https_prefix(),
            suffix@ == tunnel_suffix(),
            i <= v@.len(),
            forall|j: int| 0 <= j < i ==> #[trigger] match_len_at(line@, j) is None,
        decreases v@.len() - i,
    {
        if occurs_at_exec(&v, i, &prefix) {
            let k = label_run_exec(&v, i + 8);
            if k >= 1 && occurs_at_exec(&v, i + 8 + k, &suffix) {
                let end = i + 8 + k + 18;
                proof {
                    assert(match_len_at(line@, i as int) == Some((8 + k + 18) as nat));
                }
                return Some(string_from_chars(&v.as_slice()[i..end]));
            }
        }
        i = i + 1;
    }
    None
}

} // verus!

verus! {

/// A recognised tunnel URL starts with `https://`, continues with a
/// non-empty label of `[a-z0-9-]` and ends with `.trycloudflare.com`.
pub proof fn law_tunnel_url_shape(line: Seq<char>, i: int)
    requires
        match_len_at(line, i) is Some,
    ensures
        ({
            let n = match_len_at(line, i)->0;
            let u = line.subrange(i, i + n);
            &&& u.take(8) == https_prefix()
            &&& u.skip(n - 18) == tunnel_suffix()
            &&& n >= 27
            &&& forall|j: int| 8 <= j < n - 18 ==> is_label_char(#[trigger] u[j])
        }),
{
    let k = label_run(line, i + 8);
    let n = match_len_at(line, i)->0;
    let u = line.subrange(i, i + n);
    assert(u.take(8) =~= line.subrange(i, i + 8));
    assert(u.skip(n - 18) =~= line.subrange(i + 8 + k, i + 8 + k + 18));
    lemma_label_run_chars(line, i + 8);
    assert forall|j: int| 8 <= j < n - 18 implies is_label_char(#[trigger] u[j]) by {
        assert(u[j] == line[i + j]);
    }
}

proof fn lemma_label_run_chars(line: Seq<char>, i: int)
    ensures
        forall|j: int| i <= j < i + label_run(line, i) ==> is_label_char(#[trigger] line[j]),
    decreases line.len() - i,
{
    if 0 <= i < line.len() && is_label_char(line[i]) {
        lemma_label_run_chars(line, i + 1);
    }
}

} // verus!
