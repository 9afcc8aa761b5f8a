//! Single-quoting of command arguments for display (permission prompts),
//! with the shell's reading of such a word.
use vstd::prelude::*;
use crate::text::{chars_of, char_is_ascii_alphanumeric, is_ascii_alnum, push_char};

verus! {

/// Characters that need no quoting.
pub open spec fn is_shell_safe(c: char) -> bool {
    is_ascii_alnum(c) || c == '-' || c == '_' || c == '.' || c == '/' || c == ':' || c == '@'
}

pub open spec fn all_shell_safe(s: Seq<char>) -> bool {
    forall|i: int| 0 <= i < s.len() ==> is_shell_safe(#[trigger] s[i])
}

/// `'` written inside single quotes: close, escaped quote, reopen.
pub open spec fn escaped_quote() -> Seq<char> {
    seq!['\'', '\\', '\'', '\'']
}

/// The body of a single-quoted word: every `'` becomes `'\''`.
pub open spec fn escape_quotes(s: Seq<char>) -> Seq<char>
    decreases s.len(),
{
    if s.len() == 0 {
        Seq::empty()
    } else {
        escape_quotes(s.drop_last()) + (if s.last() == '\'' { escaped_quote() } else { seq![s.last()] })
    }
}

/// The displayed form of an argument: `''` for the empty string, the
/// argument itself when every character is safe, else the argument in
/// single quotes with its quotes escaped.
pub open spec fn shell_quoted(s: Seq<char>) -> Seq<char> {
    if s.len() == 0 {
        seq!['\'', '\'']
    } else if all_shell_safe(s) {
        s
    } else {
        seq!['\''] + escape_quotes(s) + seq!['\'']
    }
}

fn is_safe_exec(c: char) -> (b: bool)
    ensures
        b == is_shell_safe(c),
{
    char_is_ascii_alphanumeric(c) || c == '-' || c == '_' || c == '.' || c == '/' || c == ':' || c == '@'
}

pub fn shell_single_quote(s: &str) -> (q: String)
    ensures
        q@ == shell_quoted(s@),
        is_one_shell_word(q@),
        shell_read_unquoted(q@) == s@,
{
    proof {
        lemma_shell_quote_one_word(s@);
        lemma_shell_quote_round_trip(s@);
    }
    let v = chars_of(s);
    if v.len() == 0 {
        let mut q = String::new();
        push_char(&mut q, '\'');
        push_char(&mut q, '\'');
        proof {
            assert(q@ =~= seq!['\'', '\'']);
        }
        return q;
    }
    let mut safe = true;
    let mut i: usize = 0;
    while i < v.len()
        invariant
            i <= v@.len(),
            safe == (forall|j: int| 0 <= j < i ==> is_shell_safe(#[trigger] v@[j])),
        decreases v@.len() - i,
    {
        let c_safe = is_safe_exec(v[i]);
        proof {
            if !c_safe {
                assert(!is_shell_safe(v@[i as int]));
            }
        }
        safe = safe && c_safe;
        i = i + 1;
    }
    if safe {
        return s.to_owned();
    }
    let mut q = String::new();
    push_char(&mut q, '\'');
    let mut k: usize = 0;
    while k < v.len()
        invariant
            v@ == s@,
            k <= v@.len(),
            q@ == seq!['\''] + escape_quotes(v@.take(k as int)),
        decreases v@.len() - k,
    {
        let c = v[k];
        let ghost before = q@;
        if c == '\'' {
            push_char(&mut q, '\'');
            push_char(&mut q, '\\');
            push_char(&mut q, '\'');
            push_char(&mut q, '\'');
        } else {
            push_char(&mut q, c);
        }
        proof {
            assert(v@.take(k + 1).drop_last() =~= v@.take(k as int));
            assert(q@ =~= seq!['\''] + escape_quotes(v@.take(k + 1)));
        }
        k = k + 1;
    }
    push_char(&mut q, '\'');
    proof {
        assert(v@.take(v@.len() as int) =~= v@);
        assert(q@ =~= shell_quoted(s@));
    }
    q
}

} // verus!

verus! {

/// How a POSIX shell reads one word outside quotes: `'` opens a quoted
/// run, `\` takes the next character literally, anything else is itself.
pub open spec fn shell_read_unquoted(q: Seq<char>) -> Seq<char>
    decreases q.len(), 1int,
{
    if q.len() == 0 {
        Seq::empty()
    } else if q[0] == '\'' {
        shell_read_quoted(q.drop_first())
    } else if q[0] == '\\' && q.len() >= 2 {
        seq![q[1]] + shell_read_unquoted(q.skip(2))
    } else {
        seq![q[0]] + shell_read_unquoted(q.drop_first())
    }
}

/// Inside single quotes everything is literal up to the closing `'`.
pub open spec fn shell_read_quoted(q: Seq<char>) -> Seq<char>
    decreases q.len(), 0int,
{
    if q.len() == 0 {
        Seq::empty()
    } else if q[0] == '\'' {
        shell_read_unquoted(q.drop_first())
    } else {
        seq![q[0]] + shell_read_quoted(q.drop_first())
    }
}

pub open spec fn escape_one(c: char) -> Seq<char> {
    if c == '\'' { escaped_quote() } else { seq![c] }
}

proof fn lemma_escape_cons(c: char, t: Seq<char>)
    ensures
        escape_quotes(seq![c] + t) == escape_one(c) + escape_quotes(t),
    decreases t.len(),
{
    if t.len() == 0 {
        assert(seq![c] + t =~= seq![c]);
        assert(seq![c].drop_last() =~= Seq::<char>::empty());
        assert(escape_quotes(Seq::<char>::empty()) == Seq::<char>::empty());
        assert(escape_quotes(seq![c]) == escape_quotes(seq![c].drop_last()) + escape_one(seq![c].last()));
        assert(escape_quotes(seq![c]) =~= escape_one(c));
        assert(escape_one(c) + escape_quotes(t) =~= escape_one(c));
    } else {
        lemma_escape_cons(c, t.drop_last());
        let u = seq![c] + t;
        assert(u.drop_last() =~= seq![c] + t.drop_last());
        assert(u.last() == t.last());
        assert(escape_quotes(u) == escape_quotes(u.drop_last()) + escape_one(u.last()));
        assert(escape_quotes(t) == escape_quotes(t.drop_last()) + escape_one(t.last()));
        assert(escape_quotes(u) =~= escape_one(c) + escape_quotes(t));
    }
}

proof fn lemma_read_quoted_escaped(s: Seq<char>, tail: Seq<char>)
    ensures
        shell_read_quoted(escape_quotes(s) + tail) == s + shell_read_quoted(tail),
    decreases s.len(),
{
    if s.len() == 0 {
        assert(escape_quotes(s) + tail =~= tail);
        assert(s + shell_read_quoted(tail) =~= shell_read_quoted(tail));
    } else {
        let c = s[0];
        let t = s.drop_first();
        assert(s =~= seq![c] + t);
        lemma_escape_cons(c, t);
        lemma_read_quoted_escaped(t, tail);
        let x = escape_quotes(t) + tail;
        if c == '\'' {
            let q = escaped_quote() + x;
            assert(escape_quotes(s) + tail =~= q);
            assert(q[0] == '\'');
            assert(q.drop_first() =~= seq!['\\', '\''] + (seq!['\''] + x));
            let r = q.drop_first();
            assert(r[0] == '\\' && r.len() >= 2 && r[1] == '\'');
            assert(r.skip(2) =~= seq!['\''] + x);
            assert((seq!['\''] + x)[0] == '\'');
            assert((seq!['\''] + x).drop_first() =~= x);
            assert(shell_read_quoted(q) == shell_read_unquoted(r));
            assert(shell_read_unquoted(r) == seq![r[1]] + shell_read_unquoted(r.skip(2)));
            assert(shell_read_unquoted(r.skip(2)) == shell_read_quoted((seq!['\''] + x).drop_first()));
            assert(shell_read_quoted(q) == seq!['\''] + shell_read_quoted(x));
        } else {
            let q = seq![c] + x;
            assert(escape_quotes(s) + tail =~= q);
            assert(q.drop_first() =~= x);
        }
        assert(s + shell_read_quoted(tail) =~= seq![c] + (t + shell_read_quoted(tail)));
    }
}

proof fn lemma_read_safe(s: Seq<char>)
    requires
        all_shell_safe(s),
    ensures
        shell_read_unquoted(s) == s,
    decreases s.len(),
{
    if s.len() > 0 {
        assert(is_shell_safe(s[0]));
        let t = s.drop_first();
        assert(all_shell_safe(t)) by {
            assert forall|i: int| 0 <= i < t.len() implies is_shell_safe(#[trigger] t[i]) by {
                assert(t[i] == s[i + 1]);
            }
        }
        lemma_read_safe(t);
        assert(s =~= seq![s[0]] + t);
    }
}

/// A quoted argument reads back, in the shell, as the argument itself.
pub proof fn lemma_shell_quote_round_trip(s: Seq<char>)
    ensures
        shell_read_unquoted(shell_quoted(s)) == s,
{
    if s.len() == 0 {
        let q = seq!['\'', '\''];
        assert(q.drop_first() =~= seq!['\'']);
        assert(seq!['\''].drop_first() =~= Seq::<char>::empty());
        assert(shell_read_unquoted(Seq::<char>::empty()) == Seq::<char>::empty());
        assert(shell_read_quoted(seq!['\'']) == shell_read_unquoted(Seq::<char>::empty()));
        assert(shell_read_unquoted(q) == shell_read_quoted(q.drop_first()));
        assert(shell_read_unquoted(q) =~= s);
    } else if all_shell_safe(s) {
        lemma_read_safe(s);
    } else {
        let q = seq!['\''] + escape_quotes(s) + seq!['\''];
        assert(q.drop_first() =~= escape_quotes(s) + seq!['\'']);
        lemma_read_quoted_escaped(s, seq!['\'']);
        assert(seq!['\''].drop_first() =~= Seq::<char>::empty());
        assert(shell_read_unquoted(Seq::<char>::empty()) == Seq::<char>::empty());
        assert(shell_read_quoted(seq!['\'']) == shell_read_unquoted(Seq::<char>::empty()));
        assert(shell_read_quoted(seq!['\'']) =~= Seq::<char>::empty());
        assert(s + Seq::<char>::empty() =~= s);
    }
}

/// Whether `q`, read by a POSIX shell from outside quotes, stays one word:
/// outside quotes only `[A-Za-z0-9-_./:@]` may stand unescaped (no blank,
/// operator, expansion or glob character), `\` may escape any character
/// but a newline, and every quoted run is closed.
pub open spec fn one_word_unquoted(q: Seq<char>) -> bool
    decreases q.len(), 1int,
{
    if q.len() == 0 {
        true
    } else if q[0] == '\'' {
        one_word_quoted(q.drop_first())
    } else if q[0] == '\\' && q.len() >= 2 {
        q[1] != '\n' && one_word_unquoted(q.skip(2))
    } else {
        is_shell_safe(q[0]) && one_word_unquoted(q.drop_first())
    }
}

/// Inside single quotes every character is literal; the run must close.
pub open spec fn one_word_quoted(q: Seq<char>) -> bool
    decreases q.len(), 0int,
{
    if q.len() == 0 {
        false
    } else if q[0] == '\'' {
        one_word_unquoted(q.drop_first())
    } else {
        one_word_quoted(q.drop_first())
    }
}

/// `q` is exactly one shell word: non-empty, and split nowhere.
pub open spec fn is_one_shell_word(q: Seq<char>) -> bool {
    q.len() > 0 && one_word_unquoted(q)
}

proof fn lemma_quoted_escaped_one_word(s: Seq<char>, tail: Seq<char>)
    ensures
        one_word_quoted(escape_quotes(s) + tail) == one_word_quoted(tail),
    decreases s.len(),
{
    if s.len() == 0 {
        assert(escape_quotes(s) + tail =~= tail);
    } else {
        let c = s[0];
        let t = s.drop_first();
        assert(s =~= seq![c] + t);
        lemma_escape_cons(c, t);
        lemma_quoted_escaped_one_word(t, tail);
        let x = escape_quotes(t) + tail;
        if c == '\'' {
            let q = escaped_quote() + x;
            assert(escape_quotes(s) + tail =~= q);
            let r = q.drop_first();
            assert(r =~= seq!['\\', '\''] + (seq!['\''] + x));
            assert(r.skip(2) =~= seq!['\''] + x);
            assert((seq!['\''] + x).drop_first() =~= x);
            assert(one_word_quoted(q) == one_word_unquoted(r));
            assert(one_word_unquoted(r) == one_word_unquoted(r.skip(2)));
            assert(one_word_unquoted(r.skip(2)) == one_word_quoted(x));
        } else {
            let q = seq![c] + x;
            assert(escape_quotes(s) + tail =~= q);
            assert(q.drop_first() =~= x);
        }
    }
}

proof fn lemma_safe_one_word(s: Seq<char>)
    requires
        all_shell_safe(s),
    ensures
        one_word_unquoted(s),
    decreases s.len(),
{
    if s.len() > 0 {
        assert(is_shell_safe(s[0]));
        let t = s.drop_first();
        assert(all_shell_safe(t)) by {
            assert forall|i: int| 0 <= i < t.len() implies is_shell_safe(#[trigger] t[i]) by {
                assert(t[i] == s[i + 1]);
            }
        }
        lemma_safe_one_word(t);
    }
}

/// Every quoted argument is exactly one shell word.
pub proof fn lemma_shell_quote_one_word(s: Seq<char>)
    ensures
        is_one_shell_word(shell_quoted(s)),
{
    let close = seq!['\''];
    assert(close.drop_first() =~= Seq::<char>::empty());
    assert(close[0] == '\'' && close.len() == 1);
    assert(one_word_unquoted(Seq::<char>::empty()));
    assert(one_word_quoted(close));
    if s.len() == 0 {
        let q = seq!['\'', '\''];
        assert(q.drop_first() =~= close);
    } else if all_shell_safe(s) {
        lemma_safe_one_word(s);
    } else {
        let q = seq!['\''] + escape_quotes(s) + seq!['\''];
        assert(q.drop_first() =~= escape_quotes(s) + close);
        lemma_quoted_escaped_one_word(s, close);
    }
}

} // verus!
