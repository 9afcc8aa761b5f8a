//! Character-level string helpers shared by the command parsers and the
//! command-line builders: Unicode whitespace, ASCII classes, trimming and
//! whitespace splitting, stated over `Seq<char>`.
use vstd::prelude::*;

verus! {

/// Appends one character (`String::push`).
#[verifier::external_body]
pub fn push_char(s: &mut String, c: char)
    ensures
        final(s)@ == old(s)@.push(c),
{
    s.push(c);
}

/// The characters of `s`, in order.
pub fn chars_of(s: &str) -> (v: Vec<char>)
    ensures
        v@ == s@,
{
    let mut v: Vec<char> = Vec::new();
    for c in it: s.chars()
        invariant
            v@ == it.seq().take(it.index() as int),
            it.seq() == s@,
    {
        v.push(c);
    }
    v
}

} // verus!

verus! {

/// Unicode `White_Space` (what `char::is_whitespace` and
/// `str::split_whitespace` use).
pub open spec fn is_ws(c: char) -> bool {
    let u = c as u32;
    ||| 0x09 <= u <= 0x0d
    ||| u == 0x20 || u == 0x85 || u == 0xa0 || u == 0x1680
    ||| 0x2000 <= u <= 0x200a
    ||| u == 0x2028 || u == 0x2029 || u == 0x202f || u == 0x205f || u == 0x3000
}

pub fn char_is_whitespace(c: char) -> (b: bool)
    ensures
        b == is_ws(c),
{
    let u = c as u32;
    (0x09 <= u && u <= 0x0d) || u == 0x20 || u == 0x85 || u == 0xa0 || u == 0x1680 || (0x2000
        <= u && u <= 0x200a) || u == 0x2028 || u == 0x2029 || u == 0x202f || u == 0x205f || u
        == 0x3000
}

pub open spec fn is_ascii_alnum(c: char) -> bool {
    ('0' <= c <= '9') || ('a' <= c <= 'z') || ('A' <= c <= 'Z')
}

pub fn char_is_ascii_alphanumeric(c: char) -> (b: bool)
    ensures
        b == is_ascii_alnum(c),
{
    ('0' <= c && c <= '9') || ('a' <= c && c <= 'z') || ('A' <= c && c <= 'Z')
}

/// `char::to_ascii_lowercase`.
pub open spec fn ascii_lower(c: char) -> char {
    if 'A' <= c <= 'Z' {
        ((c as u32) + 32) as char
    } else {
        c
    }
}

pub fn char_to_ascii_lowercase(c: char) -> (l: char)
    ensures
        l == ascii_lower(c),
{
    if 'A' <= c && c <= 'Z' {
        let u: u8 = (c as u32 + 32) as u8;
        u as char
    } else {
        c
    }
}

} // verus!

verus! {

/// `str::to_ascii_lowercase`, character by character.
pub open spec fn lower_seq(s: Seq<char>) -> Seq<char> {
    s.map_values(|c: char| ascii_lower(c))
}

/// A `String` holding exactly the characters of `v`.
pub fn string_from_chars(v: &[char]) -> (s: String)
    ensures
        s@ == v@,
{
    let mut s = String::new();
    let mut i: usize = 0;
    while i < v.len()
        invariant
            i <= v@.len(),
            s@ == v@.take(i as int),
        decreases v@.len() - i,
    {
        push_char(&mut s, v[i]);
        i = i + 1;
        proof {
            assert(v@.take(i as int) == v@.take(i - 1).push(v@[i - 1]));
        }
    }
    proof {
        assert(v@.take(v@.len() as int) =~= v@);
    }
    s
}

pub fn to_ascii_lowercase(s: &str) -> (l: String)
    ensures
        l@ == lower_seq(s@),
{
    let v = chars_of(s);
    let mut out = String::new();
    let mut i: usize = 0;
    while i < v.len()
        invariant
            v@ == s@,
            i <= v@.len(),
            out@ == lower_seq(v@.take(i as int)),
        decreases v@.len() - i,
    {
        push_char(&mut out, char_to_ascii_lowercase(v[i]));
        i = i + 1;
        proof {
            assert(lower_seq(v@.take(i as int)) =~= lower_seq(v@.take(i - 1)).push(ascii_lower(v@[i - 1])));
        }
    }
    proof {
        assert(v@.take(v@.len() as int) =~= v@);
    }
    out
}

/// Leading whitespace removed (`str::trim_start`).
pub open spec fn trim_start(s: Seq<char>) -> Seq<char>
    decreases s.len(),
{
    if s.len() > 0 && is_ws(s[0]) {
        trim_start(s.drop_first())
    } else {
        s
    }
}

/// Trailing whitespace removed (`str::trim_end`).
pub open spec fn trim_end(s: Seq<char>) -> Seq<char>
    decreases s.len(),
{
    if s.len() > 0 && is_ws(s.last()) {
        trim_end(s.drop_last())
    } else {
        s
    }
}

/// `str::trim`.
pub open spec fn trim(s: Seq<char>) -> Seq<char> {
    trim_end(trim_start(s))
}

/// Skipping a whitespace prefix does not change the trimmed start.
pub proof fn lemma_trim_start_skip(s: Seq<char>, k: int)
    requires
        0 <= k <= s.len(),
        forall|j: int| 0 <= j < k ==> is_ws(#[trigger] s[j]),
    ensures
        trim_start(s) == trim_start(s.skip(k)),
    decreases k,
{
    if k > 0 {
        assert(is_ws(s[0]));
        lemma_trim_start_skip(s.drop_first(), k - 1);
        assert(s.drop_first().skip(k - 1) =~= s.skip(k));
    } else {
        assert(s.skip(0) =~= s);
    }
}

/// Dropping a whitespace suffix does not change the trimmed end.
pub proof fn lemma_trim_end_take(s: Seq<char>, k: int)
    requires
        0 <= k <= s.len(),
        forall|j: int| k <= j < s.len() ==> is_ws(#[trigger] s[j]),
    ensures
        trim_end(s) == trim_end(s.take(k)),
    decreases s.len() - k,
{
    if k < s.len() {
        assert(is_ws(s.last()));
        lemma_trim_end_take(s.drop_last(), k);
        assert(s.drop_last().take(k) =~= s.take(k));
    } else {
        assert(s.take(k) =~= s);
    }
}

pub proof fn lemma_trim_start_props(s: Seq<char>)
    ensures
        trim_start(s).len() <= s.len(),
        trim_start(s).len() > 0 ==> !is_ws(trim_start(s)[0]),
        s.len() - trim_start(s).len() >= 0,
        trim_start(s) == s.skip(s.len() - trim_start(s).len()),
    decreases s.len(),
{
    if s.len() > 0 && is_ws(s[0]) {
        lemma_trim_start_props(s.drop_first());
        assert(s.drop_first().skip(s.drop_first().len() - trim_start(s.drop_first()).len())
            =~= s.skip(s.len() - trim_start(s).len()));
    } else {
        assert(s.skip(0) =~= s);
    }
}

/// Index of the first non-whitespace character of `v` at or after `from`
/// (or `v.len()`).
fn skip_whitespace(v: &Vec<char>, from: usize) -> (i: usize)
    requires
        from <= v@.len(),
    ensures
        from <= i <= v@.len(),
        forall|j: int| from <= j < i ==> is_ws(#[trigger] v@[j]),
        i < v@.len() ==> !is_ws(v@[i as int]),
{
    let mut i = from;
    while i < v.len() && char_is_whitespace(v[i])
        invariant
            from <= i <= v@.len(),
            forall|j: int| from <= j < i ==> is_ws(#[trigger] v@[j]),
        decreases v@.len() - i,
    {
        i = i + 1;
    }
    i
}

/// `str::trim`, returning an owned string.
pub fn trim_str(s: &str) -> (t: String)
    ensures
        t@ == trim(s@),
{
    let v = chars_of(s);
    let start = skip_whitespace(&v, 0);
    let mut end = v.len();
    while end > start && char_is_whitespace(v[end - 1])
        invariant
            start <= end <= v@.len(),
            forall|j: int| end <= j < v@.len() ==> is_ws(#[trigger] v@[j]),
        decreases end,
    {
        end = end - 1;
    }
    proof {
        lemma_trim_start_skip(s@, start as int);
        let rest = s@.skip(start as int);
        if start < v@.len() {
            assert(rest[0] == s@[start as int]);
        }
        assert(trim_start(rest) == rest);
        lemma_trim_end_take(rest, end - start);
        let kept = rest.take(end - start);
        if end > start {
            assert(kept.last() == v@[end - 1]);
        }
        assert(trim_end(kept) == kept);
        assert(kept =~= v@.subrange(start as int, end as int));
    }
    string_from_chars(&v.as_slice()[start..end])
}

} // verus!

verus! {

/// Length of the leading run of non-whitespace characters.
pub open spec fn word_len(s: Seq<char>) -> nat
    decreases s.len(),
{
    if s.len() > 0 && !is_ws(s[0]) {
        1 + word_len(s.drop_first())
    } else {
        0
    }
}

pub proof fn lemma_word_len_bound(s: Seq<char>)
    ensures
        word_len(s) <= s.len(),
        s.len() > 0 && !is_ws(s[0]) ==> word_len(s) >= 1,
    decreases s.len(),
{
    if s.len() > 0 && !is_ws(s[0]) {
        lemma_word_len_bound(s.drop_first());
    }
}

pub proof fn lemma_word_len_exact(s: Seq<char>, m: int)
    requires
        0 <= m <= s.len(),
        forall|j: int| 0 <= j < m ==> !is_ws(#[trigger] s[j]),
        m == s.len() || is_ws(s[m]),
    ensures
        word_len(s) == m,
    decreases m,
{
    if m > 0 {
        assert(!is_ws(s[0]));
        lemma_word_len_exact(s.drop_first(), m - 1);
    }
}

/// The whitespace-separated words of `s` (`str::split_whitespace`).
pub open spec fn words(s: Seq<char>) -> Seq<Seq<char>>
    decreases s.len(),
{
    let t = trim_start(s);
    if t.len() == 0 {
        Seq::empty()
    } else {
        let n = word_len(t);
        proof {
            lemma_trim_start_props(s);
            lemma_word_len_bound(t);
        }
        seq![t.take(n as int)] + words(t.skip(n as int))
    }
}

/// `str::split_whitespace`, collected into owned words.
pub fn split_whitespace(s: &str) -> (ws: Vec<String>)
    ensures
        ws@.map_values(|w: String| w@) == words(s@),
{
    let v = chars_of(s);
    let mut out: Vec<String> = Vec::new();
    let mut i: usize = 0;
    proof {
        assert(v@.skip(0) =~= v@);
        assert(out@.map_values(|w: String| w@) + words(v@.skip(0)) =~= words(s@));
    }
    while i < v.len()
        invariant
            v@ == s@,
            i <= v@.len(),
            out@.map_values(|w: String| w@) + words(v@.skip(i as int)) == words(s@),
        decreases v@.len() - i,
    {
        let start = skip_whitespace(&v, i);
        let ghost x = v@.skip(i as int);
        proof {
            lemma_trim_start_skip(x, start - i);
            assert(x.skip(start - i) =~= v@.skip(start as int));
        }
        if start == v.len() {
            proof {
                assert(v@.skip(start as int).len() == 0);
                assert(words(x) =~= Seq::empty());
                assert(out@.map_values(|w: String| w@) + words(v@.skip(v@.len() as int))
                    =~= out@.map_values(|w: String| w@));
            }
            i = start;
        } else {
        let mut end = start;
        while end < v.len() && !char_is_whitespace(v[end])
            invariant
                start <= end <= v@.len(),
                forall|j: int| start <= j < end ==> !is_ws(#[trigger] v@[j]),
            decreases v@.len() - end,
        {
            end = end + 1;
        }
        let word = string_from_chars(&v.as_slice()[start..end]);
        proof {
            let y = v@.skip(start as int);
            assert(trim_start(y) == y);
            assert(trim_start(x) == y);
            lemma_word_len_exact(y, end - start);
            assert(y.take(end - start) =~= v@.subrange(start as int, end as int));
            assert(y.skip(end - start) =~= v@.skip(end as int));
            assert(words(x) == seq![word@] + words(v@.skip(end as int)));
        }
        let ghost before = out@;
        out.push(word);
        proof {
            assert(out@.map_values(|w: String| w@) =~= before.map_values(|w: String| w@).push(word@));
            assert(out@.map_values(|w: String| w@) + words(v@.skip(end as int)) =~=
                before.map_values(|w: String| w@) + (seq![word@] + words(v@.skip(end as int))));
        }
        i = end;
        }
    }
    proof {
        assert(words(v@.skip(v@.len() as int)) =~= Seq::empty()) by {
            assert(v@.skip(v@.len() as int).len() == 0);
        }
        assert(out@.map_values(|w: String| w@) + words(v@.skip(i as int)) =~= out@.map_values(|w: String| w@));
    }
    out
}

} // verus!

verus! {

/// String equality on the characters.
pub fn str_eq(a: &str, b: &str) -> (r: bool)
    ensures
        r == (a@ == b@),
{
    let x = a.to_owned();
    let y = b.to_owned();
    x == y
}

pub open spec fn is_digit(c: char) -> bool {
    '0' <= c <= '9'
}

pub open spec fn digit_value(c: char) -> nat {
    ((c as u32) - ('0' as u32)) as nat
}

/// The number written by a sequence of decimal digits.
pub open spec fn digits_value(d: Seq<char>) -> nat
    decreases d.len(),
{
    if d.len() == 0 {
        0
    } else {
        digits_value(d.drop_last()) * 10 + digit_value(d.last())
    }
}

/// `str::parse::<u16>()`: an optional leading `+`, then one or more decimal
/// digits whose value fits in 16 bits.
pub open spec fn unsigned_digits_part(s: Seq<char>) -> Seq<char> {
    if s.len() > 0 && s[0] == '+' {
        s.drop_first()
    } else {
        s
    }
}

pub open spec fn parse_u16(s: Seq<char>) -> Option<u16> {
    let d = unsigned_digits_part(s);
    if d.len() > 0 && (forall|i: int| 0 <= i < d.len() ==> is_digit(#[trigger] d[i]))
        && digits_value(d) <= u16::MAX {
        Some(digits_value(d) as u16)
    } else {
        None
    }
}

proof fn lemma_digits_value_prefix_monotone(d: Seq<char>, k: int)
    requires
        0 <= k <= d.len(),
        forall|i: int| 0 <= i < d.len() ==> is_digit(#[trigger] d[i]),
    ensures
        digits_value(d.take(k)) <= digits_value(d),
    decreases d.len() - k,
{
    if k < d.len() {
        lemma_digits_value_prefix_monotone(d, k + 1);
        assert(d.take(k + 1).drop_last() =~= d.take(k));
        assert(d.take(k + 1).last() == d[k]);
        assert(digits_value(d.take(k + 1)) == digits_value(d.take(k)) * 10 + digit_value(d[k]));
    } else {
        assert(d.take(k) =~= d);
    }
}

pub fn parse_u16_str(s: &str) -> (r: Option<u16>)
    ensures
        r == parse_u16(s@),
{
    let v = chars_of(s);
    let mut i: usize = 0;
    if v.len() > 0 && v[0] == '+' {
        i = 1;
    }
    let ghost d = unsigned_digits_part(s@);
    proof {
        assert(d =~= v@.skip(i as int));
    }
    if i == v.len() {
        return None;
    }
    let mut val: u32 = 0;
    let mut j: usize = i;
    while j < v.len()
        invariant
            v@ == s@,
            d == v@.skip(i as int),
            d == unsigned_digits_part(s@),
            i <= j <= v@.len(),
            val <= u16::MAX,
            val == digits_value(d.take(j - i)),
            forall|k: int| 0 <= k < j - i ==> is_digit(#[trigger] d[k]),
        decreases v@.len() - j,
    {
        let c = v[j];
        if !('0' <= c && c <= '9') {
            proof {
                assert(!is_digit(d[j - i]));
                assert(parse_u16(s@) is None);
            }
            return None;
        }
        let dv = c as u32 - '0' as u32;
        let next = val * 10 + dv;
        proof {
            assert(d.take(j - i + 1).drop_last() =~= d.take(j - i));
            assert(d.take(j - i + 1).last() == d[j - i]);
        }
        if next > 65535 {
            proof {
                // Either a later character is not a digit, or the full value
                // is at least this prefix's value.
                if forall|k: int| 0 <= k < d.len() ==> is_digit(#[trigger] d[k]) {
                    lemma_digits_value_prefix_monotone(d, j - i + 1);
                    assert(digits_value(d.take(j - i + 1)) == next);
                }
                assert(parse_u16(s@) is None);
            }
            return None;
        }
        val = next;
        j = j + 1;
    }
    proof {
        assert(d.take(j - i) =~= d);
    }
    Some(val as u16)
}

/// The decimal digit for `n < 10`.
pub open spec fn digit_char(n: nat) -> char {
    (('0' as u32) + n) as char
}

/// Decimal rendering of a natural number, without leading zeros.
pub open spec fn decimal(n: nat) -> Seq<char>
    decreases n,
{
    if n < 10 {
        seq![digit_char(n)]
    } else {
        decimal(n / 10).push(digit_char(n % 10))
    }
}

/// `u64`'s `Display`: its decimal digits.
pub fn u64_to_decimal(n: u64) -> (s: String)
    ensures
        s@ == decimal(n as nat),
    decreases n,
{
    let c: char = ((n % 10) as u8 + 48u8) as char;
    if n < 10 {
        let mut s = String::new();
        push_char(&mut s, c);
        proof {
            assert(s@ =~= seq![digit_char(n as nat)]);
        }
        s
    } else {
        let mut s = u64_to_decimal(n / 10);
        push_char(&mut s, c);
        s
    }
}

} // verus!

verus! {

/// The items of `list` separated by `sep` (`[..].join(sep)`).
pub open spec fn join(list: Seq<Seq<char>>, sep: Seq<char>) -> Seq<char>
    decreases list.len(),
{
    if list.len() == 0 {
        Seq::empty()
    } else if list.len() == 1 {
        list[0]
    } else {
        join(list.drop_last(), sep) + sep + list.last()
    }
}

pub open spec fn views(v: Seq<String>) -> Seq<Seq<char>> {
    v.map_values(|s: String| s@)
}

pub fn join_strings(list: &Vec<String>, sep: &str) -> (s: String)
    ensures
        s@ == join(views(list@), sep@),
{
    let mut s = String::new();
    let mut i: usize = 0;
    while i < list.len()
        invariant
            i <= list@.len(),
            s@ == join(views(list@).take(i as int), sep@),
        decreases list@.len() - i,
    {
        proof {
            assert(views(list@).take(i + 1).drop_last() =~= views(list@).take(i as int));
        }
        if i > 0 {
            s.append(sep);
        }
        s.append(list[i].as_str());
        i = i + 1;
    }
    proof {
        assert(views(list@).take(list@.len() as int) =~= views(list@));
    }
    s
}

} // verus!

verus! {

/// An optional argument, trimmed, and dropped when blank (the tools'
/// `.map(str::trim).filter(|s| !s.is_empty())`).
pub open spec fn opt_trimmed(o: Option<Seq<char>>) -> Option<Seq<char>> {
    match o {
        Some(s) => if trim(s).len() > 0 { Some(trim(s)) } else { None },
        None => None,
    }
}

pub open spec fn opt_view(o: Option<String>) -> Option<Seq<char>> {
    match o {
        Some(s) => Some(s@),
        None => None,
    }
}

pub fn trimmed_nonempty(o: &Option<String>) -> (r: Option<String>)
    ensures
        opt_view(r) == opt_trimmed(opt_view(*o)),
{
    match o {
        Some(s) => {
            let t = trim_str(s.as_str());
            if t.as_str().is_empty() {
                None
            } else {
                Some(t)
            }
        },
        None => None,
    }
}

/// At most `max` characters of `s`, followed by a truncation marker when
/// characters were dropped.
pub open spec fn truncated(s: Seq<char>, max: nat) -> Seq<char> {
    if s.len() > max {
        s.take(max as int) + "\n... [truncated]"@
    } else {
        s
    }
}

pub fn truncate_chars(s: String, max: usize) -> (t: String)
    ensures
        t@ == truncated(s@, max as nat),
{
    let v = chars_of(s.as_str());
    if v.len() > max {
        let mut t = string_from_chars(&v.as_slice()[0..max]);
        proof {
            assert(v@.subrange(0, max as int) =~= s@.take(max as int));
        }
        t.append("\n... [truncated]");
        t
    } else {
        s
    }
}

} // verus!

verus! {

/// `str::trim_end`, returning an owned string.
pub fn trim_end_str(s: &str) -> (t: String)
    ensures
        t@ == trim_end(s@),
{
    let v = chars_of(s);
    let mut end = v.len();
    while end > 0 && char_is_whitespace(v[end - 1])
        invariant
            end <= v@.len(),
            forall|j: int| end <= j < v@.len() ==> is_ws(#[trigger] v@[j]),
        decreases end,
    {
        end = end - 1;
    }
    proof {
        lemma_trim_end_take(s@, end as int);
        let kept = s@.take(end as int);
        if end > 0 {
            assert(kept.last() == v@[end - 1]);
        }
        assert(trim_end(kept) == kept);
        assert(kept =~= v@.subrange(0, end as int));
    }
    string_from_chars(&v.as_slice()[0..end])
}

/// Whether `c` occurs in `s`.
pub fn contains_char(s: &str, c: char) -> (b: bool)
    ensures
        b == s@.contains(c),
{
    let v = chars_of(s);
    let mut i: usize = 0;
    while i < v.len()
        invariant
            v@ == s@,
            i <= v@.len(),
            forall|j: int| 0 <= j < i ==> v@[j] != c,
        decreases v@.len() - i,
    {
        if v[i] == c {
            return true;
        }
        i = i + 1;
    }
    false
}

} // verus!

verus! {

proof fn lemma_decimal_digits(n: nat)
    ensures
        decimal(n).len() > 0,
        forall|i: int| 0 <= i < decimal(n).len() ==> is_digit(#[trigger] decimal(n)[i]),
        digits_value(decimal(n)) == n,
    decreases n,
{
    if n >= 10 {
        lemma_decimal_digits(n / 10);
        let d = decimal(n / 10);
        let e = d.push(digit_char(n % 10));
        assert(e.drop_last() =~= d);
        assert(e.last() == digit_char(n % 10));
        assert(digit_value(digit_char(n % 10)) == n % 10);
        assert((n / 10) * 10 + n % 10 == n);
        assert(digits_value(e) == digits_value(d) * 10 + digit_value(e.last()));
        assert(decimal(n) == e);
        assert forall|i: int| 0 <= i < e.len() implies is_digit(#[trigger] e[i]) by {
            if i < d.len() {
                assert(e[i] == d[i]);
            }
        }
    } else {
        let e = decimal(n);
        assert(e.drop_last() =~= Seq::<char>::empty());
        assert(digit_value(digit_char(n)) == n);
        assert(digits_value(Seq::<char>::empty()) == 0);
        assert(digits_value(e) == digits_value(e.drop_last()) * 10 + digit_value(e.last()));
    }
}

/// Parsing reads back what rendering wrote: every `u16`, written in
/// decimal, parses as itself (so `/mcp start <port>` accepts every port).
pub proof fn law_parse_u16_reads_decimal(n: u16)
    ensures
        parse_u16(decimal(n as nat)) == Some(n),
{
    lemma_decimal_digits(n as nat);
    let d = decimal(n as nat);
    assert(d[0] != '+');
    assert(unsigned_digits_part(d) == d);
}

/// A parsed port is written with digits only, after an optional `+`.
pub proof fn law_parse_u16_only_digits(s: Seq<char>)
    ensures
        parse_u16(s) is Some ==> ({
            let d = if s.len() > 0 && s[0] == '+' { s.drop_first() } else { s };
            d.len() > 0 && forall|i: int| 0 <= i < d.len() ==> '0' <= #[trigger] d[i] <= '9'
        }),
{
}

/// Cutting keeps text that fits whole; longer text keeps exactly its
/// first `max` characters, then the marker.
pub proof fn law_truncated(s: Seq<char>, max: nat)
    ensures
        s.len() <= max ==> truncated(s, max) == s,
        s.len() > max ==> truncated(s, max).take(max as int) == s.take(max as int)
            && truncated(s, max).skip(max as int) == "\n... [truncated]"@,
{
    if s.len() > max {
        assert(truncated(s, max).take(max as int) =~= s.take(max as int));
        assert(truncated(s, max).skip(max as int) =~= "\n... [truncated]"@);
    }
}

} // verus!
