//! Character-level string utilities: Unicode whitespace trimming, blank checks,
//! ASCII lowercasing and prefix stripping, each stated over `Seq<char>`.

use vstd::prelude::*;
use vstd::string::StrSliceExecFns;

verus! {

broadcast use vstd::string::group_string_axioms;

/// The Unicode `White_Space` characters, as recognised by `char::is_whitespace`.
pub open spec fn is_white_space(c: char) -> bool {
    let u = c as u32;
    ||| 9 <= u <= 13
    ||| u == 32
    ||| u == 0x85
    ||| u == 0xA0
    ||| u == 0x1680
    ||| 0x2000 <= u <= 0x200A
    ||| u == 0x2028
    ||| u == 0x2029
    ||| u == 0x202F
    ||| u == 0x205F
    ||| u == 0x3000
}

/// `s` without its leading whitespace.
pub open spec fn trim_start_spec(s: Seq<char>) -> Seq<char>
    decreases s.len(),
{
    if s.len() > 0 && is_white_space(s[0]) {
        trim_start_spec(s.drop_first())
    } else {
        s
    }
}

/// `s` without its trailing whitespace.
pub open spec fn trim_end_spec(s: Seq<char>) -> Seq<char>
    decreases s.len(),
{
    if s.len() > 0 && is_white_space(s.last()) {
        trim_end_spec(s.drop_last())
    } else {
        s
    }
}

/// `s` without leading and trailing whitespace.
pub open spec fn trim_spec(s: Seq<char>) -> Seq<char> {
    trim_end_spec(trim_start_spec(s))
}

/// A value is blank when it is absent or holds only whitespace.
pub open spec fn is_blank_spec(value: Option<Seq<char>>) -> bool {
    match value {
        None => true,
        Some(s) => trim_spec(s).len() == 0,
    }
}

/// ASCII lowercasing of one character.
pub open spec fn ascii_lower_char(c: char) -> char {
    if 'A' <= c && c <= 'Z' {
        (((c as u32) + 32) as u8) as char
    } else {
        c
    }
}

/// ASCII lowercasing of a string: other characters are kept.
pub open spec fn ascii_lower_spec(s: Seq<char>) -> Seq<char> {
    s.map_values(|c: char| ascii_lower_char(c))
}

/// `s` with `prefix` removed when it starts with it, else `s` unchanged.
pub open spec fn strip_prefix_or_keep(s: Seq<char>, prefix: Seq<char>) -> Seq<char> {
    if prefix.len() <= s.len() && s.take(prefix.len() as int) == prefix {
        s.skip(prefix.len() as int)
    } else {
        s
    }
}

/// `s` without its leading occurrences of `c`.
pub open spec fn trim_start_char_spec(s: Seq<char>, c: char) -> Seq<char>
    decreases s.len(),
{
    if s.len() > 0 && s[0] == c {
        trim_start_char_spec(s.drop_first(), c)
    } else {
        s
    }
}

/// `s` without its trailing occurrences of `c`.
pub open spec fn trim_end_char_spec(s: Seq<char>, c: char) -> Seq<char>
    decreases s.len(),
{
    if s.len() > 0 && s.last() == c {
        trim_end_char_spec(s.drop_last(), c)
    } else {
        s
    }
}

/// `s` without leading and trailing occurrences of `c` (`str::trim_matches`).
pub open spec fn trim_char_spec(s: Seq<char>, c: char) -> Seq<char> {
    trim_end_char_spec(trim_start_char_spec(s, c), c)
}

/// Calls `String::push`: the string gains `c` at its end.
#[verifier::external_body]
pub(crate) fn push_char(s: &mut String, c: char)
    ensures
        final(s)@ == old(s)@.push(c),
{
    s.push(c)
}

pub fn is_white_space_char(c: char) -> (b: bool)
    ensures
        b == is_white_space(c),
{
    let u = c as u32;
    (9 <= u && u <= 13) || u == 32 || u == 0x85 || u == 0xA0 || u == 0x1680 || (0x2000 <= u
        && u <= 0x200A) || u == 0x2028 || u == 0x2029 || u == 0x202F || u == 0x205F || u == 0x3000
}

/// The characters of `s`, in order.
pub fn chars_of(s: &str) -> (v: Vec<char>)
    ensures
        v@ == s@,
{
    let mut v: Vec<char> = Vec::new();
    for c in it: s.chars()
        invariant
            v@ == it.seq().take(it.index()),
    {
        v.push(c);
    }
    v
}

/// A `String` holding `cs[lo..hi]`.
pub fn string_from_chars(cs: &Vec<char>, lo: usize, hi: usize) -> (s: String)
    requires
        lo <= hi <= cs@.len(),
    ensures
        s@ == cs@.subrange(lo as int, hi as int),
{
    let mut s = String::new();
    let mut i = lo;
    while i < hi
        invariant
            lo <= i <= hi <= cs@.len(),
            s@ == cs@.subrange(lo as int, i as int),
        decreases hi - i,
    {
        push_char(&mut s, cs[i]);
        assert(cs@.subrange(lo as int, i + 1) == cs@.subrange(lo as int, i as int).push(cs@[i as int]));
        i = i + 1;
    }
    s
}

/// `value` without leading and trailing Unicode whitespace.
pub fn trim(value: &str) -> (res: String)
    ensures
        res@ == trim_spec(value@),
{
    let cs = chars_of(value);
    let n = cs.len();
    let mut lo: usize = 0;
    assert(cs@.subrange(0, n as int) == cs@);
    while lo < n && is_white_space_char(cs[lo])
        invariant
            lo <= n == cs@.len(),
            trim_start_spec(cs@) == trim_start_spec(cs@.subrange(lo as int, n as int)),
        decreases n - lo,
    {
        assert(cs@.subrange(lo as int, n as int).drop_first() == cs@.subrange(lo + 1, n as int));
        lo = lo + 1;
    }
    assert(trim_start_spec(cs@.subrange(lo as int, n as int)) == cs@.subrange(lo as int, n as int));
    assert(cs@.subrange(0, n as int) == cs@);
    let mut hi: usize = n;
    while hi > lo && is_white_space_char(cs[hi - 1])
        invariant
            lo <= hi <= n == cs@.len(),
            trim_end_spec(cs@.subrange(lo as int, n as int)) == trim_end_spec(
                cs@.subrange(lo as int, hi as int),
            ),
        decreases hi - lo,
    {
        assert(cs@.subrange(lo as int, hi as int).drop_last() == cs@.subrange(lo as int, hi - 1));
        hi = hi - 1;
    }
    assert(trim_end_spec(cs@.subrange(lo as int, hi as int)) == cs@.subrange(lo as int, hi as int));
    string_from_chars(&cs, lo, hi)
}

/// Whether `value` is absent or holds only whitespace.
pub fn is_blank(value: Option<&str>) -> (b: bool)
    ensures
        b == is_blank_spec(
            match value {
                Some(s) => Some(s@),
                None => None,
            },
        ),
{
    match value {
        None => true,
        Some(s) => {
            let t = trim(s);
            t.as_str().unicode_len() == 0
        },
    }
}

/// ASCII lowercasing (`str::to_ascii_lowercase`).
pub fn to_ascii_lowercase(value: &str) -> (res: String)
    ensures
        res@ == ascii_lower_spec(value@),
{
    let cs = chars_of(value);
    let mut res = String::new();
    let mut i: usize = 0;
    while i < cs.len()
        invariant
            i <= cs@.len(),
            cs@ == value@,
            res@ == ascii_lower_spec(cs@.take(i as int)),
        decreases cs.len() - i,
    {
        let c = cs[i];
        let lowered = if 'A' <= c && c <= 'Z' {
            (((c as u32) + 32) as u8) as char
        } else {
            c
        };
        push_char(&mut res, lowered);
        assert(cs@.take(i + 1) == cs@.take(i as int).push(c));
        assert(ascii_lower_spec(cs@.take(i + 1)) == ascii_lower_spec(cs@.take(i as int)).push(lowered));
        i = i + 1;
    }
    assert(cs@.take(cs@.len() as int) == cs@);
    res
}

/// `value` with `prefix` removed when it starts with it (`strip_prefix(..).unwrap_or(value)`).
pub fn strip_prefix_or_keep_str(value: &str, prefix: &str) -> (res: String)
    ensures
        res@ == strip_prefix_or_keep(value@, prefix@),
{
    let cs = chars_of(value);
    let ps = chars_of(prefix);
    assert(cs@.subrange(0, cs@.len() as int) == cs@);
    if ps.len() > cs.len() {
        return string_from_chars(&cs, 0, cs.len());
    }
    let mut i: usize = 0;
    while i < ps.len()
        invariant
            i <= ps@.len() <= cs@.len(),
            cs@ == value@,
            ps@ == prefix@,
            cs@.subrange(0, cs@.len() as int) == cs@,
            forall|j: int| 0 <= j < i ==> cs@[j] == ps@[j],
        decreases ps.len() - i,
    {
        if cs[i] != ps[i] {
            assert(cs@.take(ps@.len() as int)[i as int] != ps@[i as int]);
            return string_from_chars(&cs, 0, cs.len());
        }
        i = i + 1;
    }
    assert(cs@.take(ps@.len() as int) == ps@);
    string_from_chars(&cs, ps.len(), cs.len())
}

/// `value` without leading and trailing occurrences of `c` (`str::trim_matches`).
pub fn trim_char(value: &str, c: char) -> (res: String)
    ensures
        res@ == trim_char_spec(value@, c),
{
    let cs = chars_of(value);
    let n = cs.len();
    let mut lo: usize = 0;
    assert(cs@.subrange(0, n as int) == cs@);
    while lo < n && cs[lo] == c
        invariant
            lo <= n == cs@.len(),
            trim_start_char_spec(cs@, c) == trim_start_char_spec(cs@.subrange(lo as int, n as int), c),
        decreases n - lo,
    {
        assert(cs@.subrange(lo as int, n as int).drop_first() == cs@.subrange(lo + 1, n as int));
        lo = lo + 1;
    }
    assert(trim_start_char_spec(cs@.subrange(lo as int, n as int), c) == cs@.subrange(lo as int, n as int));
    assert(cs@.subrange(0, n as int) == cs@);
    let mut hi: usize = n;
    while hi > lo && cs[hi - 1] == c
        invariant
            lo <= hi <= n == cs@.len(),
            trim_end_char_spec(cs@.subrange(lo as int, n as int), c) == trim_end_char_spec(
                cs@.subrange(lo as int, hi as int),
                c,
            ),
        decreases hi - lo,
    {
        assert(cs@.subrange(lo as int, hi as int).drop_last() == cs@.subrange(lo as int, hi - 1));
        hi = hi - 1;
    }
    assert(trim_end_char_spec(cs@.subrange(lo as int, hi as int), c) == cs@.subrange(lo as int, hi as int));
    string_from_chars(&cs, lo, hi)
}

proof fn lemma_trim_start_head(s: Seq<char>)
    ensures
        trim_start_spec(s).len() == 0 || !is_white_space(trim_start_spec(s)[0]),
    decreases s.len(),
{
    if s.len() > 0 && is_white_space(s[0]) {
        lemma_trim_start_head(s.drop_first());
    }
}

proof fn lemma_trim_end_tail(s: Seq<char>)
    ensures
        trim_end_spec(s).len() == 0 || !is_white_space(trim_end_spec(s).last()),
    decreases s.len(),
{
    if s.len() > 0 && is_white_space(s.last()) {
        lemma_trim_end_tail(s.drop_last());
    }
}

proof fn lemma_trim_end_keeps_head(t: Seq<char>)
    requires
        t.len() > 0,
        !is_white_space(t[0]),
    ensures
        trim_end_spec(t).len() > 0,
        trim_end_spec(t)[0] == t[0],
    decreases t.len(),
{
    if is_white_space(t.last()) {
        assert(t.len() >= 2);
        lemma_trim_end_keeps_head(t.drop_last());
    }
}

proof fn lemma_trim_end_of_trimmed(s: Seq<char>)
    ensures
        trim_end_spec(trim_end_spec(s)) == trim_end_spec(s),
{
    lemma_trim_end_tail(s);
}

/// Law: trimming twice trims no more than trimming once.
pub proof fn law_trim_idempotent(s: Seq<char>)
    ensures
        trim_spec(trim_spec(s)) == trim_spec(s),
{
    let a = trim_start_spec(s);
    let b = trim_end_spec(a);
    lemma_trim_start_head(s);
    if a.len() > 0 {
        lemma_trim_end_keeps_head(a);
    }
    assert(trim_start_spec(b) == b);
    lemma_trim_end_of_trimmed(a);
}

proof fn lemma_lower_char_keeps_white_space(c: char)
    ensures
        is_white_space(ascii_lower_char(c)) == is_white_space(c),
        ascii_lower_char(ascii_lower_char(c)) == ascii_lower_char(c),
{
}

proof fn lemma_trim_start_lower(s: Seq<char>)
    ensures
        trim_start_spec(ascii_lower_spec(s)) == ascii_lower_spec(trim_start_spec(s)),
    decreases s.len(),
{
    if s.len() > 0 {
        lemma_lower_char_keeps_white_space(s[0]);
        assert(ascii_lower_spec(s).drop_first() =~= ascii_lower_spec(s.drop_first()));
        lemma_trim_start_lower(s.drop_first());
    }
}

proof fn lemma_trim_end_lower(s: Seq<char>)
    ensures
        trim_end_spec(ascii_lower_spec(s)) == ascii_lower_spec(trim_end_spec(s)),
    decreases s.len(),
{
    if s.len() > 0 {
        lemma_lower_char_keeps_white_space(s.last());
        assert(ascii_lower_spec(s).drop_last() =~= ascii_lower_spec(s.drop_last()));
        lemma_trim_end_lower(s.drop_last());
    }
}

/// Law: trimming and ASCII lowercasing commute, and lowercasing twice
/// lowercases no more than once.
pub proof fn law_trim_commutes_with_ascii_lower(s: Seq<char>)
    ensures
        trim_spec(ascii_lower_spec(s)) == ascii_lower_spec(trim_spec(s)),
        ascii_lower_spec(ascii_lower_spec(s)) == ascii_lower_spec(s),
{
    lemma_trim_start_lower(s);
    lemma_trim_end_lower(trim_start_spec(s));
    assert forall|i: int| 0 <= i < s.len() implies ascii_lower_spec(ascii_lower_spec(s))[i]
        == ascii_lower_spec(s)[i] by {
        lemma_lower_char_keeps_white_space(s[i]);
    }
    assert(ascii_lower_spec(ascii_lower_spec(s)) =~= ascii_lower_spec(s));
}

} // verus!
