//! Character-sequence toolkit.
//!
//! Every string-processing routine of the library works on the `char`
//! view of its text (`Seq<char>`). This module defines, once, the
//! mathematical meaning of the standard string operations the library
//! relies on (whitespace, trimming, line splitting, word splitting,
//! substring search) and gives verified executable versions of them.
use vstd::prelude::*;

verus! {

// ─── Conversions between `str`/`String` and `Vec<char>` ────────────────

/// The characters of a string slice, in order.
pub fn chars_of(s: &str) -> (v: Vec<char>)
    ensures
        v@ == s@,
{
    let mut v: Vec<char> = Vec::new();
    for c in it: s.chars()
        invariant
            v@ == it.seq().take(it.index() as int),
            it.seq() == s@,
    {
        v.push(c);
    }
    v
}

/// Collect characters into an owned `String` (std's `FromIterator<&char>`
/// for `String`, which appends each character in order).
#[verifier::external_body]
pub(crate) fn string_of(cs: &[char]) -> (s: String)
    ensures
        s@ == cs@,
{
    String::from_iter(cs.iter())
}

/// An owned copy of a string slice.
pub fn owned(s: &str) -> (r: String)
    ensures
        r@ == s@,
{
    s.to_owned()
}

/// Character-wise equality of two slices.
pub fn chars_eq(a: &[char], b: &[char]) -> (r: bool)
    ensures
        r == (a@ == b@),
{
    if a.len() != b.len() {
        return false;
    }
    let mut i: usize = 0;
    while i < a.len()
        invariant
            a@.len() == b@.len(),
            i <= a@.len(),
            forall|k: int| 0 <= k < i ==> a@[k] == b@[k],
        decreases a@.len() - i,
    {
        if a[i] != b[i] {
            return false;
        }
        i += 1;
    }
    assert(a@ =~= b@);
    true
}

/// Equality of two string slices by their characters.
pub fn str_eq(a: &str, b: &str) -> (r: bool)
    ensures
        r == (a@ == b@),
{
    let x = chars_of(a);
    let y = chars_of(b);
    chars_eq(x.as_slice(), y.as_slice())
}

/// A copy of `s[lo..hi]`.
pub fn copy_range(s: &[char], lo: usize, hi: usize) -> (v: Vec<char>)
    requires
        lo <= hi <= s@.len(),
    ensures
        v@ == s@.subrange(lo as int, hi as int),
{
    let mut v: Vec<char> = Vec::new();
    let mut i = lo;
    while i < hi
        invariant
            lo <= i <= hi <= s@.len(),
            v@ == s@.subrange(lo as int, i as int),
        decreases hi - i,
    {
        v.push(s[i]);
        i += 1;
        assert(v@ =~= s@.subrange(lo as int, i as int));
    }
    v
}

/// Append all of `t` to `v`.
pub fn push_all(v: &mut Vec<char>, t: &[char])
    ensures
        final(v)@ == old(v)@ + t@,
{
    let ghost start = v@;
    let mut i: usize = 0;
    while i < t.len()
        invariant
            i <= t@.len(),
            v@ == start + t@.take(i as int),
        decreases t@.len() - i,
    {
        v.push(t[i]);
        i += 1;
        assert(v@ =~= start + t@.take(i as int));
    }
    assert(t@.take(t@.len() as int) =~= t@);
}

/// Append the characters of a string slice to `v`.
pub fn push_str(v: &mut Vec<char>, t: &str)
    ensures
        final(v)@ == old(v)@ + t@,
{
    let cs = chars_of(t);
    push_all(v, cs.as_slice());
}

// ─── Character classes ──────────────────────────────────────────────────

/// Unicode `White_Space` (what `char::is_whitespace` tests).
pub open spec fn is_ws(c: char) -> bool {
    let u = c as u32;
    (0x09 <= u && u <= 0x0D) || u == 0x20 || u == 0x85 || u == 0xA0 || u == 0x1680
        || (0x2000 <= u && u <= 0x200A) || u == 0x2028 || u == 0x2029 || u == 0x202F
        || u == 0x205F || u == 0x3000
}

pub fn is_whitespace(c: char) -> (r: bool)
    ensures
        r == is_ws(c),
{
    let u = c as u32;
    (0x09 <= u && u <= 0x0D) || u == 0x20 || u == 0x85 || u == 0xA0 || u == 0x1680 || (0x2000
        <= u && u <= 0x200A) || u == 0x2028 || u == 0x2029 || u == 0x202F || u == 0x205F || u
        == 0x3000
}

/// ASCII whitespace (what `u8::is_ascii_whitespace` tests): space, tab,
/// line feed, form feed, carriage return.
pub open spec fn is_ascii_ws(c: char) -> bool {
    c == ' ' || c == '\t' || c == '\n' || c == '\x0C' || c == '\r'
}

pub fn is_ascii_whitespace(c: char) -> (r: bool)
    ensures
        r == is_ascii_ws(c),
{
    c == ' ' || c == '\t' || c == '\n' || c == '\x0C' || c == '\r'
}

pub open spec fn is_ascii_digit(c: char) -> bool {
    '0' <= c && c <= '9'
}

pub open spec fn is_ascii_upper(c: char) -> bool {
    'A' <= c && c <= 'Z'
}

pub open spec fn is_ascii_lower(c: char) -> bool {
    'a' <= c && c <= 'z'
}

pub open spec fn is_ascii_alnum(c: char) -> bool {
    is_ascii_digit(c) || is_ascii_upper(c) || is_ascii_lower(c)
}

/// Every character is an ASCII letter or digit.
pub open spec fn all_alnum(s: Seq<char>) -> bool {
    forall|i: int| 0 <= i < s.len() ==> is_ascii_alnum(#[trigger] s[i])
}

pub open spec fn is_ascii_char(c: char) -> bool {
    (c as u32) < 128
}

pub open spec fn all_ascii(s: Seq<char>) -> bool {
    forall|i: int| 0 <= i < s.len() ==> is_ascii_char(#[trigger] s[i])
}

pub open spec fn ascii_lower(c: char) -> char {
    if is_ascii_upper(c) {
        ((c as u32) + 32) as char
    } else {
        c
    }
}

pub fn to_ascii_lower(c: char) -> (r: char)
    ensures
        r == ascii_lower(c),
{
    if 'A' <= c && c <= 'Z' {
        let b: u8 = c as u8;
        (b + 32) as char
    } else {
        c
    }
}

/// ASCII lower-casing of every character (`str::to_ascii_lowercase`).
pub open spec fn ascii_lower_seq(s: Seq<char>) -> Seq<char> {
    s.map_values(|c: char| ascii_lower(c))
}

pub fn to_ascii_lowercase(s: &[char]) -> (r: Vec<char>)
    ensures
        r@ == ascii_lower_seq(s@),
{
    let mut r: Vec<char> = Vec::new();
    let mut i: usize = 0;
    while i < s.len()
        invariant
            i <= s@.len(),
            r@ == ascii_lower_seq(s@.take(i as int)),
        decreases s@.len() - i,
    {
        r.push(to_ascii_lower(s[i]));
        i += 1;
        assert(r@ =~= ascii_lower_seq(s@.take(i as int)));
    }
    assert(s@.take(s@.len() as int) =~= s@);
    r
}

// ─── Substring search ───────────────────────────────────────────────────

/// `t` occurs in `s` starting at index `i`.
pub open spec fn occurs_at(s: Seq<char>, t: Seq<char>, i: int) -> bool {
    0 <= i && i + t.len() <= s.len() && s.subrange(i, i + t.len()) == t
}

/// `t` is a substring of `s` (`str::contains`).
pub open spec fn has_sub(s: Seq<char>, t: Seq<char>) -> bool {
    exists|i: int| #[trigger] occurs_at(s, t, i)
}

pub open spec fn is_prefix(t: Seq<char>, s: Seq<char>) -> bool {
    t.len() <= s.len() && s.take(t.len() as int) == t
}

pub open spec fn is_suffix(t: Seq<char>, s: Seq<char>) -> bool {
    t.len() <= s.len() && s.skip(s.len() - t.len()) == t
}

pub fn occurs_at_exec(s: &[char], t: &[char], i: usize) -> (r: bool)
    ensures
        r == occurs_at(s@, t@, i as int),
{
    if i > s.len() || t.len() > s.len() - i {
        return false;
    }
    let mut k: usize = 0;
    while k < t.len()
        invariant
            i + t@.len() <= s.len(),
            k <= t@.len(),
            forall|j: int| 0 <= j < k ==> s@[i + j] == t@[j],
        decreases t@.len() - k,
    {
        if s[i + k] != t[k] {
            assert(s@.subrange(i as int, i + t@.len())[k as int] != t@[k as int]);
            return false;
        }
        k += 1;
    }
    assert(s@.subrange(i as int, i + t@.len()) =~= t@);
    true
}

/// First index at which `t` occurs in `s` (`str::find`).
pub fn find(s: &[char], t: &[char]) -> (r: Option<usize>)
    ensures
        r matches Some(i) ==> occurs_at(s@, t@, i as int) && forall|j: int|
            0 <= j < i ==> !occurs_at(s@, t@, j),
        r is None ==> !has_sub(s@, t@),
{
    if t.len() > s.len() {
        assert forall|j: int| !occurs_at(s@, t@, j) by {}
        return None;
    }
    let last = s.len() - t.len();
    let mut i: usize = 0;
    while i < last
        invariant
            t@.len() <= s@.len(),
            last == s@.len() - t@.len(),
            i <= last,
            forall|j: int| 0 <= j < i ==> !occurs_at(s@, t@, j),
        decreases last - i,
    {
        if occurs_at_exec(s, t, i) {
            return Some(i);
        }
        i += 1;
    }
    if occurs_at_exec(s, t, last) {
        return Some(last);
    }
    assert forall|j: int| !occurs_at(s@, t@, j) by {
        if 0 <= j < i {
        }
    }
    None
}

pub fn contains(s: &[char], t: &[char]) -> (r: bool)
    ensures
        r == has_sub(s@, t@),
{
    match find(s, t) {
        Some(i) => {
            assert(occurs_at(s@, t@, i as int));
            true
        },
        None => false,
    }
}

/// `contains` with the needle given as a string slice.
pub fn contains_str(s: &[char], t: &str) -> (r: bool)
    ensures
        r == has_sub(s@, t@),
{
    let n = chars_of(t);
    contains(s, n.as_slice())
}

pub fn contains_char(s: &[char], c: char) -> (r: bool)
    ensures
        r == s@.contains(c),
{
    let mut i: usize = 0;
    while i < s.len()
        invariant
            i <= s@.len(),
            forall|j: int| 0 <= j < i ==> s@[j] != c,
        decreases s@.len() - i,
    {
        if s[i] == c {
            return true;
        }
        i += 1;
    }
    false
}

pub fn starts_with(s: &[char], t: &[char]) -> (r: bool)
    ensures
        r == is_prefix(t@, s@),
{
    let r = occurs_at_exec(s, t, 0);
    assert(r ==> s@.take(t@.len() as int) =~= s@.subrange(0, t@.len() as int));
    assert(is_prefix(t@, s@) ==> s@.take(t@.len() as int) =~= s@.subrange(0, t@.len() as int));
    r
}

pub fn starts_with_str(s: &[char], t: &str) -> (r: bool)
    ensures
        r == is_prefix(t@, s@),
{
    let n = chars_of(t);
    starts_with(s, n.as_slice())
}

pub fn ends_with(s: &[char], t: &[char]) -> (r: bool)
    ensures
        r == is_suffix(t@, s@),
{
    if t.len() > s.len() {
        return false;
    }
    let k = s.len() - t.len();
    let r = occurs_at_exec(s, t, k);
    assert(s@.skip(k as int) =~= s@.subrange(k as int, k + t@.len()));
    r
}

pub fn ends_with_str(s: &[char], t: &str) -> (r: bool)
    ensures
        r == is_suffix(t@, s@),
{
    let n = chars_of(t);
    ends_with(s, n.as_slice())
}

/// `str::trim_start_matches` with a non-empty string pattern: every
/// leading copy of `pre` removed.
pub open spec fn strip_prefixes(s: Seq<char>, pre: Seq<char>) -> Seq<char>
    decreases s.len(),
{
    if pre.len() > 0 && is_prefix(pre, s) {
        strip_prefixes(s.skip(pre.len() as int), pre)
    } else {
        s
    }
}

/// Start index of `strip_prefixes(s[from..], pre)` within `s`.
pub fn skip_prefixes(s: &[char], from: usize, pre: &[char]) -> (r: usize)
    requires
        from <= s@.len(),
    ensures
        from <= r <= s@.len(),
        s@.skip(r as int) == strip_prefixes(s@.skip(from as int), pre@),
{
    let mut i = from;
    loop
        invariant
            from <= i <= s@.len(),
            strip_prefixes(s@.skip(i as int), pre@) == strip_prefixes(s@.skip(from as int), pre@),
        ensures
            from <= i <= s@.len(),
            s@.skip(i as int) == strip_prefixes(s@.skip(from as int), pre@),
        decreases s@.len() - i,
    {
        let found = if pre.len() == 0 {
            false
        } else {
            occurs_at_exec(s, pre, i)
        };
        let t = Ghost(s@.skip(i as int));
        if !found {
            proof {
                if pre@.len() > 0 && is_prefix(pre@, t@) {
                    assert(t@.take(pre@.len() as int) =~= s@.subrange(i as int, i + pre@.len()));
                }
            }
            break;
        }
        assert(occurs_at(s@, pre@, i as int));
        proof {
            assert(t@.take(pre@.len() as int) =~= s@.subrange(i as int, i + pre@.len()));
            assert(t@.skip(pre@.len() as int) =~= s@.skip(i + pre@.len()));
        }
        let n = pre.len();
        let total = s.len();
        assert(i + n <= total);
        i = i + n;
    }
    i
}

// ─── Runs of characters ─────────────────────────────────────────────────

/// Length of the longest prefix of `s` whose characters all satisfy `p`.
pub open spec fn run_len(s: Seq<char>, p: spec_fn(char) -> bool) -> nat
    decreases s.len(),
{
    if s.len() > 0 && p(s[0]) {
        1 + run_len(s.drop_first(), p)
    } else {
        0
    }
}

pub proof fn lemma_run_len_bound(s: Seq<char>, p: spec_fn(char) -> bool)
    ensures
        run_len(s, p) <= s.len(),
        forall|k: int| 0 <= k < run_len(s, p) ==> p(#[trigger] s[k]),
        run_len(s, p) < s.len() ==> !p(s[run_len(s, p) as int]),
    decreases s.len(),
{
    if s.len() > 0 && p(s[0]) {
        lemma_run_len_bound(s.drop_first(), p);
        assert forall|k: int| 0 <= k < run_len(s, p) implies p(#[trigger] s[k]) by {
            if k > 0 {
                assert(s[k] == s.drop_first()[k - 1]);
            }
        }
    }
}

/// If `s[i..j)` all satisfy `p` and `s[j]` does not (or `j` is the end),
/// the run starting at `i` has length `j - i`.
pub proof fn lemma_run_len_exact(s: Seq<char>, p: spec_fn(char) -> bool, i: int, j: int)
    requires
        0 <= i <= j <= s.len(),
        forall|k: int| i <= k < j ==> p(#[trigger] s[k]),
        j < s.len() ==> !p(s[j]),
    ensures
        run_len(s.skip(i), p) == j - i,
    decreases j - i,
{
    if i < j {
        lemma_run_len_exact(s, p, i + 1, j);
        assert(s.skip(i).drop_first() =~= s.skip(i + 1));
        assert(s.skip(i)[0] == s[i]);
    } else {
        if j < s.len() {
            assert(s.skip(i)[0] == s[j]);
        }
    }
}

// ─── Trimming ───────────────────────────────────────────────────────────

/// `str::trim_start`: drop leading Unicode whitespace.
pub open spec fn trim_start(s: Seq<char>) -> Seq<char>
    decreases s.len(),
{
    if s.len() > 0 && is_ws(s[0]) {
        trim_start(s.drop_first())
    } else {
        s
    }
}

/// `str::trim_end`: drop trailing Unicode whitespace.
pub open spec fn trim_end(s: Seq<char>) -> Seq<char>
    decreases s.len(),
{
    if s.len() > 0 && is_ws(s.last()) {
        trim_end(s.drop_last())
    } else {
        s
    }
}

/// `str::trim`.
pub open spec fn trim(s: Seq<char>) -> Seq<char> {
    trim_end(trim_start(s))
}

/// Indices `(lo, hi)` with `trim(s) == s[lo..hi]`.
pub fn trim_bounds(s: &[char]) -> (r: (usize, usize))
    ensures
        r.0 <= r.1 <= s@.len(),
        s@.subrange(r.0 as int, r.1 as int) == trim(s@),
        trim_start(s@) == s@.skip(r.0 as int),
{
    let mut lo: usize = 0;
    assert(s@.skip(0) =~= s@);
    while lo < s.len() && is_whitespace(s[lo])
        invariant
            lo <= s@.len(),
            trim_start(s@) == trim_start(s@.skip(lo as int)),
        decreases s@.len() - lo,
    {
        assert(s@.skip(lo as int).drop_first() =~= s@.skip(lo + 1));
        lo += 1;
    }
    assert(trim_start(s@.skip(lo as int)) == s@.skip(lo as int));
    let mut hi: usize = s.len();
    assert(s@.subrange(lo as int, hi as int) =~= s@.skip(lo as int));
    while hi > lo && is_whitespace(s[hi - 1])
        invariant
            lo <= hi <= s@.len(),
            trim_end(s@.skip(lo as int)) == trim_end(s@.subrange(lo as int, hi as int)),
        decreases hi,
    {
        assert(s@.subrange(lo as int, hi as int).drop_last() =~= s@.subrange(
            lo as int,
            hi - 1,
        ));
        hi -= 1;
    }
    (lo, hi)
}

pub fn trim_vec(s: &[char]) -> (r: Vec<char>)
    ensures
        r@ == trim(s@),
{
    let (lo, hi) = trim_bounds(s);
    copy_range(s, lo, hi)
}

/// `trim` of a string slice, as characters.
pub fn trim_str(s: &str) -> (r: Vec<char>)
    ensures
        r@ == trim(s@),
{
    let cs = chars_of(s);
    trim_vec(cs.as_slice())
}

/// `str::trim_end_matches` with a set of characters: drop trailing
/// characters that belong to `set`.
pub open spec fn trim_end_in(s: Seq<char>, set: Seq<char>) -> Seq<char>
    decreases s.len(),
{
    if s.len() > 0 && set.contains(s.last()) {
        trim_end_in(s.drop_last(), set)
    } else {
        s
    }
}

pub fn trim_end_matching(s: &[char], set: &str) -> (r: Vec<char>)
    ensures
        r@ == trim_end_in(s@, set@),
{
    let set_cs = chars_of(set);
    let mut hi: usize = s.len();
    assert(s@.take(hi as int) =~= s@);
    while hi > 0 && contains_char(set_cs.as_slice(), s[hi - 1])
        invariant
            hi <= s@.len(),
            set_cs@ == set@,
            trim_end_in(s@, set@) == trim_end_in(s@.take(hi as int), set@),
        decreases hi,
    {
        assert(s@.take(hi as int).drop_last() =~= s@.take(hi - 1));
        hi -= 1;
    }
    copy_range(s, 0, hi)
}

/// `str::trim_end_matches` with a non-empty string pattern: every
/// trailing copy of `suf` removed.
pub open spec fn strip_suffixes(s: Seq<char>, suf: Seq<char>) -> Seq<char>
    decreases s.len(),
{
    if suf.len() > 0 && is_suffix(suf, s) {
        strip_suffixes(s.take(s.len() - suf.len()), suf)
    } else {
        s
    }
}

pub fn trim_end_matches_str(s: &[char], suf: &str) -> (r: Vec<char>)
    ensures
        r@ == strip_suffixes(s@, suf@),
{
    let t = chars_of(suf);
    let mut hi: usize = s.len();
    assert(s@.take(hi as int) =~= s@);
    loop
        invariant
            hi <= s@.len(),
            t@ == suf@,
            strip_suffixes(s@, suf@) == strip_suffixes(s@.take(hi as int), suf@),
        ensures
            hi <= s@.len(),
            strip_suffixes(s@, suf@) == s@.take(hi as int),
        decreases hi,
    {
        let head = copy_range(s, 0, hi);
        if t.len() == 0 || !ends_with(head.as_slice(), t.as_slice()) {
            break;
        }
        proof {
            assert(s@.take(hi as int).take(hi - t@.len()) =~= s@.take(hi - t@.len()));
        }
        hi = hi - t.len();
    }
    copy_range(s, 0, hi)
}

/// Whether a character equals `c`.
pub open spec fn is_char(c: char) -> spec_fn(char) -> bool {
    |x: char| x == c
}

/// `str::trim_matches` with one character: every leading and trailing
/// copy of `c` removed.
pub open spec fn trim_char(s: Seq<char>, c: char) -> Seq<char> {
    trim_end_in(s.skip(run_len(s, is_char(c)) as int), seq![c])
}

pub fn trim_matches_char(s: &[char], c: char) -> (r: Vec<char>)
    ensures
        r@ == trim_char(s@, c),
{
    let mut lo: usize = 0;
    while lo < s.len() && s[lo] == c
        invariant
            lo <= s@.len(),
            forall|k: int| 0 <= k < lo ==> (is_char(c))(#[trigger] s@[k]),
        decreases s@.len() - lo,
    {
        lo += 1;
    }
    proof {
        lemma_run_len_exact(s@, is_char(c), 0, lo as int);
        assert(s@.skip(0) =~= s@);
    }
    let rest = copy_range(s, lo, s.len());
    assert(rest@ =~= s@.skip(lo as int));
    let mut hi: usize = rest.len();
    assert(rest@.take(hi as int) =~= rest@);
    while hi > 0 && rest[hi - 1] == c
        invariant
            hi <= rest@.len(),
            trim_end_in(rest@, seq![c]) == trim_end_in(rest@.take(hi as int), seq![c]),
        decreases hi,
    {
        assert(rest@.take(hi as int).drop_last() =~= rest@.take(hi - 1));
        assert(seq![c].contains(c)) by {
            assert(seq![c][0] == c);
        }
        hi -= 1;
    }
    proof {
        if hi > 0 {
            assert(rest@.take(hi as int).last() == rest@[hi - 1]);
            if seq![c].contains(rest@[hi - 1]) {
                let k = choose|k: int| 0 <= k < 1 && seq![c][k] == rest@[hi - 1];
            }
        }
    }
    copy_range(rest.as_slice(), 0, hi)
}

// ─── Lines ──────────────────────────────────────────────────────────────

pub open spec fn not_newline() -> spec_fn(char) -> bool {
    |c: char| c != '\n'
}

/// Drop one trailing carriage return.
pub open spec fn strip_cr(s: Seq<char>) -> Seq<char> {
    if s.len() > 0 && s.last() == '\r' {
        s.drop_last()
    } else {
        s
    }
}

/// `str::lines`: split at `\n`; a `\r` right before a `\n` is dropped;
/// a final line ending does not start an empty line.
pub open spec fn lines(s: Seq<char>) -> Seq<Seq<char>>
    decreases s.len(),
{
    if s.len() == 0 {
        seq![]
    } else {
        let k = run_len(s, not_newline());
        if k < s.len() {
            seq![strip_cr(s.take(k as int))] + lines(s.skip((k + 1) as int))
        } else {
            seq![s]
        }
    }
}

/// The lines of `s`, as character vectors.
pub fn split_lines(s: &[char]) -> (r: Vec<Vec<char>>)
    ensures
        r.deep_view() == lines(s@),
{
    let mut out: Vec<Vec<char>> = Vec::new();
    let mut i: usize = 0;
    assert(s@.skip(0) =~= s@);
    while i < s.len()
        invariant
            i <= s@.len(),
            lines(s@) == out.deep_view() + lines(s@.skip(i as int)),
        decreases s@.len() - i,
    {
        let mut j = i;
        while j < s.len() && s[j] != '\n'
            invariant
                i <= j <= s@.len(),
                forall|k: int| i <= k < j ==> s@[k] != '\n',
            decreases s@.len() - j,
        {
            j += 1;
        }
        proof {
            lemma_run_len_exact(s@, not_newline(), i as int, j as int);
        }
        let ghost rest = s@.skip(i as int);
        let ghost before = out.deep_view();
        if j < s.len() {
            let mut line = copy_range(s, i, j);
            if line.len() > 0 && line[line.len() - 1] == '\r' {
                line.pop();
            }
            proof {
                assert(rest.take(j - i) =~= s@.subrange(i as int, j as int));
                assert(rest.skip(j - i + 1) =~= s@.skip(j + 1));
            }
            assert(line.deep_view() =~= line@);
            out.push(line);
            assert(out.deep_view() =~= before.push(strip_cr(rest.take(j - i))));
            i = j + 1;
        } else {
            let line = copy_range(s, i, j);
            assert(line.deep_view() =~= line@);
            out.push(line);
            assert(rest =~= s@.subrange(i as int, j as int));
            assert(out.deep_view() =~= before.push(rest));
            assert(s@.skip(j as int) =~= Seq::<char>::empty());
            i = j;
        }
    }
    assert(s@.skip(i as int) =~= Seq::<char>::empty());
    out
}

// ─── Words ──────────────────────────────────────────────────────────────

pub open spec fn not_ws() -> spec_fn(char) -> bool {
    |c: char| !is_ws(c)
}

/// `str::split_whitespace`: the maximal runs of non-whitespace
/// characters, in order.
pub open spec fn words(s: Seq<char>) -> Seq<Seq<char>>
    decreases s.len(),
{
    if s.len() == 0 {
        seq![]
    } else if is_ws(s[0]) {
        words(s.drop_first())
    } else {
        let k = run_len(s, not_ws());
        if 0 < k <= s.len() {
            seq![s.take(k as int)] + words(s.skip(k as int))
        } else {
            seq![]
        }
    }
}

pub fn split_whitespace(s: &[char]) -> (r: Vec<Vec<char>>)
    ensures
        r.deep_view() == words(s@),
{
    let mut out: Vec<Vec<char>> = Vec::new();
    let mut i: usize = 0;
    assert(s@.skip(0) =~= s@);
    while i < s.len()
        invariant
            i <= s@.len(),
            words(s@) == out.deep_view() + words(s@.skip(i as int)),
        decreases s@.len() - i,
    {
        let ghost rest = s@.skip(i as int);
        if is_whitespace(s[i]) {
            assert(rest.drop_first() =~= s@.skip(i + 1));
            i += 1;
        } else {
            let mut j = i;
            while j < s.len() && !is_whitespace(s[j])
                invariant
                    i <= j <= s@.len(),
                    forall|k: int| i <= k < j ==> !is_ws(#[trigger] s@[k]),
                decreases s@.len() - j,
            {
                j += 1;
            }
            proof {
                lemma_run_len_exact(s@, not_ws(), i as int, j as int);
                assert(rest.take(j - i) =~= s@.subrange(i as int, j as int));
                assert(rest.skip(j - i) =~= s@.skip(j as int));
            }
            let ghost before = out.deep_view();
            let w = copy_range(s, i, j);
            assert(w.deep_view() =~= w@);
            out.push(w);
            assert(out.deep_view() =~= before.push(rest.take(j - i)));
            i = j;
        }
    }
    assert(s@.skip(i as int) =~= Seq::<char>::empty());
    out
}

/// Join `parts` with `sep` between consecutive parts (`[&str]::join`).
pub open spec fn join(parts: Seq<Seq<char>>, sep: Seq<char>) -> Seq<char>
    decreases parts.len(),
{
    if parts.len() == 0 {
        seq![]
    } else if parts.len() == 1 {
        parts[0]
    } else {
        join(parts.drop_last(), sep) + sep + parts.last()
    }
}

pub fn join_vecs(parts: &Vec<Vec<char>>, sep: &[char]) -> (r: Vec<char>)
    ensures
        r@ == join(parts.deep_view(), sep@),
{
    let mut r: Vec<char> = Vec::new();
    let mut i: usize = 0;
    while i < parts.len()
        invariant
            i <= parts@.len(),
            r@ == join(parts.deep_view().take(i as int), sep@),
        decreases parts@.len() - i,
    {
        let ghost before = r@;
        if i > 0 {
            push_all(&mut r, sep);
        }
        push_all(&mut r, parts[i].as_slice());
        proof {
            let dv = parts.deep_view();
            assert(dv.take(i + 1).drop_last() =~= dv.take(i as int));
            assert(dv.take(i + 1).last() == parts@[i as int]@);
            if i == 0 {
                assert(r@ =~= parts@[0]@);
            }
        }
        i += 1;
    }
    assert(parts.deep_view().take(parts@.len() as int) =~= parts.deep_view());
    r
}

} // verus!
