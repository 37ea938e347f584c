//! Reading a pasted resume into a profile: the first email address,
//! phone number, LinkedIn and GitHub URLs, another web address, and a
//! plausible full name. The text itself is kept as it is.
use vstd::prelude::*;
use crate::github::utf8_len;
use crate::profile::{blank_beyond_resume, Profile};
use crate::unicode::{alphabetic, is_alphabetic};
use crate::chars::{
    ascii_lower_seq, chars_of, contains, copy_range, find, has_sub, is_ascii_alnum,
    is_ascii_digit, is_ascii_ws, is_prefix, is_suffix, is_ws, lines, occurs_at, run_len, split_lines,
    string_of, to_ascii_lowercase, trim, trim_end_in, trim_vec,
};

verus! {

// ─── Runs ───────────────────────────────────────────────────────────────

/// Number of characters right before position `i` that satisfy `p`.
pub open spec fn left_run(s: Seq<char>, i: int, p: spec_fn(char) -> bool) -> nat
    decreases i,
{
    if 0 < i <= s.len() && p(s[i - 1]) {
        1 + left_run(s, i - 1, p)
    } else {
        0
    }
}

proof fn lemma_left_run_bound(s: Seq<char>, i: int, p: spec_fn(char) -> bool)
    requires
        0 <= i <= s.len(),
    ensures
        left_run(s, i, p) <= i,
    decreases i,
{
    if 0 < i && p(s[i - 1]) {
        lemma_left_run_bound(s, i - 1, p);
    }
}

// ─── Email ──────────────────────────────────────────────────────────────

pub open spec fn is_email_char(c: char) -> bool {
    is_ascii_alnum(c) || c == '.' || c == '_' || c == '-' || c == '+' || c == '%'
}

pub open spec fn email_char() -> spec_fn(char) -> bool {
    |c: char| is_email_char(c)
}

/// The address around the `@` at `i`: the email characters on each side,
/// when both sides are non-empty and the right side holds a dot.
pub open spec fn email_at(s: Seq<char>, i: int) -> Option<Seq<char>> {
    let l = left_run(s, i, email_char());
    let r = run_len(s.skip(i + 1), email_char());
    if l > 0 && r > 0 && s.subrange(i + 1, i + 1 + r).contains('.') {
        Some(s.subrange(i - l, i + 1 + r))
    } else {
        None
    }
}

/// The first address found scanning the `@` signs from position `k` on.
pub open spec fn email_from(s: Seq<char>, k: int) -> Option<Seq<char>>
    decreases s.len() - k,
{
    if k < 0 || k >= s.len() {
        None
    } else if s[k] == '@' && email_at(s, k) is Some {
        email_at(s, k)
    } else {
        email_from(s, k + 1)
    }
}

fn is_email_char_exec(c: char) -> (r: bool)
    ensures
        r == is_email_char(c),
{
    ('0' <= c && c <= '9') || ('A' <= c && c <= 'Z') || ('a' <= c && c <= 'z') || c == '.' || c
        == '_' || c == '-' || c == '+' || c == '%'
}

/// Start of the run of email characters ending right before `i`.
fn run_start(s: &Vec<char>, i: usize) -> (r: usize)
    requires
        i <= s@.len(),
    ensures
        r == i - left_run(s@, i as int, email_char()),
{
    let mut j = i;
    while j > 0 && is_email_char_exec(s[j - 1])
        invariant
            j <= i <= s@.len(),
            left_run(s@, i as int, email_char()) == (i - j) + left_run(s@, j as int, email_char()),
        decreases j,
    {
        j -= 1;
    }
    j
}

/// End of the run of email characters starting at `i`.
fn run_end(s: &Vec<char>, i: usize) -> (r: usize)
    requires
        i <= s@.len(),
    ensures
        r == i + run_len(s@.skip(i as int), email_char()),
        r <= s@.len(),
{
    let mut j = i;
    while j < s.len() && is_email_char_exec(s[j])
        invariant
            i <= j <= s@.len(),
            forall|k: int| i <= k < j ==> (email_char())(#[trigger] s@[k]),
        decreases s@.len() - j,
    {
        j += 1;
    }
    proof {
        crate::chars::lemma_run_len_exact(s@, email_char(), i as int, j as int);
    }
    j
}

fn find_email(s: &Vec<char>) -> (r: Option<Vec<char>>)
    ensures
        match r {
            Some(e) => email_from(s@, 0) == Some(e@),
            None => email_from(s@, 0) is None,
        },
{
    let mut i: usize = 0;
    while i < s.len()
        invariant
            i <= s@.len(),
            email_from(s@, 0) == email_from(s@, i as int),
        decreases s@.len() - i,
    {
        if s[i] == '@' {
            let start = run_start(s, i);
            let end = run_end(s, i + 1);
            if start < i && end > i + 1 {
                let domain = copy_range(s.as_slice(), i + 1, end);
                if crate::chars::contains_char(domain.as_slice(), '.') {
                    let e = copy_range(s.as_slice(), start, end);
                    return Some(e);
                }
            }
        }
        i += 1;
    }
    None
}

// ─── Phone ──────────────────────────────────────────────────────────────

pub open spec fn is_phone_start(c: char) -> bool {
    c == '+' || c == '(' || is_ascii_digit(c)
}

pub open spec fn is_phone_char(c: char) -> bool {
    is_ascii_digit(c) || c == ' ' || c == '-' || c == '(' || c == ')' || c == '.' || c == '+'
}

pub open spec fn phone_char() -> spec_fn(char) -> bool {
    |c: char| is_phone_char(c)
}

/// Number of ASCII digits in a text.
pub open spec fn digit_count(s: Seq<char>) -> nat
    decreases s.len(),
{
    if s.len() == 0 {
        0
    } else {
        digit_count(s.drop_last()) + if is_ascii_digit(s.last()) {
            1nat
        } else {
            0nat
        }
    }
}

/// The first phone number from position `i` on: a run of phone
/// characters that starts with `+`, `(` or a digit and holds 10 to 15
/// digits, trimmed. Runs with too few or too many digits are skipped
/// whole.
pub open spec fn phone_from(s: Seq<char>, i: int) -> Option<Seq<char>>
    decreases s.len() - i,
{
    if i < 0 || i >= s.len() {
        None
    } else if !is_phone_start(s[i]) {
        phone_from(s, i + 1)
    } else {
        proof {
            crate::chars::lemma_run_len_bound(s.skip(i), phone_char());
        }
        let e = i + run_len(s.skip(i), phone_char());
        let d = digit_count(s.subrange(i, e));
        if 10 <= d <= 15 {
            Some(trim(s.subrange(i, e)))
        } else {
            phone_from(s, if e > i + 1 {
                e
            } else {
                i + 1
            })
        }
    }
}

fn is_phone_char_exec(c: char) -> (r: bool)
    ensures
        r == is_phone_char(c),
{
    ('0' <= c && c <= '9') || c == ' ' || c == '-' || c == '(' || c == ')' || c == '.' || c == '+'
}

fn find_phone(s: &Vec<char>) -> (r: Option<Vec<char>>)
    ensures
        match r {
            Some(e) => phone_from(s@, 0) == Some(e@),
            None => phone_from(s@, 0) is None,
        },
{
    let mut i: usize = 0;
    while i < s.len()
        invariant
            i <= s@.len(),
            phone_from(s@, 0) == phone_from(s@, i as int),
        decreases s@.len() - i,
    {
        let c = s[i];
        if !(c == '+' || c == '(' || ('0' <= c && c <= '9')) {
            i += 1;
            continue;
        }
        let start = i;
        let mut end = i;
        let mut digits: usize = 0;
        while end < s.len() && is_phone_char_exec(s[end])
            invariant
                start <= end <= s@.len(),
                forall|k: int| start <= k < end ==> (phone_char())(#[trigger] s@[k]),
                digits == digit_count(s@.subrange(start as int, end as int)),
                digits <= end - start,
            decreases s@.len() - end,
        {
            proof {
                assert(s@.subrange(start as int, end + 1).drop_last() =~= s@.subrange(
                    start as int,
                    end as int,
                ));
            }
            if '0' <= s[end] && s[end] <= '9' {
                digits += 1;
            }
            end += 1;
        }
        proof {
            crate::chars::lemma_run_len_exact(s@, phone_char(), start as int, end as int);
        }
        if 10 <= digits && digits <= 15 {
            let run = copy_range(s.as_slice(), start, end);
            return Some(trim_vec(run.as_slice()));
        }
        i = if end > start + 1 {
            end
        } else {
            start + 1
        };
    }
    None
}

// ─── URLs ───────────────────────────────────────────────────────────────

pub open spec fn not_ascii_ws() -> spec_fn(char) -> bool {
    |c: char| !is_ascii_ws(c)
}

/// The URL around the first case-insensitive occurrence of `needle`: the
/// text from the previous ASCII whitespace to the next, with trailing
/// `.`, `,`, `;`, `:` dropped.
pub open spec fn url_containing(s: Seq<char>, needle: Seq<char>) -> Option<Seq<char>> {
    let lower = ascii_lower_seq(s);
    if has_sub(lower, needle) {
        let pos = crate::browser::url::first_occurrence(lower, needle);
        let start = pos - left_run(s, pos, not_ascii_ws());
        let r = run_len(s.skip(pos), not_ascii_ws());
        let end = if r > 0 {
            pos + r
        } else {
            s.len() as int
        };
        Some(trim_end_in(s.subrange(start, end), ".,;:"@))
    } else {
        None
    }
}

fn is_ascii_ws_exec(c: char) -> (r: bool)
    ensures
        r == is_ascii_ws(c),
{
    crate::chars::is_ascii_whitespace(c)
}

fn find_url_containing(s: &Vec<char>, needle: &str) -> (r: Option<Vec<char>>)
    ensures
        match r {
            Some(u) => url_containing(s@, needle@) == Some(u@),
            None => url_containing(s@, needle@) is None,
        },
{
    let lower = to_ascii_lowercase(s.as_slice());
    let n = chars_of(needle);
    match find(lower.as_slice(), n.as_slice()) {
        None => None,
        Some(pos) => {
            proof {
                crate::browser::url::lemma_first_occurrence(lower@, needle@, pos as int);
            }
            let mut start = pos;
            while start > 0 && !is_ascii_ws_exec(s[start - 1])
                invariant
                    start <= pos,
                    pos <= s@.len(),
                    left_run(s@, pos as int, not_ascii_ws()) == (pos - start) + left_run(
                        s@,
                        start as int,
                        not_ascii_ws(),
                    ),
                decreases start,
            {
                start -= 1;
            }
            let mut end = pos;
            while end < s.len() && !is_ascii_ws_exec(s[end])
                invariant
                    pos <= end <= s@.len(),
                    forall|k: int| pos <= k < end ==> (not_ascii_ws())(#[trigger] s@[k]),
                decreases s@.len() - end,
            {
                end += 1;
            }
            proof {
                crate::chars::lemma_run_len_exact(s@, not_ascii_ws(), pos as int, end as int);
            }
            let stop = if end > pos {
                end
            } else {
                s.len()
            };
            let piece = copy_range(s.as_slice(), start, stop);
            Some(crate::chars::trim_end_matching(piece.as_slice(), ".,;:"))
        },
    }
}

/// Every whitespace-separated token of every line, in order.
pub open spec fn tokens_of(ls: Seq<Seq<char>>) -> Seq<Seq<char>>
    decreases ls.len(),
{
    if ls.len() == 0 {
        seq![]
    } else {
        tokens_of(ls.drop_last()) + crate::chars::words(ls.last())
    }
}

/// A token with trailing `.`, `,`, `;`, `:`, `)` dropped.
pub open spec fn url_token(tok: Seq<char>) -> Seq<char> {
    trim_end_in(tok, ".,;:)"@)
}

/// A token looks like a web address: it starts with `http://` or
/// `https://`, or holds a dot and ends with a common top-level domain.
pub open spec fn looks_like_url(t: Seq<char>) -> bool {
    is_prefix("http://"@, t) || is_prefix("https://"@, t) || (t.contains('.') && (is_suffix(
        ".com"@,
        t,
    ) || is_suffix(".dev"@, t) || is_suffix(".io"@, t) || is_suffix(".me"@, t) || is_suffix(
        ".org"@,
        t,
    ) || is_suffix(".net"@, t)))
}

/// A token is the other web address: it looks like one, is neither of the
/// two excluded URLs, is not an email address, and names neither
/// LinkedIn nor GitHub.
pub open spec fn is_other_url(t: Seq<char>, ex_linkedin: Seq<char>, ex_github: Seq<char>) -> bool {
    &&& looks_like_url(t)
    &&& t != ex_linkedin
    &&& t != ex_github
    &&& !t.contains('@')
    &&& !has_sub(t, "linkedin.com"@)
    &&& !has_sub(t, "github.com"@)
}

/// The first token, trimmed, that is another web address.
pub open spec fn other_url_in(toks: Seq<Seq<char>>, ex_linkedin: Seq<char>, ex_github: Seq<char>) -> Option<Seq<char>>
    decreases toks.len(),
{
    if toks.len() == 0 {
        None
    } else if is_other_url(url_token(toks[0]), ex_linkedin, ex_github) {
        Some(url_token(toks[0]))
    } else {
        other_url_in(toks.drop_first(), ex_linkedin, ex_github)
    }
}

fn lit_prefix(t: &Vec<char>, p: &str) -> (r: bool)
    ensures
        r == is_prefix(p@, t@),
{
    crate::chars::starts_with_str(t.as_slice(), p)
}

fn lit_suffix(t: &Vec<char>, p: &str) -> (r: bool)
    ensures
        r == is_suffix(p@, t@),
{
    crate::chars::ends_with_str(t.as_slice(), p)
}

fn lit_sub(t: &Vec<char>, p: &str) -> (r: bool)
    ensures
        r == has_sub(t@, p@),
{
    crate::chars::contains_str(t.as_slice(), p)
}

fn other_url_check(t: &Vec<char>, ex_linkedin: &Vec<char>, ex_github: &Vec<char>) -> (r: bool)
    ensures
        r == is_other_url(t@, ex_linkedin@, ex_github@),
{
    let looks = lit_prefix(t, "http://") || lit_prefix(t, "https://") || (
    crate::chars::contains_char(t.as_slice(), '.') && (lit_suffix(t, ".com") || lit_suffix(t, ".dev")
        || lit_suffix(t, ".io") || lit_suffix(t, ".me") || lit_suffix(t, ".org") || lit_suffix(
        t,
        ".net",
    )));
    looks && !crate::chars::chars_eq(t.as_slice(), ex_linkedin.as_slice())
        && !crate::chars::chars_eq(t.as_slice(), ex_github.as_slice())
        && !crate::chars::contains_char(t.as_slice(), '@') && !lit_sub(t, "linkedin.com") && !lit_sub(
        t,
        "github.com",
    )
}

fn find_other_url(ls: &Vec<Vec<char>>, ex_linkedin: &Vec<char>, ex_github: &Vec<char>) -> (r: Option<Vec<char>>)
    ensures
        match r {
            Some(u) => other_url_in(tokens_of(ls.deep_view()), ex_linkedin@, ex_github@) == Some(u@),
            None => other_url_in(tokens_of(ls.deep_view()), ex_linkedin@, ex_github@) is None,
        },
{
    let mut i: usize = 0;
    while i < ls.len()
        invariant
            i <= ls@.len(),
            other_url_in(tokens_of(ls.deep_view().take(i as int)), ex_linkedin@, ex_github@) is None,
        decreases ls@.len() - i,
    {
        let toks = crate::chars::split_whitespace(ls[i].as_slice());
        let ghost pre = tokens_of(ls.deep_view().take(i as int));
        proof {
            let t = ls.deep_view().take(i + 1);
            assert(t.drop_last() =~= ls.deep_view().take(i as int));
            assert(t.last() == ls@[i as int]@);
            lemma_other_url_concat(pre, toks.deep_view(), ex_linkedin@, ex_github@);
        }
        let mut j: usize = 0;
        assert(toks.deep_view().skip(0) =~= toks.deep_view());
        while j < toks.len()
            invariant
                j <= toks@.len(),
                i < ls@.len(),
                toks.deep_view() == crate::chars::words(ls@[i as int]@),
                other_url_in(tokens_of(ls.deep_view().take(i as int)), ex_linkedin@, ex_github@) is None,
                other_url_in(toks.deep_view(), ex_linkedin@, ex_github@) == other_url_in(
                    toks.deep_view().skip(j as int),
                    ex_linkedin@,
                    ex_github@,
                ),
            decreases toks@.len() - j,
        {
            let t = crate::chars::trim_end_matching(toks[j].as_slice(), ".,;:)");
            proof {
                assert(toks.deep_view().skip(j as int)[0] == toks@[j as int]@);
                assert(toks.deep_view().skip(j as int).drop_first() =~= toks.deep_view().skip(j + 1));
            }
            if other_url_check(&t, ex_linkedin, ex_github) {
                proof {
                    assert(ls.deep_view().len() == ls@.len());
                    assert(ls.deep_view()[i as int] == ls@[i as int].deep_view());
                    assert(ls@[i as int].deep_view() =~= ls@[i as int]@);
                    assert(crate::chars::words(ls.deep_view()[i as int]) == toks.deep_view());
                    assert(other_url_in(toks.deep_view().skip(j as int), ex_linkedin@, ex_github@)
                        == Some(t@));
                    lemma_other_url_rest(ls.deep_view(), i as int, ex_linkedin@, ex_github@);
                }
                return Some(t);
            }
            j += 1;
        }
        proof {
            assert(toks.deep_view().skip(j as int) =~= Seq::<Seq<char>>::empty());
        }
        i += 1;
    }
    assert(ls.deep_view().take(i as int) =~= ls.deep_view());
    None
}

proof fn lemma_other_url_concat(a: Seq<Seq<char>>, b: Seq<Seq<char>>, x: Seq<char>, y: Seq<char>)
    requires
        other_url_in(a, x, y) is None,
    ensures
        other_url_in(a + b, x, y) == other_url_in(b, x, y),
    decreases a.len(),
{
    if a.len() > 0 {
        assert((a + b).drop_first() =~= a.drop_first() + b);
        assert((a + b)[0] == a[0]);
        lemma_other_url_concat(a.drop_first(), b, x, y);
    } else {
        assert(a + b =~= b);
    }
}

proof fn lemma_other_url_prefix(a: Seq<Seq<char>>, b: Seq<Seq<char>>, x: Seq<char>, y: Seq<char>)
    requires
        other_url_in(a, x, y) is Some,
    ensures
        other_url_in(a + b, x, y) == other_url_in(a, x, y),
    decreases a.len(),
{
    assert((a + b)[0] == a[0]);
    if !is_other_url(url_token(a[0]), x, y) {
        assert((a + b).drop_first() =~= a.drop_first() + b);
        lemma_other_url_prefix(a.drop_first(), b, x, y);
    }
}

proof fn lemma_tokens_one(u: Seq<Seq<char>>)
    requires
        u.len() == 1,
    ensures
        tokens_of(u) == crate::chars::words(u[0]),
{
    reveal_with_fuel(tokens_of, 2);
    assert(u.drop_last() =~= Seq::<Seq<char>>::empty());
    assert(tokens_of(u) =~= crate::chars::words(u[0]));
}

proof fn lemma_tokens_split(ls: Seq<Seq<char>>, k: int)
    requires
        0 <= k <= ls.len(),
    ensures
        tokens_of(ls) == tokens_of(ls.take(k)) + tokens_of(ls.skip(k)),
    decreases ls.len() - k,
{
    if k < ls.len() {
        lemma_tokens_split(ls, k + 1);
        lemma_tokens_split(ls.skip(k), 1);
        assert(ls.take(k + 1).drop_last() =~= ls.take(k));
        assert(ls.skip(k).take(1).drop_last() =~= Seq::<Seq<char>>::empty());
        assert(ls.skip(k).take(1).last() == ls[k]);
        assert(ls.skip(k).skip(1) =~= ls.skip(k + 1));
        assert(ls.take(k + 1).last() == ls[k]);
        assert(tokens_of(ls.take(k + 1)) =~= tokens_of(ls.take(k)) + crate::chars::words(ls[k]));
        lemma_tokens_one(ls.skip(k).take(1));
    } else {
        assert(ls.take(k) =~= ls);
        assert(ls.skip(k) =~= Seq::<Seq<char>>::empty());
    }
}

proof fn lemma_other_url_rest(ls: Seq<Seq<char>>, i: int, x: Seq<char>, y: Seq<char>)
    requires
        0 <= i < ls.len(),
        other_url_in(tokens_of(ls.take(i)), x, y) is None,
        other_url_in(crate::chars::words(ls[i]), x, y) is Some,
    ensures
        other_url_in(tokens_of(ls), x, y) == other_url_in(crate::chars::words(ls[i]), x, y),
{
    lemma_tokens_split(ls, i);
    lemma_tokens_split(ls.skip(i), 1);
    assert(ls.skip(i).take(1).drop_last() =~= Seq::<Seq<char>>::empty());
    assert(ls.skip(i).take(1).last() == ls[i]);
    lemma_tokens_one(ls.skip(i).take(1));
    lemma_other_url_concat(tokens_of(ls.take(i)), tokens_of(ls.skip(i)), x, y);
    lemma_other_url_prefix(crate::chars::words(ls[i]), tokens_of(ls.skip(i).skip(1)), x, y);
}

// ─── Name ───────────────────────────────────────────────────────────────

/// Number of alphabetic characters (Unicode `Alphabetic`).
pub open spec fn count_alpha(w: Seq<char>) -> nat
    decreases w.len(),
{
    if w.len() == 0 {
        0
    } else {
        count_alpha(w.drop_last()) + if alphabetic(w.last()) {
            1nat
        } else {
            0nat
        }
    }
}

/// A word is mostly letters: twice its letter count reaches its length
/// in bytes.
pub open spec fn mostly_letters(w: Seq<char>) -> bool {
    2 * count_alpha(w) >= utf8_len(w)
}

/// A trimmed line can be a name: not empty, no `@`, no `http`, not the
/// email or phone found, two to five words, each mostly letters.
pub open spec fn is_name_line(line: Seq<char>, email: Seq<char>, phone: Seq<char>) -> bool {
    let ws = crate::chars::words(line);
    &&& line.len() > 0
    &&& !line.contains('@')
    &&& !has_sub(line, "http"@)
    &&& !(email.len() > 0 && has_sub(line, email))
    &&& !(phone.len() > 0 && has_sub(line, phone))
    &&& 2 <= ws.len() <= 5
    &&& forall|k: int| 0 <= k < ws.len() ==> mostly_letters(#[trigger] ws[k])
}

/// The first line, trimmed, that can be a name.
pub open spec fn name_in(ls: Seq<Seq<char>>, email: Seq<char>, phone: Seq<char>) -> Option<Seq<char>>
    decreases ls.len(),
{
    if ls.len() == 0 {
        None
    } else if is_name_line(trim(ls[0]), email, phone) {
        Some(trim(ls[0]))
    } else {
        name_in(ls.drop_first(), email, phone)
    }
}

fn is_mostly_letters(w: &Vec<char>) -> (r: bool)
    ensures
        r == mostly_letters(w@),
{
    let mut alpha: u128 = 0;
    let mut bytes: u128 = 0;
    let mut i: usize = 0;
    while i < w.len()
        invariant
            i <= w@.len(),
            alpha == count_alpha(w@.take(i as int)),
            bytes == utf8_len(w@.take(i as int)),
            alpha <= i,
            bytes <= 4 * i,
        decreases w@.len() - i,
    {
        proof {
            assert(w@.take(i + 1).drop_last() =~= w@.take(i as int));
        }
        let c = w[i];
        if is_alphabetic(c) {
            alpha += 1;
        }
        let u = c as u32;
        bytes += if u < 0x80 {
            1
        } else if u < 0x800 {
            2
        } else if u < 0x10000 {
            3
        } else {
            4
        };
        i += 1;
    }
    assert(w@.take(i as int) =~= w@);
    2 * alpha >= bytes
}

fn name_line_check(line: &Vec<char>, email: &Vec<char>, phone: &Vec<char>) -> (r: bool)
    ensures
        r == is_name_line(line@, email@, phone@),
{
    if line.len() == 0 || crate::chars::contains_char(line.as_slice(), '@') || lit_sub(line, "http") {
        return false;
    }
    if email.len() > 0 && contains(line.as_slice(), email.as_slice()) {
        return false;
    }
    if phone.len() > 0 && contains(line.as_slice(), phone.as_slice()) {
        return false;
    }
    let ws = crate::chars::split_whitespace(line.as_slice());
    if ws.len() < 2 || ws.len() > 5 {
        return false;
    }
    let mut k: usize = 0;
    while k < ws.len()
        invariant
            k <= ws@.len(),
            ws.deep_view() == crate::chars::words(line@),
            forall|m: int| 0 <= m < k ==> mostly_letters(#[trigger] ws.deep_view()[m]),
        decreases ws@.len() - k,
    {
        assert(ws@[k as int].deep_view() =~= ws@[k as int]@);
        assert(ws.deep_view()[k as int] == ws@[k as int].deep_view());
        if !is_mostly_letters(&ws[k]) {
            return false;
        }
        k += 1;
    }
    true
}

fn find_name(ls: &Vec<Vec<char>>, email: &Vec<char>, phone: &Vec<char>) -> (r: Option<Vec<char>>)
    ensures
        match r {
            Some(n) => name_in(ls.deep_view(), email@, phone@) == Some(n@),
            None => name_in(ls.deep_view(), email@, phone@) is None,
        },
{
    let mut i: usize = 0;
    assert(ls.deep_view().skip(0) =~= ls.deep_view());
    while i < ls.len()
        invariant
            i <= ls@.len(),
            name_in(ls.deep_view(), email@, phone@) == name_in(ls.deep_view().skip(i as int), email@, phone@),
        decreases ls@.len() - i,
    {
        let line = trim_vec(ls[i].as_slice());
        proof {
            assert(ls@[i as int].deep_view() =~= ls@[i as int]@);
            assert(ls.deep_view().skip(i as int)[0] == ls@[i as int]@);
            assert(ls.deep_view().skip(i as int).drop_first() =~= ls.deep_view().skip(i + 1));
        }
        if name_line_check(&line, email, phone) {
            return Some(line);
        }
        i += 1;
    }
    assert(ls.deep_view().skip(i as int) =~= Seq::<Seq<char>>::empty());
    None
}

// ─── The profile ────────────────────────────────────────────────────────

pub open spec fn opt_text(o: Option<Seq<char>>) -> Seq<char> {
    match o {
        Some(t) => t,
        None => seq![],
    }
}

fn vec_or_empty(o: Option<Vec<char>>) -> (r: Vec<char>)
    ensures
        r@ == match o {
            Some(v) => v@,
            None => Seq::<char>::empty(),
        },
{
    match o {
        Some(v) => v,
        None => Vec::new(),
    }
}

/// The website slot never takes a LinkedIn or GitHub address, nor an
/// email: whatever is found there is another web address.
pub proof fn website_is_another_address(toks: Seq<Seq<char>>, ex_linkedin: Seq<char>, ex_github: Seq<char>)
    ensures
        other_url_in(toks, ex_linkedin, ex_github) matches Some(t) ==> {
            &&& !has_sub(t, "linkedin.com"@)
            &&& !has_sub(t, "github.com"@)
            &&& !t.contains('@')
            &&& looks_like_url(t)
        },
    decreases toks.len(),
{
    if toks.len() > 0 {
        website_is_another_address(toks.drop_first(), ex_linkedin, ex_github);
    }
}

/// A name found has two to five words and is no address: no `@`, no
/// `http`.
pub proof fn name_is_a_short_plain_line(ls: Seq<Seq<char>>, email: Seq<char>, phone: Seq<char>)
    ensures
        name_in(ls, email, phone) matches Some(n) ==> {
            &&& 2 <= crate::chars::words(n).len() <= 5
            &&& !n.contains('@')
            &&& !has_sub(n, "http"@)
        },
    decreases ls.len(),
{
    if ls.len() > 0 {
        name_is_a_short_plain_line(ls.drop_first(), email, phone);
    }
}

/// Read a resume into a profile. The email is the first address with a
/// dotted domain; the phone the first run of phone characters with 10 to
/// 15 digits; LinkedIn and GitHub the URLs around `linkedin.com/in/` and
/// `github.com/`; the website the first other web address; the full name
/// the first line that can be a name, split into first names and last
/// name when it has two words or more. The text is kept verbatim; every
/// other field stays empty.
pub fn parse_resume(text: &str) -> (r: Profile)
    ensures
        r.raw_resume_text@ == text@,
        r.email@ == opt_text(email_from(text@, 0)),
        r.phone@ == opt_text(phone_from(text@, 0)),
        r.linkedin@ == opt_text(url_containing(text@, "linkedin.com/in/"@)),
        r.github@ == opt_text(url_containing(text@, "github.com/"@)),
        r.website@ == opt_text(other_url_in(tokens_of(lines(text@)), r.linkedin@, r.github@)),
        r.full_name@ == opt_text(name_in(lines(text@), r.email@, r.phone@)),
        ({
            let ws = crate::chars::words(r.full_name@);
            if ws.len() >= 2 {
                r.first_name@ == crate::chars::join(ws.drop_last(), seq![' ']) && r.last_name@ == ws.last()
            } else {
                r.first_name@.len() == 0 && r.last_name@.len() == 0
            }
        }),
        blank_beyond_resume(r),
{
    let mut p = Profile::default();
    p.raw_resume_text = text.to_owned();
    let t = chars_of(text);
    let email = vec_or_empty(find_email(&t));
    let phone = vec_or_empty(find_phone(&t));
    let linkedin = vec_or_empty(find_url_containing(&t, "linkedin.com/in/"));
    let github = vec_or_empty(find_url_containing(&t, "github.com/"));
    let ls = split_lines(t.as_slice());
    let website = vec_or_empty(find_other_url(&ls, &linkedin, &github));
    let name = vec_or_empty(find_name(&ls, &email, &phone));
    p.email = string_of(email.as_slice());
    p.phone = string_of(phone.as_slice());
    p.linkedin = string_of(linkedin.as_slice());
    p.github = string_of(github.as_slice());
    p.website = string_of(website.as_slice());
    p.full_name = string_of(name.as_slice());
    let ws = crate::chars::split_whitespace(name.as_slice());
    if ws.len() >= 2 {
        let mut head: Vec<Vec<char>> = Vec::new();
        let mut k: usize = 0;
        while k < ws.len() - 1
            invariant
                ws@.len() >= 2,
                k <= ws@.len() - 1,
                head@.len() == k,
                forall|m: int| 0 <= m < k ==> (#[trigger] head@[m])@ == ws@[m]@,
            decreases ws@.len() - 1 - k,
        {
            let w = copy_range(ws[k].as_slice(), 0, ws[k].len());
            assert(w@ =~= ws@[k as int]@);
            head.push(w);
            k += 1;
        }
        proof {
            assert forall|m: int| 0 <= m < head@.len() implies #[trigger] head.deep_view()[m]
                == ws.deep_view().drop_last()[m] by {
                assert(head@[m].deep_view() =~= head@[m]@);
                assert(ws@[m].deep_view() =~= ws@[m]@);
            }
            assert(head.deep_view() =~= ws.deep_view().drop_last());
        }
        let space = vec![' '];
        assert(space@ =~= seq![' ']);
        let first = crate::chars::join_vecs(&head, space.as_slice());
        let last_word = &ws[ws.len() - 1];
        proof {
            assert(ws@[ws@.len() - 1].deep_view() =~= ws@[ws@.len() - 1]@);
            assert(ws.deep_view().last() == ws@[ws@.len() - 1].deep_view());
        }
        p.first_name = string_of(first.as_slice());
        p.last_name = string_of(last_word.as_slice());
    }
    p
}


/// Every token that, once trailing punctuation is dropped, holds a dot and
/// ends in `.com`, `.dev`, `.io`, `.me`, `.org` or `.net`, and is neither an
/// email address nor a LinkedIn or GitHub address, is taken as a website:
/// the search finds one, and it finds this one when no token before it
/// starts with `http://` or `https://` or ends in one of those domains.
pub proof fn domain_tokens_are_websites(toks: Seq<Seq<char>>, ex_linkedin: Seq<char>, ex_github: Seq<char>, i: int)
    requires
        0 <= i < toks.len(),
        url_token(toks[i]).contains('.'),
        is_suffix(".com"@, url_token(toks[i])) || is_suffix(".dev"@, url_token(toks[i])) || is_suffix(
            ".io"@,
            url_token(toks[i]),
        ) || is_suffix(".me"@, url_token(toks[i])) || is_suffix(".org"@, url_token(toks[i]))
            || is_suffix(".net"@, url_token(toks[i])),
        url_token(toks[i]) != ex_linkedin,
        url_token(toks[i]) != ex_github,
        !url_token(toks[i]).contains('@'),
        !has_sub(url_token(toks[i]), "linkedin.com"@),
        !has_sub(url_token(toks[i]), "github.com"@),
    ensures
        other_url_in(toks, ex_linkedin, ex_github) is Some,
        (forall|j: int|
            0 <= j < i ==> {
                let t = #[trigger] url_token(toks[j]);
                &&& !is_prefix("http://"@, t)
                &&& !is_prefix("https://"@, t)
                &&& !is_suffix(".com"@, t)
                &&& !is_suffix(".dev"@, t)
                &&& !is_suffix(".io"@, t)
                &&& !is_suffix(".me"@, t)
                &&& !is_suffix(".org"@, t)
                &&& !is_suffix(".net"@, t)
            }) ==> other_url_in(toks, ex_linkedin, ex_github) == Some(url_token(toks[i])),
    decreases i,
{
    if i > 0 {
        let rest = toks.drop_first();
        assert(rest[i - 1] == toks[i]);
        domain_tokens_are_websites(rest, ex_linkedin, ex_github, i - 1);
        if forall|j: int|
            0 <= j < i ==> {
                let t = #[trigger] url_token(toks[j]);
                &&& !is_prefix("http://"@, t)
                &&& !is_prefix("https://"@, t)
                &&& !is_suffix(".com"@, t)
                &&& !is_suffix(".dev"@, t)
                &&& !is_suffix(".io"@, t)
                &&& !is_suffix(".me"@, t)
                &&& !is_suffix(".org"@, t)
                &&& !is_suffix(".net"@, t)
            } {
            let t0 = url_token(toks[0]);
            assert(!looks_like_url(t0));
            assert forall|j: int|
                0 <= j < i - 1 implies {
                    let t = #[trigger] url_token(rest[j]);
                    &&& !is_prefix("http://"@, t)
                    &&& !is_prefix("https://"@, t)
                    &&& !is_suffix(".com"@, t)
                    &&& !is_suffix(".dev"@, t)
                    &&& !is_suffix(".io"@, t)
                    &&& !is_suffix(".me"@, t)
                    &&& !is_suffix(".org"@, t)
                    &&& !is_suffix(".net"@, t)
                } by {
                assert(rest[j] == toks[j + 1]);
                assert(url_token(toks[j + 1]) == url_token(rest[j]));
            }
        }
    }
}

} // verus!
