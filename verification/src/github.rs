//! The GitHub inventory's logic: turning API answers into repository
//! snapshots, README paragraphs into excerpts under a byte cap, and
//! epoch seconds into a calendar timestamp. Fetching is the caller's.
use vstd::prelude::*;
use base64::Engine;
use crate::chars::{chars_of, is_ws, is_whitespace, lines, push_all, push_str, split_lines, string_of, trim, trim_vec};
use crate::foreign::{base64_error_text, debug_quoted, debug_str, json_error_text};
use crate::profile::RepoRef;
use crate::decimal::{dec_chars, dec_string};
use crate::textorder::{lemma_text_le_antisymmetric, lemma_text_le_reflexive, lemma_text_le_total, lemma_text_le_transitive, text_le, text_le_exec};
use vstd::relations::{sorted_by, total_ordering};

verus! {

/// The GitHub REST API's base URL.
pub const GITHUB_API_BASE: &'static str = "https://api.github.com";

/// How many repositories, most-starred first, get their README, commits
/// and languages fetched.
pub const TOP_N_REPOS_FOR_DEEP_FETCH: usize = 10;

/// Byte cap on the README excerpts kept per repository.
pub const README_EXCERPT_CAP_BYTES: usize = 2048;

/// How many recent commit messages are kept per repository.
pub const RECENT_COMMITS_CAP: usize = 50;

/// One repository as the inventory keeps it.
#[derive(Debug, Clone, PartialEq, Eq)]
pub struct RepoSnapshot {
    pub owner: String,
    pub name: String,
    pub description: String,
    pub primary_language: String,
    /// Bytes per language, most bytes first.
    pub languages: Vec<(String, u64)>,
    pub stars: u32,
    pub forks: u32,
    pub open_issues: u32,
    pub closed_issues: u32,
    /// RFC 3339 time of the latest push; empty when unknown.
    pub last_commit: String,
    /// Commits known; the recent messages fetched give a lower bound.
    pub total_commits: u32,
    pub topics: Vec<String>,
    /// SPDX license id; empty when unlicensed.
    pub license: String,
    pub is_fork: bool,
    /// README paragraphs, each its lines joined by single spaces.
    pub readme_excerpts: Vec<String>,
    /// Recent commit messages, verbatim, newest first.
    pub recent_commit_messages: Vec<String>,
    pub top_files: Vec<FileSummary>,
}

#[derive(Debug, Clone, PartialEq, Eq)]
pub struct FileSummary {
    pub path: String,
    pub language: String,
    pub lines: u32,
}

/// The fields of GitHub's `/users/{user}` answer that are kept.
#[derive(Debug, Clone, PartialEq, Eq)]
pub struct UserInfo {
    pub login: String,
    pub public_repos: u32,
    pub followers: u32,
}

/// The fields of one element of GitHub's `/users/{user}/repos` answer
/// that are kept.
#[derive(Debug, Clone)]
pub struct RepoApiResponse {
    pub name: String,
    pub owner: RepoOwner,
    pub html_url: String,
    pub description: Option<String>,
    pub language: Option<String>,
    pub stargazers_count: u32,
    pub forks_count: u32,
    pub open_issues_count: u32,
    pub pushed_at: Option<String>,
    pub topics: Vec<String>,
    pub license: Option<License>,
    pub fork: bool,
}

#[derive(Debug, Clone)]
pub struct RepoOwner {
    pub login: String,
}

#[derive(Debug, Clone)]
pub struct License {
    /// SPDX id; GitHub sometimes sends none.
    pub spdx_id: Option<String>,
}

/// A present text, or empty.
pub open spec fn or_empty(s: Option<String>) -> Seq<char> {
    match s {
        Some(t) => t@,
        None => seq![],
    }
}

/// The SPDX id of a license, or empty.
pub open spec fn license_id(l: Option<License>) -> Seq<char> {
    match l {
        Some(x) => or_empty(x.spdx_id),
        None => seq![],
    }
}

fn text_or_empty(s: Option<String>) -> (r: String)
    ensures
        r@ == or_empty(s),
{
    match s {
        Some(t) => t,
        None => String::new(),
    }
}

/// A repository snapshot from the repository's API entry and what was
/// fetched for it. Closed issues and top files are not fetched (zero and
/// empty); the total commit count is the number of recent messages.
pub fn to_snapshot(
    api: RepoApiResponse,
    readme_excerpts: Vec<String>,
    recent_commit_messages: Vec<String>,
    languages: Vec<(String, u64)>,
) -> (r: RepoSnapshot)
    ensures
        r.owner@ == api.owner.login@,
        r.name@ == api.name@,
        r.description@ == or_empty(api.description),
        r.primary_language@ == or_empty(api.language),
        r.languages@ == languages@,
        r.stars == api.stargazers_count,
        r.forks == api.forks_count,
        r.open_issues == api.open_issues_count,
        r.closed_issues == 0,
        r.last_commit@ == or_empty(api.pushed_at),
        r.total_commits == recent_commit_messages@.len() as u32,
        r.topics@ == api.topics@,
        r.license@ == license_id(api.license),
        r.is_fork == api.fork,
        r.readme_excerpts@ == readme_excerpts@,
        r.recent_commit_messages@ == recent_commit_messages@,
        r.top_files@.len() == 0,
{
    let license = match api.license {
        Some(l) => text_or_empty(l.spdx_id),
        None => String::new(),
    };
    let total_commits = recent_commit_messages.len() as u32;
    RepoSnapshot {
        owner: api.owner.login,
        name: api.name,
        description: text_or_empty(api.description),
        primary_language: text_or_empty(api.language),
        languages,
        stars: api.stargazers_count,
        forks: api.forks_count,
        open_issues: api.open_issues_count,
        closed_issues: 0,
        last_commit: text_or_empty(api.pushed_at),
        total_commits,
        topics: api.topics,
        license,
        is_fork: api.fork,
        readme_excerpts,
        recent_commit_messages,
        top_files: Vec::new(),
    }
}

/// The first [`RECENT_COMMITS_CAP`] messages, in the order given.
pub fn recent_commits(messages: Vec<String>) -> (r: Vec<String>)
    ensures
        r@ == if messages@.len() <= RECENT_COMMITS_CAP {
            messages@
        } else {
            messages@.take(RECENT_COMMITS_CAP as int)
        },
{
    let mut m = messages;
    if m.len() > RECENT_COMMITS_CAP {
        m.truncate(RECENT_COMMITS_CAP);
    }
    m
}

/// The sum of the repositories' commit counts, when it fits in a `u32`.
pub open spec fn commit_sum(repos: Seq<RepoSnapshot>) -> nat
    decreases repos.len(),
{
    if repos.len() == 0 {
        0
    } else {
        commit_sum(repos.drop_last()) + repos.last().total_commits as nat
    }
}

/// Total commits over the repositories; `None` when it overflows a `u32`.
pub fn total_commits(repos: &Vec<RepoSnapshot>) -> (r: Option<u32>)
    ensures
        match r {
            Some(n) => n == commit_sum(repos@),
            None => commit_sum(repos@) > u32::MAX,
        },
{
    let mut sum: u32 = 0;
    let mut i: usize = 0;
    while i < repos.len()
        invariant
            i <= repos@.len(),
            sum == commit_sum(repos@.take(i as int)),
        decreases repos@.len() - i,
    {
        proof {
            assert(repos@.take(i + 1).drop_last() =~= repos@.take(i as int));
        }
        match sum.checked_add(repos[i].total_commits) {
            Some(s) => {
                sum = s;
            },
            None => {
                proof {
                    lemma_commit_sum_grows(repos@, i as int + 1);
                }
                return None;
            },
        }
        i += 1;
    }
    assert(repos@.take(i as int) =~= repos@);
    Some(sum)
}

proof fn lemma_commit_sum_grows(repos: Seq<RepoSnapshot>, k: int)
    requires
        0 <= k <= repos.len(),
    ensures
        commit_sum(repos.take(k)) <= commit_sum(repos),
    decreases repos.len() - k,
{
    if k < repos.len() {
        lemma_commit_sum_grows(repos, k + 1);
        assert(repos.take(k + 1).drop_last() =~= repos.take(k));
    } else {
        assert(repos.take(k) =~= repos);
    }
}

// ─── README excerpts ────────────────────────────────────────────────────

/// Bytes a character takes in UTF-8.
pub open spec fn utf8_width(c: char) -> nat {
    let u = c as u32;
    if u < 0x80 {
        1
    } else if u < 0x800 {
        2
    } else if u < 0x10000 {
        3
    } else {
        4
    }
}

/// Bytes a text takes in UTF-8 (`str::len`).
pub open spec fn utf8_len(s: Seq<char>) -> nat
    decreases s.len(),
{
    if s.len() == 0 {
        0
    } else {
        utf8_len(s.drop_last()) + utf8_width(s.last())
    }
}

/// The UTF-8 length of `s` when it is below `limit`.
fn byte_len_below(s: &[char], limit: usize) -> (r: Option<usize>)
    ensures
        match r {
            Some(n) => n == utf8_len(s@) && n < limit,
            None => utf8_len(s@) >= limit,
        },
{
    if limit == 0 {
        return None;
    }
    let mut sum: u128 = 0;
    let mut i: usize = 0;
    while i < s.len()
        invariant
            i <= s@.len(),
            sum == utf8_len(s@.take(i as int)),
            sum < limit,
        decreases s@.len() - i,
    {
        proof {
            assert(s@.take(i + 1).drop_last() =~= s@.take(i as int));
        }
        let u = s[i] as u32;
        let w: u128 = if u < 0x80 {
            1
        } else if u < 0x800 {
            2
        } else if u < 0x10000 {
            3
        } else {
            4
        };
        sum = sum + w;
        if sum >= limit as u128 {
            proof {
                lemma_utf8_len_grows(s@, i as int + 1);
            }
            return None;
        }
        i += 1;
    }
    assert(s@.take(i as int) =~= s@);
    Some(sum as usize)
}

proof fn lemma_utf8_len_grows(s: Seq<char>, k: int)
    requires
        0 <= k <= s.len(),
    ensures
        utf8_len(s.take(k)) <= utf8_len(s),
    decreases s.len() - k,
{
    if k < s.len() {
        lemma_utf8_len_grows(s, k + 1);
        assert(s.take(k + 1).drop_last() =~= s.take(k));
    } else {
        assert(s.take(k) =~= s);
    }
}

/// Where the cutting of a README into excerpts stands: the excerpts so
/// far, their bytes, the paragraph being gathered, and whether the cap was
/// reached.
pub struct ExcerptState {
    pub out: Seq<Seq<char>>,
    pub used: nat,
    pub current: Seq<char>,
    pub done: bool,
}

/// Reading one line: a blank line ends the paragraph being gathered (it
/// becomes an excerpt, and reaching the cap stops everything); any other
/// line joins the paragraph, trimmed, after a single space.
pub open spec fn excerpt_step(st: ExcerptState, line: Seq<char>, cap: nat) -> ExcerptState {
    if st.done {
        st
    } else if trim(line).len() == 0 {
        if st.current.len() > 0 {
            let p = trim(st.current);
            ExcerptState {
                out: st.out.push(p),
                used: st.used + utf8_len(p),
                current: seq![],
                done: st.used + utf8_len(p) >= cap,
            }
        } else {
            st
        }
    } else {
        ExcerptState {
            out: st.out,
            used: st.used,
            current: if st.current.len() == 0 {
                trim(line)
            } else {
                st.current + seq![' '] + trim(line)
            },
            done: false,
        }
    }
}

pub open spec fn excerpt_run(ls: Seq<Seq<char>>, cap: nat) -> ExcerptState
    decreases ls.len(),
{
    if ls.len() == 0 {
        ExcerptState { out: seq![], used: 0, current: seq![], done: false }
    } else {
        excerpt_step(excerpt_run(ls.drop_last(), cap), ls.last(), cap)
    }
}

/// The excerpts of a text: its paragraphs (runs of non-blank lines), each
/// with its trimmed lines joined by single spaces, in order, stopping
/// after the paragraph that brings the byte total to the cap.
pub open spec fn excerpts_of(text: Seq<char>, cap: nat) -> Seq<Seq<char>> {
    let st = excerpt_run(lines(text), cap);
    if !st.done && st.current.len() > 0 {
        st.out.push(trim(st.current))
    } else {
        st.out
    }
}

/// Bytes of a list of texts.
pub open spec fn total_bytes(ps: Seq<Seq<char>>) -> nat
    decreases ps.len(),
{
    if ps.len() == 0 {
        0
    } else {
        total_bytes(ps.drop_last()) + utf8_len(ps.last())
    }
}

/// Cut README text into paragraph excerpts under a byte cap. The cap is
/// checked after a paragraph is taken, so the paragraph that reaches it is
/// kept and nothing after it.
pub fn extract_excerpts(text: &str, cap_bytes: usize) -> (r: Vec<String>)
    ensures
        r@.map_values(|s: String| s@) == excerpts_of(text@, cap_bytes as nat),
{
    let t = chars_of(text);
    let ls = split_lines(t.as_slice());
    let mut out: Vec<String> = Vec::new();
    let mut used: usize = 0;
    let mut current: Vec<char> = Vec::new();
    let mut i: usize = 0;
    while i < ls.len()
        invariant
            i <= ls@.len(),
            ls.deep_view() == lines(text@),
            ({
                let st = excerpt_run(ls.deep_view().take(i as int), cap_bytes as nat);
                &&& !st.done
                &&& st.out == out@.map_values(|s: String| s@)
                &&& st.used == used
                &&& st.current == current@
                &&& used <= cap_bytes
            }),
        decreases ls@.len() - i,
    {
        proof {
            let pre = ls.deep_view().take(i + 1);
            assert(pre.drop_last() =~= ls.deep_view().take(i as int));
            assert(pre.last() == ls@[i as int]@);
        }
        let line = trim_vec(ls[i].as_slice());
        if line.len() == 0 {
            if current.len() > 0 {
                let p = trim_vec(current.as_slice());
                let ghost before = out@.map_values(|s: String| s@);
                match byte_len_below(p.as_slice(), cap_bytes - used) {
                    Some(n) => {
                        used = used + n;
                        out.push(string_of(p.as_slice()));
                        current = Vec::new();
                        assert(out@.map_values(|s: String| s@) =~= before.push(p@));
                    },
                    None => {
                        out.push(string_of(p.as_slice()));
                        assert(out@.map_values(|s: String| s@) =~= before.push(p@));
                        proof {
                            let st = excerpt_run(ls.deep_view().take(i + 1), cap_bytes as nat);
                            assert(st.done);
                            assert(excerpt_run(ls.deep_view(), cap_bytes as nat) == st) by {
                                lemma_done_stays(ls.deep_view(), i as int + 1, cap_bytes as nat);
                            }
                        }
                        return out;
                    },
                }
            }
        } else {
            if current.len() > 0 {
                current.push(' ');
            }
            push_all(&mut current, line.as_slice());
        }
        i += 1;
    }
    assert(ls.deep_view().take(i as int) =~= ls.deep_view());
    if current.len() > 0 {
        let p = trim_vec(current.as_slice());
        let ghost before = out@.map_values(|s: String| s@);
        out.push(string_of(p.as_slice()));
        assert(out@.map_values(|s: String| s@) =~= before.push(p@));
    }
    out
}

proof fn lemma_done_stays(ls: Seq<Seq<char>>, k: int, cap: nat)
    requires
        0 <= k <= ls.len(),
        excerpt_run(ls.take(k), cap).done,
    ensures
        excerpt_run(ls, cap) == excerpt_run(ls.take(k), cap),
    decreases ls.len() - k,
{
    if k < ls.len() {
        assert(ls.take(k + 1).drop_last() =~= ls.take(k));
        lemma_done_stays(ls, k + 1, cap);
    } else {
        assert(ls.take(k) =~= ls);
    }
}

/// A paragraph that reaches the cap ends the excerpts: the excerpts
/// before the last one together stay under the cap.
pub proof fn excerpts_stay_under_cap(text: Seq<char>, cap: nat)
    requires
        cap > 0,
        excerpts_of(text, cap).len() > 0,
    ensures
        total_bytes(excerpts_of(text, cap).drop_last()) < cap,
{
    let ls = lines(text);
    lemma_excerpt_run_bytes(ls, cap);
    let st = excerpt_run(ls, cap);
    if !st.done && st.current.len() > 0 {
        assert(excerpts_of(text, cap).drop_last() =~= st.out);
    }
}

proof fn lemma_excerpt_run_bytes(ls: Seq<Seq<char>>, cap: nat)
    requires
        cap > 0,
    ensures
        excerpt_run(ls, cap).used == total_bytes(excerpt_run(ls, cap).out),
        !excerpt_run(ls, cap).done ==> excerpt_run(ls, cap).used < cap,
        excerpt_run(ls, cap).done ==> excerpt_run(ls, cap).out.len() > 0 && total_bytes(
            excerpt_run(ls, cap).out.drop_last(),
        ) < cap,
    decreases ls.len(),
{
    if ls.len() > 0 {
        lemma_excerpt_run_bytes(ls.drop_last(), cap);
        let prev = excerpt_run(ls.drop_last(), cap);
        let st = excerpt_run(ls, cap);
        if !prev.done && trim(ls.last()).len() == 0 && prev.current.len() > 0 {
            assert(st.out.drop_last() =~= prev.out);
        }
    }
}

// ─── README decoding ────────────────────────────────────────────────────

/// What the standard base64 alphabet (with padding) decodes a text to;
/// `None` when the text is not valid base64.
pub uninterp spec fn base64_standard(text: Seq<char>) -> Option<Seq<u8>>;

/// `base64::engine::general_purpose::STANDARD.decode`: the bytes, or the
/// decoding error. The contract names the outcome as a function of the
/// text alone.
#[verifier::external_body]
fn decode_base64(text: &str) -> (r: Result<Vec<u8>, base64::DecodeError>)
    ensures
        match r {
            Ok(v) => base64_standard(text@) == Some(v@),
            Err(_) => base64_standard(text@) is None,
        },
{
    base64::engine::general_purpose::STANDARD.decode(text)
}

/// What `String::from_utf8_lossy` makes of some bytes.
pub uninterp spec fn utf8_lossy(bytes: Seq<u8>) -> Seq<char>;

/// `String::from_utf8_lossy(bytes).into_owned()`: the text, with every
/// invalid sequence replaced by U+FFFD.
#[verifier::external_body]
fn decode_utf8_lossy(bytes: &[u8]) -> (r: String)
    ensures
        r@ == utf8_lossy(bytes@),
{
    String::from_utf8_lossy(bytes).into_owned()
}

#[derive(Debug)]
pub enum ReadmeParseError {
    Json(serde_json::Error),
    Base64(base64::DecodeError),
    UnknownEncoding(String),
}

impl ReadmeParseError {
    /// The text the error displays as.
    pub fn message(&self) -> (r: String)
        ensures
            match self {
                ReadmeParseError::UnknownEncoding(e) => r@ == "readme encoding "@ + debug_quoted(e@)
                    + " not supported (expected base64)"@,
                ReadmeParseError::Json(_) => crate::chars::is_prefix("readme json parse: "@, r@),
                ReadmeParseError::Base64(_) => crate::chars::is_prefix("readme base64 decode: "@, r@),
            },
    {
        let mut out: Vec<char> = Vec::new();
        match self {
            ReadmeParseError::Json(e) => {
                push_str(&mut out, "readme json parse: ");
                let ghost head = out@;
                assert(head =~= "readme json parse: "@);
                let t = json_error_text(e);
                push_str(&mut out, t.as_str());
                assert(out@.take(head.len() as int) =~= head);
            },
            ReadmeParseError::Base64(e) => {
                push_str(&mut out, "readme base64 decode: ");
                let ghost head = out@;
                assert(head =~= "readme base64 decode: "@);
                let t = base64_error_text(e);
                push_str(&mut out, t.as_str());
                assert(out@.take(head.len() as int) =~= head);
            },
            ReadmeParseError::UnknownEncoding(e) => {
                push_str(&mut out, "readme encoding ");
                let q = debug_str(e.as_str());
                push_str(&mut out, q.as_str());
                push_str(&mut out, " not supported (expected base64)");
            },
        }
        string_of(out.as_slice())
    }
}

/// A text with its whitespace removed.
pub open spec fn without_ws(s: Seq<char>) -> Seq<char> {
    s.filter(|c: char| !is_ws(c))
}

fn strip_whitespace(s: &str) -> (r: String)
    ensures
        r@ == without_ws(s@),
{
    let cs = chars_of(s);
    let mut out: Vec<char> = Vec::new();
    let mut i: usize = 0;
    while i < cs.len()
        invariant
            i <= cs@.len(),
            cs@ == s@,
            out@ == without_ws(cs@.take(i as int)),
        decreases cs@.len() - i,
    {
        proof {
            reveal(Seq::filter);
            assert(cs@.take(i + 1).drop_last() =~= cs@.take(i as int));
        }
        if !is_whitespace(cs[i]) {
            out.push(cs[i]);
        }
        i += 1;
    }
    assert(cs@.take(i as int) =~= cs@);
    string_of(out.as_slice())
}

/// The README excerpts from the body of GitHub's `/readme` answer: its
/// `content` (base64, with line breaks) and `encoding` fields. An
/// encoding other than `base64` is refused; the content, whitespace
/// removed, is decoded, read as UTF-8 (invalid sequences replaced), and
/// cut into excerpts under [`README_EXCERPT_CAP_BYTES`].
pub fn readme_excerpts(content: &str, encoding: &str) -> (r: Result<Vec<String>, ReadmeParseError>)
    ensures
        encoding@ != "base64"@ ==> (r matches Err(ReadmeParseError::UnknownEncoding(e)) && e@ == encoding@),
        encoding@ == "base64"@ ==> match base64_standard(without_ws(content@)) {
            None => r matches Err(ReadmeParseError::Base64(_)),
            Some(bytes) => r matches Ok(v) && v@.map_values(|s: String| s@) == excerpts_of(
                utf8_lossy(bytes),
                README_EXCERPT_CAP_BYTES as nat,
            ),
        },
{
    if !crate::chars::str_eq(encoding, "base64") {
        return Err(ReadmeParseError::UnknownEncoding(encoding.to_owned()));
    }
    let cleaned = strip_whitespace(content);
    match decode_base64(cleaned.as_str()) {
        Ok(bytes) => {
            let text = decode_utf8_lossy(bytes.as_slice());
            Ok(extract_excerpts(text.as_str(), README_EXCERPT_CAP_BYTES))
        },
        Err(e) => Err(ReadmeParseError::Base64(e)),
    }
}

// ─── Languages ──────────────────────────────────────────────────────────

/// What `serde_json` reads from a JSON object whose values are byte
/// counts, as a `BTreeMap<String, u64>` walked in key order; `None` when
/// the text is not such an object.
pub uninterp spec fn json_byte_counts(text: Seq<char>) -> Option<Seq<(Seq<char>, u64)>>;

/// The entries of a table of (text, number) pairs, the text taken by
/// its view.
pub open spec fn entries_view(v: Seq<(String, u64)>) -> Seq<(Seq<char>, u64)> {
    v.map_values(|e: (String, u64)| (e.0@, e.1))
}

/// `serde_json::from_str::<BTreeMap<String, u64>>`, its entries collected
/// in the map's order: the entries, or the parse error. The contract names
/// the outcome as a function of the text alone.
#[verifier::external_body]
fn read_byte_counts(json: &str) -> (r: Result<Vec<(String, u64)>, serde_json::Error>)
    ensures
        match r {
            Ok(v) => json_byte_counts(json@) == Some(entries_view(v@)),
            Err(_) => json_byte_counts(json@) is None,
        },
{
    serde_json::from_str::<std::collections::BTreeMap<String, u64>>(json).map(|m| m.into_iter().collect())
}

/// Language `a` is listed no later than `b`: more bytes first, equal
/// counts by name.
pub open spec fn language_le(a: (Seq<char>, u64), b: (Seq<char>, u64)) -> bool {
    a.1 > b.1 || (a.1 == b.1 && text_le(a.0, b.0))
}

/// [`language_le`] as a relation.
pub open spec fn language_order() -> spec_fn((Seq<char>, u64), (Seq<char>, u64)) -> bool {
    |a: (Seq<char>, u64), b: (Seq<char>, u64)| language_le(a, b)
}

pub proof fn language_le_is_total_order()
    ensures
        total_ordering(language_order()),
{
    let leq = language_order();
    assert forall|x: (Seq<char>, u64)| #[trigger] leq(x, x) by {
        lemma_text_le_reflexive(x.0);
    }
    assert forall|x: (Seq<char>, u64), y: (Seq<char>, u64)| #[trigger] leq(x, y) && #[trigger] leq(y, x) implies x == y by {
        if x.1 == y.1 {
            lemma_text_le_antisymmetric(x.0, y.0);
        }
    }
    assert forall|x: (Seq<char>, u64), y: (Seq<char>, u64), z: (Seq<char>, u64)| #[trigger] leq(x, y) && #[trigger] leq(y, z) implies leq(x, z) by {
        if x.1 == y.1 && y.1 == z.1 {
            lemma_text_le_transitive(x.0, y.0, z.0);
        }
    }
    assert forall|x: (Seq<char>, u64), y: (Seq<char>, u64)| #[trigger] leq(x, y) || #[trigger] leq(y, x) by {
        lemma_text_le_total(x.0, y.0);
    }
}

fn language_le_exec(a: &(String, u64), b: &(String, u64)) -> (r: bool)
    ensures
        r == language_le((a.0@, a.1), (b.0@, b.1)),
{
    a.1 > b.1 || (a.1 == b.1 && text_le_exec(a.0.as_str(), b.0.as_str()))
}

/// Insert `x` into a table sorted by [`language_le`], keeping it sorted.
fn insert_language(out: &mut Vec<(String, u64)>, x: (String, u64))
    requires
        sorted_by(entries_view(old(out)@), language_order()),
    ensures
        sorted_by(entries_view(final(out)@), language_order()),
        entries_view(final(out)@).to_multiset() == entries_view(old(out)@).to_multiset().insert((x.0@, x.1)),
{
    let ghost leq = language_order();
    proof {
        language_le_is_total_order();
    }
    let ghost before = entries_view(out@);
    let ghost xv = (x.0@, x.1);
    let mut k: usize = 0;
    while k < out.len() && language_le_exec(&out[k], &x)
        invariant
            k <= out@.len(),
            before == entries_view(out@),
            xv == (x.0@, x.1),
            forall|j: int| 0 <= j < k ==> language_le(#[trigger] before[j], xv),
        decreases out@.len() - k,
    {
        k += 1;
    }
    out.insert(k, x);
    proof {
        let after = entries_view(out@);
        assert(after =~= before.insert(k as int, xv));
        vstd::seq_lib::to_multiset_insert(before, k as int, xv);
        if k < before.len() {
            assert(!language_le(before[k as int], xv));
            assert(leq(xv, before[k as int]) || leq(before[k as int], xv));
        }
        assert forall|i: int, j: int| 0 <= i < j < after.len() implies #[trigger] leq(after[i], after[j]) by {
            if j < k {
                assert(leq(before[i], before[j]));
            } else if j == k {
                assert(after[j] == xv);
                assert(after[i] == before[i]);
            } else if i == k {
                assert(after[j] == before[j - 1]);
                if j - 1 > k {
                    assert(leq(before[k as int], before[j - 1]));
                }
            } else if i < k {
                assert(after[i] == before[i] && after[j] == before[j - 1]);
                assert(leq(before[i], before[j - 1]));
            } else {
                assert(after[i] == before[i - 1] && after[j] == before[j - 1]);
                assert(leq(before[i - 1], before[j - 1]));
            }
        }
    }
}

/// GitHub's `/languages` answer, an object of language name to byte
/// count, as a list sorted by byte count, most first, equal counts by
/// name; or the parse error.
pub fn parse_languages(json: &str) -> (r: Result<Vec<(String, u64)>, serde_json::Error>)
    ensures
        match json_byte_counts(json@) {
            None => r is Err,
            Some(es) => r matches Ok(v) && entries_view(v@) == es.sort_by(language_order()),
        },
{
    let entries = match read_byte_counts(json) {
        Ok(v) => v,
        Err(e) => {
            return Err(e);
        },
    };
    let ghost leq = language_order();
    let ghost es = entries_view(entries@);
    let mut out: Vec<(String, u64)> = Vec::new();
    let mut rest = entries;
    let mut taken: usize = 0;
    let n = rest.len();
    proof {
        assert(es.skip(n as int) =~= Seq::<(Seq<char>, u64)>::empty());
        assert(entries_view(out@) =~= Seq::<(Seq<char>, u64)>::empty());
        assert(es.take(n as int) =~= es);
    }
    // Take entries from the back, inserting each in order.
    while rest.len() > 0
        invariant
            rest@.len() + taken == n,
            n == es.len(),
            entries_view(rest@) == es.take(rest@.len() as int),
            sorted_by(entries_view(out@), language_order()),
            entries_view(out@).to_multiset() == es.skip(rest@.len() as int).to_multiset(),
        decreases rest@.len(),
    {
        let ghost m = rest@.len() as int;
        let x = rest.pop().unwrap();
        proof {
            assert(entries_view(rest@) =~= es.take(m - 1));
            assert(es.skip(m - 1) =~= es.skip(m).insert(0, (x.0@, x.1))) by {
                assert(es[m - 1] == (x.0@, x.1)) by {
                    assert(es.take(m)[m - 1] == es[m - 1]);
                }
            }
            vstd::seq_lib::to_multiset_insert(es.skip(m), 0, (x.0@, x.1));
        }
        insert_language(&mut out, x);
        taken += 1;
    }
    proof {
        assert(es.skip(0) =~= es);
        language_le_is_total_order();
        es.lemma_sort_by_ensures(leq);
        vstd::seq_lib::lemma_sorted_unique(entries_view(out@), es.sort_by(leq), leq);
    }
    Ok(out)
}

// ─── Bytes per language across repositories ─────────────────────────────

/// Every (language, bytes) entry of the repositories, repository by
/// repository.
pub open spec fn language_entries(rs: Seq<RepoSnapshot>) -> Seq<(Seq<char>, u64)>
    decreases rs.len(),
{
    if rs.len() == 0 {
        seq![]
    } else {
        language_entries(rs.drop_last()) + entries_view(rs.last().languages@)
    }
}

/// Bytes of language `lang` among the entries.
pub open spec fn bytes_for(es: Seq<(Seq<char>, u64)>, lang: Seq<char>) -> nat
    decreases es.len(),
{
    if es.len() == 0 {
        0
    } else {
        bytes_for(es.drop_last(), lang) + if es.last().0 == lang {
            es.last().1 as nat
        } else {
            0nat
        }
    }
}

/// Bytes of all the entries.
pub open spec fn bytes_total(es: Seq<(Seq<char>, u64)>) -> nat
    decreases es.len(),
{
    if es.len() == 0 {
        0
    } else {
        bytes_total(es.drop_last()) + es.last().1 as nat
    }
}

/// Text `a` sorts strictly before text `b`.
pub open spec fn text_lt(a: Seq<char>, b: Seq<char>) -> bool {
    text_le(a, b) && a != b
}

/// Some entry is for language `l`.
pub open spec fn names_language(es: Seq<(Seq<char>, u64)>, l: Seq<char>) -> bool {
    exists|k: int| 0 <= k < es.len() && (#[trigger] es[k]).0 == l
}

/// `t` is the table of totals for the entries: one row per language
/// named, in name order, each with the language's bytes.
#[verifier::opaque]
pub open spec fn is_totals_table(t: Seq<(Seq<char>, u64)>, es: Seq<(Seq<char>, u64)>) -> bool {
    &&& forall|a: int, b: int| 0 <= a < b < t.len() ==> text_lt(#[trigger] t[a].0, #[trigger] t[b].0)
    &&& forall|a: int| 0 <= a < t.len() ==> (#[trigger] t[a]).1 == bytes_for(es, t[a].0)
    &&& forall|a: int| 0 <= a < t.len() ==> #[trigger] names_language(es, t[a].0)
    &&& forall|k: int| 0 <= k < es.len() ==> #[trigger] names_language(t, es[k].0)
}

proof fn lemma_bytes_for_absent(es: Seq<(Seq<char>, u64)>, lang: Seq<char>)
    requires
        forall|k: int| 0 <= k < es.len() ==> (#[trigger] es[k]).0 != lang,
    ensures
        bytes_for(es, lang) == 0,
    decreases es.len(),
{
    if es.len() > 0 {
        lemma_bytes_for_absent(es.drop_last(), lang);
        assert(es.last() == es[es.len() - 1]);
    }
}

proof fn lemma_bytes_for_bound(es: Seq<(Seq<char>, u64)>, lang: Seq<char>)
    ensures
        bytes_for(es, lang) <= bytes_total(es),
    decreases es.len(),
{
    if es.len() > 0 {
        lemma_bytes_for_bound(es.drop_last(), lang);
    }
}

proof fn lemma_bytes_total_append(a: Seq<(Seq<char>, u64)>, b: Seq<(Seq<char>, u64)>)
    ensures
        bytes_total(a) <= bytes_total(a + b),
    decreases b.len(),
{
    if b.len() > 0 {
        lemma_bytes_total_append(a, b.drop_last());
        assert((a + b).drop_last() =~= a + b.drop_last());
    } else {
        assert(a + b =~= a);
    }
}

proof fn lemma_entries_prefix(rs: Seq<RepoSnapshot>, m: int)
    requires
        0 <= m <= rs.len(),
    ensures
        bytes_total(language_entries(rs.take(m))) <= bytes_total(language_entries(rs)),
    decreases rs.len() - m,
{
    if m < rs.len() {
        let r2 = rs.take(m + 1);
        lemma_entries_prefix(rs, m + 1);
        assert(r2.drop_last() =~= rs.take(m));
        lemma_bytes_total_append(language_entries(rs.take(m)), entries_view(r2.last().languages@));
    } else {
        assert(rs.take(m) =~= rs);
    }
}

fn text_lt_exec(a: &str, b: &str) -> (r: bool)
    ensures
        r == text_lt(a@, b@),
{
    text_le_exec(a, b) && !crate::chars::str_eq(a, b)
}

/// Adding one entry adds its bytes to its own language only.
proof fn lemma_bytes_for_push(es: Seq<(Seq<char>, u64)>, x: (Seq<char>, u64))
    ensures
        forall|l: Seq<char>| #[trigger] bytes_for(es.push(x), l) == bytes_for(es, l) + if l == x.0 {
            x.1 as nat
        } else {
            0nat
        },
{
    assert(es.push(x).drop_last() =~= es);
}

/// A row already holds the entry's language: its total grows.
proof fn lemma_totals_update(t: Seq<(Seq<char>, u64)>, es: Seq<(Seq<char>, u64)>, k: int, x: (Seq<char>, u64), n: u64)
    requires
        is_totals_table(t, es),
        0 <= k < t.len(),
        t[k].0 == x.0,
        n == t[k].1 + x.1,
    ensures
        is_totals_table(t.update(k, (x.0, n)), es.push(x)),
{
    reveal(is_totals_table);
    lemma_bytes_for_push(es, x);
    let es2 = es.push(x);
    let after = t.update(k, (x.0, n));
    assert forall|a: int, b: int| 0 <= a < b < after.len() implies text_lt(#[trigger] after[a].0, #[trigger] after[b].0) by {
        assert(after[a].0 == t[a].0 && after[b].0 == t[b].0);
        assert(text_lt(t[a].0, t[b].0));
    }
    assert forall|a: int| 0 <= a < after.len() implies (#[trigger] after[a]).1 == bytes_for(es2, after[a].0) by {
        if a != k {
            assert(after[a] == t[a]);
            assert(t[a].1 == bytes_for(es, t[a].0));
            if a < k {
                assert(text_lt(t[a].0, t[k].0));
            } else {
                assert(text_lt(t[k].0, t[a].0));
            }
        }
    }
    assert forall|a: int| 0 <= a < after.len() implies #[trigger] names_language(es2, after[a].0) by {
        assert(after[a].0 == t[a].0);
        assert(names_language(es, t[a].0));
        let j = choose|j: int| 0 <= j < es.len() && (#[trigger] es[j]).0 == t[a].0;
        assert(es2[j] == es[j]);
    }
    assert forall|j: int| 0 <= j < es2.len() implies #[trigger] names_language(after, es2[j].0) by {
        if j < es.len() {
            assert(es2[j] == es[j]);
            assert(names_language(t, es[j].0));
            let a = choose|a: int| 0 <= a < t.len() && (#[trigger] t[a]).0 == es[j].0;
            assert(after[a].0 == t[a].0);
        } else {
            assert(after[k].0 == x.0);
        }
    }
}

/// No row holds the entry's language: a new row goes in at its place.
proof fn lemma_totals_insert(t: Seq<(Seq<char>, u64)>, es: Seq<(Seq<char>, u64)>, k: int, x: (Seq<char>, u64))
    requires
        is_totals_table(t, es),
        0 <= k <= t.len(),
        forall|a: int| 0 <= a < k ==> text_lt(#[trigger] t[a].0, x.0),
        k < t.len() ==> !text_lt(t[k].0, x.0) && t[k].0 != x.0,
    ensures
        is_totals_table(t.insert(k, x), es.push(x)),
{
    reveal(is_totals_table);
    lemma_bytes_for_push(es, x);
    let es2 = es.push(x);
    let after = t.insert(k, x);
    if k < t.len() {
        lemma_text_le_total(t[k].0, x.0);
        assert(text_le(x.0, t[k].0));
    }
    assert forall|a: int| 0 <= a < t.len() implies (#[trigger] t[a]).0 != x.0 by {
        if a > k {
            assert(text_lt(t[k].0, t[a].0));
            if t[a].0 == x.0 {
                lemma_text_le_antisymmetric(t[k].0, x.0);
            }
        }
    }
    assert forall|j: int| 0 <= j < es.len() implies (#[trigger] es[j]).0 != x.0 by {
        assert(names_language(t, es[j].0));
        let a = choose|a: int| 0 <= a < t.len() && (#[trigger] t[a]).0 == es[j].0;
        assert(t[a].0 != x.0);
    }
    lemma_bytes_for_absent(es, x.0);
    assert forall|a: int, b: int| 0 <= a < b < after.len() implies text_lt(#[trigger] after[a].0, #[trigger] after[b].0) by {
        if b < k {
            assert(text_lt(t[a].0, t[b].0));
        } else if b == k {
            assert(after[a] == t[a]);
        } else if a == k {
            assert(after[b] == t[b - 1]);
            if b - 1 > k {
                assert(text_lt(t[k].0, t[b - 1].0));
                lemma_text_le_transitive(x.0, t[k].0, t[b - 1].0);
            }
            assert(t[b - 1].0 != x.0);
        } else if a < k {
            assert(after[a] == t[a] && after[b] == t[b - 1]);
            assert(text_lt(t[a].0, t[b - 1].0));
        } else {
            assert(after[a] == t[a - 1] && after[b] == t[b - 1]);
            assert(text_lt(t[a - 1].0, t[b - 1].0));
        }
    }
    assert forall|a: int| 0 <= a < after.len() implies (#[trigger] after[a]).1 == bytes_for(es2, after[a].0) by {
        if a < k {
            assert(after[a] == t[a]);
            assert(t[a].1 == bytes_for(es, t[a].0));
        } else if a > k {
            assert(after[a] == t[a - 1]);
            assert(t[a - 1].1 == bytes_for(es, t[a - 1].0));
        }
    }
    assert forall|a: int| 0 <= a < after.len() implies #[trigger] names_language(es2, after[a].0) by {
        if a == k {
            assert(es2[es.len() as int] == x);
        } else {
            let b = if a < k { a } else { a - 1 };
            assert(after[a] == t[b]);
            assert(names_language(es, t[b].0));
            let j = choose|j: int| 0 <= j < es.len() && (#[trigger] es[j]).0 == t[b].0;
            assert(es2[j] == es[j]);
        }
    }
    assert forall|j: int| 0 <= j < es2.len() implies #[trigger] names_language(after, es2[j].0) by {
        if j < es.len() {
            assert(es2[j] == es[j]);
            assert(names_language(t, es[j].0));
            let b = choose|b: int| 0 <= b < t.len() && (#[trigger] t[b]).0 == es[j].0;
            if b < k {
                assert(after[b] == t[b]);
            } else {
                assert(after[b + 1] == t[b]);
            }
        } else {
            assert(after[k] == x);
        }
    }
}

/// A row's total is at most the bytes of all entries.
proof fn lemma_totals_row_bound(t: Seq<(Seq<char>, u64)>, es: Seq<(Seq<char>, u64)>, k: int)
    requires
        is_totals_table(t, es),
        0 <= k < t.len(),
    ensures
        t[k].1 == bytes_for(es, t[k].0),
{
    reveal(is_totals_table);
}

/// Add `lang`'s `bytes` to a totals table.
fn add_to_totals(t: &mut Vec<(String, u64)>, lang: &String, bytes: u64, Ghost(es): Ghost<Seq<(Seq<char>, u64)>>)
    requires
        is_totals_table(entries_view(old(t)@), es),
        bytes_total(es.push((lang@, bytes))) <= u64::MAX,
    ensures
        is_totals_table(entries_view(final(t)@), es.push((lang@, bytes))),
{
    let ghost x = (lang@, bytes);
    let ghost before = entries_view(t@);
    let mut k: usize = 0;
    while k < t.len() && text_lt_exec(t[k].0.as_str(), lang.as_str())
        invariant
            k <= t@.len(),
            before == entries_view(t@),
            forall|a: int| 0 <= a < k ==> text_lt(#[trigger] before[a].0, lang@),
        decreases t@.len() - k,
    {
        k += 1;
    }
    if k < t.len() && crate::chars::str_eq(t[k].0.as_str(), lang.as_str()) {
        let old_n = t[k].1;
        proof {
            lemma_totals_row_bound(before, es, k as int);
            lemma_bytes_for_push(es, x);
            lemma_bytes_for_bound(es.push(x), lang@);
        }
        let name = t[k].0.clone();
        t.set(k, (name, old_n + bytes));
        proof {
            assert(entries_view(t@) =~= before.update(k as int, (lang@, (old_n + bytes) as u64)));
            lemma_totals_update(before, es, k as int, x, (old_n + bytes) as u64);
        }
    } else {
        t.insert(k, (lang.clone(), bytes));
        proof {
            assert(entries_view(t@) =~= before.insert(k as int, x));
            lemma_totals_insert(before, es, k as int, x);
        }
    }
}

/// Bytes per language summed over the repositories, in language-name
/// order, and the bytes of all languages.
pub fn language_totals(repos: &Vec<RepoSnapshot>) -> (r: (Vec<(String, u64)>, u64))
    requires
        bytes_total(language_entries(repos@)) <= u64::MAX,
    ensures
        is_totals_table(entries_view(r.0@), language_entries(repos@)),
        r.1 == bytes_total(language_entries(repos@)),
{
    let ghost rs = repos@;
    let mut t: Vec<(String, u64)> = Vec::new();
    let mut grand: u64 = 0;
    let mut i: usize = 0;
    proof {
        reveal(is_totals_table);
        assert(rs.take(0) =~= Seq::<RepoSnapshot>::empty());
        assert(entries_view(t@) =~= Seq::<(Seq<char>, u64)>::empty());
    }
    while i < repos.len()
        invariant
            i <= rs.len(),
            rs == repos@,
            bytes_total(language_entries(rs)) <= u64::MAX,
            is_totals_table(entries_view(t@), language_entries(rs.take(i as int))),
            grand == bytes_total(language_entries(rs.take(i as int))),
        decreases rs.len() - i,
    {
        let langs = &repos[i].languages;
        let ghost done = language_entries(rs.take(i as int));
        let ghost all_here = entries_view(langs@);
        proof {
            lemma_entries_prefix(rs, i + 1);
            assert(rs.take(i + 1).drop_last() =~= rs.take(i as int));
            assert(language_entries(rs.take(i + 1)) == done + all_here);
        }
        let mut j: usize = 0;
        proof {
            assert(done + all_here.take(0) =~= done);
        }
        while j < langs.len()
            invariant
                j <= langs@.len(),
                all_here == entries_view(langs@),
                bytes_total(done + all_here) <= u64::MAX,
                is_totals_table(entries_view(t@), done + all_here.take(j as int)),
                grand == bytes_total(done + all_here.take(j as int)),
            decreases langs@.len() - j,
        {
            let ghost cur = done + all_here.take(j as int);
            let ghost next = done + all_here.take(j + 1);
            proof {
                assert(next =~= cur.push((langs@[j as int].0@, langs@[j as int].1)));
                lemma_bytes_total_append(next, all_here.skip(j + 1));
                assert(next + all_here.skip(j + 1) =~= done + all_here);
            }
            proof {
                assert(bytes_total(next) == bytes_total(cur) + langs@[j as int].1) by {
                    assert(next.drop_last() =~= cur);
                }
            }
            add_to_totals(&mut t, &langs[j].0, langs[j].1, Ghost(cur));
            grand = grand + langs[j].1;
            j += 1;
        }
        proof {
            assert(all_here.take(j as int) =~= all_here);
        }
        i += 1;
    }
    proof {
        assert(rs.take(i as int) =~= rs);
    }
    (t, grand)
}

// ─── Which repositories come first ──────────────────────────────────────

/// Position `a` (with its star count) comes no later than position `b`:
/// more stars first, equal counts in their original order.
pub open spec fn star_le(a: (usize, u32), b: (usize, u32)) -> bool {
    a.1 > b.1 || (a.1 == b.1 && a.0 <= b.0)
}

/// [`star_le`] as a relation.
pub open spec fn star_order() -> spec_fn((usize, u32), (usize, u32)) -> bool {
    |a: (usize, u32), b: (usize, u32)| star_le(a, b)
}

pub proof fn star_le_is_total_order()
    ensures
        total_ordering(star_order()),
{
}

/// Each repository's position with its star count.
pub open spec fn positions_with_stars(v: Seq<RepoApiResponse>) -> Seq<(usize, u32)> {
    Seq::new(v.len(), |i: int| (i as usize, v[i].stargazers_count))
}

/// The positions of the repositories, most-starred first, ties in their
/// original order (a stable sort by descending stars).
pub open spec fn star_ranking(v: Seq<RepoApiResponse>) -> Seq<(usize, u32)> {
    positions_with_stars(v).sort_by(star_order())
}

/// The ranking lists every position once, each with its star count.
proof fn lemma_star_ranking(v: Seq<RepoApiResponse>)
    requires
        v.len() <= usize::MAX,
    ensures
        star_ranking(v).len() == v.len(),
        forall|t: int| 0 <= t < v.len() ==> (#[trigger] star_ranking(v)[t]).0 < v.len()
            && star_ranking(v)[t].1 == v[star_ranking(v)[t].0 as int].stargazers_count,
        forall|a: int, b: int| 0 <= a < v.len() && 0 <= b < v.len() && a != b ==> (#[trigger] star_ranking(v)[a]).0
            != (#[trigger] star_ranking(v)[b]).0,
{
    broadcast use vstd::seq_lib::group_to_multiset_ensures;
    let es = positions_with_stars(v);
    let rk = star_ranking(v);
    es.lemma_sort_by_ensures(star_order());
    vstd::seq_lib::to_multiset_len(es);
    vstd::seq_lib::to_multiset_len(rk);
    assert(rk.len() == v.len());
    assert(es.no_duplicates()) by {
        assert forall|i: int, j: int| 0 <= i < es.len() && 0 <= j < es.len() && i != j implies es[i] != es[j] by {
            assert(es[i].0 == i as usize && es[j].0 == j as usize);
        }
    }
    es.lemma_multiset_has_no_duplicates();
    rk.lemma_multiset_has_no_duplicates_conv();
    assert forall|t: int| 0 <= t < v.len() implies (#[trigger] rk[t]).0 < v.len()
        && rk[t].1 == v[rk[t].0 as int].stargazers_count by {
        assert(rk.contains(rk[t]));
        assert(es.contains(rk[t]));
        let i = choose|i: int| 0 <= i < es.len() && es[i] == rk[t];
        assert(es[i].0 == i as usize);
    }
    assert forall|a: int, b: int| 0 <= a < v.len() && 0 <= b < v.len() && a != b implies (#[trigger] rk[a]).0
        != (#[trigger] rk[b]).0 by {
        if rk[a].0 == rk[b].0 {
            assert(rk[a] == rk[b]);
        }
    }
}

/// Insert `x` into a list sorted by [`star_le`], keeping it sorted.
fn insert_by_stars(out: &mut Vec<(usize, u32)>, x: (usize, u32))
    requires
        sorted_by(old(out)@, star_order()),
    ensures
        sorted_by(final(out)@, star_order()),
        final(out)@.to_multiset() == old(out)@.to_multiset().insert(x),
{
    let ghost before = out@;
    let mut k: usize = 0;
    while k < out.len() && (out[k].1 > x.1 || (out[k].1 == x.1 && out[k].0 <= x.0))
        invariant
            k <= out@.len(),
            before == out@,
            forall|j: int| 0 <= j < k ==> star_le(#[trigger] before[j], x),
        decreases out@.len() - k,
    {
        k += 1;
    }
    out.insert(k, x);
    proof {
        let leq = star_order();
        let after = out@;
        vstd::seq_lib::to_multiset_insert(before, k as int, x);
        assert forall|i: int, j: int| 0 <= i < j < after.len() implies #[trigger] leq(after[i], after[j]) by {
            if j < k {
                assert(leq(before[i], before[j]));
            } else if j == k {
                assert(after[i] == before[i]);
            } else if i == k {
                assert(after[j] == before[j - 1]);
                if j - 1 > k {
                    assert(leq(before[k as int], before[j - 1]));
                }
            } else if i < k {
                assert(leq(before[i], before[j - 1]));
            } else {
                assert(leq(before[i - 1], before[j - 1]));
            }
        }
    }
}

/// The repositories, most-starred first, ties in their original order:
/// the order in which the sync deep-fetches them.
pub fn rank_by_stars(repos: Vec<RepoApiResponse>) -> (r: Vec<RepoApiResponse>)
    ensures
        r@.len() == repos@.len(),
        forall|k: int| 0 <= k < r@.len() ==> #[trigger] r@[k] == repos@[star_ranking(repos@)[k].0 as int],
{
    let n = repos.len();
    let ghost v = repos@;
    let ghost es = positions_with_stars(v);
    // The positions with their stars, sorted.
    let mut order: Vec<(usize, u32)> = Vec::new();
    let mut i: usize = 0;
    proof {
        assert(es.take(0) =~= Seq::<(usize, u32)>::empty());
    }
    while i < n
        invariant
            i <= n,
            n == v.len(),
            repos@ == v,
            es == positions_with_stars(v),
            sorted_by(order@, star_order()),
            order@.to_multiset() == es.take(i as int).to_multiset(),
        decreases n - i,
    {
        let x = (i, repos[i].stargazers_count);
        proof {
            assert(es.take(i + 1) =~= es.take(i as int).push(x));
            vstd::seq_lib::to_multiset_insert(es.take(i as int), i as int, x);
            assert(es.take(i as int).insert(i as int, x) =~= es.take(i as int).push(x));
        }
        insert_by_stars(&mut order, x);
        i += 1;
    }
    proof {
        assert(es.take(n as int) =~= es);
        star_le_is_total_order();
        es.lemma_sort_by_ensures(star_order());
        vstd::seq_lib::lemma_sorted_unique(order@, es.sort_by(star_order()), star_order());
        lemma_star_ranking(v);
    }
    // The repositories in slots, last first.
    let mut slots: Vec<Option<RepoApiResponse>> = Vec::new();
    let mut rest = repos;
    while rest.len() > 0
        invariant
            rest@.len() + slots@.len() == n,
            rest@ == v.take(rest@.len() as int),
            n == v.len(),
            forall|s: int| 0 <= s < slots@.len() ==> #[trigger] slots@[s] == Some(v[n - 1 - s]),
        decreases rest@.len(),
    {
        let ghost m = rest@.len() as int;
        let x = rest.pop().unwrap();
        proof {
            assert(v.take(m)[m - 1] == v[m - 1]);
        }
        slots.push(Some(x));
        proof {
            assert(rest@ =~= v.take(m - 1));
        }
    }
    // Take them out in ranking order.
    let mut out: Vec<RepoApiResponse> = Vec::new();
    let mut k: usize = 0;
    while k < n
        invariant
            k <= n,
            n == v.len(),
            order@ == star_ranking(v),
            order@.len() == n,
            slots@.len() == n,
            out@.len() == k,
            forall|t: int| 0 <= t < n ==> (#[trigger] order@[t]).0 < n,
            forall|a: int, b: int| 0 <= a < n && 0 <= b < n && a != b ==> (#[trigger] order@[a]).0
                != (#[trigger] order@[b]).0,
            forall|t: int| k <= t < n ==> slots@[n - 1 - (#[trigger] order@[t]).0] == Some(v[order@[t].0 as int]),
            forall|t: int| 0 <= t < k ==> #[trigger] out@[t] == v[order@[t].0 as int],
        decreases n - k,
    {
        let j = order[k].0;
        let s = n - 1 - j;
        let mut taken: Option<RepoApiResponse> = None;
        let ghost before = slots@;
        std::mem::swap(&mut slots[s], &mut taken);
        proof {
            assert(taken == Some(v[j as int]));
            assert forall|t: int| k < t < n implies slots@[n - 1 - (#[trigger] order@[t]).0] == Some(
                v[order@[t].0 as int],
            ) by {
                assert(order@[t].0 != order@[k as int].0);
                assert(slots@[n - 1 - order@[t].0] == before[n - 1 - order@[t].0]);
            }
        }
        match taken {
            Some(x) => {
                out.push(x);
            },
            None => {
                proof {
                    assert(false);
                }
            },
        }
        k += 1;
    }
    out
}

// ─── Timestamps ─────────────────────────────────────────────────────────

/// The proleptic Gregorian date `z` days after 0000-03-01 (shifted so the
/// leap day ends the year), by Howard Hinnant's `civil_from_days`: year,
/// month (1–12), day (1–31).
pub open spec fn civil_from_shifted_days(z: nat) -> (nat, nat, nat) {
    let era = z / 146097;
    let doe = z % 146097;
    let yoe = (doe - doe / 1460 + doe / 36524 - doe / 146096) / 365;
    let doy = doe - (365 * yoe + yoe / 4 - yoe / 100);
    let mp = (5 * doy + 2) / 153;
    let d = doy - (153 * mp + 2) / 5 + 1;
    let m = if mp < 10 {
        mp + 3
    } else {
        mp - 9
    };
    let y = yoe + era * 400 + if m <= 2 {
        1nat
    } else {
        0nat
    };
    (y as nat, m as nat, d as nat)
}

/// Seconds since the Unix epoch as UTC year, month, day, hour, minute,
/// second. The year is truncated to `u32`.
#[verifier::rlimit(60)]
pub fn epoch_seconds_to_ymdhms(secs: u64) -> (r: (u32, u32, u32, u32, u32, u32))
    ensures
        ({
            let (y, m, d) = civil_from_shifted_days((secs / 86400 + 719468) as nat);
            &&& r.0 == y as u32
            &&& r.1 == m && r.2 == d
        }),
        1 <= r.1 <= 12,
        1 <= r.2 <= 31,
        r.3 == (secs % 86400) / 3600,
        r.4 == (secs % 3600) / 60,
        r.5 == secs % 60,
        r.3 < 24 && r.4 < 60 && r.5 < 60,
{
    let days: u64 = secs / 86400;
    let rem: u64 = secs % 86400;
    let hh = (rem / 3600) as u32;
    let mm = ((rem % 3600) / 60) as u32;
    let ss = (rem % 60) as u32;
    assert((secs % 86400) % 3600 == secs % 3600) by (nonlinear_arith);
    assert((secs % 86400) % 60 == secs % 60) by (nonlinear_arith);
    let z: u64 = days + 719468;
    let era: u64 = z / 146097;
    let doe: u64 = z % 146097;
    let yoe: u64 = (doe - doe / 1460 + doe / 36524 - doe / 146096) / 365;
    assert(yoe <= 399);
    let doy: u64 = doe - (365 * yoe + yoe / 4 - yoe / 100);
    assert(doy <= 365);
    let mp: u64 = (5 * doy + 2) / 153;
    assert(mp <= 11);
    let d: u64 = doy - (153 * mp + 2) / 5 + 1;
    let m: u64 = if mp < 10 {
        mp + 3
    } else {
        mp - 9
    };
    let y: u64 = yoe + era * 400 + if m <= 2 {
        1
    } else {
        0
    };
    assert(1 <= d <= 31);
    (y as u32, m as u32, d as u32, hh, mm, ss)
}


/// `n` in decimal, padded with leading zeros to at least `w` digits (what
/// `{:0w}` writes for an unsigned integer).
pub open spec fn zero_padded(n: nat, w: nat) -> Seq<char> {
    let d = dec_string(n);
    if d.len() < w {
        Seq::new((w - d.len()) as nat, |i: int| '0') + d
    } else {
        d
    }
}

fn push_zero_padded(out: &mut Vec<char>, n: u32, w: usize)
    ensures
        final(out)@ == old(out)@ + zero_padded(n as nat, w as nat),
{
    let d = dec_chars(n as u64);
    let ghost start = out@;
    let mut k: usize = d.len();
    while k < w
        invariant
            d.len() <= k <= w || (w <= d.len() && k == d.len()),
            d@ == dec_string(n as nat),
            out@ == start + Seq::new((k - d.len()) as nat, |i: int| '0'),
        decreases w - k,
    {
        out.push('0');
        k += 1;
        assert(out@ =~= start + Seq::new((k - d.len()) as nat, |i: int| '0'));
    }
    push_all(out, d.as_slice());
    if d.len() >= w {
        assert(out@ =~= start + d@);
    }
}

/// The RFC 3339 UTC timestamp `YYYY-MM-DDTHH:MM:SSZ` for seconds since the
/// Unix epoch.
pub fn rfc3339_utc(secs: u64) -> (r: String)
    ensures
        ({
            let (y, m, d) = civil_from_shifted_days((secs / 86400 + 719468) as nat);
            r@ == zero_padded((y as u32) as nat, 4) + "-"@ + zero_padded(m, 2) + "-"@ + zero_padded(d, 2)
                + "T"@ + zero_padded(((secs % 86400) / 3600) as nat, 2) + ":"@ + zero_padded(
                ((secs % 3600) / 60) as nat,
                2,
            ) + ":"@ + zero_padded((secs % 60) as nat, 2) + "Z"@
        }),
{
    let (y, m, d, hh, mm, ss) = epoch_seconds_to_ymdhms(secs);
    let mut out: Vec<char> = Vec::new();
    push_zero_padded(&mut out, y, 4);
    push_str(&mut out, "-");
    push_zero_padded(&mut out, m, 2);
    push_str(&mut out, "-");
    push_zero_padded(&mut out, d, 2);
    push_str(&mut out, "T");
    push_zero_padded(&mut out, hh, 2);
    push_str(&mut out, ":");
    push_zero_padded(&mut out, mm, 2);
    push_str(&mut out, ":");
    push_zero_padded(&mut out, ss, 2);
    push_str(&mut out, "Z");
    string_of(out.as_slice())
}

} // verus!
