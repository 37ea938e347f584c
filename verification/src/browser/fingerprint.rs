//! Anti-fingerprint settings: what the browser tells pages about itself,
//! the preset profiles, and per-host overrides chosen by glob patterns.
use vstd::prelude::*;
use crate::browser::url::not_char;
use crate::chars::{chars_of, copy_range, ends_with, find, has_sub, is_prefix, is_suffix, occurs_at, run_len, starts_with};

verus! {

/// What the browser reports about itself. `None` leaves a signal at the
/// platform's own value.
#[derive(Debug, Clone, PartialEq, Eq)]
pub struct FingerprintProfile {
    pub user_agent: Option<String>,
    /// `navigator.webdriver`; false means automation is not advertised.
    pub navigator_webdriver: bool,
    pub navigator_platform: Option<String>,
    /// Locale list, such as `en-US`, `en`; empty leaves the host's.
    pub languages: Vec<String>,
    /// IANA time zone; `None` keeps the host's.
    pub timezone: Option<String>,
    /// Logical screen width and height in CSS pixels.
    pub screen: Option<(u32, u32)>,
    pub hardware_concurrency: Option<u8>,
    /// Per-session noise on canvas reads (breaks some image CAPTCHAs).
    pub canvas_noise: bool,
    /// Per-session WebGL vendor and renderer strings.
    pub webgl_noise: bool,
}

/// No signal is changed.
pub open spec fn is_unspoofed(p: FingerprintProfile) -> bool {
    &&& p.user_agent is None
    &&& !p.navigator_webdriver
    &&& p.navigator_platform is None
    &&& p.languages@.len() == 0
    &&& p.timezone is None
    &&& p.screen is None
    &&& p.hardware_concurrency is None
    &&& !p.canvas_noise
    &&& !p.webgl_noise
}

impl Default for FingerprintProfile {
    fn default() -> (r: FingerprintProfile)
        ensures
            is_unspoofed(r),
    {
        FingerprintProfile::natural()
    }
}

impl FingerprintProfile {
    /// The default preset: look like a stock browser on the user's own
    /// platform, with no noise that could break CAPTCHAs.
    pub fn balanced() -> (r: FingerprintProfile)
        ensures
            is_unspoofed(r),
    {
        FingerprintProfile::natural()
    }

    /// Spoof every signal within reach and add canvas and WebGL noise; for
    /// vendors that fingerprint hard.
    pub fn paranoid() -> (r: FingerprintProfile)
        ensures
            r.user_agent matches Some(u) && u@
                == "Mozilla/5.0 (X11; Linux x86_64; rv:128.0) Gecko/20100101 Firefox/128.0"@,
            !r.navigator_webdriver,
            r.navigator_platform matches Some(p) && p@ == "Linux x86_64"@,
            r.languages@.len() == 2 && r.languages@[0]@ == "en-US"@ && r.languages@[1]@ == "en"@,
            r.timezone is None,
            r.screen == Some((1920u32, 1080u32)),
            r.hardware_concurrency == Some(8u8),
            r.canvas_noise && r.webgl_noise,
    {
        FingerprintProfile {
            user_agent: Some(
                "Mozilla/5.0 (X11; Linux x86_64; rv:128.0) Gecko/20100101 Firefox/128.0".to_owned(),
            ),
            navigator_webdriver: false,
            navigator_platform: Some("Linux x86_64".to_owned()),
            languages: vec!["en-US".to_owned(), "en".to_owned()],
            timezone: None,
            screen: Some((1920, 1080)),
            hardware_concurrency: Some(8),
            canvas_noise: true,
            webgl_noise: true,
        }
    }

    /// Change nothing: the engine's own fingerprint goes out.
    pub fn natural() -> (r: FingerprintProfile)
        ensures
            is_unspoofed(r),
    {
        FingerprintProfile {
            user_agent: None,
            navigator_webdriver: false,
            navigator_platform: None,
            languages: Vec::new(),
            timezone: None,
            screen: None,
            hardware_concurrency: None,
            canvas_noise: false,
            webgl_noise: false,
        }
    }
}

/// A profile for the hosts a glob pattern matches.
#[derive(Debug, Clone, PartialEq, Eq)]
pub struct HostOverride {
    pub pattern: String,
    pub profile: FingerprintProfile,
}

impl Default for HostOverride {
    fn default() -> (r: HostOverride)
        ensures
            r.pattern@.len() == 0,
            is_unspoofed(r.profile),
    {
        HostOverride { pattern: String::new(), profile: FingerprintProfile::natural() }
    }
}

/// Per-host overrides, in order; the first pattern that matches wins.
#[derive(Debug, Clone, PartialEq, Eq)]
pub struct FingerprintOverrides {
    pub by_host: Vec<HostOverride>,
}

impl Default for FingerprintOverrides {
    fn default() -> (r: FingerprintOverrides)
        ensures
            r.by_host@.len() == 0,
    {
        FingerprintOverrides { by_host: Vec::new() }
    }
}

// ─── Glob patterns ──────────────────────────────────────────────────────

/// The pieces of `s` between the occurrences of `c` (`str::split`).
pub open spec fn split_on(s: Seq<char>, c: char) -> Seq<Seq<char>>
    decreases s.len(),
{
    let k = run_len(s, not_char(c));
    if k < s.len() {
        seq![s.take(k as int)] + split_on(s.skip((k + 1) as int), c)
    } else {
        seq![s]
    }
}

/// `pos` places the parts of a pattern in `t`: each part occurs at its
/// position, in order and without overlapping, the first at the start
/// and the last at the end.
pub open spec fn placement(parts: Seq<Seq<char>>, t: Seq<char>, pos: Seq<int>) -> bool {
    &&& pos.len() == parts.len()
    &&& parts.len() > 0
    &&& pos[0] == 0
    &&& pos[parts.len() - 1] + parts[parts.len() - 1].len() == t.len()
    &&& forall|i: int| 0 <= i < parts.len() ==> occurs_at(t, #[trigger] parts[i], pos[i])
    &&& forall|i: int| 0 <= i < parts.len() - 1 ==> #[trigger] pos[i] + parts[i].len() <= pos[i + 1]
}

/// Glob matching where `*` stands for any run of characters and every
/// other character for itself: `t` is `P0 x1 P1 … xk Pk` for the pieces
/// `Pi` of the pattern between its stars and some texts `xi`.
pub open spec fn glob_matches(pattern: Seq<char>, t: Seq<char>) -> bool {
    let parts = split_on(pattern, '*');
    if parts.len() == 1 {
        t == pattern
    } else {
        exists|pos: Seq<int>| #[trigger] placement(parts, t, pos)
    }
}

proof fn lemma_split_len(s: Seq<char>, c: char)
    ensures
        split_on(s, c).len() >= 1,
        !s.contains(c) ==> split_on(s, c) == seq![s],
        s.contains(c) ==> split_on(s, c).len() >= 2,
    decreases s.len(),
{
    crate::chars::lemma_run_len_bound(s, not_char(c));
    let k = run_len(s, not_char(c));
    if k < s.len() {
        lemma_split_len(s.skip((k + 1) as int), c);
        assert(s[k as int] == c);
        assert(s.contains(c));
    } else {
        if s.contains(c) {
            let j = choose|j: int| 0 <= j < s.len() && s[j] == c;
            assert((not_char(c))(s[j]));
        }
    }
}

proof fn lemma_no_placement(pattern: Seq<char>, t: Seq<char>, ps: Seq<Seq<char>>)
    requires
        ps == split_on(pattern, '*'),
        ps.len() >= 2,
        forall|pos: Seq<int>| !#[trigger] placement(ps, t, pos),
    ensures
        !glob_matches(pattern, t),
{
    if glob_matches(pattern, t) {
        let pos = choose|pos: Seq<int>| #[trigger] placement(ps, t, pos);
        assert(placement(ps, t, pos));
    }
}

/// Split a pattern at its stars.
fn split_stars(s: &[char]) -> (r: Vec<Vec<char>>)
    ensures
        r.deep_view() == split_on(s@, '*'),
{
    let mut out: Vec<Vec<char>> = Vec::new();
    let mut i: usize = 0;
    assert(s@.skip(0) =~= s@);
    loop
        invariant
            i <= s@.len(),
            split_on(s@, '*') == out.deep_view() + split_on(s@.skip(i as int), '*'),
        decreases s@.len() - i,
    {
        let mut j = i;
        while j < s.len() && s[j] != '*'
            invariant
                i <= j <= s@.len(),
                forall|k: int| i <= k < j ==> s@[k] != '*',
            decreases s@.len() - j,
        {
            j += 1;
        }
        let ghost rest = s@.skip(i as int);
        let ghost before = out.deep_view();
        proof {
            crate::chars::lemma_run_len_exact(s@, not_char('*'), i as int, j as int);
        }
        let piece = copy_range(s, i, j);
        assert(piece.deep_view() =~= piece@);
        out.push(piece);
        if j < s.len() {
            proof {
                assert(rest.take(j - i) =~= s@.subrange(i as int, j as int));
                assert(rest.skip(j - i + 1) =~= s@.skip(j + 1));
            }
            assert(out.deep_view() =~= before.push(rest.take(j - i)));
            assert(out.deep_view() + split_on(s@.skip(j + 1), '*') =~= before + split_on(rest, '*'));
            i = j + 1;
        } else {
            assert(rest =~= s@.subrange(i as int, j as int));
            assert(out.deep_view() =~= before.push(rest));
            assert(split_on(rest, '*') =~= seq![rest]);
            assert(split_on(s@, '*') =~= out.deep_view());
            return out;
        }
    }
}

/// First position at or after `from` where `part` occurs in `t`.
fn find_from(t: &[char], part: &[char], from: usize) -> (r: Option<usize>)
    requires
        from <= t@.len(),
    ensures
        r matches Some(q) ==> from <= q && occurs_at(t@, part@, q as int) && forall|j: int|
            from <= j < q ==> !occurs_at(t@, part@, j),
        r is None ==> forall|j: int| from <= j ==> !occurs_at(t@, part@, j),
{
    let rest = copy_range(t, from, t.len());
    assert(rest@ =~= t@.skip(from as int));
    match find(rest.as_slice(), part) {
        Some(k) => {
            assert(rest@.subrange(k as int, k + part@.len()) =~= t@.subrange(
                from + k,
                from + k + part@.len(),
            ));
            assert forall|j: int| from <= j < from + k implies !occurs_at(t@, part@, j) by {
                if occurs_at(t@, part@, j) {
                    assert(rest@.subrange(j - from, j - from + part@.len()) =~= t@.subrange(
                        j,
                        j + part@.len(),
                    ));
                    assert(occurs_at(rest@, part@, j - from));
                }
            }
            Some(from + k)
        },
        None => {
            assert forall|j: int| from <= j implies !occurs_at(t@, part@, j) by {
                if occurs_at(t@, part@, j) {
                    assert(rest@.subrange(j - from, j - from + part@.len()) =~= t@.subrange(
                        j,
                        j + part@.len(),
                    ));
                    assert(occurs_at(rest@, part@, j - from));
                }
            }
            None
        },
    }
}

/// Whether a glob pattern matches `target`: `*` matches any run of
/// characters, everything else matches itself. Each piece between stars
/// is found at its leftmost place after the previous one; the first piece
/// must start the target and the last must end it.
pub fn matches_glob(pattern: &str, target: &str) -> (r: bool)
    ensures
        r == glob_matches(pattern@, target@),
{
    let p = chars_of(pattern);
    let t = chars_of(target);
    proof {
        lemma_split_len(p@, '*');
    }
    if !crate::chars::contains_char(p.as_slice(), '*') {
        return crate::chars::chars_eq(p.as_slice(), t.as_slice());
    }
    let parts = split_stars(p.as_slice());
    let ghost ps = parts.deep_view();
    let n = parts.len();
    let ghost last = n - 1;
    let mut idx: usize = 0;
    let ghost mut gpos: Seq<int> = Seq::empty();
    let mut i: usize = 0;
    while i < n
        invariant
            n == parts@.len(),
            n >= 2,
            ps == parts.deep_view(),
            ps == split_on(p@, '*'),
            last == n - 1,
            i <= n,
            idx <= t@.len(),
            gpos.len() == i,
            i > 0 ==> gpos[0] == 0,
            forall|j: int| 0 <= j < i ==> occurs_at(t@, #[trigger] ps[j], gpos[j]),
            forall|j: int| 0 <= j < i - 1 ==> #[trigger] gpos[j] + ps[j].len() <= gpos[j + 1],
            i > 0 ==> gpos[i - 1] + ps[i - 1].len() == idx,
            i == 0 ==> idx == 0,
            p@ == pattern@,
            t@ == target@,
            i > 0 && i == n ==> gpos[i - 1] + ps[i - 1].len() == t@.len(),
            forall|pos: Seq<int>| #[trigger] placement(ps, t@, pos) && i > 0 ==> idx <= pos[i - 1]
                + ps[i - 1].len(),
        decreases n - i,
    {
        let part = &parts[i];
        proof {
            assert(part@ == ps[i as int]);
        }
        if part.len() == 0 {
            let here: usize = if i == n - 1 {
                t.len()
            } else {
                idx
            };
            proof {
                assert(occurs_at(t@, ps[i as int], here as int)) by {
                    assert(t@.subrange(here as int, here as int) =~= ps[i as int]);
                }
                gpos = gpos.push(here as int);
                assert forall|pos: Seq<int>| #[trigger] placement(ps, t@, pos) implies here <= pos[i as int]
                    + ps[i as int].len() by {
                    if i == n - 1 {
                        assert(pos[last] + ps[last].len() == t@.len());
                    } else if i > 0 {
                        assert(idx <= pos[i - 1] + ps[i - 1].len());
                        assert(pos[i - 1] + ps[i - 1].len() <= pos[i as int]);
                    } else {
                        assert(pos[0] == 0);
                    }
                }
            }
            idx = here;
        } else {
            if i == 0 && !starts_with(t.as_slice(), part.as_slice()) {
                proof {
                    assert forall|pos: Seq<int>| !#[trigger] placement(ps, t@, pos) by {
                        if placement(ps, t@, pos) {
                            assert(occurs_at(t@, ps[0], pos[0]));
                            assert(t@.take(ps[0].len() as int) =~= t@.subrange(0, ps[0].len() as int));
                        }
                    }
                    lemma_no_placement(pattern@, target@, ps);
                }
                return false;
            }
            if i == n - 1 && !ends_with(t.as_slice(), part.as_slice()) {
                proof {
                    assert forall|pos: Seq<int>| !#[trigger] placement(ps, t@, pos) by {
                        if placement(ps, t@, pos) {
                            let q = pos[last];
                            assert(occurs_at(t@, ps[last], q));
                            assert(t@.skip(t@.len() - ps[last].len()) =~= t@.subrange(q, q + ps[last].len()));
                        }
                    }
                    lemma_no_placement(pattern@, target@, ps);
                }
                return false;
            }
            match find_from(t.as_slice(), part.as_slice(), idx) {
                Some(q) => {
                    let here: usize = if i == n - 1 {
                        t.len() - part.len()
                    } else {
                        q
                    };
                    proof {
                        if i == 0 {
                            assert(t@.take(part@.len() as int) =~= t@.subrange(0, part@.len() as int));
                            assert(occurs_at(t@, part@, 0));
                            assert(q == 0);
                        }
                        if i == n - 1 {
                            assert(t@.skip(t@.len() - part@.len()) =~= t@.subrange(
                                here as int,
                                here + part@.len(),
                            ));
                        }
                        gpos = gpos.push(here as int);
                        assert forall|pos: Seq<int>| #[trigger] placement(ps, t@, pos) implies here
                            + part@.len() <= pos[i as int] + ps[i as int].len() by {
                            if i == n - 1 {
                            } else {
                                if i > 0 {
                                    assert(pos[i - 1] + ps[i - 1].len() <= pos[i as int]);
                                } else {
                                    assert(pos[0] == 0);
                                }
                                assert(occurs_at(t@, ps[i as int], pos[i as int]));
                            }
                        }
                    }
                    let tl = t.len();
                    assert(occurs_at(t@, part@, here as int));
                    assert(here + part@.len() <= tl);
                    idx = here + part.len();
                },
                None => {
                    proof {
                        assert forall|pos: Seq<int>| !#[trigger] placement(ps, t@, pos) by {
                            if placement(ps, t@, pos) {
                                if i > 0 {
                                    assert(pos[i - 1] + ps[i - 1].len() <= pos[i as int]);
                                } else {
                                    assert(pos[0] == 0);
                                }
                                assert(occurs_at(t@, ps[i as int], pos[i as int]));
                            }
                        }
                        lemma_no_placement(pattern@, target@, ps);
                    }
                    return false;
                },
            }
        }
        i += 1;
    }
    assert(placement(ps, t@, gpos));
    true
}

impl FingerprintOverrides {
    /// The profile for a host: that of the first override whose pattern
    /// matches it, or `None` to use the global profile.
    pub fn resolve(&self, host: &str) -> (r: Option<&FingerprintProfile>)
        ensures
            match r {
                Some(p) => exists|i: int|
                    0 <= i < self.by_host@.len() && glob_matches(self.by_host@[i].pattern@, host@) && *p
                        == self.by_host@[i].profile && forall|j: int|
                        0 <= j < i ==> !glob_matches(#[trigger] self.by_host@[j].pattern@, host@),
                None => forall|j: int|
                    0 <= j < self.by_host@.len() ==> !glob_matches(#[trigger] self.by_host@[j].pattern@, host@),
            },
    {
        let mut i: usize = 0;
        while i < self.by_host.len()
            invariant
                i <= self.by_host@.len(),
                forall|j: int| 0 <= j < i ==> !glob_matches(#[trigger] self.by_host@[j].pattern@, host@),
            decreases self.by_host@.len() - i,
        {
            let entry = &self.by_host[i];
            if matches_glob(entry.pattern.as_str(), host) {
                return Some(&entry.profile);
            }
            i += 1;
        }
        None
    }
}

} // verus!
