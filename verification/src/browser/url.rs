//! URLs as the browser needs them: split into scheme, host, port, path,
//! query and fragment; parsed permissively from what the user types and
//! written back out.
use vstd::prelude::*;
use crate::chars::{
    chars_of, copy_range, find, has_sub, is_prefix, is_ws, occurs_at, push_all, run_len,
    starts_with, string_of, trim, trim_bounds, lemma_run_len_exact,
};
use crate::decimal::{all_digits, dec_chars, dec_string, parse_u16, parse_u16_digits};

verus! {

/// Parsed URL. Fields are private: every value comes from [`Url::parse`]
/// or one of the named constructors.
#[derive(Debug, Clone, PartialEq, Eq)]
pub struct Url {
    scheme: String,
    host: String,
    port: Option<u16>,
    path: String,
    query: String,
    fragment: String,
}

/// The abstract value of a [`Url`].
pub struct UrlView {
    pub scheme: Seq<char>,
    pub host: Seq<char>,
    pub port: Option<u16>,
    pub path: Seq<char>,
    pub query: Seq<char>,
    pub fragment: Seq<char>,
}

impl View for Url {
    type V = UrlView;

    closed spec fn view(&self) -> UrlView {
        UrlView {
            scheme: self.scheme@,
            host: self.host@,
            port: self.port,
            path: self.path@,
            query: self.query@,
            fragment: self.fragment@,
        }
    }
}

/// Why a string is not a URL. Each variant carries the offending text.
#[derive(Debug, Clone, PartialEq, Eq)]
pub enum UrlParseError {
    /// No `://` and the text cannot be read as a bare host name; carries
    /// the trimmed input.
    NoSchemeSeparator(String),
    /// Nothing between `://` and the path; carries the trimmed input.
    EmptyHost(String),
    /// The digits after the last `:` of the host do not fit a port;
    /// carries those digits.
    InvalidPort(String),
}

/// The abstract value of a [`UrlParseError`].
pub enum UrlErrorView {
    NoSchemeSeparator(Seq<char>),
    EmptyHost(Seq<char>),
    InvalidPort(Seq<char>),
}

impl View for UrlParseError {
    type V = UrlErrorView;

    open spec fn view(&self) -> UrlErrorView {
        match self {
            UrlParseError::NoSchemeSeparator(s) => UrlErrorView::NoSchemeSeparator(s@),
            UrlParseError::EmptyHost(s) => UrlErrorView::EmptyHost(s@),
            UrlParseError::InvalidPort(s) => UrlErrorView::InvalidPort(s@),
        }
    }
}

// ─── Specification ──────────────────────────────────────────────────────

pub open spec fn sep() -> Seq<char> {
    seq![':', '/', '/']
}

pub open spec fn https_prefix() -> Seq<char> {
    seq!['h', 't', 't', 'p', 's', ':', '/', '/']
}

/// `i` is the first index at which `t` occurs in `s`.
pub open spec fn is_first_occurrence(s: Seq<char>, t: Seq<char>, i: int) -> bool {
    occurs_at(s, t, i) && forall|j: int| 0 <= j < i ==> !occurs_at(s, t, j)
}

pub open spec fn first_occurrence(s: Seq<char>, t: Seq<char>) -> int {
    choose|i: int| is_first_occurrence(s, t, i)
}

pub proof fn lemma_first_occurrence(s: Seq<char>, t: Seq<char>, i: int)
    requires
        is_first_occurrence(s, t, i),
    ensures
        first_occurrence(s, t) == i,
{
    let k = first_occurrence(s, t);
    assert(is_first_occurrence(s, t, k));
    if k < i {
        assert(!occurs_at(s, t, k));
    }
    if i < k {
        assert(!occurs_at(s, t, i));
    }
}

/// Characters other than `x`, `y` and `z`.
pub open spec fn none_of(x: char, y: char, z: char) -> spec_fn(char) -> bool {
    |c: char| !(c == x || c == y || c == z)
}

/// Characters that do not end the authority (`/`, `?`, `#` do).
pub open spec fn not_authority_end() -> spec_fn(char) -> bool {
    none_of('/', '?', '#')
}

pub open spec fn not_char(x: char) -> spec_fn(char) -> bool {
    none_of(x, x, x)
}

/// Index of the last `:` in `s`.
pub open spec fn last_colon(s: Seq<char>) -> Option<int>
    decreases s.len(),
{
    if s.len() == 0 {
        None
    } else if s.last() == ':' {
        Some(s.len() - 1)
    } else {
        last_colon(s.drop_last())
    }
}

/// The text the parser splits: the trimmed input itself when it holds
/// `://`, else `https://` before it; `None` when it is empty or starts
/// with `/`.
pub open spec fn normalize(t: Seq<char>) -> Option<Seq<char>> {
    if has_sub(t, sep()) {
        Some(t)
    } else if t.len() > 0 && t[0] != '/' {
        Some(https_prefix() + t)
    } else {
        None
    }
}

/// Split an authority into host and port: the digits after its last `:`
/// are the port when there is at least one and all are digits.
/// `Err(digits)` when those digits do not fit a `u16`.
pub open spec fn split_host_port(a: Seq<char>) -> Result<(Seq<char>, Option<u16>), Seq<char>> {
    match last_colon(a) {
        Some(c) => {
            let p = a.skip(c + 1);
            if p.len() > 0 && all_digits(p) {
                match parse_u16_digits(p) {
                    Some(n) => Ok((a.take(c), Some(n))),
                    None => Err(p),
                }
            } else {
                Ok((a, None))
            }
        },
        None => Ok((a, None)),
    }
}

/// Split what follows the authority into path, query and fragment:
/// the fragment follows the first `#`, the query follows the first `?`
/// before it.
pub open spec fn split_tail(after: Seq<char>) -> (Seq<char>, Seq<char>, Seq<char>) {
    let h = run_len(after, not_char('#')) as int;
    let fragment = if h < after.len() {
        after.skip(h + 1)
    } else {
        seq![]
    };
    let before_hash = after.take(h);
    let q = run_len(before_hash, not_char('?')) as int;
    let query = if q < before_hash.len() {
        before_hash.skip(q + 1)
    } else {
        seq![]
    };
    (before_hash.take(q), query, fragment)
}

/// Parse what follows `scheme://`; `t` is the trimmed input, for errors.
pub open spec fn parse_rest(scheme: Seq<char>, rest: Seq<char>, t: Seq<char>) -> Result<
    UrlView,
    UrlErrorView,
> {
    let a = run_len(rest, not_authority_end()) as int;
    let authority = rest.take(a);
    if authority.len() == 0 {
        Err(UrlErrorView::EmptyHost(t))
    } else {
        match split_host_port(authority) {
            Err(p) => Err(UrlErrorView::InvalidPort(p)),
            Ok((host, port)) => {
                let (path, query, fragment) = split_tail(rest.skip(a));
                Ok(
                    UrlView {
                        scheme: scheme,
                        host: host,
                        port: port,
                        path: path,
                        query: query,
                        fragment: fragment,
                    },
                )
            },
        }
    }
}

/// What [`Url::parse`] gives for the input text `s`.
pub open spec fn parse_url(s: Seq<char>) -> Result<UrlView, UrlErrorView> {
    let t = trim(s);
    match normalize(t) {
        None => Err(UrlErrorView::NoSchemeSeparator(t)),
        Some(n) => {
            let k = first_occurrence(n, sep());
            parse_rest(n.take(k), n.skip(k + 3), t)
        },
    }
}

/// What [`Url::to_string`] writes: `scheme://host[:port]path[?query][#fragment]`.
pub open spec fn display_url(u: UrlView) -> Seq<char> {
    let port = match u.port {
        Some(p) => seq![':'] + dec_string(p as nat),
        None => seq![],
    };
    let query = if u.query.len() > 0 {
        seq!['?'] + u.query
    } else {
        seq![]
    };
    let fragment = if u.fragment.len() > 0 {
        seq!['#'] + u.fragment
    } else {
        seq![]
    };
    u.scheme + sep() + u.host + port + u.path + query + fragment
}

pub open spec fn is_internal_scheme(u: UrlView) -> bool {
    u.scheme == seq!['a', 't', 's', 'i', 's', 'b', 'r', 'o', 'k', 'e', 'n']
}

pub open spec fn is_network_scheme(u: UrlView) -> bool {
    u.scheme == seq!['h', 't', 't', 'p'] || u.scheme == seq!['h', 't', 't', 'p', 's']
}

// ─── Implementation ─────────────────────────────────────────────────────

/// Index of the first character of `s[from..]` that is `x`, `y` or `z`,
/// or the length of `s` when there is none.
fn scan_until(s: &[char], from: usize, x: char, y: char, z: char) -> (r: usize)
    requires
        from <= s@.len(),
    ensures
        from <= r <= s@.len(),
        r - from == run_len(s@.skip(from as int), none_of(x, y, z)),
{
    let mut j = from;
    while j < s.len() && !(s[j] == x || s[j] == y || s[j] == z)
        invariant
            from <= j <= s@.len(),
            forall|k: int| from <= k < j ==> (none_of(x, y, z))(#[trigger] s@[k]),
        decreases s@.len() - j,
    {
        j += 1;
    }
    proof {
        lemma_run_len_exact(s@, none_of(x, y, z), from as int, j as int);
    }
    j
}

pub fn last_colon_exec(s: &[char]) -> (r: Option<usize>)
    ensures
        r matches Some(c) ==> last_colon(s@) == Some(c as int) && c < s.len(),
        r is None ==> last_colon(s@) is None,
{
    let mut i: usize = s.len();
    assert(s@.take(i as int) =~= s@);
    while i > 0
        invariant
            i <= s@.len(),
            last_colon(s@) == last_colon(s@.take(i as int)),
        decreases i,
    {
        if s[i - 1] == ':' {
            return Some(i - 1);
        }
        assert(s@.take(i as int).drop_last() =~= s@.take(i - 1));
        i -= 1;
    }
    None
}

fn all_ascii_digits(s: &[char]) -> (r: bool)
    ensures
        r == all_digits(s@),
{
    let mut i: usize = 0;
    while i < s.len()
        invariant
            i <= s@.len(),
            forall|k: int| 0 <= k < i ==> ('0' <= #[trigger] s@[k] && s@[k] <= '9'),
        decreases s@.len() - i,
    {
        if !('0' <= s[i] && s[i] <= '9') {
            return false;
        }
        i += 1;
    }
    true
}

fn host_port(a: &[char]) -> (r: Result<(Vec<char>, Option<u16>), Vec<char>>)
    ensures
        match r {
            Ok((h, p)) => split_host_port(a@) == Ok::<(Seq<char>, Option<u16>), Seq<char>>((h@, p)),
            Err(d) => split_host_port(a@) == Err::<(Seq<char>, Option<u16>), Seq<char>>(d@),
        },
{
    match last_colon_exec(a) {
        Some(c) => {
            let p = copy_range(a, c + 1, a.len());
            assert(p@ =~= a@.skip(c + 1));
            if p.len() > 0 && all_ascii_digits(p.as_slice()) {
                match parse_u16(p.as_slice()) {
                    Some(n) => {
                        let h = copy_range(a, 0, c);
                        assert(h@ =~= a@.take(c as int));
                        Ok((h, Some(n)))
                    },
                    None => Err(p),
                }
            } else {
                proof {
                    lemma_take_all(a@);
                }
                Ok((copy_range(a, 0, a.len()), None))
            }
        },
        None => {
            proof {
                lemma_take_all(a@);
            }
            Ok((copy_range(a, 0, a.len()), None))
        },
    }
}

proof fn lemma_take_all(s: Seq<char>)
    ensures
        s.subrange(0, s.len() as int) == s,
{
    assert(s.subrange(0, s.len() as int) =~= s);
}

impl Url {
    /// Construct the URL of an internal `atsisbroken://` page.
    pub fn internal(page: &str) -> (u: Url)
        ensures
            u@.scheme == seq!['a', 't', 's', 'i', 's', 'b', 'r', 'o', 'k', 'e', 'n'],
            u@.host == page@,
            u@.port is None,
            u@.path.len() == 0,
            u@.query.len() == 0,
            u@.fragment.len() == 0,
    {
        let scheme = string_of(&['a', 't', 's', 'i', 's', 'b', 'r', 'o', 'k', 'e', 'n']);
        Url {
            scheme,
            host: page.to_owned(),
            port: None,
            path: String::new(),
            query: String::new(),
            fragment: String::new(),
        }
    }

    /// The default home page: the live atsisbroken landing page,
    /// `https://atsisbroken.cochranblock.org/`.
    pub fn home() -> (u: Url)
        ensures
            u@.scheme == seq!['h', 't', 't', 'p', 's'],
            u@.host == "atsisbroken.cochranblock.org"@,
            u@.port is None,
            u@.path == seq!['/'],
            u@.query.len() == 0,
            u@.fragment.len() == 0,
    {
        Url {
            scheme: string_of(&['h', 't', 't', 'p', 's']),
            host: "atsisbroken.cochranblock.org".to_owned(),
            port: None,
            path: string_of(&['/']),
            query: String::new(),
            fragment: String::new(),
        }
    }

    /// The in-process `atsisbroken://home` page.
    pub fn internal_home() -> (u: Url)
        ensures
            is_internal_scheme(u@),
            u@.host == "home"@,
            u@.port is None,
            u@.path.len() == 0,
            u@.query.len() == 0,
            u@.fragment.len() == 0,
    {
        Self::internal("home")
    }

    /// A copy with the same parts.
    pub fn duplicate(&self) -> (r: Url)
        ensures
            r@ == self@,
    {
        Url {
            scheme: self.scheme.clone(),
            host: self.host.clone(),
            port: self.port,
            path: self.path.clone(),
            query: self.query.clone(),
            fragment: self.fragment.clone(),
        }
    }

    pub fn scheme(&self) -> (r: &str)
        ensures
            r@ == self@.scheme,
    {
        self.scheme.as_str()
    }

    pub fn host(&self) -> (r: &str)
        ensures
            r@ == self@.host,
    {
        self.host.as_str()
    }

    pub fn port(&self) -> (r: Option<u16>)
        ensures
            r == self@.port,
    {
        self.port
    }

    pub fn path(&self) -> (r: &str)
        ensures
            r@ == self@.path,
    {
        self.path.as_str()
    }

    pub fn query(&self) -> (r: &str)
        ensures
            r@ == self@.query,
    {
        self.query.as_str()
    }

    pub fn fragment(&self) -> (r: &str)
        ensures
            r@ == self@.fragment,
    {
        self.fragment.as_str()
    }

    /// True when the URL points to one of the internal pages.
    pub fn is_internal(&self) -> (r: bool)
        ensures
            r == is_internal_scheme(self@),
    {
        let s = crate::chars::chars_of(self.scheme.as_str());
        let r = crate::chars::chars_eq(
            s.as_slice(),
            &['a', 't', 's', 'i', 's', 'b', 'r', 'o', 'k', 'e', 'n'],
        );
        r
    }

    /// True when the URL is fetchable over the network (`http`/`https`).
    pub fn is_network(&self) -> (r: bool)
        ensures
            r == is_network_scheme(self@),
    {
        let s = crate::chars::chars_of(self.scheme.as_str());
        crate::chars::chars_eq(s.as_slice(), &['h', 't', 't', 'p'])
            || crate::chars::chars_eq(s.as_slice(), &['h', 't', 't', 'p', 's'])
    }

    /// Permissive parser. Accepts `https://host/path?q=v#frag`,
    /// `http://host:8080/`, `atsisbroken://settings`; a bare host name
    /// like `example.com` gets `https://` in front. Surrounding whitespace
    /// is ignored.
    pub fn parse(s: &str) -> (r: Result<Url, UrlParseError>)
        ensures
            match r {
                Ok(u) => parse_url(s@) == Ok::<UrlView, UrlErrorView>(u@),
                Err(e) => parse_url(s@) == Err::<UrlView, UrlErrorView>(e@),
            },
    {
        let cs = chars_of(s);
        let t = crate::chars::trim_vec(cs.as_slice());
        let sp: [char; 3] = [':', '/', '/'];
        assert(sp@ =~= sep());
        let n: Vec<char> = if crate::chars::contains(t.as_slice(), &sp) {
            copy_range(t.as_slice(), 0, t.len())
        } else if t.len() > 0 && t[0] != '/' {
            let mut v: Vec<char> = Vec::new();
            push_all(&mut v, &['h', 't', 't', 'p', 's', ':', '/', '/']);
            push_all(&mut v, t.as_slice());
            proof {
                assert(v@ =~= https_prefix() + t@);
                assert(v@.subrange(5, 8) =~= sep());
                assert(occurs_at(v@, sep(), 5));
            }
            v
        } else {
            return Err(UrlParseError::NoSchemeSeparator(string_of(t.as_slice())));
        };
        proof {
            lemma_take_all(t@);
        }
        assert(normalize(t@) == Some(n@));
        let k = match find(n.as_slice(), &sp) {
            Some(k) => k,
            None => {
                return Err(UrlParseError::NoSchemeSeparator(string_of(t.as_slice())));
            },
        };
        proof {
            lemma_first_occurrence(n@, sep(), k as int);
        }
        let scheme = copy_range(n.as_slice(), 0, k);
        let rest = copy_range(n.as_slice(), k + 3, n.len());
        assert(scheme@ =~= n@.take(k as int));
        assert(rest@ =~= n@.skip(k + 3));
        let a = scan_until(rest.as_slice(), 0, '/', '?', '#');
        assert(rest@.skip(0) =~= rest@);
        let authority = copy_range(rest.as_slice(), 0, a);
        let after = copy_range(rest.as_slice(), a, rest.len());
        assert(authority@ =~= rest@.take(a as int));
        assert(after@ =~= rest@.skip(a as int));
        if a == 0 {
            return Err(UrlParseError::EmptyHost(string_of(t.as_slice())));
        }
        let (host, port) = match host_port(authority.as_slice()) {
            Ok(hp) => hp,
            Err(d) => {
                return Err(UrlParseError::InvalidPort(string_of(d.as_slice())));
            },
        };
        let h = scan_until(after.as_slice(), 0, '#', '#', '#');
        assert(after@.skip(0) =~= after@);
        let fragment = if h < after.len() {
            let f = copy_range(after.as_slice(), h + 1, after.len());
            assert(f@ =~= after@.skip(h + 1));
            f
        } else {
            let f: Vec<char> = Vec::new();
            assert(f@ =~= Seq::<char>::empty());
            f
        };
        let before_hash = copy_range(after.as_slice(), 0, h);
        assert(before_hash@ =~= after@.take(h as int));
        let q = scan_until(before_hash.as_slice(), 0, '?', '?', '?');
        assert(before_hash@.skip(0) =~= before_hash@);
        let query = if q < before_hash.len() {
            let x = copy_range(before_hash.as_slice(), q + 1, before_hash.len());
            assert(x@ =~= before_hash@.skip(q + 1));
            x
        } else {
            let x: Vec<char> = Vec::new();
            assert(x@ =~= Seq::<char>::empty());
            x
        };
        let path = copy_range(before_hash.as_slice(), 0, q);
        assert(path@ =~= before_hash@.take(q as int));
        let u = Url {
            scheme: string_of(scheme.as_slice()),
            host: string_of(host.as_slice()),
            port,
            path: string_of(path.as_slice()),
            query: string_of(query.as_slice()),
            fragment: string_of(fragment.as_slice()),
        };
        Ok(u)
    }

    /// The URL written out: `scheme://host[:port]path[?query][#fragment]`.
    pub fn to_string(&self) -> (r: String)
        ensures
            r@ == display_url(self@),
    {
        let mut out: Vec<char> = chars_of(self.scheme.as_str());
        push_all(&mut out, &[':', '/', '/']);
        let h = chars_of(self.host.as_str());
        push_all(&mut out, h.as_slice());
        let ghost head = out@;
        match self.port {
            Some(p) => {
                out.push(':');
                let d = dec_chars(p as u64);
                push_all(&mut out, d.as_slice());
            },
            None => {},
        }
        let pth = chars_of(self.path.as_str());
        push_all(&mut out, pth.as_slice());
        if !self.query.as_str().is_empty() {
            out.push('?');
            let q = chars_of(self.query.as_str());
            push_all(&mut out, q.as_slice());
        }
        if !self.fragment.as_str().is_empty() {
            out.push('#');
            let f = chars_of(self.fragment.as_str());
            push_all(&mut out, f.as_slice());
        }
        string_of(out.as_slice())
    }
}

} // verus!


verus! {

// ─── Round trip ─────────────────────────────────────────────────────────

pub open spec fn port_text(u: UrlView) -> Seq<char> {
    match u.port {
        Some(p) => seq![':'] + dec_string(p as nat),
        None => seq![],
    }
}

pub open spec fn query_text(u: UrlView) -> Seq<char> {
    if u.query.len() > 0 {
        seq!['?'] + u.query
    } else {
        seq![]
    }
}

pub open spec fn fragment_text(u: UrlView) -> Seq<char> {
    if u.fragment.len() > 0 {
        seq!['#'] + u.fragment
    } else {
        seq![]
    }
}

/// The shape of every URL the parser produces: the scheme holds no
/// `://` that would end it early and does not start with whitespace;
/// there is a host or a port; the host holds none of `/?#`; host and
/// port split apart again as they are; the path starts with `/` and
/// holds no `?` or `#`; the query holds no `#`.
pub open spec fn well_formed(u: UrlView) -> bool {
    &&& forall|j: int| 0 <= j < u.scheme.len() ==> !occurs_at(u.scheme + sep(), sep(), j)
    &&& u.scheme.len() == 0 || !is_ws(u.scheme[0])
    &&& u.host.len() > 0 || u.port is Some
    &&& forall|i: int| 0 <= i < u.host.len() ==> (not_authority_end())(#[trigger] u.host[i])
    &&& split_host_port(u.host + port_text(u)) == Ok::<(Seq<char>, Option<u16>), Seq<char>>(
        (u.host, u.port),
    )
    &&& forall|i: int| 0 <= i < u.path.len() ==> #[trigger] u.path[i] != '?' && u.path[i] != '#'
    &&& u.path.len() > 0 ==> u.path[0] == '/'
    &&& forall|i: int| 0 <= i < u.query.len() ==> #[trigger] u.query[i] != '#'
}

proof fn lemma_trim_start_keeps(x: Seq<char>)
    requires
        x.len() == 0 || !is_ws(x[0]),
    ensures
        crate::chars::trim_start(x) == x,
{
}

proof fn lemma_trim_end_keeps(x: Seq<char>)
    requires
        x.len() == 0 || !is_ws(x.last()),
    ensures
        crate::chars::trim_end(x) == x,
{
}

proof fn lemma_trim_start_ends(s: Seq<char>)
    ensures
        crate::chars::trim_start(s).len() > 0 ==> !is_ws(crate::chars::trim_start(s)[0]),
    decreases s.len(),
{
    if s.len() > 0 && is_ws(s[0]) {
        lemma_trim_start_ends(s.drop_first());
    }
}

proof fn lemma_trim_end_ends(s: Seq<char>)
    ensures
        crate::chars::trim_end(s).len() > 0 && s.len() > 0 ==> crate::chars::trim_end(s)[0]
            == s[0],
        crate::chars::trim_end(s).len() > 0 ==> !is_ws(crate::chars::trim_end(s).last()),
    decreases s.len(),
{
    if s.len() > 0 && is_ws(s.last()) {
        lemma_trim_end_ends(s.drop_last());
        if crate::chars::trim_end(s).len() > 0 {
            assert(s.drop_last()[0] == s[0]);
        }
    }
}

/// A trimmed text starts with non-whitespace.
proof fn lemma_trim_first(s: Seq<char>)
    ensures
        trim(s).len() > 0 ==> !is_ws(trim(s)[0]),
{
    lemma_trim_start_ends(s);
    lemma_trim_end_ends(crate::chars::trim_start(s));
}

/// The run of `p` over `x + y` is `x` when `x` is all `p` and `y` does not
/// start with a `p` character.
proof fn lemma_run_concat(x: Seq<char>, y: Seq<char>, p: spec_fn(char) -> bool)
    requires
        forall|i: int| 0 <= i < x.len() ==> p(#[trigger] x[i]),
        y.len() > 0 ==> !p(y[0]),
    ensures
        run_len(x + y, p) == x.len(),
{
    let s = x + y;
    assert forall|k: int| 0 <= k < x.len() implies p(#[trigger] s[k]) by {
        assert(s[k] == x[k]);
    }
    if x.len() < s.len() {
        assert(s[x.len() as int] == y[0]);
    }
    lemma_run_len_exact(s, p, 0, x.len() as int);
    assert(s.skip(0) =~= s);
}

proof fn lemma_run_prefix(s: Seq<char>, p: spec_fn(char) -> bool)
    ensures
        run_len(s, p) <= s.len(),
        forall|i: int| 0 <= i < run_len(s, p) ==> p(#[trigger] s[i]),
        run_len(s, p) < s.len() ==> !p(s[run_len(s, p) as int]),
{
    crate::chars::lemma_run_len_bound(s, p);
}

proof fn lemma_last_colon_digits(x: Seq<char>, d: Seq<char>)
    requires
        all_digits(d),
    ensures
        last_colon(x + seq![':'] + d) == Some(x.len() as int),
    decreases d.len(),
{
    let s = x + seq![':'] + d;
    if d.len() == 0 {
        assert(s.last() == ':');
        assert(s.len() - 1 == x.len());
    } else {
        assert(s.drop_last() =~= x + seq![':'] + d.drop_last());
        assert(crate::chars::is_ascii_digit(d.last()));
        assert(s.last() == d.last());
        lemma_last_colon_digits(x, d.drop_last());
    }
}

proof fn lemma_last_colon_bound(s: Seq<char>)
    ensures
        last_colon(s) matches Some(c) ==> 0 <= c < s.len() && s[c] == ':',
    decreases s.len(),
{
    if s.len() > 0 && s.last() != ':' {
        lemma_last_colon_bound(s.drop_last());
    }
}

/// Path, query and fragment written out split apart again.
proof fn lemma_split_tail(path: Seq<char>, query: Seq<char>, fragment: Seq<char>)
    requires
        forall|i: int| 0 <= i < path.len() ==> #[trigger] path[i] != '?' && path[i] != '#',
        forall|i: int| 0 <= i < query.len() ==> #[trigger] query[i] != '#',
    ensures
        ({
            let qt = if query.len() > 0 {
                seq!['?'] + query
            } else {
                seq![]
            };
            let ft = if fragment.len() > 0 {
                seq!['#'] + fragment
            } else {
                seq![]
            };
            split_tail(path + qt + ft) == (path, query, fragment)
        }),
{
    let qt = if query.len() > 0 {
        seq!['?'] + query
    } else {
        seq![]
    };
    let ft = if fragment.len() > 0 {
        seq!['#'] + fragment
    } else {
        seq![]
    };
    let pq = path + qt;
    let all = pq + ft;
    assert(path + qt + ft =~= all);
    assert forall|i: int| 0 <= i < pq.len() implies (not_char('#'))(#[trigger] pq[i]) by {
        if i < path.len() {
            assert(pq[i] == path[i]);
        } else if i > path.len() {
            assert(pq[i] == query[i - path.len() - 1]);
        } else {
            assert(pq[i] == '?');
        }
    }
    if ft.len() > 0 {
        assert(ft[0] == '#');
    }
    lemma_run_concat(pq, ft, not_char('#'));
    assert(all.take(pq.len() as int) =~= pq);
    if ft.len() > 0 {
        assert(all.skip((pq.len() + 1) as int) =~= fragment);
    }
    assert forall|i: int| 0 <= i < path.len() implies (not_char('?'))(#[trigger] path[i]) by {}
    if qt.len() > 0 {
        assert(qt[0] == '?');
    }
    lemma_run_concat(path, qt, not_char('?'));
    assert(pq.take(path.len() as int) =~= path);
    if qt.len() > 0 {
        assert(pq.skip((path.len() + 1) as int) =~= query);
    }
}

/// A well-formed URL, written out, parses back to itself as long as the
/// written text does not end in whitespace.
#[verifier::rlimit(40)]
pub proof fn well_formed_url_reparses(u: UrlView)
    requires
        well_formed(u),
        !is_ws(display_url(u).last()),
    ensures
        parse_url(display_url(u)) == Ok::<UrlView, UrlErrorView>(u),
{
    let pt = port_text(u);
    let tail = u.path + query_text(u) + fragment_text(u);
    let hp = u.host + pt;
    let rest = hp + tail;
    let d = display_url(u);
    assert(d =~= u.scheme + sep() + rest);
    // trimming and normalizing keep the written text
    assert(d.len() > 0);
    assert(!is_ws(d[0])) by {
        if u.scheme.len() > 0 {
            assert(d[0] == u.scheme[0]);
        } else {
            assert(d[0] == ':');
        }
    }
    lemma_trim_start_keeps(d);
    lemma_trim_end_keeps(d);
    assert(trim(d) == d);
    let ks = u.scheme.len() as int;
    assert(d.subrange(ks, ks + 3) =~= sep());
    assert(occurs_at(d, sep(), ks));
    assert(normalize(d) == Some(d));
    // the separator first occurs right after the scheme
    assert forall|j: int| 0 <= j < ks implies !occurs_at(d, sep(), j) by {
        assert(d.subrange(j, j + 3) =~= (u.scheme + sep()).subrange(j, j + 3));
        assert(!occurs_at(u.scheme + sep(), sep(), j));
    }
    lemma_first_occurrence(d, sep(), ks);
    assert(d.take(ks) =~= u.scheme);
    assert(d.skip(ks + 3) =~= rest);
    // the authority is host and port again
    assert forall|i: int| 0 <= i < hp.len() implies (not_authority_end())(#[trigger] hp[i]) by {
        if i < u.host.len() {
            assert(hp[i] == u.host[i]);
        } else {
            let p = u.port->Some_0;
            crate::decimal::lemma_dec_round_trip(p as nat);
            let j = i - u.host.len();
            if j > 0 {
                assert(pt[j] == dec_string(p as nat)[j - 1]);
            }
        }
    }
    assert(tail.len() > 0 ==> !(not_authority_end())(tail[0])) by {
        if tail.len() > 0 {
            if u.path.len() > 0 {
                assert(tail[0] == u.path[0]);
            } else if query_text(u).len() > 0 {
                assert(tail[0] == '?');
            } else {
                assert(tail[0] == '#');
            }
        }
    }
    lemma_run_concat(hp, tail, not_authority_end());
    assert(rest.take(hp.len() as int) =~= hp);
    assert(rest.skip(hp.len() as int) =~= tail);
    assert(hp.len() > 0);
    lemma_split_tail(u.path, u.query, u.fragment);
    let u2 = parse_url(d)->Ok_0;
    assert(u2 =~= u);
}

/// Every URL the parser produces is well-formed.
#[verifier::rlimit(40)]
pub proof fn parsed_url_is_well_formed(s: Seq<char>)
    requires
        parse_url(s) is Ok,
    ensures
        well_formed(parse_url(s)->Ok_0),
{
    let u = parse_url(s)->Ok_0;
    let t = trim(s);
    let n = normalize(t)->Some_0;
    let k = first_occurrence(n, sep());
    let rest = n.skip(k + 3);
    let a = run_len(rest, not_authority_end()) as int;
    let authority = rest.take(a);
    let after = rest.skip(a);
    let h = run_len(after, not_char('#')) as int;
    let before_hash = after.take(h);
    let q = run_len(before_hash, not_char('?')) as int;
    lemma_run_prefix(rest, not_authority_end());
    lemma_run_prefix(after, not_char('#'));
    lemma_run_prefix(before_hash, not_char('?'));
    lemma_trim_first(s);
    // the scheme
    assert(has_sub(n, sep())) by {
        if !has_sub(t, sep()) {
            assert(n.subrange(5, 8) =~= sep());
            assert(occurs_at(n, sep(), 5));
        }
    }
    let k0 = choose|i: int| occurs_at(n, sep(), i);
    lemma_exists_first(n, sep(), k0);
    assert(is_first_occurrence(n, sep(), k));
    assert(u.scheme == n.take(k));
    assert forall|j: int| 0 <= j < u.scheme.len() implies !occurs_at(
        u.scheme + sep(),
        sep(),
        j,
    ) by {
        assert(n.subrange(k, k + 3) == sep());
        assert(u.scheme + sep() =~= n.take(k + 3));
        assert(!occurs_at(n, sep(), j));
        assert((u.scheme + sep()).subrange(j, j + 3) =~= n.subrange(j, j + 3));
    }
    assert(u.scheme.len() == 0 || !is_ws(u.scheme[0])) by {
        if u.scheme.len() > 0 {
            assert(u.scheme[0] == n[0]);
            if !has_sub(t, sep()) {
                assert(n[0] == 'h');
            }
        }
    }
    // the host and port
    assert forall|i: int| 0 <= i < authority.len() implies (not_authority_end())(
        #[trigger] authority[i],
    ) by {
        assert(authority[i] == rest[i]);
    }
    lemma_last_colon_bound(authority);
    match u.port {
        Some(p) => {
            let c = last_colon(authority)->Some_0;
            assert(u.host =~= authority.take(c));
            assert forall|i: int| 0 <= i < u.host.len() implies (not_authority_end())(
                #[trigger] u.host[i],
            ) by {
                assert(u.host[i] == authority[i]);
            }
            crate::decimal::lemma_dec_round_trip(p as nat);
            lemma_last_colon_digits(u.host, dec_string(p as nat));
            assert(u.host + port_text(u) =~= u.host + seq![':'] + dec_string(p as nat));
            assert((u.host + port_text(u)).skip((u.host.len() + 1) as int) =~= dec_string(p as nat));
            assert((u.host + port_text(u)).take(u.host.len() as int) =~= u.host);
        },
        None => {
            assert(u.host == authority);
            assert(u.host + port_text(u) =~= u.host);
        },
    }
    // path and query
    assert forall|i: int| 0 <= i < u.path.len() implies #[trigger] u.path[i] != '?'
        && u.path[i] != '#' by {
        assert(u.path[i] == before_hash[i]);
        assert(before_hash[i] == after[i]);
    }
    assert(u.path.len() > 0 ==> u.path[0] == '/') by {
        if u.path.len() > 0 {
            assert(u.path[0] == after[0]);
            assert(after[0] == rest[a]);
        }
    }
    assert forall|i: int| 0 <= i < u.query.len() implies #[trigger] u.query[i] != '#' by {
        assert(u.query[i] == before_hash[q + 1 + i]);
        assert(before_hash[q + 1 + i] == after[q + 1 + i]);
    }
}

proof fn lemma_exists_first(s: Seq<char>, t: Seq<char>, i: int)
    requires
        occurs_at(s, t, i),
    ensures
        is_first_occurrence(s, t, first_occurrence(s, t)),
    decreases i,
{
    if forall|j: int| 0 <= j < i ==> !occurs_at(s, t, j) {
        assert(is_first_occurrence(s, t, i));
    } else {
        let j = choose|j: int| 0 <= j < i && occurs_at(s, t, j);
        lemma_exists_first(s, t, j);
    }
}

/// Writing out a parsed URL and parsing that text again gives back the
/// same URL, as long as the written text does not end in whitespace.
pub proof fn url_display_parse_round_trip(s: Seq<char>)
    requires
        parse_url(s) is Ok,
        !is_ws(display_url(parse_url(s)->Ok_0).last()),
    ensures
        parse_url(display_url(parse_url(s)->Ok_0)) == parse_url(s),
{
    parsed_url_is_well_formed(s);
    well_formed_url_reparses(parse_url(s)->Ok_0);
}

/// `"...".parse::<Url>()` is [`Url::parse`].
impl std::str::FromStr for Url {
    type Err = UrlParseError;

    fn from_str(s: &str) -> (r: Result<Url, UrlParseError>)
        ensures
            match r {
                Ok(u) => parse_url(s@) == Ok::<UrlView, UrlErrorView>(u@),
                Err(e) => parse_url(s@) == Err::<UrlView, UrlErrorView>(e@),
            },
    {
        Url::parse(s)
    }
}

} // verus!
