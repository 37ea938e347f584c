//! The DevTools endpoint: where a Chromium-family browser listens for
//! remote debugging, and what it says about its tabs.
use vstd::prelude::*;
use crate::browser::url::{last_colon, last_colon_exec, not_char};
use crate::chars::{chars_of, copy_range, run_len, skip_prefixes, string_of, strip_prefixes};
use crate::decimal::{parse_u16, parse_u16_digits, parse_u16_str, parse_u16_text};

verus! {

/// One open tab as the debugger's `/json/list` reports it.
#[derive(Debug, Clone)]
pub struct TabInfo {
    pub title: String,
    pub url: String,
    pub ws_debugger_url: String,
}

/// The host an endpoint given as a bare port number stands for.
pub open spec fn default_endpoint_host() -> Seq<char> {
    seq!['l', 'o', 'c', 'a', 'l', 'h', 'o', 's', 't']
}

/// Host and port of an endpoint text: `http://` and `https://` prefixes
/// dropped, everything from the first `/` on dropped, then split at the
/// last `:` and the rest read as a `u16`. A text without `:` that is all
/// ASCII digits and fits a `u16` is a bare port on `localhost`.
pub open spec fn endpoint_of(e: Seq<char>) -> Option<(Seq<char>, u16)> {
    let s = strip_prefixes(strip_prefixes(e, "http://"@), "https://"@);
    let a = s.take(run_len(s, not_char('/')) as int);
    match last_colon(a) {
        Some(c) => match parse_u16_text(a.skip(c + 1)) {
            Some(port) => Some((a.take(c), port)),
            None => None,
        },
        None => match parse_u16_digits(a) {
            Some(port) => Some((default_endpoint_host(), port)),
            None => None,
        },
    }
}

/// Parse an endpoint such as `http://localhost:9222/json/version`,
/// `localhost:9222` or a bare `9222` (on `localhost`) into host and port;
/// `None` when the port is not a `u16`, or when a text without `:` is not
/// a bare port.
pub fn parse_endpoint(endpoint: &str) -> (r: Option<(String, u16)>)
    ensures
        match r {
            Some((h, p)) => endpoint_of(endpoint@) == Some((h@, p)),
            None => endpoint_of(endpoint@) is None,
        },
{
    let e = chars_of(endpoint);
    let http = chars_of("http://");
    let https = chars_of("https://");
    let i = skip_prefixes(e.as_slice(), 0, http.as_slice());
    let j = skip_prefixes(e.as_slice(), i, https.as_slice());
    assert(e@.skip(0) =~= e@);
    let s = copy_range(e.as_slice(), j, e.len());
    assert(s@ =~= e@.skip(j as int));
    let mut k: usize = 0;
    while k < s.len() && s[k] != '/'
        invariant
            k <= s@.len(),
            forall|m: int| 0 <= m < k ==> (not_char('/'))(#[trigger] s@[m]),
        decreases s@.len() - k,
    {
        k += 1;
    }
    proof {
        crate::chars::lemma_run_len_exact(s@, not_char('/'), 0, k as int);
        assert(s@.skip(0) =~= s@);
    }
    let a = copy_range(s.as_slice(), 0, k);
    assert(a@ =~= s@.take(k as int));
    match last_colon_exec(a.as_slice()) {
        Some(c) => {
            let p = copy_range(a.as_slice(), c + 1, a.len());
            assert(p@ =~= a@.skip(c + 1));
            match parse_u16_str(p.as_slice()) {
                Some(port) => {
                    let h = copy_range(a.as_slice(), 0, c);
                    assert(h@ =~= a@.take(c as int));
                    let hs = string_of(h.as_slice());
                    Some((hs, port))
                },
                None => None,
            }
        },
        None => match parse_u16(a.as_slice()) {
            Some(port) => {
                let h = String::from_str("localhost");
                proof {
                    reveal_strlit("localhost");
                }
                Some((h, port))
            },
            None => None,
        },
    }
}


// ─── What the debug port says ───────────────────────────────────────────

/// An optional text taken by its view.
pub open spec fn opt_view(o: Option<String>) -> Option<Seq<char>> {
    match o {
        Some(s) => Some(s@),
        None => None,
    }
}

/// The `title`, `url` and `webSocketDebuggerUrl` members of one `/json/list`
/// entry, each where it is a string.
pub open spec fn row_view(r: (Option<String>, Option<String>, Option<String>)) -> (
    Option<Seq<char>>,
    Option<Seq<char>>,
    Option<Seq<char>>,
) {
    (opt_view(r.0), opt_view(r.1), opt_view(r.2))
}

pub open spec fn rows_view(v: Seq<(Option<String>, Option<String>, Option<String>)>) -> Seq<
    (Option<Seq<char>>, Option<Seq<char>>, Option<Seq<char>>),
> {
    v.map_values(|r: (Option<String>, Option<String>, Option<String>)| row_view(r))
}

/// A tab by its three texts.
pub open spec fn tab_view(t: TabInfo) -> (Seq<char>, Seq<char>, Seq<char>) {
    (t.title@, t.url@, t.ws_debugger_url@)
}

pub open spec fn tabs_view(v: Seq<TabInfo>) -> Seq<(Seq<char>, Seq<char>, Seq<char>)> {
    v.map_values(|t: TabInfo| tab_view(t))
}

/// The entries that have all three members, in order; the others are
/// left out.
pub open spec fn complete_tabs(
    rows: Seq<(Option<Seq<char>>, Option<Seq<char>>, Option<Seq<char>>)>,
) -> Seq<(Seq<char>, Seq<char>, Seq<char>)>
    decreases rows.len(),
{
    if rows.len() == 0 {
        Seq::empty()
    } else {
        let init = complete_tabs(rows.drop_last());
        match rows.last() {
            (Some(t), Some(u), Some(w)) => init.push((t, u, w)),
            _ => init,
        }
    }
}

/// What `serde_json` reads from a `/json/list` body: `None` when the text
/// is not JSON, `Some(None)` when it is JSON but not an array, else for
/// each element of the array its `title`, `url` and `webSocketDebuggerUrl`
/// members where they are strings.
pub uninterp spec fn json_tab_fields(text: Seq<char>) -> Option<
    Option<Seq<(Option<Seq<char>>, Option<Seq<char>>, Option<Seq<char>>)>>,
>;

/// `serde_json::from_str::<Value>` on a `/json/list` body, then each array
/// element's three string members read with `get` and `as_str`. The
/// contract names the outcome as a function of the text alone.
#[verifier::external_body]
fn read_tab_fields(body: &str) -> (r: Result<
    Option<Vec<(Option<String>, Option<String>, Option<String>)>>,
    serde_json::Error,
>)
    ensures
        match r {
            Ok(Some(v)) => json_tab_fields(body@) == Some(Some(rows_view(v@))),
            Ok(None) => json_tab_fields(body@) == Some(
                None::<Seq<(Option<Seq<char>>, Option<Seq<char>>, Option<Seq<char>>)>>,
            ),
            Err(_) => json_tab_fields(body@) is None,
        },
{
    let v: serde_json::Value = serde_json::from_str(body)?;
    let member = |t: &serde_json::Value, k: &str| t.get(k).and_then(|x| x.as_str()).map(|x| x.to_string());
    Ok(v.as_array().map(|a| {
        a.iter().map(|t| (member(t, "title"), member(t, "url"), member(t, "webSocketDebuggerUrl"))).collect()
    }))
}

/// The tabs among the entries of a `/json/list` answer: an entry that
/// lacks a title, a URL or a debugger URL is skipped.
pub fn tabs_from_rows(rows: Vec<(Option<String>, Option<String>, Option<String>)>) -> (r: Vec<TabInfo>)
    ensures
        tabs_view(r@) == complete_tabs(rows_view(rows@)),
{
    let mut out: Vec<TabInfo> = Vec::new();
    let mut i: usize = 0;
    while i < rows.len()
        invariant
            i <= rows@.len(),
            tabs_view(out@) == complete_tabs(rows_view(rows@).take(i as int)),
        decreases rows@.len() - i,
    {
        proof {
            assert(rows_view(rows@).take(i + 1).drop_last() =~= rows_view(rows@).take(i as int));
        }
        let ghost before = out@;
        match &rows[i] {
            (Some(t), Some(u), Some(w)) => {
                out.push(TabInfo { title: t.clone(), url: u.clone(), ws_debugger_url: w.clone() });
                proof {
                    assert(tabs_view(out@) =~= tabs_view(before).push(tab_view(out@.last())));
                }
            },
            _ => {},
        }
        i += 1;
    }
    proof {
        assert(rows_view(rows@).take(rows@.len() as int) =~= rows_view(rows@));
    }
    out
}

/// Why a `/json/list` answer gave no tab list.
#[derive(Debug)]
pub enum TabListError {
    /// The body is not JSON.
    Json(serde_json::Error),
    /// The body is JSON but not an array.
    NotAnArray,
}

/// The tabs of a `/json/list` body: the complete entries of the array, in
/// order; an error when the body is not JSON or not an array.
pub fn tabs_from_json(body: &str) -> (r: Result<Vec<TabInfo>, TabListError>)
    ensures
        match r {
            Ok(v) => json_tab_fields(body@) matches Some(Some(rows)) && tabs_view(v@)
                == complete_tabs(rows),
            Err(TabListError::Json(_)) => json_tab_fields(body@) is None,
            Err(TabListError::NotAnArray) => json_tab_fields(body@) == Some(
                None::<Seq<(Option<Seq<char>>, Option<Seq<char>>, Option<Seq<char>>)>>,
            ),
        },
{
    match read_tab_fields(body) {
        Ok(Some(rows)) => Ok(tabs_from_rows(rows)),
        Ok(None) => Err(TabListError::NotAnArray),
        Err(e) => Err(TabListError::Json(e)),
    }
}

/// What `serde_json` reads from a JSON text at a top-level member: `None`
/// when the text is not JSON, `Some(None)` when it is not an object with a
/// string member of that name, else that string.
pub uninterp spec fn json_string_member(text: Seq<char>, key: Seq<char>) -> Option<Option<Seq<char>>>;

/// `serde_json::from_str::<Value>`, then `get(key)` and `as_str`. The
/// contract names the outcome as a function of the text and the key alone.
#[verifier::external_body]
fn read_string_member(body: &str, key: &str) -> (r: Result<Option<String>, serde_json::Error>)
    ensures
        match r {
            Ok(m) => json_string_member(body@, key@) == Some(opt_view(m)),
            Err(_) => json_string_member(body@, key@) is None,
        },
{
    let v: serde_json::Value = serde_json::from_str(body)?;
    Ok(v.get(key).and_then(|x| x.as_str()).map(|x| x.to_string()))
}

/// Why a `/json/version` answer gave no debugger URL.
#[derive(Debug)]
pub enum VersionError {
    /// The body is not JSON.
    Json(serde_json::Error),
    /// The body has no string `webSocketDebuggerUrl`.
    MissingUrl,
}

/// The browser-wide debugger URL of a `/json/version` body: its
/// `webSocketDebuggerUrl` member.
pub fn debugger_url_from_json(body: &str) -> (r: Result<String, VersionError>)
    ensures
        match r {
            Ok(u) => json_string_member(body@, "webSocketDebuggerUrl"@) == Some(Some(u@)),
            Err(VersionError::Json(_)) => json_string_member(body@, "webSocketDebuggerUrl"@) is None,
            Err(VersionError::MissingUrl) => json_string_member(body@, "webSocketDebuggerUrl"@)
                == Some(None::<Seq<char>>),
        },
{
    match read_string_member(body, "webSocketDebuggerUrl") {
        Ok(Some(u)) => Ok(u),
        Ok(None) => Err(VersionError::MissingUrl),
        Err(e) => Err(VersionError::Json(e)),
    }
}

} // verus!
