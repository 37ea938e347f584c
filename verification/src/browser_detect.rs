//! Which browser is the user's default: the readers of what each
//! operating system reports, and where each browser's program lives.
//! Running the system commands and looking at the disk are the caller's.
use vstd::prelude::*;
use std::path::PathBuf;
use crate::chars::{
    ascii_lower_seq, chars_eq, chars_of, contains, copy_range, has_sub, is_prefix, lines,
    split_lines, starts_with, string_of, strip_suffixes, to_ascii_lowercase, trim, trim_char,
    trim_end_in, trim_end_matches_str, trim_end_matching, trim_matches_char, trim_vec,
};

verus! {

#[derive(Debug, Clone, PartialEq, Eq)]
pub enum BrowserKind {
    Chrome,
    Chromium,
    Firefox,
    Edge,
    Brave,
    Arc,
    Vivaldi,
    Opera,
    Other(String),
}

/// The abstract value of a [`BrowserKind`].
pub enum KindView {
    Chrome,
    Chromium,
    Firefox,
    Edge,
    Brave,
    Arc,
    Vivaldi,
    Opera,
    Other(Seq<char>),
}

impl View for BrowserKind {
    type V = KindView;

    open spec fn view(&self) -> KindView {
        match self {
            BrowserKind::Chrome => KindView::Chrome,
            BrowserKind::Chromium => KindView::Chromium,
            BrowserKind::Firefox => KindView::Firefox,
            BrowserKind::Edge => KindView::Edge,
            BrowserKind::Brave => KindView::Brave,
            BrowserKind::Arc => KindView::Arc,
            BrowserKind::Vivaldi => KindView::Vivaldi,
            BrowserKind::Opera => KindView::Opera,
            BrowserKind::Other(s) => KindView::Other(s@),
        }
    }
}

#[derive(Debug, Clone, PartialEq, Eq)]
pub struct DefaultBrowser {
    pub kind: BrowserKind,
    pub path: Option<PathBuf>,
}

impl BrowserKind {
    /// Every browser but Firefox speaks the DevTools protocol.
    pub fn supports_cdp(&self) -> (r: bool)
        ensures
            r == !(self@ is Firefox),
    {
        match self {
            BrowserKind::Firefox => false,
            _ => true,
        }
    }
}

fn lower(s: &str) -> (r: Vec<char>)
    ensures
        r@ == ascii_lower_seq(s@),
{
    let cs = chars_of(s);
    to_ascii_lowercase(cs.as_slice())
}

fn has(s: &Vec<char>, t: &str) -> (r: bool)
    ensures
        r == has_sub(s@, t@),
{
    let n = chars_of(t);
    contains(s.as_slice(), n.as_slice())
}

fn begins(s: &Vec<char>, t: &str) -> (r: bool)
    ensures
        r == is_prefix(t@, s@),
{
    let n = chars_of(t);
    starts_with(s.as_slice(), n.as_slice())
}

fn same(s: &Vec<char>, t: &str) -> (r: bool)
    ensures
        r == (s@ == t@),
{
    let n = chars_of(t);
    chars_eq(s.as_slice(), n.as_slice())
}

// ─── Linux ──────────────────────────────────────────────────────────────

/// The browser a `.desktop` file name stands for, by the first name it
/// contains (case-insensitively); otherwise the lower-cased name without
/// its `.desktop` suffix.
pub open spec fn xdg_kind(name: Seq<char>) -> KindView {
    let lc = ascii_lower_seq(name);
    if has_sub(lc, "firefox"@) {
        KindView::Firefox
    } else if has_sub(lc, "google-chrome"@) || has_sub(lc, "chrome.desktop"@) {
        KindView::Chrome
    } else if has_sub(lc, "chromium"@) {
        KindView::Chromium
    } else if has_sub(lc, "brave"@) {
        KindView::Brave
    } else if has_sub(lc, "microsoft-edge"@) || has_sub(lc, "msedge"@) {
        KindView::Edge
    } else if has_sub(lc, "vivaldi"@) {
        KindView::Vivaldi
    } else if has_sub(lc, "opera"@) {
        KindView::Opera
    } else if has_sub(lc, "arc"@) {
        KindView::Arc
    } else {
        KindView::Other(strip_suffixes(lc, ".desktop"@))
    }
}

/// Linux: the browser a `.desktop` file name (from `xdg-settings`)
/// stands for.
pub fn parse_xdg_desktop_name(desktop_name: &str) -> (r: BrowserKind)
    ensures
        r@ == xdg_kind(desktop_name@),
{
    let lc = lower(desktop_name);
    if has(&lc, "firefox") {
        BrowserKind::Firefox
    } else if has(&lc, "google-chrome") || has(&lc, "chrome.desktop") {
        BrowserKind::Chrome
    } else if has(&lc, "chromium") {
        BrowserKind::Chromium
    } else if has(&lc, "brave") {
        BrowserKind::Brave
    } else if has(&lc, "microsoft-edge") || has(&lc, "msedge") {
        BrowserKind::Edge
    } else if has(&lc, "vivaldi") {
        BrowserKind::Vivaldi
    } else if has(&lc, "opera") {
        BrowserKind::Opera
    } else if has(&lc, "arc") {
        BrowserKind::Arc
    } else {
        let t = trim_end_matches_str(lc.as_slice(), ".desktop");
        BrowserKind::Other(string_of(t.as_slice()))
    }
}

/// The program names to look for on `PATH` for each browser on Linux, in
/// order of preference.
pub fn linux_binaries(kind: &BrowserKind) -> (r: Vec<&'static str>)
    ensures
        r@.map_values(|s: &'static str| s@) == match kind@ {
            KindView::Firefox => seq!["firefox"@, "firefox-esr"@],
            KindView::Chrome => seq!["google-chrome"@, "google-chrome-stable"@],
            KindView::Chromium => seq!["chromium"@, "chromium-browser"@],
            KindView::Brave => seq!["brave-browser"@, "brave"@],
            KindView::Edge => seq!["microsoft-edge"@, "microsoft-edge-stable"@],
            KindView::Vivaldi => seq!["vivaldi"@, "vivaldi-stable"@],
            KindView::Opera => seq!["opera"@],
            KindView::Arc => Seq::<Seq<char>>::empty(),
            KindView::Other(_) => Seq::<Seq<char>>::empty(),
        },
{
    let r: Vec<&'static str> = match kind {
        BrowserKind::Firefox => vec!["firefox", "firefox-esr"],
        BrowserKind::Chrome => vec!["google-chrome", "google-chrome-stable"],
        BrowserKind::Chromium => vec!["chromium", "chromium-browser"],
        BrowserKind::Brave => vec!["brave-browser", "brave"],
        BrowserKind::Edge => vec!["microsoft-edge", "microsoft-edge-stable"],
        BrowserKind::Vivaldi => vec!["vivaldi", "vivaldi-stable"],
        BrowserKind::Opera => vec!["opera"],
        BrowserKind::Arc => Vec::new(),
        BrowserKind::Other(_) => Vec::new(),
    };
    assert(r@.map_values(|s: &'static str| s@) =~= match kind@ {
        KindView::Firefox => seq!["firefox"@, "firefox-esr"@],
        KindView::Chrome => seq!["google-chrome"@, "google-chrome-stable"@],
        KindView::Chromium => seq!["chromium"@, "chromium-browser"@],
        KindView::Brave => seq!["brave-browser"@, "brave"@],
        KindView::Edge => seq!["microsoft-edge"@, "microsoft-edge-stable"@],
        KindView::Vivaldi => seq!["vivaldi"@, "vivaldi-stable"@],
        KindView::Opera => seq!["opera"@],
        KindView::Arc => Seq::<Seq<char>>::empty(),
        KindView::Other(_) => Seq::<Seq<char>>::empty(),
    });
    r
}

// ─── macOS ──────────────────────────────────────────────────────────────

pub const ROLE_PREFIX: &'static str = "LSHandlerRoleAll = ";

pub const SCHEME_PREFIX: &'static str = "LSHandlerURLScheme = ";

/// Where the reading of a `defaults read` listing stands: the handler
/// role of the current block, whether the block is for `http`, and the
/// handler found for `http` so far.
pub struct PlistState {
    pub role: Option<Seq<char>>,
    pub seen_http: bool,
    pub handler: Option<Seq<char>>,
}

/// A value on a plist line: trailing `;` dropped, then surrounding `"`.
pub open spec fn plist_value(rest: Seq<char>) -> Seq<char> {
    trim_char(trim_end_in(rest, seq![';']), '"')
}

/// Reading one line: `{` opens a block, `}` closes it (its role becomes
/// the handler when it was for `http`), and the role and scheme lines
/// fill the current block.
pub open spec fn plist_step(st: PlistState, line: Seq<char>) -> PlistState {
    let t = trim(line);
    if is_prefix(seq!['{'], t) {
        PlistState { role: None, seen_http: false, handler: st.handler }
    } else if is_prefix(seq!['}'], t) {
        PlistState {
            role: None,
            seen_http: false,
            handler: if st.seen_http {
                st.role
            } else {
                st.handler
            },
        }
    } else if is_prefix(ROLE_PREFIX@, t) {
        PlistState {
            role: Some(plist_value(t.skip(ROLE_PREFIX@.len() as int))),
            seen_http: st.seen_http,
            handler: st.handler,
        }
    } else if is_prefix(SCHEME_PREFIX@, t) && plist_value(t.skip(SCHEME_PREFIX@.len() as int))
        == "http"@ {
        PlistState { role: st.role, seen_http: true, handler: st.handler }
    } else {
        st
    }
}

/// The state after reading the given lines from the start.
pub open spec fn plist_read(ls: Seq<Seq<char>>) -> PlistState
    decreases ls.len(),
{
    if ls.len() == 0 {
        PlistState { role: None, seen_http: false, handler: None }
    } else {
        plist_step(plist_read(ls.drop_last()), ls.last())
    }
}

fn plist_value_exec(t: &Vec<char>, skip: usize) -> (r: Vec<char>)
    requires
        skip <= t@.len(),
    ensures
        r@ == plist_value(t@.skip(skip as int)),
{
    let rest = copy_range(t.as_slice(), skip, t.len());
    assert(rest@ =~= t@.skip(skip as int));
    let a = trim_end_matching(rest.as_slice(), ";");
    proof {
        reveal_strlit(";");
    }
    assert(";"@ =~= seq![';']);
    trim_matches_char(a.as_slice(), '"')
}

/// macOS: the bundle id registered for the `http` scheme in a
/// `defaults read` listing of the LaunchServices handlers: the role of
/// the last block, among those closed, that names the `http` scheme.
pub fn parse_macos_launchservices_http_handler(plist_text: &str) -> (r: Option<String>)
    ensures
        match r {
            Some(s) => plist_read(lines(plist_text@)).handler == Some(s@),
            None => plist_read(lines(plist_text@)).handler is None,
        },
{
    let text = chars_of(plist_text);
    let ls = split_lines(text.as_slice());
    let role_prefix = chars_of(ROLE_PREFIX);
    let scheme_prefix = chars_of(SCHEME_PREFIX);
    let mut role: Option<Vec<char>> = None;
    let mut seen_http = false;
    let mut handler: Option<Vec<char>> = None;
    let mut i: usize = 0;
    while i < ls.len()
        invariant
            i <= ls@.len(),
            ls.deep_view() == lines(plist_text@),
            role_prefix@ == ROLE_PREFIX@,
            scheme_prefix@ == SCHEME_PREFIX@,
            ({
                let st = plist_read(ls.deep_view().take(i as int));
                &&& st.seen_http == seen_http
                &&& match role {
                    Some(v) => st.role == Some(v@),
                    None => st.role is None,
                }
                &&& match handler {
                    Some(v) => st.handler == Some(v@),
                    None => st.handler is None,
                }
            }),
        decreases ls@.len() - i,
    {
        proof {
            let t = ls.deep_view().take(i + 1);
            assert(t.drop_last() =~= ls.deep_view().take(i as int));
            assert(t.last() == ls@[i as int]@);
        }
        let t = trim_vec(ls[i].as_slice());
        if t.len() > 0 && t[0] == '{' {
            role = None;
            seen_http = false;
        } else if t.len() > 0 && t[0] == '}' {
            if seen_http {
                handler = role;
            }
            role = None;
            seen_http = false;
        } else if starts_with(t.as_slice(), role_prefix.as_slice()) {
            role = Some(plist_value_exec(&t, role_prefix.len()));
        } else if starts_with(t.as_slice(), scheme_prefix.as_slice()) {
            let v = plist_value_exec(&t, scheme_prefix.len());
            if same(&v, "http") {
                seen_http = true;
            }
        }
        proof {
            assert(is_prefix(seq!['{'], t@) == (t@.len() > 0 && t@[0] == '{')) by {
                if t@.len() > 0 {
                    assert(t@.take(1) =~= seq![t@[0]]);
                    if t@.take(1) == seq!['{'] {
                        assert(t@.take(1)[0] == '{');
                    }
                }
            }
            assert(is_prefix(seq!['}'], t@) == (t@.len() > 0 && t@[0] == '}')) by {
                if t@.len() > 0 {
                    assert(t@.take(1) =~= seq![t@[0]]);
                    if t@.take(1) == seq!['}'] {
                        assert(t@.take(1)[0] == '}');
                    }
                }
            }
        }
        i += 1;
    }
    assert(ls.deep_view().take(i as int) =~= ls.deep_view());
    match handler {
        Some(v) => Some(string_of(v.as_slice())),
        None => None,
    }
}

/// The browser a macOS bundle id stands for (compared lower-cased);
/// otherwise the bundle id itself.
pub open spec fn bundle_kind(id: Seq<char>) -> KindView {
    let lc = ascii_lower_seq(id);
    if lc == "com.google.chrome"@ || lc == "com.google.chrome.canary"@ {
        KindView::Chrome
    } else if is_prefix("org.mozilla.firefox"@, lc) || is_prefix("org.mozilla.nightly"@, lc) {
        KindView::Firefox
    } else if lc == "org.chromium.chromium"@ {
        KindView::Chromium
    } else if is_prefix("com.brave.browser"@, lc) {
        KindView::Brave
    } else if is_prefix("com.microsoft.edgemac"@, lc) {
        KindView::Edge
    } else if lc == "company.thebrowser.browser"@ {
        KindView::Arc
    } else if is_prefix("com.vivaldi"@, lc) {
        KindView::Vivaldi
    } else if is_prefix("com.operasoftware"@, lc) {
        KindView::Opera
    } else {
        KindView::Other(id)
    }
}

/// Map a macOS bundle id to a browser.
pub fn bundle_id_to_kind(bundle_id: &str) -> (r: BrowserKind)
    ensures
        r@ == bundle_kind(bundle_id@),
{
    let lc = lower(bundle_id);
    if same(&lc, "com.google.chrome") || same(&lc, "com.google.chrome.canary") {
        BrowserKind::Chrome
    } else if begins(&lc, "org.mozilla.firefox") || begins(&lc, "org.mozilla.nightly") {
        BrowserKind::Firefox
    } else if same(&lc, "org.chromium.chromium") {
        BrowserKind::Chromium
    } else if begins(&lc, "com.brave.browser") {
        BrowserKind::Brave
    } else if begins(&lc, "com.microsoft.edgemac") {
        BrowserKind::Edge
    } else if same(&lc, "company.thebrowser.browser") {
        BrowserKind::Arc
    } else if begins(&lc, "com.vivaldi") {
        BrowserKind::Vivaldi
    } else if begins(&lc, "com.operasoftware") {
        BrowserKind::Opera
    } else {
        BrowserKind::Other(bundle_id.to_owned())
    }
}

/// Where each browser's program lives on macOS.
pub fn macos_app_paths(kind: &BrowserKind) -> (r: Vec<&'static str>)
    ensures
        r@.map_values(|s: &'static str| s@) == match kind@ {
            KindView::Chrome => seq!["/Applications/Google Chrome.app/Contents/MacOS/Google Chrome"@],
            KindView::Firefox => seq!["/Applications/Firefox.app/Contents/MacOS/firefox"@],
            KindView::Chromium => seq!["/Applications/Chromium.app/Contents/MacOS/Chromium"@],
            KindView::Brave => seq!["/Applications/Brave Browser.app/Contents/MacOS/Brave Browser"@],
            KindView::Edge => seq!["/Applications/Microsoft Edge.app/Contents/MacOS/Microsoft Edge"@],
            KindView::Arc => seq!["/Applications/Arc.app/Contents/MacOS/Arc"@],
            KindView::Vivaldi => seq!["/Applications/Vivaldi.app/Contents/MacOS/Vivaldi"@],
            KindView::Opera => seq!["/Applications/Opera.app/Contents/MacOS/Opera"@],
            KindView::Other(_) => Seq::<Seq<char>>::empty(),
        },
{
    let r: Vec<&'static str> = match kind {
        BrowserKind::Chrome => vec!["/Applications/Google Chrome.app/Contents/MacOS/Google Chrome"],
        BrowserKind::Firefox => vec!["/Applications/Firefox.app/Contents/MacOS/firefox"],
        BrowserKind::Chromium => vec!["/Applications/Chromium.app/Contents/MacOS/Chromium"],
        BrowserKind::Brave => vec!["/Applications/Brave Browser.app/Contents/MacOS/Brave Browser"],
        BrowserKind::Edge => vec!["/Applications/Microsoft Edge.app/Contents/MacOS/Microsoft Edge"],
        BrowserKind::Arc => vec!["/Applications/Arc.app/Contents/MacOS/Arc"],
        BrowserKind::Vivaldi => vec!["/Applications/Vivaldi.app/Contents/MacOS/Vivaldi"],
        BrowserKind::Opera => vec!["/Applications/Opera.app/Contents/MacOS/Opera"],
        BrowserKind::Other(_) => Vec::new(),
    };
    assert(r@.map_values(|s: &'static str| s@) =~= match kind@ {
        KindView::Chrome => seq!["/Applications/Google Chrome.app/Contents/MacOS/Google Chrome"@],
        KindView::Firefox => seq!["/Applications/Firefox.app/Contents/MacOS/firefox"@],
        KindView::Chromium => seq!["/Applications/Chromium.app/Contents/MacOS/Chromium"@],
        KindView::Brave => seq!["/Applications/Brave Browser.app/Contents/MacOS/Brave Browser"@],
        KindView::Edge => seq!["/Applications/Microsoft Edge.app/Contents/MacOS/Microsoft Edge"@],
        KindView::Arc => seq!["/Applications/Arc.app/Contents/MacOS/Arc"@],
        KindView::Vivaldi => seq!["/Applications/Vivaldi.app/Contents/MacOS/Vivaldi"@],
        KindView::Opera => seq!["/Applications/Opera.app/Contents/MacOS/Opera"@],
        KindView::Other(_) => Seq::<Seq<char>>::empty(),
    });
    r
}

// ─── Windows ────────────────────────────────────────────────────────────

/// The browser a Windows ProgId stands for (compared lower-cased);
/// otherwise the ProgId itself.
pub open spec fn progid_kind(id: Seq<char>) -> KindView {
    let lc = ascii_lower_seq(id);
    if is_prefix("chromehtml"@, lc) {
        KindView::Chrome
    } else if is_prefix("firefoxurl"@, lc) {
        KindView::Firefox
    } else if is_prefix("msedgehtm"@, lc) || is_prefix("msedgehtml"@, lc) {
        KindView::Edge
    } else if is_prefix("bravehtml"@, lc) {
        KindView::Brave
    } else if is_prefix("chromiumhtm"@, lc) {
        KindView::Chromium
    } else if is_prefix("operastable"@, lc) {
        KindView::Opera
    } else if has_sub(lc, "vivaldi"@) {
        KindView::Vivaldi
    } else {
        KindView::Other(id)
    }
}

/// Windows: map a registry ProgId (`ChromeHTML`, `FirefoxURL`, ...) to a
/// browser.
pub fn parse_windows_progid(progid: &str) -> (r: BrowserKind)
    ensures
        r@ == progid_kind(progid@),
{
    let lc = lower(progid);
    if begins(&lc, "chromehtml") {
        BrowserKind::Chrome
    } else if begins(&lc, "firefoxurl") {
        BrowserKind::Firefox
    } else if begins(&lc, "msedgehtm") || begins(&lc, "msedgehtml") {
        BrowserKind::Edge
    } else if begins(&lc, "bravehtml") {
        BrowserKind::Brave
    } else if begins(&lc, "chromiumhtm") {
        BrowserKind::Chromium
    } else if begins(&lc, "operastable") {
        BrowserKind::Opera
    } else if has(&lc, "vivaldi") {
        BrowserKind::Vivaldi
    } else {
        BrowserKind::Other(progid.to_owned())
    }
}

/// The programs looked for on `PATH` on Windows, in order, with the
/// browser each one is.
pub fn windows_binaries() -> (r: Vec<(&'static str, BrowserKind)>)
    ensures
        r@.len() == 4,
        r@[0].0@ == "chrome.exe"@ && r@[0].1@ == KindView::Chrome,
        r@[1].0@ == "msedge.exe"@ && r@[1].1@ == KindView::Edge,
        r@[2].0@ == "firefox.exe"@ && r@[2].1@ == KindView::Firefox,
        r@[3].0@ == "brave.exe"@ && r@[3].1@ == KindView::Brave,
{
    vec![
        ("chrome.exe", BrowserKind::Chrome),
        ("msedge.exe", BrowserKind::Edge),
        ("firefox.exe", BrowserKind::Firefox),
        ("brave.exe", BrowserKind::Brave),
    ]
}


/// A desktop name that mentions `microsoft-edge` or `msedge`, in any case,
/// stands for Edge, unless it also names Firefox, Chrome, Chromium or
/// Brave, which are checked first.
pub proof fn edge_desktop_names_are_edge(name: Seq<char>)
    requires
        has_sub(ascii_lower_seq(name), "microsoft-edge"@) || has_sub(ascii_lower_seq(name), "msedge"@),
        !has_sub(ascii_lower_seq(name), "firefox"@),
        !has_sub(ascii_lower_seq(name), "google-chrome"@),
        !has_sub(ascii_lower_seq(name), "chrome.desktop"@),
        !has_sub(ascii_lower_seq(name), "chromium"@),
        !has_sub(ascii_lower_seq(name), "brave"@),
    ensures
        xdg_kind(name) is Edge,
{
}


/// A desktop name stands for the first browser it names, case-insensitively,
/// in the order Firefox, Chrome, Chromium, Brave, Edge, Vivaldi, Opera,
/// Arc; a name that names none stands for an unknown browser.
pub proof fn desktop_names_pick_the_first_browser_named(name: Seq<char>)
    ensures
        ({
            let lc = ascii_lower_seq(name);
            let chrome = has_sub(lc, "google-chrome"@) || has_sub(lc, "chrome.desktop"@);
            let edge = has_sub(lc, "microsoft-edge"@) || has_sub(lc, "msedge"@);
            &&& has_sub(lc, "firefox"@) ==> xdg_kind(name) is Firefox
            &&& !has_sub(lc, "firefox"@) && chrome ==> xdg_kind(name) is Chrome
            &&& !has_sub(lc, "firefox"@) && !chrome && has_sub(lc, "chromium"@) ==> xdg_kind(name) is Chromium
            &&& !has_sub(lc, "firefox"@) && !chrome && !has_sub(lc, "chromium"@) && has_sub(lc, "brave"@)
                ==> xdg_kind(name) is Brave
            &&& !has_sub(lc, "firefox"@) && !chrome && !has_sub(lc, "chromium"@) && !has_sub(lc, "brave"@)
                && edge ==> xdg_kind(name) is Edge
            &&& !has_sub(lc, "firefox"@) && !chrome && !has_sub(lc, "chromium"@) && !has_sub(lc, "brave"@)
                && !edge && has_sub(lc, "vivaldi"@) ==> xdg_kind(name) is Vivaldi
            &&& !has_sub(lc, "firefox"@) && !chrome && !has_sub(lc, "chromium"@) && !has_sub(lc, "brave"@)
                && !edge && !has_sub(lc, "vivaldi"@) && has_sub(lc, "opera"@) ==> xdg_kind(name) is Opera
            &&& !has_sub(lc, "firefox"@) && !chrome && !has_sub(lc, "chromium"@) && !has_sub(lc, "brave"@)
                && !edge && !has_sub(lc, "vivaldi"@) && !has_sub(lc, "opera"@) && has_sub(lc, "arc"@)
                ==> xdg_kind(name) is Arc
            &&& !has_sub(lc, "firefox"@) && !chrome && !has_sub(lc, "chromium"@) && !has_sub(lc, "brave"@)
                && !edge && !has_sub(lc, "vivaldi"@) && !has_sub(lc, "opera"@) && !has_sub(lc, "arc"@)
                ==> xdg_kind(name) is Other
        }),
{
}

} // verus!
