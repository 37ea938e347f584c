//! The strategy ladder: the ways of getting profile data into a form,
//! from driving a browser down to printing the values, and the scripts
//! the user can install. Probing the machine is the caller's; it hands
//! the findings in as an [`Environment`].
use vstd::prelude::*;
use std::path::PathBuf;
use crate::chars::{push_all, push_str, str_eq, string_of};
use crate::decimal::{dec_chars, dec_string};
use crate::profile::Profile;

verus! {

/// One way of getting profile data into a form, from most to least
/// automated.
#[derive(Debug, Clone, PartialEq, Eq)]
pub enum Strategy {
    /// Attach to a Chromium-family browser already listening for
    /// remote debugging at `endpoint`.
    CdpAttach { endpoint: String },
    /// Launch a Chromium-family browser of our own.
    CdpLaunch { browser_path: PathBuf },
    /// The browser extension fills; this program learns from its feedback.
    Extension,
    /// A userscript the user installs once.
    Userscript,
    /// A `javascript:` bookmarklet with the profile baked in.
    Bookmarklet,
    /// One value at a time on the clipboard.
    Clipboard { tool: ClipboardTool },
    /// Print the values for the user to type. Always works.
    Speak,
}

#[derive(Debug, Clone, Copy, PartialEq, Eq, Structural)]
pub enum ClipboardTool {
    /// macOS.
    Pbcopy,
    /// Linux under X11.
    Xclip,
    /// Linux under Wayland.
    Wlcopy,
    /// Windows and WSL.
    ClipExe,
}

impl ClipboardTool {
    /// The program to run.
    pub fn binary(&self) -> (r: &'static str)
        ensures
            r@ == match *self {
                ClipboardTool::Pbcopy => "pbcopy"@,
                ClipboardTool::Xclip => "xclip"@,
                ClipboardTool::Wlcopy => "wl-copy"@,
                ClipboardTool::ClipExe => "clip.exe"@,
            },
    {
        match self {
            ClipboardTool::Pbcopy => "pbcopy",
            ClipboardTool::Xclip => "xclip",
            ClipboardTool::Wlcopy => "wl-copy",
            ClipboardTool::ClipExe => "clip.exe",
        }
    }

    /// The arguments that make the program copy its input to the
    /// clipboard.
    pub fn args(&self) -> (r: Vec<&'static str>)
        ensures
            *self == ClipboardTool::Xclip ==> r@.len() == 2 && r@[0]@ == "-selection"@ && r@[1]@
                == "clipboard"@,
            *self != ClipboardTool::Xclip ==> r@.len() == 0,
    {
        match self {
            ClipboardTool::Pbcopy => Vec::new(),
            ClipboardTool::Xclip => vec!["-selection", "clipboard"],
            ClipboardTool::Wlcopy => Vec::new(),
            ClipboardTool::ClipExe => Vec::new(),
        }
    }
}

/// What probing the machine found: a reachable debugging endpoint, a
/// Chromium-family program, whether the extension's native host is
/// installed, and a clipboard tool.
#[derive(Debug, Clone)]
pub struct Environment {
    pub cdp_endpoint: Option<String>,
    pub chromium_binary: Option<PathBuf>,
    pub extension_installed: bool,
    pub clipboard_tool: Option<ClipboardTool>,
}

/// The highest strategy the environment supports: attach, launch,
/// extension, clipboard, and finally speaking the values.
pub open spec fn detected(env: Environment) -> Strategy {
    match env.cdp_endpoint {
        Some(e) => Strategy::CdpAttach { endpoint: e },
        None => match env.chromium_binary {
            Some(p) => Strategy::CdpLaunch { browser_path: p },
            None => if env.extension_installed {
                Strategy::Extension
            } else {
                match env.clipboard_tool {
                    Some(t) => Strategy::Clipboard { tool: t },
                    None => Strategy::Speak,
                }
            },
        },
    }
}

/// Pick the highest strategy the environment supports.
pub fn detect(env: Environment) -> (r: Strategy)
    ensures
        r == detected(env),
{
    match env.cdp_endpoint {
        Some(endpoint) => Strategy::CdpAttach { endpoint },
        None => match env.chromium_binary {
            Some(browser_path) => Strategy::CdpLaunch { browser_path },
            None => if env.extension_installed {
                Strategy::Extension
            } else {
                match env.clipboard_tool {
                    Some(tool) => Strategy::Clipboard { tool },
                    None => Strategy::Speak,
                }
            },
        },
    }
}

/// The clipboard tool to use, from what is on `PATH`: `pbcopy`, then
/// `wl-copy` under Wayland, then `xclip`, then `wl-copy`, then `clip.exe`.
pub open spec fn clipboard_choice(
    has_pbcopy: bool,
    wayland: bool,
    has_wl_copy: bool,
    has_xclip: bool,
    has_clip_exe: bool,
) -> Option<ClipboardTool> {
    if has_pbcopy {
        Some(ClipboardTool::Pbcopy)
    } else if wayland && has_wl_copy {
        Some(ClipboardTool::Wlcopy)
    } else if has_xclip {
        Some(ClipboardTool::Xclip)
    } else if has_wl_copy {
        Some(ClipboardTool::Wlcopy)
    } else if has_clip_exe {
        Some(ClipboardTool::ClipExe)
    } else {
        None
    }
}

/// Choose the clipboard tool from what was found on the machine.
pub fn pick_clipboard_tool(
    has_pbcopy: bool,
    wayland: bool,
    has_wl_copy: bool,
    has_xclip: bool,
    has_clip_exe: bool,
) -> (r: Option<ClipboardTool>)
    ensures
        r == clipboard_choice(has_pbcopy, wayland, has_wl_copy, has_xclip, has_clip_exe),
{
    if has_pbcopy {
        Some(ClipboardTool::Pbcopy)
    } else if wayland && has_wl_copy {
        Some(ClipboardTool::Wlcopy)
    } else if has_xclip {
        Some(ClipboardTool::Xclip)
    } else if has_wl_copy {
        Some(ClipboardTool::Wlcopy)
    } else if has_clip_exe {
        Some(ClipboardTool::ClipExe)
    } else {
        None
    }
}

/// The Chromium-family programs looked for, in order: names on `PATH`
/// first, then macOS application bundles.
pub open spec fn chromium_candidate_names() -> Seq<Seq<char>> {
    seq![
        "google-chrome"@,
        "google-chrome-stable"@,
        "chromium"@,
        "chromium-browser"@,
        "brave-browser"@,
        "microsoft-edge"@,
        "/Applications/Google Chrome.app/Contents/MacOS/Google Chrome"@,
        "/Applications/Chromium.app/Contents/MacOS/Chromium"@,
        "/Applications/Brave Browser.app/Contents/MacOS/Brave Browser"@,
        "/Applications/Microsoft Edge.app/Contents/MacOS/Microsoft Edge"@,
        "/Applications/Arc.app/Contents/MacOS/Arc"@,
    ]
}

/// The debug ports to probe for a running browser, in order: the
/// conventional 9222 first, then the port given in `CHROME_DEBUG_PORT`
/// (handed in as `env_port`), if any.
pub fn cdp_port_candidates(env_port: Option<String>) -> (r: Vec<String>)
    ensures
        r@.len() >= 1,
        r@[0]@ == "9222"@,
        match env_port {
            Some(p) => r@.len() == 2 && r@[1]@ == p@,
            None => r@.len() == 1,
        },
{
    let mut r: Vec<String> = Vec::new();
    r.push(String::from_str("9222"));
    match env_port {
        Some(p) => {
            r.push(p);
        },
        None => {},
    }
    r
}

/// The endpoint a debug port answers on: `http://localhost:PORT/json/version`.
pub fn cdp_version_url(port: &str) -> (r: String)
    ensures
        r@ == "http://localhost:"@ + port@ + "/json/version"@,
{
    let mut out: Vec<char> = Vec::new();
    push_str(&mut out, "http://localhost:");
    push_str(&mut out, port);
    push_str(&mut out, "/json/version");
    string_of(out.as_slice())
}

pub fn chromium_candidates() -> (r: Vec<&'static str>)
    ensures
        r@.map_values(|s: &'static str| s@) == chromium_candidate_names(),
{
    let r: Vec<&'static str> = vec![
        "google-chrome",
        "google-chrome-stable",
        "chromium",
        "chromium-browser",
        "brave-browser",
        "microsoft-edge",
        "/Applications/Google Chrome.app/Contents/MacOS/Google Chrome",
        "/Applications/Chromium.app/Contents/MacOS/Chromium",
        "/Applications/Brave Browser.app/Contents/MacOS/Brave Browser",
        "/Applications/Microsoft Edge.app/Contents/MacOS/Microsoft Edge",
        "/Applications/Arc.app/Contents/MacOS/Arc",
    ];
    assert(r@.map_values(|s: &'static str| s@) =~= chromium_candidate_names());
    r
}

/// The strategy a `--strategy` name asks for, given the environment: an
/// error when the name is unknown or the environment cannot support it.
pub open spec fn chosen(s: Seq<char>, env: Environment) -> Option<Strategy> {
    if s == "cdp-attach"@ {
        match env.cdp_endpoint {
            Some(e) => Some(Strategy::CdpAttach { endpoint: e }),
            None => None,
        }
    } else if s == "cdp-launch"@ {
        match env.chromium_binary {
            Some(p) => Some(Strategy::CdpLaunch { browser_path: p }),
            None => None,
        }
    } else if s == "extension"@ {
        Some(Strategy::Extension)
    } else if s == "userscript"@ {
        Some(Strategy::Userscript)
    } else if s == "bookmarklet"@ {
        Some(Strategy::Bookmarklet)
    } else if s == "clipboard"@ {
        match env.clipboard_tool {
            Some(t) => Some(Strategy::Clipboard { tool: t }),
            None => None,
        }
    } else if s == "speak"@ {
        Some(Strategy::Speak)
    } else {
        None
    }
}

/// Why a `--strategy` name cannot be used.
pub open spec fn refusal(s: Seq<char>) -> Seq<char> {
    if s == "cdp-attach"@ {
        "no Chromium debug port reachable"@
    } else if s == "cdp-launch"@ {
        "no Chromium-family browser found in PATH"@
    } else if s == "clipboard"@ {
        "no clipboard tool found (pbcopy/xclip/wl-copy/clip.exe)"@
    } else {
        "unknown strategy: "@ + s
    }
}

impl Strategy {
    /// Resolve a `--strategy` name against the environment.
    pub fn from_cli_str(s: &str, env: Environment) -> (r: Result<Strategy, String>)
        ensures
            match chosen(s@, env) {
                Some(st) => r == Ok::<Strategy, String>(st),
                None => r matches Err(m) && m@ == refusal(s@),
            },
    {
        if str_eq(s, "cdp-attach") {
            match env.cdp_endpoint {
                Some(endpoint) => Ok(Strategy::CdpAttach { endpoint }),
                None => Err("no Chromium debug port reachable".to_owned()),
            }
        } else if str_eq(s, "cdp-launch") {
            match env.chromium_binary {
                Some(browser_path) => Ok(Strategy::CdpLaunch { browser_path }),
                None => Err("no Chromium-family browser found in PATH".to_owned()),
            }
        } else if str_eq(s, "extension") {
            Ok(Strategy::Extension)
        } else if str_eq(s, "userscript") {
            Ok(Strategy::Userscript)
        } else if str_eq(s, "bookmarklet") {
            Ok(Strategy::Bookmarklet)
        } else if str_eq(s, "clipboard") {
            match env.clipboard_tool {
                Some(tool) => Ok(Strategy::Clipboard { tool }),
                None => Err("no clipboard tool found (pbcopy/xclip/wl-copy/clip.exe)".to_owned()),
            }
        } else if str_eq(s, "speak") {
            Ok(Strategy::Speak)
        } else {
            let mut m: Vec<char> = Vec::new();
            push_str(&mut m, "unknown strategy: ");
            push_str(&mut m, s);
            Err(string_of(m.as_slice()))
        }
    }
}

// ─── Speaking the profile ───────────────────────────────────────────────

/// One `key: value` line.
pub open spec fn kv_line(k: Seq<char>, v: Seq<char>) -> Seq<char> {
    k + ": "@ + v
}

/// The line for one field: none when the value is empty.
pub open spec fn line_if(k: Seq<char>, v: Seq<char>) -> Seq<Seq<char>> {
    if v.len() > 0 {
        seq![kv_line(k, v)]
    } else {
        Seq::<Seq<char>>::empty()
    }
}

/// The lines the floor strategy prints: each non-empty contact field as
/// `key: value`, in a fixed order, then the years of experience when
/// there are any.
pub open spec fn spoken_lines(p: Profile) -> Seq<Seq<char>> {
    line_if("full_name"@, p.full_name@) + line_if("email"@, p.email@) + line_if("phone"@, p.phone@)
        + line_if("address"@, p.address@) + line_if("linkedin"@, p.linkedin@) + line_if(
        "github"@,
        p.github@,
    ) + line_if("website"@, p.website@) + line_if("work_authorization"@, p.work_authorization@)
        + if p.years_experience > 0 {
        seq![kv_line("years_experience"@, dec_string(p.years_experience as nat))]
    } else {
        Seq::<Seq<char>>::empty()
    }
}

fn push_field(out: &mut Vec<String>, k: &str, v: &String)
    ensures
        final(out)@.map_values(|s: String| s@) == old(out)@.map_values(|s: String| s@) + line_if(k@, v@),
{
    let ghost before = out@;
    if !v.as_str().is_empty() {
        let mut line: Vec<char> = Vec::new();
        push_str(&mut line, k);
        push_str(&mut line, ": ");
        push_str(&mut line, v.as_str());
        out.push(string_of(line.as_slice()));
    }
    assert(out@.map_values(|s: String| s@) =~= before.map_values(|s: String| s@) + line_if(k@, v@));
}

/// The lines to print for the floor strategy.
pub fn speak_lines(profile: &Profile) -> (r: Vec<String>)
    ensures
        r@.map_values(|s: String| s@) == spoken_lines(*profile),
{
    let mut out: Vec<String> = Vec::new();
    assert(out@.map_values(|s: String| s@) =~= Seq::<Seq<char>>::empty());
    push_field(&mut out, "full_name", &profile.full_name);
    push_field(&mut out, "email", &profile.email);
    push_field(&mut out, "phone", &profile.phone);
    push_field(&mut out, "address", &profile.address);
    push_field(&mut out, "linkedin", &profile.linkedin);
    push_field(&mut out, "github", &profile.github);
    push_field(&mut out, "website", &profile.website);
    push_field(&mut out, "work_authorization", &profile.work_authorization);
    let ghost before = out@;
    if profile.years_experience > 0 {
        let mut line: Vec<char> = Vec::new();
        push_str(&mut line, "years_experience");
        push_str(&mut line, ": ");
        let d = dec_chars(profile.years_experience as u64);
        push_all(&mut line, d.as_slice());
        out.push(string_of(line.as_slice()));
        assert(out@.map_values(|s: String| s@) =~= before.map_values(|s: String| s@).push(
            kv_line("years_experience"@, dec_string(profile.years_experience as nat)),
        ));
    }
    assert(out@.map_values(|s: String| s@) =~= spoken_lines(*profile));
    out
}

// ─── Scripts the user installs ──────────────────────────────────────────

pub const USERSCRIPT_HEAD: &'static str = "// ==UserScript==\n// @name         atsisbroken\n// @namespace    https://cochranblock.org\n// @version      ";

pub const USERSCRIPT_MID: &'static str = "\n// @description  Local-first ATS form autofill from your own resume.\n// @match        *://*/*\n// @run-at       document-idle\n// @grant        none\n// @license      Unlicense\n// ==/UserScript==\n(function () {\n  const profile = ";

pub const USERSCRIPT_TAIL: &'static str = ";\n  const KEY_VOCAB = ['email','phone','full_name','linkedin','github','website','address','work_authorization','years_experience'];\n\n  function describe(el) {\n    const labelEl = (el.id && document.querySelector('label[for=\"' + el.id + '\"]')) || el.closest('label');\n    return {\n      label: labelEl ? labelEl.innerText.trim() : '',\n      placeholder: el.placeholder || '',\n      aria_label: el.getAttribute('aria-label') || '',\n      name: el.name || '',\n      id: el.id || '',\n      kind: el.type || el.tagName.toLowerCase(),\n    };\n  }\n\n  function predict(field) {\n    const hay = (field.label + ' ' + field.placeholder + ' ' + field.aria_label + ' ' + field.name + ' ' + field.id).toLowerCase();\n    if (hay.indexOf('email') >= 0) return 'email';\n    if (hay.indexOf('phone') >= 0 || hay.indexOf('mobile') >= 0 || hay.indexOf('tel') >= 0) return 'phone';\n    if (hay.indexOf('linkedin') >= 0) return 'linkedin';\n    if (hay.indexOf('github') >= 0) return 'github';\n    if (hay.indexOf('website') >= 0 || hay.indexOf('portfolio') >= 0) return 'website';\n    if (hay.indexOf('address') >= 0 || hay.indexOf('street') >= 0) return 'address';\n    if (hay.indexOf('authoriz') >= 0 || hay.indexOf('visa') >= 0 || hay.indexOf('sponsor') >= 0) return 'work_authorization';\n    if ((hay.indexOf('year') >= 0 || hay.indexOf('yrs') >= 0) && hay.indexOf('exp') >= 0) return 'years_experience';\n    if (hay.indexOf('name') >= 0) return 'full_name';\n    return '';\n  }\n\n  function fill(el, value) {\n    if (!value) return;\n    el.value = value;\n    el.dispatchEvent(new Event('input', { bubbles: true }));\n    el.dispatchEvent(new Event('change', { bubbles: true }));\n  }\n\n  function pass() {\n    document.querySelectorAll('input, textarea, select').forEach((el) => {\n      if (el.value && el.value.trim().length > 0) return; // don't clobber\n      const f = describe(el);\n      const key = predict(f);\n      if (KEY_VOCAB.indexOf(key) >= 0 && profile[key]) {\n        fill(el, String(profile[key]));\n      }\n    });\n  }\n\n  pass();\n  new MutationObserver(pass).observe(document.body, { childList: true, subtree: true });\n})();\n";

/// The userscript: a header naming the version, then a script that fills
/// forms from the profile given as JSON.
pub open spec fn userscript_of(profile_json: Seq<char>) -> Seq<char> {
    USERSCRIPT_HEAD@ + "0.1.0"@ + USERSCRIPT_MID@ + profile_json + USERSCRIPT_TAIL@
}

/// The userscript for a profile, given the profile as JSON.
pub fn userscript(profile_json: &str) -> (r: String)
    ensures
        r@ == userscript_of(profile_json@),
{
    let mut out: Vec<char> = Vec::new();
    push_str(&mut out, USERSCRIPT_HEAD);
    push_str(&mut out, crate::version());
    push_str(&mut out, USERSCRIPT_MID);
    push_str(&mut out, profile_json);
    push_str(&mut out, USERSCRIPT_TAIL);
    string_of(out.as_slice())
}

pub const BOOKMARKLET_HEAD: &'static str = "(function(){var p=";

pub const BOOKMARKLET_TAIL: &'static str = ";var V=['email','phone','full_name','linkedin','github','website','address','work_authorization'];function k(f){var h=(f.label+' '+f.placeholder+' '+f.aria_label+' '+f.name+' '+f.id).toLowerCase();if(h.indexOf('email')>=0)return'email';if(h.indexOf('phone')>=0||h.indexOf('mobile')>=0||h.indexOf('tel')>=0)return'phone';if(h.indexOf('linkedin')>=0)return'linkedin';if(h.indexOf('github')>=0)return'github';if(h.indexOf('website')>=0||h.indexOf('portfolio')>=0)return'website';if(h.indexOf('address')>=0||h.indexOf('street')>=0)return'address';if(h.indexOf('authoriz')>=0||h.indexOf('visa')>=0||h.indexOf('sponsor')>=0)return'work_authorization';if(h.indexOf('name')>=0)return'full_name';return''};document.querySelectorAll('input,textarea,select').forEach(function(e){if(e.value)return;var l=e.id&&document.querySelector('label[for=\"'+e.id+'\"]');var f={label:l?l.innerText:'' ,placeholder:e.placeholder||'',aria_label:e.getAttribute('aria-label')||'',name:e.name||'',id:e.id||'',kind:e.type||''};var x=k(f);if(V.indexOf(x)>=0&&p[x]){e.value=p[x];e.dispatchEvent(new Event('input',{bubbles:true}));e.dispatchEvent(new Event('change',{bubbles:true}))}});})();";

/// A character as the bookmarklet writes it: space, quotes, angle
/// brackets, `#` and `%` percent-encoded, everything else as is.
pub open spec fn url_char(c: char) -> Seq<char> {
    if c == ' ' {
        seq!['%', '2', '0']
    } else if c == '"' {
        seq!['%', '2', '2']
    } else if c == '\'' {
        seq!['%', '2', '7']
    } else if c == '<' {
        seq!['%', '3', 'C']
    } else if c == '>' {
        seq!['%', '3', 'E']
    } else if c == '#' {
        seq!['%', '2', '3']
    } else if c == '%' {
        seq!['%', '2', '5']
    } else {
        seq![c]
    }
}

/// Text with every character written as [`url_char`] writes it.
pub open spec fn url_encoded(s: Seq<char>) -> Seq<char>
    decreases s.len(),
{
    if s.len() == 0 {
        seq![]
    } else {
        url_encoded(s.drop_last()) + url_char(s.last())
    }
}

/// The bookmarklet: `javascript:` and the encoded script that fills forms
/// from the profile given as JSON.
pub open spec fn bookmarklet_of(profile_json: Seq<char>) -> Seq<char> {
    "javascript:"@ + url_encoded(BOOKMARKLET_HEAD@ + profile_json + BOOKMARKLET_TAIL@)
}

fn encode_into(out: &mut Vec<char>, s: &[char])
    ensures
        final(out)@ == old(out)@ + url_encoded(s@),
{
    let mut i: usize = 0;
    let ghost start = out@;
    while i < s.len()
        invariant
            i <= s@.len(),
            out@ == start + url_encoded(s@.take(i as int)),
        decreases s@.len() - i,
    {
        proof {
            assert(s@.take(i + 1).drop_last() =~= s@.take(i as int));
        }
        let c = s[i];
        if c == ' ' {
            push_str(out, "%20");
        } else if c == '"' {
            push_str(out, "%22");
        } else if c == '\'' {
            push_str(out, "%27");
        } else if c == '<' {
            push_str(out, "%3C");
        } else if c == '>' {
            push_str(out, "%3E");
        } else if c == '#' {
            push_str(out, "%23");
        } else if c == '%' {
            push_str(out, "%25");
        } else {
            out.push(c);
        }
        proof {
            reveal_strlit("%20");
            reveal_strlit("%22");
            reveal_strlit("%27");
            reveal_strlit("%3C");
            reveal_strlit("%3E");
            reveal_strlit("%23");
            reveal_strlit("%25");
        }
        i += 1;
        assert(out@ =~= start + url_encoded(s@.take(i as int)));
    }
    assert(s@.take(i as int) =~= s@);
}

/// The bookmarklet for a profile, given the profile as JSON.
pub fn bookmarklet(profile_json: &str) -> (r: String)
    ensures
        r@ == bookmarklet_of(profile_json@),
{
    let mut js: Vec<char> = Vec::new();
    push_str(&mut js, BOOKMARKLET_HEAD);
    push_str(&mut js, profile_json);
    push_str(&mut js, BOOKMARKLET_TAIL);
    let mut out: Vec<char> = Vec::new();
    push_str(&mut out, "javascript:");
    encode_into(&mut out, js.as_slice());
    string_of(out.as_slice())
}


/// Attaching to a browser that already listens beats everything; failing
/// that, a Chromium-family program found is launched, whatever the
/// extension and clipboard; the extension, the clipboard and speaking come
/// only after. So two environments that agree on the endpoint and the
/// program, with one of them present, get the same strategy.
pub proof fn browsers_come_before_extension_and_clipboard(env: Environment, other: Environment)
    ensures
        env.cdp_endpoint matches Some(e) ==> detected(env) == (Strategy::CdpAttach { endpoint: e }),
        env.cdp_endpoint is None ==> (env.chromium_binary matches Some(p) ==> detected(env)
            == (Strategy::CdpLaunch { browser_path: p })),
        detected(env) is Extension ==> env.cdp_endpoint is None && env.chromium_binary is None
            && env.extension_installed,
        detected(env) is Clipboard || detected(env) is Speak ==> env.cdp_endpoint is None
            && env.chromium_binary is None && !env.extension_installed,
        other.cdp_endpoint == env.cdp_endpoint && other.chromium_binary == env.chromium_binary && (
        env.cdp_endpoint is Some || env.chromium_binary is Some) ==> detected(other) == detected(
            env,
        ),
{
}

} // verus!
