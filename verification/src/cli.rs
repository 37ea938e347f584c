//! The command line: its grammar as plain data, and the decisions the
//! commands make on what they read (which profile field `copy` takes,
//! what a confirmation answer means, how `status` words the profile's
//! state). The program around it reads files and streams and prints.
use vstd::prelude::*;
use crate::chars::{push_str, str_eq, string_of, push_all};
use crate::decimal::{dec_chars, dec_string};
use crate::feedback::{mode_named, Mode};
use crate::profile::Profile;
use crate::run_loop::{is_yes, is_yes_answer};

verus! {

/// The parsed command line.
#[derive(Debug, Clone)]
pub struct Cli {
    /// Path to a profile TOML to use instead of `~/.atsisbroken/profile.toml`.
    pub profile: Option<String>,
    /// The subcommand; none launches the terminal interface.
    pub cmd: Option<Cmd>,
}

/// The subcommands.
#[derive(Debug, Clone)]
pub enum Cmd {
    Init { resume: Option<String> },
    Run { mode: Option<Mode>, cdp: Option<String>, strategy: Option<String>, url: Option<String> },
    Userscript,
    Bookmarklet,
    Copy { key: String },
    Speak,
    CdpProbe,
    Tui,
    TuiSnapshot { tab: usize, width: u16, height: u16 },
    Graduate { yes: bool, back: bool },
    Sync,
    Export { out: String },
    Bridge,
    InstallBridge { extension_id: String, binary: Option<String> },
    Feedback,
    ConnectGithub { handle: Option<String>, token: Option<String> },
    SyncGithub { handle: Option<String> },
    Status,
}

/// The value parser for `--mode`: a mode name, or the refusal text.
pub fn parse_mode(s: &str) -> (r: Result<Mode, String>)
    ensures
        match mode_named(s@) {
            Some(m) => r == Ok::<Mode, String>(m),
            None => r matches Err(e) && e@ == "unknown mode: "@ + s@,
        },
{
    match Mode::from_cli_str(s) {
        Some(m) => Ok(m),
        None => {
            let mut out: Vec<char> = Vec::new();
            push_str(&mut out, "unknown mode: ");
            push_str(&mut out, s);
            Err(string_of(out.as_slice()))
        },
    }
}

/// Everything a command needs that would otherwise come from the process
/// environment: the home directory and the three standard streams.
pub struct CliCtx<R, W, E> {
    pub home: std::path::PathBuf,
    pub stdin: R,
    pub stdout: W,
    pub stderr: E,
}

impl<R, W, E> CliCtx<R, W, E> {
    pub fn new(home: std::path::PathBuf, stdin: R, stdout: W, stderr: E) -> (r: Self)
        ensures
            r.home == home,
            r.stdin == stdin,
            r.stdout == stdout,
            r.stderr == stderr,
    {
        CliCtx { home, stdin, stdout, stderr }
    }
}

// ─── copy ───────────────────────────────────────────────────────────────

/// The text `copy` puts on the clipboard for a key, or `None` for a key it
/// does not know.
pub open spec fn copy_text(p: Profile, key: Seq<char>) -> Option<Seq<char>> {
    if key == "full_name"@ {
        Some(p.full_name@)
    } else if key == "email"@ {
        Some(p.email@)
    } else if key == "phone"@ {
        Some(p.phone@)
    } else if key == "address"@ {
        Some(p.address@)
    } else if key == "linkedin"@ {
        Some(p.linkedin@)
    } else if key == "github"@ {
        Some(p.github@)
    } else if key == "website"@ {
        Some(p.website@)
    } else if key == "work_authorization"@ {
        Some(p.work_authorization@)
    } else if key == "years_experience"@ {
        Some(dec_string(p.years_experience as nat))
    } else {
        None
    }
}

/// Why `copy` refused.
#[derive(Debug, Clone)]
pub enum CopyError {
    /// The key names no copyable field.
    UnknownKey(String),
    /// The field exists but holds nothing.
    EmptyField(String),
}

impl CopyError {
    /// The text the error displays as.
    pub fn message(&self) -> (r: String)
        ensures
            match self {
                CopyError::UnknownKey(k) => r@ == "unknown key: "@ + k@,
                CopyError::EmptyField(k) => r@ == "profile field "@ + k@ + " is empty"@,
            },
    {
        let mut out: Vec<char> = Vec::new();
        match self {
            CopyError::UnknownKey(k) => {
                push_str(&mut out, "unknown key: ");
                push_str(&mut out, k.as_str());
            },
            CopyError::EmptyField(k) => {
                push_str(&mut out, "profile field ");
                push_str(&mut out, k.as_str());
                push_str(&mut out, " is empty");
            },
        }
        string_of(out.as_slice())
    }
}

/// The value `copy <key>` puts on the clipboard: the field's text, an
/// error for an unknown key, or an error for an empty field.
pub fn copy_value(profile: &Profile, key: &str) -> (r: Result<String, CopyError>)
    ensures
        match copy_text(*profile, key@) {
            None => r matches Err(CopyError::UnknownKey(k)) && k@ == key@,
            Some(v) => if v.len() == 0 {
                r matches Err(CopyError::EmptyField(k)) && k@ == key@
            } else {
                r matches Ok(s) && s@ == v
            },
        },
{
    proof {
        reveal_strlit("full_name");
        reveal_strlit("email");
        reveal_strlit("phone");
        reveal_strlit("address");
        reveal_strlit("linkedin");
        reveal_strlit("github");
        reveal_strlit("website");
        reveal_strlit("work_authorization");
        reveal_strlit("years_experience");
    }
    let value: String = if str_eq(key, "full_name") {
        profile.full_name.clone()
    } else if str_eq(key, "email") {
        profile.email.clone()
    } else if str_eq(key, "phone") {
        profile.phone.clone()
    } else if str_eq(key, "address") {
        profile.address.clone()
    } else if str_eq(key, "linkedin") {
        profile.linkedin.clone()
    } else if str_eq(key, "github") {
        profile.github.clone()
    } else if str_eq(key, "website") {
        profile.website.clone()
    } else if str_eq(key, "work_authorization") {
        profile.work_authorization.clone()
    } else if str_eq(key, "years_experience") {
        let d = dec_chars(profile.years_experience as u64);
        string_of(d.as_slice())
    } else {
        return Err(CopyError::UnknownKey(key.to_string()));
    };
    if value.as_str().is_empty() {
        Err(CopyError::EmptyField(key.to_string()))
    } else {
        Ok(value)
    }
}

// ─── graduate's confirmation ────────────────────────────────────────────

/// `line` is the first line of `bytes`: the bytes before the first
/// newline (or all of them), each read as the character of that code.
pub open spec fn is_first_line(bytes: Seq<u8>, line: Seq<char>) -> bool {
    &&& line.len() <= bytes.len()
    &&& forall|j: int| 0 <= j < line.len() ==> #[trigger] bytes[j] != 10u8
    &&& forall|j: int| 0 <= j < line.len() ==> #[trigger] line[j] == (bytes[j] as char)
    &&& (line.len() == bytes.len() || bytes[line.len() as int] == 10u8)
}

/// Bytes have one first line.
pub proof fn first_line_is_unique(bytes: Seq<u8>, a: Seq<char>, b: Seq<char>)
    requires
        is_first_line(bytes, a),
        is_first_line(bytes, b),
    ensures
        a == b,
{
    if a.len() < b.len() {
        let j = a.len() as int;
        assert(bytes[j] != 10u8);
    } else if b.len() < a.len() {
        let j = b.len() as int;
        assert(bytes[j] != 10u8);
    }
    assert forall|j: int| 0 <= j < a.len() implies a[j] == b[j] by {
        assert(a[j] == (bytes[j] as char));
        assert(b[j] == (bytes[j] as char));
    }
    assert(a =~= b);
}

/// The first line of the bytes typed at a prompt, each byte taken as one
/// character.
pub fn first_line(bytes: &[u8]) -> (r: String)
    ensures
        is_first_line(bytes@, r@),
{
    let mut out: Vec<char> = Vec::new();
    let mut i: usize = 0;
    while i < bytes.len() && bytes[i] != 10u8
        invariant
            i <= bytes@.len(),
            out@.len() == i,
            forall|j: int| 0 <= j < i ==> #[trigger] bytes@[j] != 10u8,
            forall|j: int| 0 <= j < i ==> #[trigger] out@[j] == (bytes@[j] as char),
        decreases bytes@.len() - i,
    {
        let c = bytes[i] as char;
        assert(c == (bytes@[i as int] as char));
        let ghost before = out@;
        out.push(c);
        assert(bytes@[i as int] != 10u8);
        assert forall|j: int| 0 <= j <= i implies #[trigger] out@[j] == (bytes@[j] as char) by {
            if j < i {
                assert(out@[j] == before[j]);
            }
        }
        i += 1;
    }
    assert(i == bytes@.len() || bytes@[i as int] == 10u8);
    string_of(out.as_slice())
}

/// The answer typed at `proceed? [y/N]` confirms: its first line is `y`
/// or `yes` in any ASCII case, surrounding whitespace ignored.
pub fn confirms(bytes: &[u8]) -> (r: bool)
    ensures
        exists|line: Seq<char>| is_first_line(bytes@, line) && r == is_yes_answer(line),
{
    let line = first_line(bytes);
    is_yes(line.as_str())
}

// ─── status ─────────────────────────────────────────────────────────────

/// How `status` words the profile's state: missing, present but empty, or
/// set up.
pub fn init_state(exists: bool, populated: bool) -> (r: &'static str)
    ensures
        !exists ==> r@ == "no — run `atsisbroken init`"@,
        exists && !populated ==> r@ == "exists but empty — re-run `atsisbroken init` with a fuller resume"@,
        exists && populated ==> r@ == "yes"@,
{
    if !exists {
        "no — run `atsisbroken init`"
    } else if !populated {
        "exists but empty — re-run `atsisbroken init` with a fuller resume"
    } else {
        "yes"
    }
}

} // verus!
