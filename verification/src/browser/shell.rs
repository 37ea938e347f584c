//! The browser shell's decisions: the text a page shows after a
//! navigation, and the messages a background navigation sends back.
//! The window, the event loop and the worker threads are the caller's.
use vstd::prelude::*;
use crate::browser::engine::{error_text, EngineError, NavigateOutcome, PageSnapshot};
use crate::browser::url::{display_url, Url, UrlView};
use crate::chars::{push_str, string_of};
use crate::foreign::{anyhow_error_text, io_error_text};

verus! {

/// What a background navigation reports to the event loop.
#[derive(Debug)]
pub enum NavMsg {
    /// The page loaded; the event loop shows this title and body.
    Loaded { url: Url, title: String, body: String },
    /// The page failed to load; the error is shown in the page body.
    Error { url: Url, error: String },
}

#[derive(Debug)]
pub enum BrowserError {
    EventLoop(String),
    Engine(EngineError),
    Io(std::io::Error),
    Other(anyhow::Error),
}

impl BrowserError {
    /// The text the error displays as.
    pub fn message(&self) -> (r: String)
        ensures
            match self {
                BrowserError::EventLoop(s) => r@ == "event loop: "@ + s@,
                BrowserError::Engine(e) => exists|m: Seq<char>| error_text(*e, m) && r@ == "engine: "@ + m,
                BrowserError::Io(_) => crate::chars::is_prefix("io: "@, r@),
                BrowserError::Other(_) => crate::chars::is_prefix("anyhow: "@, r@),
            },
    {
        let mut out: Vec<char> = Vec::new();
        match self {
            BrowserError::EventLoop(s) => {
                push_str(&mut out, "event loop: ");
                push_str(&mut out, s.as_str());
            },
            BrowserError::Engine(e) => {
                push_str(&mut out, "engine: ");
                let m = e.message();
                push_str(&mut out, m.as_str());
            },
            BrowserError::Io(e) => {
                push_str(&mut out, "io: ");
                let ghost head = out@;
                assert(head =~= "io: "@);
                let t = io_error_text(e);
                push_str(&mut out, t.as_str());
                assert(out@.take(head.len() as int) =~= head);
            },
            BrowserError::Other(e) => {
                push_str(&mut out, "anyhow: ");
                let ghost head = out@;
                assert(head =~= "anyhow: "@);
                let t = anyhow_error_text(e);
                push_str(&mut out, t.as_str());
                assert(out@.take(head.len() as int) =~= head);
            },
        }
        string_of(out.as_slice())
    }
}

/// The closing note of the load-failure page.
pub const SCAFFOLD_NOTE: &'static str = "The rendering engine here is the static-HTML scaffold; full HTML/CSS/JS rendering lights up when stylo + WebRender + mozjs land in subsequent commits.";

/// The body shown when a page could not be loaded.
pub open spec fn load_failure_body(url: Seq<char>, error: Seq<char>) -> Seq<char> {
    "Couldn't load "@ + url + "\n\n"@ + error + "\n\n"@ + SCAFFOLD_NOTE@
}

fn failure_body(url: &str, error: &str) -> (r: String)
    ensures
        r@ == load_failure_body(url@, error@),
{
    let mut out: Vec<char> = Vec::new();
    push_str(&mut out, "Couldn't load ");
    push_str(&mut out, url);
    push_str(&mut out, "\n\n");
    push_str(&mut out, error);
    push_str(&mut out, "\n\n");
    push_str(&mut out, SCAFFOLD_NOTE);
    string_of(out.as_slice())
}

/// The title a loaded page shows: its own, or the host when it has none.
pub open spec fn shown_title(u: UrlView, title: Seq<char>) -> Seq<char> {
    if title.len() == 0 {
        u.host
    } else {
        title
    }
}

/// Title and body for the page surface after a navigation and a snapshot.
/// A failed navigation is shown in the body with the error's text.
pub fn compose_page_text(
    url: &Url,
    nav: Result<(), EngineError>,
    snap: Result<PageSnapshot, EngineError>,
) -> (r: (String, String))
    ensures
        match nav {
            Ok(()) => match snap {
                Ok(s) => r.0@ == shown_title(url@, s.title@) && r.1@ == s.body@,
                Err(_) => r.0@ == url@.host && r.1@.len() == 0,
            },
            Err(e) => r.0@ == "atsisbroken"@ && exists|m: Seq<char>|
                error_text(e, m) && r.1@ == load_failure_body(display_url(url@), m),
        },
{
    match nav {
        Ok(()) => match snap {
            Ok(s) => {
                let title = if s.title.as_str().is_empty() {
                    url.host().to_owned()
                } else {
                    s.title
                };
                (title, s.body)
            },
            Err(_) => (url.host().to_owned(), String::new()),
        },
        Err(e) => {
            let url_str = url.to_string();
            let m = e.message();
            ("atsisbroken".to_owned(), failure_body(url_str.as_str(), m.as_str()))
        },
    }
}

/// The message a background navigation sends back: the loaded page, or
/// the failure with its reason (a failed snapshot is reported as
/// `snapshot: <error>`).
pub fn navigation_message(
    url: Url,
    nav: Result<NavigateOutcome, EngineError>,
    snap: Result<PageSnapshot, EngineError>,
) -> (r: NavMsg)
    ensures
        match nav {
            Ok(_) => match snap {
                Ok(s) => r matches NavMsg::Loaded { url: u, title, body } && u@ == url@ && title@
                    == shown_title(url@, s.title@) && body@ == s.body@,
                Err(e) => r matches NavMsg::Error { url: u, error } && u@ == url@ && exists|
                    m: Seq<char>,
                | error_text(e, m) && error@ == "snapshot: "@ + m,
            },
            Err(e) => r matches NavMsg::Error { url: u, error } && u@ == url@ && error_text(
                e,
                error@,
            ),
        },
{
    match nav {
        Ok(_) => match snap {
            Ok(s) => {
                let title = if s.title.as_str().is_empty() {
                    url.host().to_owned()
                } else {
                    s.title
                };
                NavMsg::Loaded { url, title, body: s.body }
            },
            Err(e) => {
                let mut out: Vec<char> = Vec::new();
                push_str(&mut out, "snapshot: ");
                let m = e.message();
                push_str(&mut out, m.as_str());
                NavMsg::Error { url, error: string_of(out.as_slice()) }
            },
        },
        Err(e) => {
            let m = e.message();
            NavMsg::Error { url, error: m }
        },
    }
}

/// What the page surface shows for a message from a background
/// navigation: the URL text, the title and the body.
pub fn message_page(msg: &NavMsg) -> (r: (String, String, String))
    ensures
        match msg {
            NavMsg::Loaded { url, title, body } => r.0@ == display_url(url@) && r.1@ == title@
                && r.2@ == body@,
            NavMsg::Error { url, error } => r.0@ == display_url(url@) && r.1@ == "atsisbroken"@
                && r.2@ == load_failure_body(display_url(url@), error@),
        },
{
    match msg {
        NavMsg::Loaded { url, title, body } => (url.to_string(), title.clone(), body.clone()),
        NavMsg::Error { url, error } => {
            let u = url.to_string();
            let b = failure_body(u.as_str(), error.as_str());
            (u, "atsisbroken".to_owned(), b)
        },
    }
}

} // verus!
