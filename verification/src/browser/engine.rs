//! The static-HTML engine: what a navigation leaves behind (title, body,
//! parsed document) and the snapshot of form fields taken from it.
//! Internal `atsisbroken://` pages render in process; network pages are
//! fetched by the caller and handed in as text.
use vstd::prelude::*;
use crate::browser::html::{extract_fields, extract_title, fields_in, parse_html, parsed_html, title_in, HtmlNode};
use crate::browser::internal::{render, rendered_page};
use crate::browser::url::{display_url, is_internal_scheme, is_network_scheme, Url, UrlView};
use crate::chars::{is_prefix, push_str, push_all, string_of};
use crate::decimal::{dec_chars, dec_string};
use crate::foreign::{debug_quoted, debug_str, io_error_text};
use crate::profile::{field_views, FieldDescriptor, FieldView};

verus! {

/// What a navigation produced.
#[derive(Debug, Clone, PartialEq, Eq)]
pub struct NavigateOutcome {
    pub final_url: Url,
    /// HTTP status; 0 for internal pages.
    pub status: u16,
    /// MIME type from `Content-Type`.
    pub content_type: String,
    /// Number of `input`, `textarea` and `select` elements found.
    pub form_field_count: usize,
}

/// The page as the shell paints it, with its form fields.
#[derive(Debug, Clone, Default, PartialEq, Eq)]
pub struct PageSnapshot {
    pub url: String,
    pub title: String,
    /// Text painted below the title: the page content for internal pages,
    /// a one-line description for network pages.
    pub body: String,
    pub fields: Vec<FieldDescriptor>,
}

#[derive(Debug)]
pub enum EngineError {
    Network(String),
    Parse(String),
    Unimplemented(&'static str),
    Io(std::io::Error),
}

/// `m` is the text the error displays as.
pub open spec fn error_text(e: EngineError, m: Seq<char>) -> bool {
    match e {
        EngineError::Network(s) => m == "network: "@ + s@,
        EngineError::Parse(s) => m == "parse: "@ + s@,
        EngineError::Unimplemented(s) => m == "not yet implemented: "@ + s@,
        EngineError::Io(_) => is_prefix("io: "@, m),
    }
}

impl EngineError {
    /// The text the error displays as.
    pub fn message(&self) -> (r: String)
        ensures
            error_text(*self, r@),
    {
        let mut out: Vec<char> = Vec::new();
        match self {
            EngineError::Network(s) => {
                push_str(&mut out, "network: ");
                push_str(&mut out, s.as_str());
            },
            EngineError::Parse(s) => {
                push_str(&mut out, "parse: ");
                push_str(&mut out, s.as_str());
            },
            EngineError::Unimplemented(s) => {
                push_str(&mut out, "not yet implemented: ");
                push_str(&mut out, s);
            },
            EngineError::Io(e) => {
                push_str(&mut out, "io: ");
                let t = io_error_text(e);
                let ghost head = out@;
                assert(head =~= "io: "@);
                push_str(&mut out, t.as_str());
                assert(out@.take(head.len() as int) =~= head);
            },
        }
        string_of(out.as_slice())
    }
}

/// The crate version.
pub open spec fn version_text() -> Seq<char> {
    "0.1.0"@
}

/// The `User-Agent` the engine sends.
pub open spec fn user_agent_text() -> Seq<char> {
    "atsisbroken/"@ + version_text() + " (+https://github.com/cochranblock/atsisbroken)"@
}

/// The `User-Agent` the engine sends: the crate name and version, and
/// where the project lives.
pub fn default_user_agent() -> (r: String)
    ensures
        r@ == user_agent_text(),
{
    let mut out: Vec<char> = Vec::new();
    push_str(&mut out, "atsisbroken/");
    push_str(&mut out, crate::version());
    push_str(&mut out, " (+https://github.com/cochranblock/atsisbroken)");
    string_of(out.as_slice())
}

/// The content type of internal pages.
pub open spec fn internal_content_type() -> Seq<char> {
    "text/atsisbroken-internal"@
}

/// The body a network page gets: `Loaded <url>.`, and the number of form
/// fields when there are any.
pub open spec fn network_body(u: UrlView, count: nat) -> Seq<char> {
    if count > 0 {
        "Loaded "@ + display_url(u) + ".\n\n"@ + dec_string(count) + " form field(s) detected."@
    } else {
        "Loaded "@ + display_url(u) + "."@
    }
}

/// The message for a URL whose scheme the engine cannot load.
pub open spec fn unsupported_scheme_message(u: UrlView) -> Seq<char> {
    "scheme "@ + debug_quoted(u.scheme) + " not supported by StaticHtmlEngine"@
}

/// Static-HTML engine: no JavaScript, no CSS layout. Holds what the last
/// navigation left: the parsed document (network pages only), the URL, the
/// title and the body text.
pub struct StaticHtmlEngine {
    dom: Option<HtmlNode>,
    last_url: Option<Url>,
    title: String,
    body: String,
}

/// The abstract state of a [`StaticHtmlEngine`].
pub struct EngineView {
    pub dom: Option<HtmlNode>,
    pub last_url: Option<UrlView>,
    pub title: Seq<char>,
    pub body: Seq<char>,
}

impl View for StaticHtmlEngine {
    type V = EngineView;

    closed spec fn view(&self) -> EngineView {
        EngineView {
            dom: self.dom,
            last_url: match self.last_url {
                Some(u) => Some(u@),
                None => None,
            },
            title: self.title@,
            body: self.body@,
        }
    }
}

/// The snapshot an engine state gives: `None` before any navigation.
pub open spec fn snapshot_of(e: EngineView) -> Option<(Seq<char>, Seq<char>, Seq<char>, Seq<FieldView>)> {
    match e.last_url {
        None => None,
        Some(u) => Some(
            (
                display_url(u),
                e.title,
                e.body,
                match e.dom {
                    Some(d) => fields_in(d),
                    None => seq![],
                },
            ),
        ),
    }
}

impl StaticHtmlEngine {
    /// An engine that has not navigated yet.
    pub fn new() -> (r: StaticHtmlEngine)
        ensures
            r@.last_url is None,
            r@.dom is None,
    {
        StaticHtmlEngine { dom: None, last_url: None, title: String::new(), body: String::new() }
    }

    /// Navigate without the network: internal pages render in process;
    /// a scheme that is neither internal nor http(s) is an error; `None`
    /// when the URL must be fetched (then [`Self::load_page`] takes the
    /// fetched text).
    pub fn navigate_local(&mut self, url: &Url) -> (r: Option<Result<NavigateOutcome, EngineError>>)
        ensures
            is_internal_scheme(url@) ==> {
                &&& r matches Some(Ok(o))
                &&& o.final_url@ == url@ && o.status == 0 && o.form_field_count == 0
                &&& o.content_type@ == internal_content_type()
                &&& final(self)@.last_url == Some(url@)
                &&& final(self)@.dom is None
                &&& final(self)@.title == rendered_page(url@).title
                &&& final(self)@.body == rendered_page(url@).body
            },
            !is_internal_scheme(url@) && !is_network_scheme(url@) ==> {
                &&& r matches Some(Err(EngineError::Network(m)))
                &&& m@ == unsupported_scheme_message(url@)
                &&& final(self)@ == old(self)@
            },
            !is_internal_scheme(url@) && is_network_scheme(url@) ==> r is None && final(self)@
                == old(self)@,
    {
        if url.is_internal() {
            let page = render(url);
            self.title = page.title;
            self.body = page.body;
            self.dom = None;
            self.last_url = Some(url.duplicate());
            return Some(
                Ok(
                    NavigateOutcome {
                        final_url: url.duplicate(),
                        status: 0,
                        content_type: "text/atsisbroken-internal".to_owned(),
                        form_field_count: 0,
                    },
                ),
            );
        }
        if !url.is_network() {
            let mut m: Vec<char> = Vec::new();
            push_str(&mut m, "scheme ");
            let q = debug_str(url.scheme());
            push_str(&mut m, q.as_str());
            push_str(&mut m, " not supported by StaticHtmlEngine");
            return Some(Err(EngineError::Network(string_of(m.as_slice()))));
        }
        None
    }

    /// Take a fetched network page: parse it, read its title and form
    /// fields, and describe it in the body.
    pub fn load_page(&mut self, url: &Url, status: u16, content_type: String, html: &str) -> (r:
        NavigateOutcome)
        ensures
            r.final_url@ == url@,
            r.status == status,
            r.content_type@ == content_type@,
            r.form_field_count == fields_in(parsed_html(html@)).len(),
            final(self)@.dom == Some(parsed_html(html@)),
            final(self)@.last_url == Some(url@),
            final(self)@.title == title_in(parsed_html(html@)),
            final(self)@.body == network_body(url@, fields_in(parsed_html(html@)).len()),
    {
        let dom = parse_html(html);
        let title = extract_title(&dom);
        let fields = extract_fields(&dom);
        let count = fields.len();
        let mut b: Vec<char> = Vec::new();
        push_str(&mut b, "Loaded ");
        let u = url.to_string();
        push_str(&mut b, u.as_str());
        if count > 0 {
            push_str(&mut b, ".\n\n");
            let d = dec_chars(count as u64);
            push_all(&mut b, d.as_slice());
            push_str(&mut b, " form field(s) detected.");
        } else {
            push_str(&mut b, ".");
        }
        self.title = title;
        self.body = string_of(b.as_slice());
        self.dom = Some(dom);
        self.last_url = Some(url.duplicate());
        NavigateOutcome { final_url: url.duplicate(), status, content_type, form_field_count: count }
    }

    /// The current page: URL, title, body and form fields (none for
    /// internal pages). An error before the first navigation.
    pub fn snapshot_fields(&self) -> (r: Result<PageSnapshot, EngineError>)
        ensures
            match snapshot_of(self@) {
                None => r matches Err(EngineError::Parse(m)) && m@ == "no page loaded"@,
                Some((u, t, b, fs)) => r matches Ok(s) && s.url@ == u && s.title@ == t && s.body@
                    == b && field_views(s.fields@) == fs,
            },
    {
        let url = match &self.last_url {
            Some(u) => u.to_string(),
            None => {
                return Err(EngineError::Parse("no page loaded".to_owned()));
            },
        };
        let fields = match &self.dom {
            Some(d) => extract_fields(d),
            None => Vec::new(),
        };
        assert(field_views(fields@) =~= match self@.dom {
            Some(d) => fields_in(d),
            None => seq![],
        });
        Ok(PageSnapshot { url, title: self.title.clone(), body: self.body.clone(), fields })
    }

    /// Filling needs a JavaScript-capable engine; this one always refuses.
    pub fn fill_field(&mut self, field_id: &str, value: &str) -> (r: Result<(), EngineError>)
        ensures
            r matches Err(EngineError::Unimplemented(m)) && m@
                == "fill requires the JS-capable engine (stylo + mozjs)"@,
            final(self)@ == old(self)@,
    {
        Err(EngineError::Unimplemented("fill requires the JS-capable engine (stylo + mozjs)"))
    }

    /// Reading a field back needs a live engine; this one always refuses.
    pub fn read_field(&self, field_id: &str) -> (r: Result<Option<String>, EngineError>)
        ensures
            r matches Err(EngineError::Unimplemented(m)) && m@ == "read_field requires a live engine"@,
    {
        Err(EngineError::Unimplemented("read_field requires a live engine"))
    }

    /// Screenshots need a paint surface; this engine always refuses.
    pub fn screenshot(&self) -> (r: Result<Vec<u8>, EngineError>)
        ensures
            r matches Err(EngineError::Unimplemented(m)) && m@
                == "screenshot requires WebRender / wgpu surface"@,
    {
        Err(EngineError::Unimplemented("screenshot requires WebRender / wgpu surface"))
    }
}

} // verus!
