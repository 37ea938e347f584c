//! Internal pages: what the browser shows for `atsisbroken://` URLs.
//! Each page is a title and a multi-line body; unknown pages get a
//! "page not found" page that names what was asked for.
use vstd::prelude::*;
use crate::browser::url::{Url, UrlView};
use crate::chars::{push_all, push_str, str_eq, string_of};

verus! {

/// What the browser renders for one internal URL: the title shown large at
/// the top, and the body below it (lines separated by `\n`).
#[derive(Debug, Clone, PartialEq, Eq)]
pub struct InternalPage {
    pub title: String,
    pub body: String,
}

/// The abstract value of an [`InternalPage`].
pub struct PageView {
    pub title: Seq<char>,
    pub body: Seq<char>,
}

impl View for InternalPage {
    type V = PageView;

    open spec fn view(&self) -> PageView {
        PageView { title: self.title@, body: self.body@ }
    }
}

pub const HOME_TITLE: &'static str = "atsisbroken";

pub const HOME_BODY: &'static str = "\
The browser for filling job applications.

Connect what you've made. The plan: write your applications from
it, anchoring every freetext sentence to a public URL you already
wrote — GitHub, blog, Stack Overflow, the rest. Nothing leaves this
device unless you say so. The composer that does the anchoring
ships in a later phase; today's binary covers the connectors and
the local schema.

Where to start

    atsisbroken://connections     your sources
    atsisbroken://summary         what we say about you
    atsisbroken://discover        public job boards, aggregated
    atsisbroken://applications    your submission ledger
    atsisbroken://network         every outbound call, live
    atsisbroken://settings        modes, identities, privacy

The address bar at the top accepts any URL — internal or web.\
";

pub const CONNECTIONS_TITLE: &'static str = "Your connections";

pub const CONNECTIONS_BODY: &'static str = "\
Active (0)

    No connections yet. Pick a source below to start.

Available

  Public-handle services (no auth, just your username)

    GitHub               Code, READMEs, recent commit messages.
                         atsisbroken://connect/github

    Stack Overflow       Q&A history, vote-weighted answers.
                         atsisbroken://connect/stackoverflow

    Hacker News          Comments + submissions, karma-weighted.
                         atsisbroken://connect/hn

    crates.io            Published Rust packages.
                         atsisbroken://connect/cratesio

    npm                  Published Node packages.
                         atsisbroken://connect/npm

    Bluesky              AT Protocol — public posts.
                         atsisbroken://connect/bluesky

    Mastodon             ActivityPub — public posts.
                         atsisbroken://connect/mastodon

    arXiv                Academic papers by author.
                         atsisbroken://connect/arxiv

    USPTO Patents        Granted + pending patents.
                         atsisbroken://connect/uspto

    Personal blog        Auto-discover via RSS / Atom / sitemap.
                         atsisbroken://connect/blog

  OAuth services (sign in via this browser, no system handoff)

    LinkedIn             Profile + positions.
                         atsisbroken://connect/linkedin

    Reddit               Vote-weighted comment + submission history.
                         atsisbroken://connect/reddit

  Session-cookie services (sign in normally, we capture the cookie)

    Substack             Your paid newsletter content.
                         atsisbroken://connect/substack

    Medium               Member-only stories.
                         atsisbroken://connect/medium

  More

    16 additional services in the full list:
    atsisbroken://sources

Each connection's data lives in ~/.atsisbroken/. Disconnect any time
to delete the local cache. Network audit is live at
atsisbroken://network — every byte we fetch is visible.\
";

pub const SUMMARY_TITLE: &'static str = "Your auto-summary";

pub const SUMMARY_BODY: &'static str = "\
Bio
    Connect a source first. We need products to summarize from.
    [atsisbroken://connections]

Themes
    No themes detected — graph is empty.

Coverage gaps
    Frontend / UX work — connect a portfolio source.
    Speaking / talks — connect YouTube or paste manually.
    Long-form writing — connect a blog or Substack.

Test against a JD
    Paste a job description here once your sources are connected;
    we'll preview what your application would say.\
";

pub const DISCOVER_TITLE: &'static str = "Discover";

pub const DISCOVER_BODY: &'static str = "\
Job aggregation from public boards.

Sources we'll poll (when implemented):
    LinkedIn Jobs RSS feed (per saved search)
    Indeed RSS feed
    HN Who-is-hiring threads
    USAJOBS public API
    Greenhouse vendor public boards
    Lever vendor public boards
    Ashby vendor public boards

Filter by keyword, salary range, remote/onsite, visa sponsorship.
Click 'Add to queue' to drop a posting into atsisbroken://queue.

Feed-polling implementation lands in a follow-up commit. Today
this page is a placeholder so the URL works.\
";

pub const QUEUE_TITLE: &'static str = "Application queue";

pub const QUEUE_BODY: &'static str = "\
The queue page processes pending applications in batch. Each
posting in the queue runs through: navigate → detect ATS form →
classify fields → compose freetext → review against deny-list →
submit (in Vapor mode) or pause for user (Vault).

Per-domain rate limiter prevents IP bans across queue runs.

Queue runtime + state machine implementation lands once the engine
can drive real ATS pages (stylo + mozjs). For now this page is a
placeholder.\
";

pub const APPLICATIONS_TITLE: &'static str = "Your applications";

pub const APPLICATIONS_BODY: &'static str = "\
Local ledger of every submission. Per-application audit page shows
each emitted token with its source citation — for your own
verification of what the tool did on your behalf.

No applications yet. The ledger populates when the run loop
detects a successful submit on an ATS form.\
";

pub const RESPONSES_TITLE: &'static str = "Application responses";

pub const RESPONSES_BODY: &'static str = "\
Auto-detected status updates from your inbox.

Email integration: not connected.
    Connect via atsisbroken://settings to enable IMAP polling.
    Credentials stay local (chmod 600); no cloud relay.

Pattern detection (when enabled):
    Acknowledged: 'received' + 'thank you' + 'review'
    Interview: 'schedule' / 'next steps' / 'phone call'
    Rejected: 'regret' / 'moved forward' / 'not the right fit'
    Ghosted: 14+ days from submit, no email\
";

pub const IDENTITIES_TITLE: &'static str = "Identities";

pub const IDENTITIES_BODY: &'static str = "\
Multiple narratives built from the same products.

Active: Default (no other identities created yet)

    Same products → different ranking. A 'Technical IC' identity
    weights GitHub heavily; an 'Engineering Manager' identity
    weights LinkedIn + leadership-tagged blog posts.

To add an identity: edit ~/.atsisbroken/identities.toml. UI for
creating + editing identities lands when the address bar input
layer ships.\
";

pub const SOURCES_TITLE: &'static str = "All available sources";

pub const SOURCES_BODY: &'static str = "\
Full list of integrations, by auth shape.

Public-handle (no token required)
    GitHub, GitLab, Bitbucket, Codeberg, Sourcehut
    Stack Overflow, Hacker News, Reddit
    crates.io, npm, PyPI, RubyGems, Docker Hub
    arXiv, USPTO, Google Scholar, ORCID
    Bluesky, Mastodon
    YouTube, Twitch
    Behance, Dribbble, ArtStation
    Dev.to, Hashnode
    Personal blog (RSS/Atom/sitemap)
    USAJOBS

OAuth (browser-internal redirect capture)
    LinkedIn, Twitter / X, Reddit, Notion, Patreon, Spotify

Session-cookie (sign in normally, we capture the cookie)
    Substack, Medium, LinkedIn (beyond OAuth scopes)

Manual paste
    Resume / arbitrary content (you attest authorship)\
";

pub const SHIELD_TITLE: &'static str = "Tracker shield";

pub const SHIELD_BODY: &'static str = "\
Default rule list ships with the binary. Distilled from EasyList
+ EasyPrivacy + ATS-vendor-specific analytics surfaces.

Categories blocked by default:
    Analytics      Google, Mixpanel, Amplitude, Heap, Segment
    Behavioral fp  FullStory, Hotjar, ContentSquare
    Ad tech        DoubleClick, Taboola, Outbrain
    Social pixels  Facebook, LinkedIn, Twitter
    Cookie walls   Auto-dismissed (Reject All)
    ATS telemetry  Greenhouse Segment, Lever Heap, Workday

Live blocking implementation comes with the JS-capable engine.
Today this page documents what shield will do.\
";

pub const FINGERPRINT_TITLE: &'static str = "Anti-fingerprint";

pub const FINGERPRINT_BODY: &'static str = "\
Default profile: Paranoid

    User-Agent              Firefox/128 on Linux x86_64 (planned)
    navigator.webdriver     false (planned default)
    Canvas hash             per-session noise (planned)
    WebGL vendor            per-session randomization (planned)
    Font enumeration        common-fonts subset (planned)
    Hardware concurrency    reports 8 (planned)
    Timezone                host (we don't lie about location)
    Languages               host
    Screen size             host

Per-domain overrides
    *.workday.com           Paranoid (default)
    *.icims.com             Balanced
    *.greenhouse.io         Balanced
    Add overrides via ~/.atsisbroken/fingerprints.toml

Status: the FingerprintProfile struct + per-domain override matcher
are implemented and tested. The browser doesn't have a JS engine
yet, so the values aren't enforced against a real page — that
ships when mozjs lands. Until then this page documents intent and
the configuration shape, not a live guarantee.

Note: Canvas/WebGL noise breaks image CAPTCHAs on some vendors.
If a CAPTCHA wall trips, switch that domain to Balanced.\
";

pub const NETWORK_TITLE: &'static str = "Network audit";

pub const NETWORK_BODY: &'static str = "\
Live outbound network audit (this session).

Total calls so far: 0
    Target ATS pages:           0
    Connected source endpoints: 0
    atsisbroken core:           0
    Blocked by tracker shield:  0

The privacy hawk audits with this page. Every call is real. No
telemetry to atsisbroken's authors. Ever.

Real-time updating implementation comes with the engine's network
layer. Today this page is a static placeholder.\
";

pub const SETTINGS_TITLE: &'static str = "Settings";

pub const SETTINGS_BODY: &'static str = "\
Configurable surfaces (each links to its own page when input lands)

    Mode default              atsisbroken://settings/mode
    Identity default          atsisbroken://identities
    Input timing              atsisbroken://settings/typing
    Fingerprint preset        atsisbroken://fingerprint
    Tracker rules             atsisbroken://shield
    Source connections        atsisbroken://connections
    Email integration         atsisbroken://settings/email
    Network audit             atsisbroken://network
    Factory reset             atsisbroken://settings/reset

Hardware
    Profile path: ~/.atsisbroken/profile.toml
    Config path:  ~/.atsisbroken/config.toml
    Tokens dir:   ~/.atsisbroken/tokens/  (chmod 600)\
";

pub const AUDIT_BAR_TITLE: &'static str = "Audit bar";

pub const AUDIT_BAR_BODY: &'static str = "\
Single-purpose view: 'I am proving I'm filling this honestly.'

Design intent: keep this page open during an interview to show
the audit story live — as applications get filled, the audit bar
will list every emitted freetext token alongside the public URL
the composer pulled it from. The composer + token-to-URL ledger
land in a later phase; today this page documents the shape.\
";

pub const ONBOARDING_TITLE: &'static str = "Welcome to atsisbroken";

pub const ONBOARDING_BODY: &'static str = "\
First-run wizard.

Step 1 — Paste a resume (optional)
    We'll extract the basics: name, email, phone, LinkedIn,
    GitHub. Skip if you'd rather build from connectors.

Step 2 — Connect your sources
    The more we have, the better your auto-summary. GitHub +
    one writing source covers most candidates. Add more as
    they apply.

Step 3 — Pick a fill mode
    TrainingWheels (recommended for first 5 applications)
    Shadow         (highlight + click)
    Chaos          (auto-fill on page load, you submit)
    Vault          (auto-fill + deny-list, you submit)
    Vapor          (auto-fill + auto-submit, per-session opt-in)

Step 4 — Done
    Land on atsisbroken://home and start applying.

The wizard's interactive flow lands when the address bar input
layer ships.\
";

pub const NOT_FOUND_TITLE: &'static str = "Page not found";

pub const NOT_FOUND_HEAD: &'static str = "\
The internal page ";

pub const NOT_FOUND_TAIL: &'static str = " doesn't exist (yet).

Try one of these:

    atsisbroken://home
    atsisbroken://connections
    atsisbroken://summary
    atsisbroken://applications

Or navigate to any web URL via the address bar — atsisbroken
renders pages from the open web too.\
";

pub const INTERNAL_PREFIX: &'static str = "atsisbroken://";

/// The pages the router knows, by host name.
pub open spec fn known_page(host: Seq<char>) -> Option<PageView> {
    if host == "home"@ {
        Some(PageView { title: HOME_TITLE@, body: HOME_BODY@ })
    } else if host == "connections"@ {
        Some(PageView { title: CONNECTIONS_TITLE@, body: CONNECTIONS_BODY@ })
    } else if host == "summary"@ {
        Some(PageView { title: SUMMARY_TITLE@, body: SUMMARY_BODY@ })
    } else if host == "discover"@ {
        Some(PageView { title: DISCOVER_TITLE@, body: DISCOVER_BODY@ })
    } else if host == "queue"@ {
        Some(PageView { title: QUEUE_TITLE@, body: QUEUE_BODY@ })
    } else if host == "applications"@ {
        Some(PageView { title: APPLICATIONS_TITLE@, body: APPLICATIONS_BODY@ })
    } else if host == "responses"@ {
        Some(PageView { title: RESPONSES_TITLE@, body: RESPONSES_BODY@ })
    } else if host == "identities"@ {
        Some(PageView { title: IDENTITIES_TITLE@, body: IDENTITIES_BODY@ })
    } else if host == "sources"@ {
        Some(PageView { title: SOURCES_TITLE@, body: SOURCES_BODY@ })
    } else if host == "shield"@ {
        Some(PageView { title: SHIELD_TITLE@, body: SHIELD_BODY@ })
    } else if host == "fingerprint"@ {
        Some(PageView { title: FINGERPRINT_TITLE@, body: FINGERPRINT_BODY@ })
    } else if host == "network"@ {
        Some(PageView { title: NETWORK_TITLE@, body: NETWORK_BODY@ })
    } else if host == "settings"@ {
        Some(PageView { title: SETTINGS_TITLE@, body: SETTINGS_BODY@ })
    } else if host == "audit-bar"@ {
        Some(PageView { title: AUDIT_BAR_TITLE@, body: AUDIT_BAR_BODY@ })
    } else if host == "onboarding"@ {
        Some(PageView { title: ONBOARDING_TITLE@, body: ONBOARDING_BODY@ })
    } else {
        None
    }
}

/// The URL text shown on the "page not found" page: the scheme, the host
/// and the path that were asked for.
pub open spec fn attempted_url(host: Seq<char>, path: Seq<char>) -> Seq<char> {
    INTERNAL_PREFIX@ + host + path
}

/// The "page not found" page for a host and path.
pub open spec fn not_found_page(host: Seq<char>, path: Seq<char>) -> PageView {
    PageView {
        title: NOT_FOUND_TITLE@,
        body: NOT_FOUND_HEAD@ + attempted_url(host, path) + NOT_FOUND_TAIL@,
    }
}

/// What [`render`] shows for a URL: the page routed by its host, or the
/// "page not found" page.
pub open spec fn rendered_page(u: UrlView) -> PageView {
    match known_page(u.host) {
        Some(p) => p,
        None => not_found_page(u.host, u.path),
    }
}

fn page(title: &str, body: &str) -> (p: InternalPage)
    ensures
        p@ == (PageView { title: title@, body: body@ }),
{
    InternalPage { title: title.to_owned(), body: body.to_owned() }
}

fn not_found(host: &str, path: &str) -> (p: InternalPage)
    ensures
        p@ == not_found_page(host@, path@),
{
    let mut body: Vec<char> = Vec::new();
    push_str(&mut body, NOT_FOUND_HEAD);
    push_str(&mut body, INTERNAL_PREFIX);
    push_str(&mut body, host);
    push_str(&mut body, path);
    push_str(&mut body, NOT_FOUND_TAIL);
    assert(body@ =~= not_found_page(host@, path@).body);
    InternalPage { title: NOT_FOUND_TITLE.to_owned(), body: string_of(body.as_slice()) }
}

/// Resolve an internal URL to its page. Unknown hosts give the "page not
/// found" page, which names the URL that was asked for.
pub fn render(url: &Url) -> (p: InternalPage)
    ensures
        p@ == rendered_page(url@),
{
    let host = url.host();
    if str_eq(host, "home") {
        page(HOME_TITLE, HOME_BODY)
    } else if str_eq(host, "connections") {
        page(CONNECTIONS_TITLE, CONNECTIONS_BODY)
    } else if str_eq(host, "summary") {
        page(SUMMARY_TITLE, SUMMARY_BODY)
    } else if str_eq(host, "discover") {
        page(DISCOVER_TITLE, DISCOVER_BODY)
    } else if str_eq(host, "queue") {
        page(QUEUE_TITLE, QUEUE_BODY)
    } else if str_eq(host, "applications") {
        page(APPLICATIONS_TITLE, APPLICATIONS_BODY)
    } else if str_eq(host, "responses") {
        page(RESPONSES_TITLE, RESPONSES_BODY)
    } else if str_eq(host, "identities") {
        page(IDENTITIES_TITLE, IDENTITIES_BODY)
    } else if str_eq(host, "sources") {
        page(SOURCES_TITLE, SOURCES_BODY)
    } else if str_eq(host, "shield") {
        page(SHIELD_TITLE, SHIELD_BODY)
    } else if str_eq(host, "fingerprint") {
        page(FINGERPRINT_TITLE, FINGERPRINT_BODY)
    } else if str_eq(host, "network") {
        page(NETWORK_TITLE, NETWORK_BODY)
    } else if str_eq(host, "settings") {
        page(SETTINGS_TITLE, SETTINGS_BODY)
    } else if str_eq(host, "audit-bar") {
        page(AUDIT_BAR_TITLE, AUDIT_BAR_BODY)
    } else if str_eq(host, "onboarding") {
        page(ONBOARDING_TITLE, ONBOARDING_BODY)
    } else {
        not_found(host, url.path())
    }
}

/// Every page the router knows has a non-empty title and body.
pub proof fn known_pages_are_non_empty(host: Seq<char>)
    requires
        known_page(host) is Some,
    ensures
        known_page(host)->Some_0.title.len() > 0,
        known_page(host)->Some_0.body.len() > 0,
{
    if host == "home"@ {
        reveal_strlit("atsisbroken");
        assert(HOME_BODY@.len() > 0) by { reveal_strlit("\
The browser for filling job applications.

Connect what you've made. The plan: write your applications from
it, anchoring every freetext sentence to a public URL you already
wrote — GitHub, blog, Stack Overflow, the rest. Nothing leaves this
device unless you say so. The composer that does the anchoring
ships in a later phase; today's binary covers the connectors and
the local schema.

Where to start

    atsisbroken://connections     your sources
    atsisbroken://summary         what we say about you
    atsisbroken://discover        public job boards, aggregated
    atsisbroken://applications    your submission ledger
    atsisbroken://network         every outbound call, live
    atsisbroken://settings        modes, identities, privacy

The address bar at the top accepts any URL — internal or web.\
"); }
    } else if host == "connections"@ {
        reveal_strlit("Your connections");
        assert(CONNECTIONS_BODY@.len() > 0) by { reveal_strlit("\
Active (0)

    No connections yet. Pick a source below to start.

Available

  Public-handle services (no auth, just your username)

    GitHub               Code, READMEs, recent commit messages.
                         atsisbroken://connect/github

    Stack Overflow       Q&A history, vote-weighted answers.
                         atsisbroken://connect/stackoverflow

    Hacker News          Comments + submissions, karma-weighted.
                         atsisbroken://connect/hn

    crates.io            Published Rust packages.
                         atsisbroken://connect/cratesio

    npm                  Published Node packages.
                         atsisbroken://connect/npm

    Bluesky              AT Protocol — public posts.
                         atsisbroken://connect/bluesky

    Mastodon             ActivityPub — public posts.
                         atsisbroken://connect/mastodon

    arXiv                Academic papers by author.
                         atsisbroken://connect/arxiv

    USPTO Patents        Granted + pending patents.
                         atsisbroken://connect/uspto

    Personal blog        Auto-discover via RSS / Atom / sitemap.
                         atsisbroken://connect/blog

  OAuth services (sign in via this browser, no system handoff)

    LinkedIn             Profile + positions.
                         atsisbroken://connect/linkedin

    Reddit               Vote-weighted comment + submission history.
                         atsisbroken://connect/reddit

  Session-cookie services (sign in normally, we capture the cookie)

    Substack             Your paid newsletter content.
                         atsisbroken://connect/substack

    Medium               Member-only stories.
                         atsisbroken://connect/medium

  More

    16 additional services in the full list:
    atsisbroken://sources

Each connection's data lives in ~/.atsisbroken/. Disconnect any time
to delete the local cache. Network audit is live at
atsisbroken://network — every byte we fetch is visible.\
"); }
    } else if host == "summary"@ {
        reveal_strlit("Your auto-summary");
        assert(SUMMARY_BODY@.len() > 0) by { reveal_strlit("\
Bio
    Connect a source first. We need products to summarize from.
    [atsisbroken://connections]

Themes
    No themes detected — graph is empty.

Coverage gaps
    Frontend / UX work — connect a portfolio source.
    Speaking / talks — connect YouTube or paste manually.
    Long-form writing — connect a blog or Substack.

Test against a JD
    Paste a job description here once your sources are connected;
    we'll preview what your application would say.\
"); }
    } else if host == "discover"@ {
        reveal_strlit("Discover");
        assert(DISCOVER_BODY@.len() > 0) by { reveal_strlit("\
Job aggregation from public boards.

Sources we'll poll (when implemented):
    LinkedIn Jobs RSS feed (per saved search)
    Indeed RSS feed
    HN Who-is-hiring threads
    USAJOBS public API
    Greenhouse vendor public boards
    Lever vendor public boards
    Ashby vendor public boards

Filter by keyword, salary range, remote/onsite, visa sponsorship.
Click 'Add to queue' to drop a posting into atsisbroken://queue.

Feed-polling implementation lands in a follow-up commit. Today
this page is a placeholder so the URL works.\
"); }
    } else if host == "queue"@ {
        reveal_strlit("Application queue");
        assert(QUEUE_BODY@.len() > 0) by { reveal_strlit("\
The queue page processes pending applications in batch. Each
posting in the queue runs through: navigate → detect ATS form →
classify fields → compose freetext → review against deny-list →
submit (in Vapor mode) or pause for user (Vault).

Per-domain rate limiter prevents IP bans across queue runs.

Queue runtime + state machine implementation lands once the engine
can drive real ATS pages (stylo + mozjs). For now this page is a
placeholder.\
"); }
    } else if host == "applications"@ {
        reveal_strlit("Your applications");
        assert(APPLICATIONS_BODY@.len() > 0) by { reveal_strlit("\
Local ledger of every submission. Per-application audit page shows
each emitted token with its source citation — for your own
verification of what the tool did on your behalf.

No applications yet. The ledger populates when the run loop
detects a successful submit on an ATS form.\
"); }
    } else if host == "responses"@ {
        reveal_strlit("Application responses");
        assert(RESPONSES_BODY@.len() > 0) by { reveal_strlit("\
Auto-detected status updates from your inbox.

Email integration: not connected.
    Connect via atsisbroken://settings to enable IMAP polling.
    Credentials stay local (chmod 600); no cloud relay.

Pattern detection (when enabled):
    Acknowledged: 'received' + 'thank you' + 'review'
    Interview: 'schedule' / 'next steps' / 'phone call'
    Rejected: 'regret' / 'moved forward' / 'not the right fit'
    Ghosted: 14+ days from submit, no email\
"); }
    } else if host == "identities"@ {
        reveal_strlit("Identities");
        assert(IDENTITIES_BODY@.len() > 0) by { reveal_strlit("\
Multiple narratives built from the same products.

Active: Default (no other identities created yet)

    Same products → different ranking. A 'Technical IC' identity
    weights GitHub heavily; an 'Engineering Manager' identity
    weights LinkedIn + leadership-tagged blog posts.

To add an identity: edit ~/.atsisbroken/identities.toml. UI for
creating + editing identities lands when the address bar input
layer ships.\
"); }
    } else if host == "sources"@ {
        reveal_strlit("All available sources");
        assert(SOURCES_BODY@.len() > 0) by { reveal_strlit("\
Full list of integrations, by auth shape.

Public-handle (no token required)
    GitHub, GitLab, Bitbucket, Codeberg, Sourcehut
    Stack Overflow, Hacker News, Reddit
    crates.io, npm, PyPI, RubyGems, Docker Hub
    arXiv, USPTO, Google Scholar, ORCID
    Bluesky, Mastodon
    YouTube, Twitch
    Behance, Dribbble, ArtStation
    Dev.to, Hashnode
    Personal blog (RSS/Atom/sitemap)
    USAJOBS

OAuth (browser-internal redirect capture)
    LinkedIn, Twitter / X, Reddit, Notion, Patreon, Spotify

Session-cookie (sign in normally, we capture the cookie)
    Substack, Medium, LinkedIn (beyond OAuth scopes)

Manual paste
    Resume / arbitrary content (you attest authorship)\
"); }
    } else if host == "shield"@ {
        reveal_strlit("Tracker shield");
        assert(SHIELD_BODY@.len() > 0) by { reveal_strlit("\
Default rule list ships with the binary. Distilled from EasyList
+ EasyPrivacy + ATS-vendor-specific analytics surfaces.

Categories blocked by default:
    Analytics      Google, Mixpanel, Amplitude, Heap, Segment
    Behavioral fp  FullStory, Hotjar, ContentSquare
    Ad tech        DoubleClick, Taboola, Outbrain
    Social pixels  Facebook, LinkedIn, Twitter
    Cookie walls   Auto-dismissed (Reject All)
    ATS telemetry  Greenhouse Segment, Lever Heap, Workday

Live blocking implementation comes with the JS-capable engine.
Today this page documents what shield will do.\
"); }
    } else if host == "fingerprint"@ {
        reveal_strlit("Anti-fingerprint");
        assert(FINGERPRINT_BODY@.len() > 0) by { reveal_strlit("\
Default profile: Paranoid

    User-Agent              Firefox/128 on Linux x86_64 (planned)
    navigator.webdriver     false (planned default)
    Canvas hash             per-session noise (planned)
    WebGL vendor            per-session randomization (planned)
    Font enumeration        common-fonts subset (planned)
    Hardware concurrency    reports 8 (planned)
    Timezone                host (we don't lie about location)
    Languages               host
    Screen size             host

Per-domain overrides
    *.workday.com           Paranoid (default)
    *.icims.com             Balanced
    *.greenhouse.io         Balanced
    Add overrides via ~/.atsisbroken/fingerprints.toml

Status: the FingerprintProfile struct + per-domain override matcher
are implemented and tested. The browser doesn't have a JS engine
yet, so the values aren't enforced against a real page — that
ships when mozjs lands. Until then this page documents intent and
the configuration shape, not a live guarantee.

Note: Canvas/WebGL noise breaks image CAPTCHAs on some vendors.
If a CAPTCHA wall trips, switch that domain to Balanced.\
"); }
    } else if host == "network"@ {
        reveal_strlit("Network audit");
        assert(NETWORK_BODY@.len() > 0) by { reveal_strlit("\
Live outbound network audit (this session).

Total calls so far: 0
    Target ATS pages:           0
    Connected source endpoints: 0
    atsisbroken core:           0
    Blocked by tracker shield:  0

The privacy hawk audits with this page. Every call is real. No
telemetry to atsisbroken's authors. Ever.

Real-time updating implementation comes with the engine's network
layer. Today this page is a static placeholder.\
"); }
    } else if host == "settings"@ {
        reveal_strlit("Settings");
        assert(SETTINGS_BODY@.len() > 0) by { reveal_strlit("\
Configurable surfaces (each links to its own page when input lands)

    Mode default              atsisbroken://settings/mode
    Identity default          atsisbroken://identities
    Input timing              atsisbroken://settings/typing
    Fingerprint preset        atsisbroken://fingerprint
    Tracker rules             atsisbroken://shield
    Source connections        atsisbroken://connections
    Email integration         atsisbroken://settings/email
    Network audit             atsisbroken://network
    Factory reset             atsisbroken://settings/reset

Hardware
    Profile path: ~/.atsisbroken/profile.toml
    Config path:  ~/.atsisbroken/config.toml
    Tokens dir:   ~/.atsisbroken/tokens/  (chmod 600)\
"); }
    } else if host == "audit-bar"@ {
        reveal_strlit("Audit bar");
        assert(AUDIT_BAR_BODY@.len() > 0) by { reveal_strlit("\
Single-purpose view: 'I am proving I'm filling this honestly.'

Design intent: keep this page open during an interview to show
the audit story live — as applications get filled, the audit bar
will list every emitted freetext token alongside the public URL
the composer pulled it from. The composer + token-to-URL ledger
land in a later phase; today this page documents the shape.\
"); }
    } else if host == "onboarding"@ {
        reveal_strlit("Welcome to atsisbroken");
        assert(ONBOARDING_BODY@.len() > 0) by { reveal_strlit("\
First-run wizard.

Step 1 — Paste a resume (optional)
    We'll extract the basics: name, email, phone, LinkedIn,
    GitHub. Skip if you'd rather build from connectors.

Step 2 — Connect your sources
    The more we have, the better your auto-summary. GitHub +
    one writing source covers most candidates. Add more as
    they apply.

Step 3 — Pick a fill mode
    TrainingWheels (recommended for first 5 applications)
    Shadow         (highlight + click)
    Chaos          (auto-fill on page load, you submit)
    Vault          (auto-fill + deny-list, you submit)
    Vapor          (auto-fill + auto-submit, per-session opt-in)

Step 4 — Done
    Land on atsisbroken://home and start applying.

The wizard's interactive flow lands when the address bar input
layer ships.\
"); }
    }
}

/// A host the router does not know gives the "page not found" page, whose
/// body names the scheme, host and path that were asked for.
pub proof fn unknown_host_is_not_found(u: UrlView)
    requires
        known_page(u.host) is None,
    ensures
        rendered_page(u).title == "Page not found"@,
        crate::chars::has_sub(rendered_page(u).body, attempted_url(u.host, u.path)),
{
    let b = rendered_page(u).body;
    let k = NOT_FOUND_HEAD@.len() as int;
    let a = attempted_url(u.host, u.path);
    assert(b.subrange(k, k + a.len()) =~= a);
    assert(crate::chars::occurs_at(b, a, k));
}

} // verus!
