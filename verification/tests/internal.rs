use atsisbroken::browser::internal::render;
use atsisbroken::browser::url::Url;
use std::str::FromStr;

#[test]
fn internal_home_renders_with_url_menu() {
    let page = render(&Url::internal_home());
    assert_eq!(page.title, "atsisbroken");
    assert!(page.body.contains("atsisbroken://connections"));
    assert!(page.body.contains("atsisbroken://summary"));
    assert!(page.body.contains("atsisbroken://discover"));
}

#[test]
fn connections_lists_known_services() {
    let page = render(&Url::internal("connections"));
    assert!(page.title.contains("connections"));
    assert!(page.body.contains("GitHub"));
    assert!(page.body.contains("Stack Overflow"));
    assert!(page.body.contains("Hacker News"));
    assert!(page.body.contains("crates.io"));
    assert!(page.body.contains("LinkedIn"));
    assert!(page.body.contains("Reddit"));
    assert!(page.body.contains("Substack"));
    assert!(page.body.contains("atsisbroken://connect/github"));
}

#[test]
fn summary_links_to_connections_when_empty() {
    let page = render(&Url::internal("summary"));
    assert!(page.body.contains("atsisbroken://connections"));
}

#[test]
fn unknown_internal_url_returns_not_found_with_attempted_path() {
    let url: Url = "atsisbroken://garbage".parse().unwrap();
    let page = render(&url);
    assert_eq!(page.title, "Page not found");
    assert!(page.body.contains("atsisbroken://garbage"));
}

#[test]
fn unknown_internal_url_with_path_includes_path() {
    let url: Url = "atsisbroken://garbage/some/path".parse().unwrap();
    let page = render(&url);
    assert!(page.body.contains("atsisbroken://garbage/some/path"));
}

#[test]
fn every_known_page_returns_non_empty_title_and_body() {
    for host in [
        "home",
        "connections",
        "summary",
        "discover",
        "queue",
        "applications",
        "responses",
        "identities",
        "sources",
        "shield",
        "fingerprint",
        "network",
        "settings",
        "audit-bar",
        "onboarding",
    ] {
        let page = render(&Url::internal(host));
        assert!(!page.title.is_empty(), "{host}: empty title");
        assert!(!page.body.is_empty(), "{host}: empty body");
    }
}

#[test]
fn page_bodies_have_no_trailing_whitespace_per_line() {
    for host in ["home", "connections", "summary"] {
        let page = render(&Url::internal(host));
        for (i, line) in page.body.lines().enumerate() {
            assert_eq!(line, line.trim_end(), "{host} line {i} has trailing whitespace: {line:?}");
        }
    }
}

#[test]
fn parse_internal_url_routes_correctly() {
    let url = Url::from_str("atsisbroken://applications").unwrap();
    let page = render(&url);
    assert!(page.title.to_lowercase().contains("applications"));
}

#[test]
fn shield_documents_blocked_categories() {
    let page = render(&Url::internal("shield"));
    assert!(page.body.contains("Analytics"));
    assert!(page.body.contains("Cookie walls"));
    assert!(page.body.contains("ATS telemetry"));
}

#[test]
fn fingerprint_page_documents_webdriver_default() {
    let page = render(&Url::internal("fingerprint"));
    assert!(page.body.contains("navigator.webdriver"));
    assert!(page.body.contains("false"));
}

#[test]
fn not_found_page_reads_exactly() {
    let url: Url = "atsisbroken://no-such-page/with/path".parse().unwrap();
    let page = render(&url);
    assert_eq!(page.title, "Page not found");
    assert!(page.body.starts_with(
        "The internal page atsisbroken://no-such-page/with/path doesn't exist (yet)."
    ));
}
