use atsisbroken::browser::engine::{EngineError, NavigateOutcome, PageSnapshot};
use atsisbroken::browser::shell::{compose_page_text, message_page, navigation_message, NavMsg};
use atsisbroken::browser::url::Url;

fn url_for_test(s: &str) -> Url {
    s.parse().expect("test URL must parse")
}

#[test]
fn compose_page_text_uses_snapshot_title_when_present() {
    let url = url_for_test("https://example.com/");
    let snap = PageSnapshot {
        url: url.to_string(),
        title: "Example Domain".into(),
        body: "This domain is for use in illustrative examples.".into(),
        fields: Vec::new(),
    };
    let (title, body) = compose_page_text(&url, Ok(()), Ok(snap));
    assert_eq!(title, "Example Domain");
    assert!(body.contains("illustrative"));
}

#[test]
fn compose_page_text_falls_back_to_host_when_title_empty() {
    let url = url_for_test("https://example.com/");
    let snap = PageSnapshot {
        url: url.to_string(),
        title: String::new(),
        body: "body text".into(),
        fields: Vec::new(),
    };
    let (title, body) = compose_page_text(&url, Ok(()), Ok(snap));
    assert_eq!(title, "example.com");
    assert_eq!(body, "body text");
}

#[test]
fn compose_page_text_renders_navigate_error_into_body() {
    let url = url_for_test("https://example.com/");
    let nav_err = Err(EngineError::Network("dns: no route to host".into()));
    let snap_err = Err(EngineError::Parse("no page loaded".into()));
    let (title, body) = compose_page_text(&url, nav_err, snap_err);
    assert_eq!(title, "atsisbroken");
    assert!(body.contains("Couldn't load"));
    assert!(body.contains("https://example.com/"));
    assert!(body.contains("dns: no route to host"));
}

#[test]
fn internal_url_takes_synchronous_path() {
    let url = url_for_test("atsisbroken://home");
    assert!(url.is_internal());
    assert!(!url.is_network());
}

#[test]
fn network_url_takes_async_worker_path() {
    let url = url_for_test("https://boards.greenhouse.io/example/jobs/123");
    assert!(!url.is_internal());
    assert!(url.is_network());
}

#[test]
fn navigation_message_reports_snapshot_failure() {
    let url = url_for_test("https://example.com/");
    let outcome = NavigateOutcome {
        final_url: url.clone(),
        status: 200,
        content_type: "text/html".into(),
        form_field_count: 0,
    };
    let msg = navigation_message(url, Ok(outcome), Err(EngineError::Parse("no page loaded".into())));
    match msg {
        NavMsg::Error { error, .. } => assert_eq!(error, "snapshot: parse: no page loaded"),
        other => panic!("expected Error, got {other:?}"),
    }
}

#[test]
fn message_page_renders_failure_like_compose() {
    let url = url_for_test("https://example.com/");
    let (u, title, body) = message_page(&NavMsg::Error { url, error: "boom".into() });
    assert_eq!(u, "https://example.com/");
    assert_eq!(title, "atsisbroken");
    assert!(body.starts_with("Couldn't load https://example.com/\n\nboom\n\n"));
}
