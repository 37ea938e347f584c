use atsisbroken::cdp::{
    debugger_url_from_json, parse_endpoint, tabs_from_json, tabs_from_rows, TabInfo, TabListError,
    VersionError,
};

#[test]
fn parse_endpoint_with_http_scheme() {
    let (h, p) = parse_endpoint("http://localhost:9222/json/version").unwrap();
    assert_eq!(h, "localhost");
    assert_eq!(p, 9222);
}

#[test]
fn parse_endpoint_with_no_scheme() {
    let (h, p) = parse_endpoint("localhost:9222").unwrap();
    assert_eq!(h, "localhost");
    assert_eq!(p, 9222);
}

#[test]
fn parse_endpoint_rejects_garbage() {
    assert!(parse_endpoint("not an endpoint").is_none());
    assert!(parse_endpoint("localhost").is_none());
    assert!(parse_endpoint("localhost:notaport").is_none());
}

#[test]
fn parse_endpoint_with_https_scheme() {
    let (h, p) = parse_endpoint("https://localhost:9222/").unwrap();
    assert_eq!(h, "localhost");
    assert_eq!(p, 9222);
}

#[test]
fn parse_endpoint_rejects_port_above_u16() {
    assert!(parse_endpoint("localhost:70000").is_none());
}

#[test]
fn parse_endpoint_with_127_addr() {
    let (h, p) = parse_endpoint("http://127.0.0.1:9222/json/list").unwrap();
    assert_eq!(h, "127.0.0.1");
    assert_eq!(p, 9222);
}

#[test]
fn parse_endpoint_strips_trailing_path_components() {
    let (h, p) = parse_endpoint("http://localhost:9222/json/version").unwrap();
    assert_eq!(h, "localhost");
    assert_eq!(p, 9222);
}

#[test]
fn parse_endpoint_with_low_port() {
    let (_, p) = parse_endpoint("localhost:1").unwrap();
    assert_eq!(p, 1);
}

#[test]
fn tab_info_struct_has_required_fields() {
    let t = TabInfo {
        title: "Tab".into(),
        url: "https://example.com".into(),
        ws_debugger_url: "ws://localhost:9222/devtools/page/ABC".into(),
    };
    assert_eq!(t.title, "Tab");
    assert!(t.url.starts_with("http"));
    assert!(t.ws_debugger_url.starts_with("ws"));
}

#[test]
fn parse_endpoint_splits_at_the_last_colon() {
    let (h, p) = parse_endpoint("[::1]:9229").unwrap();
    assert_eq!(h, "[::1]");
    assert_eq!(p, 9229);
}

#[test]
fn tab_list_keeps_complete_entries_in_order() {
    let body = r#"[
        {"title": "One", "url": "https://a.example/", "webSocketDebuggerUrl": "ws://127.0.0.1:9222/devtools/page/1"},
        {"title": "No socket", "url": "https://b.example/"},
        {"title": 7, "url": "https://c.example/", "webSocketDebuggerUrl": "ws://x"},
        {"title": "Two", "url": "https://d.example/", "webSocketDebuggerUrl": "ws://127.0.0.1:9222/devtools/page/2", "type": "page"}
    ]"#;
    let tabs = tabs_from_json(body).unwrap();
    assert_eq!(tabs.len(), 2);
    assert_eq!(tabs[0].title, "One");
    assert_eq!(tabs[0].url, "https://a.example/");
    assert_eq!(tabs[0].ws_debugger_url, "ws://127.0.0.1:9222/devtools/page/1");
    assert_eq!(tabs[1].title, "Two");
    assert_eq!(tabs[1].ws_debugger_url, "ws://127.0.0.1:9222/devtools/page/2");
}

#[test]
fn tab_list_errors() {
    assert!(matches!(tabs_from_json("not json"), Err(TabListError::Json(_))));
    assert!(matches!(tabs_from_json("{\"a\": 1}"), Err(TabListError::NotAnArray)));
    assert!(tabs_from_json("[]").unwrap().is_empty());
}

#[test]
fn tabs_from_rows_skips_partial_rows() {
    let s = |x: &str| Some(x.to_string());
    let rows = vec![
        (s("t"), s("u"), None),
        (s("t2"), s("u2"), s("w2")),
        (None, None, None),
    ];
    let tabs = tabs_from_rows(rows);
    assert_eq!(tabs.len(), 1);
    assert_eq!(tabs[0].title, "t2");
    assert_eq!(tabs[0].url, "u2");
    assert_eq!(tabs[0].ws_debugger_url, "w2");
}

#[test]
fn version_body_gives_debugger_url() {
    let body = r#"{"Browser": "Chrome/120", "webSocketDebuggerUrl": "ws://127.0.0.1:9222/devtools/browser/abc"}"#;
    assert_eq!(debugger_url_from_json(body).unwrap(), "ws://127.0.0.1:9222/devtools/browser/abc");
    assert!(matches!(debugger_url_from_json("{\"Browser\": \"x\"}"), Err(VersionError::MissingUrl)));
    assert!(matches!(debugger_url_from_json("{\"webSocketDebuggerUrl\": 3}"), Err(VersionError::MissingUrl)));
    assert!(matches!(debugger_url_from_json("<html>"), Err(VersionError::Json(_))));
}

#[test]
fn parse_endpoint_accepts_bare_port_digits() {
    let (h, p) = parse_endpoint("9222").unwrap();
    assert_eq!(h, "localhost");
    assert_eq!(p, 9222);
    let (h, p) = parse_endpoint("http://9222/json/version").unwrap();
    assert_eq!(h, "localhost");
    assert_eq!(p, 9222);
    assert!(parse_endpoint("70000").is_none());
    assert!(parse_endpoint("+9222").is_none());
    assert!(parse_endpoint("").is_none());
}
