use atsisbroken::browser::engine::{default_user_agent, EngineError, StaticHtmlEngine};
use atsisbroken::browser::html::{extract_fields, extract_title, parse_html};
use atsisbroken::browser::internal::render;
use atsisbroken::browser::url::Url;

#[test]
fn parse_html_extracts_fields() {
    let html = r#"
<!DOCTYPE html>
<html>
<head><title>Apply</title></head>
<body>
<form>
<input type="email" name="email" id="email-id" placeholder="you@example.com" aria-label="Email">
<input type="tel" name="phone" id="phone-id">
<textarea name="why" id="why-id" placeholder="Why this role?"></textarea>
<select name="country" id="country-id">
<option>USA</option>
</select>
</form>
</body>
</html>"#;
    let dom = parse_html(html);
    assert_eq!(extract_title(&dom), "Apply");
    let fields = extract_fields(&dom);
    assert_eq!(fields.len(), 4);
    let email = fields.iter().find(|f| f.name == "email").unwrap();
    assert_eq!(email.kind, "email");
    assert_eq!(email.placeholder, "you@example.com");
    assert_eq!(email.aria_label, "Email");
    let textarea = fields.iter().find(|f| f.name == "why").unwrap();
    assert_eq!(textarea.kind, "textarea");
    let select = fields.iter().find(|f| f.name == "country").unwrap();
    assert_eq!(select.kind, "select");
    let phone = fields.iter().find(|f| f.name == "phone").unwrap();
    assert_eq!(phone.kind, "tel");
}

#[test]
fn snapshot_fields_before_navigate_errors_cleanly() {
    let engine = StaticHtmlEngine::new();
    let r = engine.snapshot_fields();
    assert!(r.is_err());
}

#[test]
fn fill_field_unimplemented_on_static_engine() {
    let mut e = StaticHtmlEngine::new();
    match e.fill_field("anything", "value") {
        Err(EngineError::Unimplemented(_)) => {}
        other => panic!("expected Unimplemented, got {other:?}"),
    }
}

#[test]
fn navigate_to_internal_url_renders_in_process() {
    let mut e = StaticHtmlEngine::new();
    let url: Url = "atsisbroken://home".parse().unwrap();
    let outcome = e
        .navigate_local(&url)
        .expect("internal pages need no fetch")
        .expect("internal navigate must succeed");
    assert_eq!(outcome.status, 0);
    assert_eq!(outcome.content_type, "text/atsisbroken-internal");
    assert_eq!(outcome.form_field_count, 0);
    let snap = e.snapshot_fields().unwrap();
    assert_eq!(snap.title, "atsisbroken");
    assert!(!snap.body.is_empty());
    assert!(snap.fields.is_empty());
}

#[test]
fn navigate_internal_unknown_returns_not_found_page() {
    let mut e = StaticHtmlEngine::new();
    let url: Url = "atsisbroken://does-not-exist".parse().unwrap();
    e.navigate_local(&url).unwrap().expect("not-found page is still a valid render");
    let snap = e.snapshot_fields().unwrap();
    assert_eq!(snap.title, "Page not found");
    assert!(snap.body.contains("atsisbroken://does-not-exist"));
}

#[test]
fn engine_state_persists_across_repeated_internal_navigates() {
    let mut e = StaticHtmlEngine::new();
    e.navigate_local(&"atsisbroken://home".parse().unwrap()).unwrap().unwrap();
    let snap1 = e.snapshot_fields().unwrap();
    assert_eq!(snap1.title, "atsisbroken");

    e.navigate_local(&"atsisbroken://connections".parse().unwrap()).unwrap().unwrap();
    let snap2 = e.snapshot_fields().unwrap();
    assert!(snap2.title.contains("connections"));
    assert!(snap2.body.contains("GitHub"));
    assert!(!snap2.body.contains("atsisbroken: the browser"));
}

#[test]
fn engine_fields_are_empty_for_internal_pages() {
    let mut e = StaticHtmlEngine::new();
    for host in ["home", "connections", "summary", "applications"] {
        let url: Url = format!("atsisbroken://{host}").parse().unwrap();
        e.navigate_local(&url).unwrap().unwrap();
        let snap = e.snapshot_fields().unwrap();
        assert!(snap.fields.is_empty(), "internal page {host} produced form fields: {:?}", snap.fields);
    }
}

#[test]
fn engine_navigate_outcome_internal_shape() {
    let mut e = StaticHtmlEngine::new();
    let url: Url = "atsisbroken://summary".parse().unwrap();
    let outcome = e.navigate_local(&url).unwrap().unwrap();
    assert_eq!(outcome.status, 0);
    assert_eq!(outcome.content_type, "text/atsisbroken-internal");
    assert_eq!(outcome.form_field_count, 0);
    assert_eq!(outcome.final_url, url);
}

#[test]
fn engine_html_extracts_kind_aria_label_id_name_placeholder() {
    let html = r#"<!DOCTYPE html>
<form>
  <input type="email" name="contact-email" id="email-input"
         placeholder="you@example.com" aria-label="Email address">
  <textarea name="bio" id="bio-text" placeholder="Tell us"></textarea>
  <select name="country" id="country-select">
    <option>USA</option>
  </select>
</form>"#;
    let dom = parse_html(html);
    let fields = extract_fields(&dom);
    assert_eq!(fields.len(), 3);

    let email = fields.iter().find(|f| f.name == "contact-email").unwrap();
    assert_eq!(email.kind, "email");
    assert_eq!(email.id, "email-input");
    assert_eq!(email.placeholder, "you@example.com");
    assert_eq!(email.aria_label, "Email address");

    let bio = fields.iter().find(|f| f.name == "bio").unwrap();
    assert_eq!(bio.kind, "textarea");
    assert_eq!(bio.id, "bio-text");
    assert_eq!(bio.placeholder, "Tell us");

    let country = fields.iter().find(|f| f.name == "country").unwrap();
    assert_eq!(country.kind, "select");
}

#[test]
fn engine_input_kind_defaults_to_text_when_omitted() {
    let html = r#"<input name="username" id="u">"#;
    let dom = parse_html(html);
    let fields = extract_fields(&dom);
    assert_eq!(fields.len(), 1);
    assert_eq!(fields[0].kind, "text");
}

#[test]
fn engine_skips_non_form_elements() {
    let html = r##"<!DOCTYPE html>
<html><body>
<button>Click me</button>
<a href="#">Link</a>
<div><p>Not a form field</p></div>
<input name="real-field" type="text">
</body></html>"##;
    let dom = parse_html(html);
    let fields = extract_fields(&dom);
    assert_eq!(fields.len(), 1);
    assert_eq!(fields[0].name, "real-field");
}

#[test]
fn engine_handles_unicode_in_title() {
    let html = "<!DOCTYPE html><title>café — application</title>";
    let dom = parse_html(html);
    assert_eq!(extract_title(&dom), "café — application");
}

#[test]
fn engine_title_empty_when_no_title_tag() {
    let html = "<!DOCTYPE html><body>no title</body>";
    let dom = parse_html(html);
    assert_eq!(extract_title(&dom), "");
}

#[test]
fn engine_handles_malformed_html_without_panic() {
    for bad_html in [
        "",
        "<<<<>>>",
        "<input <input <input",
        "<!-- never closing comment ",
        r#"<input type="email" name="<script>alert(1)</script>">"#,
    ] {
        let dom = parse_html(bad_html);
        let _ = extract_fields(&dom);
    }
}

fn inspect_for_test(url: &str) -> String {
    let mut engine = StaticHtmlEngine::new();
    engine.navigate_local(&url.parse().unwrap()).unwrap().unwrap();
    let snap = engine.snapshot_fields().unwrap();
    format!("URL: {}\nTitle: {}\n\n{}", snap.url, snap.title, snap.body)
}

fn expected_inspection(url: &str) -> String {
    let u: Url = url.parse().unwrap();
    let page = render(&u);
    format!("URL: {}\nTitle: {}\n\n{}", url, page.title, page.body)
}

#[test]
fn snapshot_internal_page_home() {
    assert_eq!(inspect_for_test("atsisbroken://home"), expected_inspection("atsisbroken://home"));
}

#[test]
fn snapshot_internal_page_connections() {
    let snap = inspect_for_test("atsisbroken://connections");
    assert_eq!(snap, expected_inspection("atsisbroken://connections"));
}

#[test]
fn snapshot_internal_page_summary() {
    let snap = inspect_for_test("atsisbroken://summary");
    assert_eq!(snap, expected_inspection("atsisbroken://summary"));
}

#[test]
fn snapshot_internal_page_fingerprint() {
    let snap = inspect_for_test("atsisbroken://fingerprint");
    assert_eq!(snap, expected_inspection("atsisbroken://fingerprint"));
}

#[test]
fn snapshot_internal_page_shield() {
    let snap = inspect_for_test("atsisbroken://shield");
    assert_eq!(snap, expected_inspection("atsisbroken://shield"));
}

#[test]
fn snapshot_internal_page_not_found() {
    let snap = inspect_for_test("atsisbroken://no-such-page/with/path");
    assert!(snap.starts_with("URL: atsisbroken://no-such-page/with/path\nTitle: Page not found\n\n"));
    assert!(snap.contains("atsisbroken://no-such-page/with/path doesn't exist (yet)."));
}

#[test]
fn navigate_unsupported_scheme_errors() {
    let mut e = StaticHtmlEngine::new();
    let url: Url = "ftp://example.com/x".parse().unwrap();
    match e.navigate_local(&url) {
        Some(Err(EngineError::Network(m))) => {
            assert_eq!(m, "scheme \"ftp\" not supported by StaticHtmlEngine");
        }
        other => panic!("expected Network err, got {other:?}"),
    }
}

#[test]
fn network_urls_are_left_to_the_fetcher() {
    let mut e = StaticHtmlEngine::new();
    let url: Url = "https://example.com/".parse().unwrap();
    assert!(e.navigate_local(&url).is_none());
    assert!(e.snapshot_fields().is_err());
}

#[test]
fn loaded_page_reports_its_fields() {
    let mut e = StaticHtmlEngine::new();
    let url: Url = "https://example.com/apply".parse().unwrap();
    let html = r#"<title>Apply</title><input name="email" type="email"><textarea name="why"></textarea>"#;
    let outcome = e.load_page(&url, 200, "text/html".into(), html);
    assert_eq!(outcome.status, 200);
    assert_eq!(outcome.form_field_count, 2);
    let snap = e.snapshot_fields().unwrap();
    assert_eq!(snap.title, "Apply");
    assert_eq!(snap.body, "Loaded https://example.com/apply.\n\n2 form field(s) detected.");
    assert_eq!(snap.fields.len(), 2);
}

#[test]
fn user_agent_includes_crate_version() {
    let ua = default_user_agent();
    assert!(ua.contains("atsisbroken/"));
    assert!(ua.contains(atsisbroken::version()));
}

#[test]
fn engine_error_messages_read_as_displayed() {
    assert_eq!(EngineError::Network("x".into()).message(), "network: x");
    assert_eq!(EngineError::Parse("y".into()).message(), "parse: y");
    assert_eq!(EngineError::Unimplemented("z").message(), "not yet implemented: z");
}
