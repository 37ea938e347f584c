use atsisbroken::browser::fingerprint::{matches_glob, FingerprintOverrides, FingerprintProfile, HostOverride};
use atsisbroken::browser::input::SplitMix64;
use atsisbroken::browser::text::page_box_sizes;
use atsisbroken::browser::url::{Url, UrlParseError};
use atsisbroken::browser_detect::{
    bundle_id_to_kind, parse_macos_launchservices_http_handler, parse_windows_progid,
    parse_xdg_desktop_name, BrowserKind, DefaultBrowser,
};
use atsisbroken::cli::{confirms, copy_value, first_line, init_state, parse_mode, CopyError};
use atsisbroken::config::{Config, GraduationError};
use atsisbroken::corpus::fnv1a_32;
use atsisbroken::github::{
    epoch_seconds_to_ymdhms, extract_excerpts, parse_languages, rank_by_stars, readme_excerpts,
    recent_commits, rfc3339_utc, to_snapshot, total_commits, License, ReadmeParseError,
    RepoApiResponse, RepoOwner, RepoSnapshot,
};
use atsisbroken::jsonl::{records, text};
use atsisbroken::strategy::{cdp_port_candidates, cdp_version_url, detect, ClipboardTool, Environment, Strategy};
use atsisbroken::{
    predict_field_key, profile_value_for_key, seed_corpus_fingerprint, seed_corpus_size,
    FieldDescriptor, Mode, Profile,
};

fn field(label: &str, name: &str, kind: &str) -> FieldDescriptor {
    FieldDescriptor {
        label: label.into(),
        placeholder: "".into(),
        aria_label: "".into(),
        name: name.into(),
        id: "".into(),
        kind: kind.into(),
    }
}

// ─── classifier and profile values ─────────────────────────────────────

#[test]
fn classifier_reads_input_types_first() {
    assert_eq!(predict_field_key(&field("Contact", "c", "email")), "email");
    assert_eq!(predict_field_key(&field("Contact", "c", "tel")), "phone");
}

#[test]
fn classifier_splits_first_and_last_names() {
    assert_eq!(predict_field_key(&field("First name", "", "text")), "first_name");
    assert_eq!(predict_field_key(&field("Last name", "", "text")), "last_name");
    assert_eq!(predict_field_key(&field("Full name", "", "text")), "full_name");
}

#[test]
fn classifier_leaves_unknown_fields_unclassified() {
    assert_eq!(predict_field_key(&field("Favourite colour", "colour", "text")), "");
    assert_eq!(predict_field_key(&field("Cover letter", "cover", "textarea")), "freetext");
}

#[test]
fn profile_values_fall_back_and_skip_empty() {
    let mut p = Profile::default();
    p.full_name = "Jane Q. Doe".into();
    p.address = "1 Main St".into();
    assert_eq!(profile_value_for_key(&p, "full_name"), Some("Jane Q. Doe"));
    assert_eq!(profile_value_for_key(&p, "first_name"), Some("Jane Q. Doe"));
    assert_eq!(profile_value_for_key(&p, "city"), Some("1 Main St"));
    assert_eq!(profile_value_for_key(&p, "email"), None);
    assert_eq!(profile_value_for_key(&p, "no_such_key"), None);
}

#[test]
fn fnv1a_known_values() {
    assert_eq!(fnv1a_32(b""), 0x811c9dc5);
    assert_eq!(fnv1a_32(b"a"), 0xe40c292c);
    assert_eq!(seed_corpus_fingerprint("a"), 0xe40c292c);
    assert_eq!(seed_corpus_size("héllo"), 6);
}

// ─── modes and configuration ───────────────────────────────────────────

#[test]
fn mode_names_parse() {
    assert_eq!(parse_mode("shadow"), Ok(Mode::Shadow));
    assert_eq!(Mode::from_cli_str("chaos"), Some(Mode::Chaos));
    assert_eq!(parse_mode("wild"), Err("unknown mode: wild".to_string()));
}

#[test]
fn graduating_walks_the_ladder_and_stops_at_the_top() {
    let mut c = Config::default();
    assert_eq!(c.mode, Mode::TrainingWheels);
    assert_eq!(c.graduate(), Ok(Mode::Shadow));
    assert_eq!(c.graduate(), Ok(Mode::Chaos));
    assert_eq!(c.graduate(), Err(GraduationError::AlreadyAtTop));
    assert_eq!(c.mode, Mode::Chaos);
}

#[test]
fn stepping_back_undoes_graduating() {
    let mut c = Config::default();
    c.graduate().unwrap();
    c.step_back().unwrap();
    assert_eq!(c, Config::default());
    assert_eq!(c.step_back(), Err(GraduationError::AlreadyAtBottom));
    assert_eq!(
        GraduationError::AlreadyAtBottom.message(),
        "already at TrainingWheels — already the most supervised mode"
    );
}

// ─── command-line decisions ────────────────────────────────────────────

#[test]
fn copy_takes_the_field_for_a_key() {
    let mut p = Profile::default();
    p.email = "jane@example.com".into();
    p.years_experience = 7;
    assert_eq!(copy_value(&p, "email").unwrap(), "jane@example.com");
    assert_eq!(copy_value(&p, "years_experience").unwrap(), "7");
}

#[test]
fn copy_refuses_unknown_keys_and_empty_fields() {
    let p = Profile::default();
    match copy_value(&p, "salary") {
        Err(e @ CopyError::UnknownKey(_)) => assert_eq!(e.message(), "unknown key: salary"),
        other => panic!("expected UnknownKey, got {other:?}"),
    }
    match copy_value(&p, "phone") {
        Err(e @ CopyError::EmptyField(_)) => assert_eq!(e.message(), "profile field phone is empty"),
        other => panic!("expected EmptyField, got {other:?}"),
    }
}

#[test]
fn confirmation_reads_the_first_line_only() {
    assert_eq!(first_line(b"yes\nno\n"), "yes");
    assert_eq!(first_line(b"abc"), "abc");
    assert!(confirms(b"  Y \nno"));
    assert!(confirms(b"yes"));
    assert!(!confirms(b"\nyes"));
    assert!(!confirms(b""));
}

#[test]
fn status_words_the_profile_state() {
    assert_eq!(init_state(false, false), "no — run `atsisbroken init`");
    assert_eq!(
        init_state(true, false),
        "exists but empty — re-run `atsisbroken init` with a fuller resume"
    );
    assert_eq!(init_state(true, true), "yes");
}

// ─── strategies ────────────────────────────────────────────────────────

fn bare_env() -> Environment {
    Environment { cdp_endpoint: None, chromium_binary: None, extension_installed: false, clipboard_tool: None }
}

#[test]
fn detection_prefers_attach_then_launch_then_extension() {
    let mut env = bare_env();
    assert!(matches!(detect(env.clone()), Strategy::Speak));
    env.clipboard_tool = Some(ClipboardTool::Pbcopy);
    assert!(matches!(detect(env.clone()), Strategy::Clipboard { .. }));
    env.extension_installed = true;
    assert!(matches!(detect(env.clone()), Strategy::Extension));
    env.cdp_endpoint = Some("http://localhost:9222".into());
    assert!(matches!(detect(env), Strategy::CdpAttach { .. }));
}

#[test]
fn forced_strategy_needs_what_it_uses() {
    assert!(matches!(Strategy::from_cli_str("userscript", bare_env()), Ok(Strategy::Userscript)));
    assert_eq!(
        Strategy::from_cli_str("cdp-attach", bare_env()).unwrap_err(),
        "no Chromium debug port reachable"
    );
    assert_eq!(Strategy::from_cli_str("magic", bare_env()).unwrap_err(), "unknown strategy: magic");
}

// ─── default browser ───────────────────────────────────────────────────

#[test]
fn xdg_names_map_to_browsers() {
    assert_eq!(parse_xdg_desktop_name("firefox.desktop"), BrowserKind::Firefox);
    assert_eq!(parse_xdg_desktop_name("google-chrome.desktop"), BrowserKind::Chrome);
    assert_eq!(parse_xdg_desktop_name("Foo.desktop"), BrowserKind::Other("foo".into()));
}

#[test]
fn bundle_ids_and_progids_map_to_browsers() {
    assert_eq!(bundle_id_to_kind("com.google.Chrome"), BrowserKind::Chrome);
    assert_eq!(bundle_id_to_kind("company.thebrowser.Browser"), BrowserKind::Arc);
    assert_eq!(parse_windows_progid("ChromeHTML"), BrowserKind::Chrome);
    assert_eq!(parse_windows_progid("MSEdgeHTM"), BrowserKind::Edge);
    assert_eq!(parse_windows_progid("Something"), BrowserKind::Other("Something".into()));
}

#[test]
fn launchservices_http_handler_is_found() {
    let plist = r#"(
    {
        LSHandlerRoleAll = "com.apple.mail";
        LSHandlerURLScheme = mailto;
    },
    {
        LSHandlerRoleAll = "com.brave.browser";
        LSHandlerURLScheme = http;
    }
)"#;
    assert_eq!(parse_macos_launchservices_http_handler(plist), Some("com.brave.browser".to_string()));
    assert_eq!(parse_macos_launchservices_http_handler("{\n}\n"), None);
}

#[test]
fn only_chromium_family_supports_cdp() {
    let b = DefaultBrowser { kind: BrowserKind::Brave, path: None };
    assert!(b.kind.supports_cdp());
    let f = DefaultBrowser { kind: BrowserKind::Firefox, path: None };
    assert!(!f.kind.supports_cdp());
}

// ─── URLs ──────────────────────────────────────────────────────────────

#[test]
fn urls_parse_and_print_back() {
    let u = Url::parse("  https://example.com:8080/a/b?q=1#top  ").unwrap();
    assert_eq!(u.scheme(), "https");
    assert_eq!(u.host(), "example.com");
    assert_eq!(u.port(), Some(8080));
    assert_eq!(u.path(), "/a/b");
    assert_eq!(u.query(), "q=1");
    assert_eq!(u.fragment(), "top");
    assert_eq!(u.to_string(), "https://example.com:8080/a/b?q=1#top");
    assert_eq!(Url::parse(&u.to_string()), Ok(u));
}

#[test]
fn bare_hosts_get_https() {
    let u = Url::parse("example.com/x").unwrap();
    assert_eq!(u.to_string(), "https://example.com/x");
}

#[test]
fn url_errors_carry_the_offending_text() {
    assert_eq!(Url::parse("https:///x"), Err(UrlParseError::EmptyHost("https:///x".into())));
    assert_eq!(Url::parse("http://h:99999/"), Err(UrlParseError::InvalidPort("99999".into())));
    assert_eq!(Url::parse("/only/path"), Err(UrlParseError::NoSchemeSeparator("/only/path".into())));
}

// ─── fingerprint overrides ─────────────────────────────────────────────

#[test]
fn globs_match_pieces_in_order() {
    assert!(matches_glob("*.workday.com", "acme.workday.com"));
    assert!(matches_glob("exact.org", "exact.org"));
    assert!(!matches_glob("*.workday.com", "workday.com.evil"));
    assert!(matches_glob("a*b*c", "a-b-c"));
    assert!(!matches_glob("a*b", "ab-"));
}

#[test]
fn first_matching_override_wins() {
    let o = FingerprintOverrides {
        by_host: vec![
            HostOverride { pattern: "*.example.com".into(), profile: FingerprintProfile::paranoid() },
            HostOverride { pattern: "*".into(), profile: FingerprintProfile::natural() },
        ],
    };
    assert_eq!(o.resolve("a.example.com"), Some(&FingerprintProfile::paranoid()));
    assert_eq!(o.resolve("other.org"), Some(&FingerprintProfile::natural()));
    assert_eq!(FingerprintOverrides::default().resolve("x"), None);
}

// ─── layout and timing ─────────────────────────────────────────────────

#[test]
fn page_boxes_shrink_by_margins_and_never_underflow() {
    assert_eq!(page_box_sizes(1024, 768), (976, 608));
    assert_eq!(page_box_sizes(10, 10), (0, 0));
}

#[test]
fn splitmix_is_seeded_deterministically() {
    let mut a = SplitMix64::new(42);
    let mut b = SplitMix64::new(42);
    assert_eq!(a.next_u64(), b.next_u64());
    let mut z = SplitMix64::new(0);
    assert_eq!(z.next_u64(), 0xe220a8397b1dcdaf);
    assert!(a.next_uniform_bits() < 0x100_0000);
}

// ─── GitHub inventory ──────────────────────────────────────────────────

fn repo(name: &str, stars: u32) -> RepoApiResponse {
    RepoApiResponse {
        name: name.into(),
        owner: RepoOwner { login: "jane".into() },
        html_url: format!("https://github.com/jane/{name}"),
        description: None,
        language: Some("Rust".into()),
        stargazers_count: stars,
        forks_count: 0,
        open_issues_count: 0,
        pushed_at: None,
        topics: vec![],
        license: Some(License { spdx_id: Some("MIT".into()) }),
        fork: false,
    }
}

#[test]
fn repositories_rank_by_stars_keeping_ties_in_order() {
    let ranked = rank_by_stars(vec![repo("a", 1), repo("b", 5), repo("c", 1), repo("d", 5)]);
    let names: Vec<&str> = ranked.iter().map(|r| r.name.as_str()).collect();
    assert_eq!(names, vec!["b", "d", "a", "c"]);
    assert!(rank_by_stars(vec![]).is_empty());
}

#[test]
fn languages_sort_by_bytes_then_name() {
    let v = parse_languages(r#"{"Shell": 10, "Rust": 500, "C": 10}"#).unwrap();
    assert_eq!(
        v,
        vec![("Rust".to_string(), 500), ("C".to_string(), 10), ("Shell".to_string(), 10)]
    );
    assert!(parse_languages("[1, 2]").is_err());
}

#[test]
fn snapshot_takes_the_api_fields() {
    let s: RepoSnapshot = to_snapshot(repo("x", 3), vec!["p".into()], vec!["m1".into(), "m2".into()], vec![]);
    assert_eq!(s.owner, "jane");
    assert_eq!(s.stars, 3);
    assert_eq!(s.license, "MIT");
    assert_eq!(s.description, "");
    assert_eq!(s.total_commits, 2);
    assert_eq!(total_commits(&vec![s.clone(), s]), Some(4));
}

#[test]
fn recent_commits_are_capped() {
    let msgs: Vec<String> = (0..60).map(|i| format!("m{i}")).collect();
    let kept = recent_commits(msgs);
    assert_eq!(kept.len(), 50);
    assert_eq!(kept[0], "m0");
    assert_eq!(kept[49], "m49");
}

#[test]
fn excerpts_join_paragraph_lines_and_stop_at_the_cap() {
    let text = "alpha\nbeta\ngamma\n\n  second para  \n\nthird";
    assert_eq!(extract_excerpts(text, 2048), vec!["alpha beta gamma", "second para", "third"]);
    assert_eq!(extract_excerpts(text, 5), vec!["alpha beta gamma"]);
}

#[test]
fn readme_needs_base64() {
    match readme_excerpts("aGk=", "utf-8") {
        Err(e @ ReadmeParseError::UnknownEncoding(_)) => {
            assert_eq!(e.message(), "readme encoding \"utf-8\" not supported (expected base64)")
        }
        other => panic!("expected UnknownEncoding, got {other:?}"),
    }
    assert!(matches!(readme_excerpts("!!!!", "base64"), Err(ReadmeParseError::Base64(_))));
    assert_eq!(readme_excerpts("aGVs\nbG8=\n", "base64").unwrap(), vec!["hello"]);
}

#[test]
fn timestamps_are_calendar_dates() {
    assert_eq!(epoch_seconds_to_ymdhms(0), (1970, 1, 1, 0, 0, 0));
    assert_eq!(epoch_seconds_to_ymdhms(951782400), (2000, 2, 29, 0, 0, 0));
    assert_eq!(rfc3339_utc(1_700_000_000), "2023-11-14T22:13:20Z");
    assert_eq!(rfc3339_utc(0), "1970-01-01T00:00:00Z");
}

#[test]
fn language_totals_sum_per_language_in_name_order() {
    let mut a = to_snapshot(repo("a", 0), vec![], vec![], vec![("Rust".into(), 100), ("C".into(), 5)]);
    a.languages = vec![("Rust".into(), 100), ("C".into(), 5)];
    let b = to_snapshot(repo("b", 0), vec![], vec![], vec![("Rust".into(), 1), ("Ada".into(), 0)]);
    let (totals, grand) = atsisbroken::github::language_totals(&vec![a, b]);
    assert_eq!(
        totals,
        vec![("Ada".to_string(), 0), ("C".to_string(), 5), ("Rust".to_string(), 101)]
    );
    assert_eq!(grand, 106);
}

#[test]
fn jsonl_skips_blank_lines_and_round_trips() {
    assert_eq!(records("{\"a\":1}\n\n  \n{\"b\":2}\r\n"), vec!["{\"a\":1}", "{\"b\":2}"]);
    let rs = vec!["x".to_string(), "y z".to_string()];
    assert_eq!(text(&rs), "x\ny z\n");
    assert_eq!(records(&text(&rs)), rs);
    assert_eq!(text(&vec![]), "");
}

#[test]
fn cdp_ports_are_tried_conventional_first() {
    assert_eq!(cdp_port_candidates(None), vec!["9222".to_string()]);
    assert_eq!(cdp_port_candidates(Some("9333".to_string())), vec!["9222".to_string(), "9333".to_string()]);
    assert_eq!(cdp_version_url("9333"), "http://localhost:9333/json/version");
}
