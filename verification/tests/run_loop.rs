use atsisbroken::learning::UserDecision;
use atsisbroken::run_loop::{
    decide, fill_js, format_summary, is_yes, read_back_js, FillDecision, RunSummary, RunTally,
    SkipReason, VerifyOutcome,
};
use atsisbroken::{FieldDescriptor, Mode};

/// The Shadow-mode threshold the decisions below run under: 0.85,
/// inclusive.
fn passes(confidence: f32) -> bool {
    confidence >= 0.85f32
}

#[test]
fn fill_js_escapes_single_quotes() {
    let js = fill_js("foo", "Jane's resume");
    assert!(js.contains("Jane\\'s resume"));
}

#[test]
fn fill_js_escapes_backslash() {
    let js = fill_js("foo", r"C:\path");
    assert!(js.contains(r"C:\\path"));
}

#[test]
fn fill_js_uses_id_in_getelementbyid() {
    let js = fill_js("legalNameSection_firstName", "Jane");
    assert!(js.contains("getElementById('legalNameSection_firstName')"));
}

#[test]
fn read_back_js_targets_correct_id_and_returns_value() {
    let js = read_back_js("legalNameSection_firstName");
    assert!(js.contains("getElementById('legalNameSection_firstName')"));
    assert!(js.contains("el.value"));
    assert!(js.contains("null"));
}

#[test]
fn verify_outcome_default_is_zeroed() {
    let o = VerifyOutcome::default();
    assert_eq!(o.retried_total, 0);
    assert_eq!(o.retried_filled, 0);
    assert_eq!(o.failed, 0);
}

#[test]
fn fill_js_dispatches_input_and_change_events() {
    let js = fill_js("foo", "bar");
    assert!(js.contains("new Event('input'"));
    assert!(js.contains("new Event('change'"));
}

#[test]
fn fill_js_is_the_exact_script() {
    let js = fill_js("a", "b'c");
    assert_eq!(
        js,
        "\n(() => {\n    const el = document.getElementById('a');\n    if (!el) return false;\n    el.value = 'b\\'c';\n    el.dispatchEvent(new Event('input', { bubbles: true }));\n    el.dispatchEvent(new Event('change', { bubbles: true }));\n    return true;\n})()\n"
    );
}

#[test]
fn format_summary_warns_about_not_submitting() {
    let s = RunSummary {
        url: "https://example.com".into(),
        fields_seen: 10,
        fields_filled: 7,
        fields_skipped: 3,
        screenshot_path: None,
        feedback_events: vec![],
    };
    let out = format_summary(&s, 0);
    assert!(out.contains("NOT submitted"));
    assert!(out.contains("review"));
}

#[test]
fn format_summary_is_the_exact_text() {
    let s = RunSummary {
        url: "https://example.com".into(),
        fields_seen: 10,
        fields_filled: 7,
        fields_skipped: 3,
        screenshot_path: None,
        feedback_events: vec![],
    };
    assert_eq!(
        format_summary(&s, 12),
        "atsisbroken 0.1.0\n  url: https://example.com\n  fields seen: 10\n  filled: 7\n  skipped (unknown / freetext / empty): 3\n  feedback queue: 12 events on disk\n  ⚠ NOT submitted — review in browser, click Submit yourself."
    );
}

#[test]
fn format_summary_shows_screenshot_path_when_set() {
    let s = RunSummary {
        url: "u".into(),
        fields_seen: 0,
        fields_filled: 0,
        fields_skipped: 0,
        screenshot_path: Some("/tmp/run-1234.png".to_string()),
        feedback_events: vec![],
    };
    let out = format_summary(&s, 0);
    assert!(out.contains("/tmp/run-1234.png"));
}

#[test]
fn decide_skip_when_classifier_returns_unknown() {
    let d = decide(Mode::Chaos, "", passes(0.0), Some("anything"), true, None);
    assert_eq!(d, FillDecision::Skip(SkipReason::NotClassified));
}

#[test]
fn decide_skip_when_no_profile_value() {
    let d = decide(Mode::Chaos, "linkedin", passes(1.0), None, true, None);
    assert_eq!(d, FillDecision::Skip(SkipReason::NoProfileValue));
}

#[test]
fn decide_skip_when_no_dom_id() {
    let d = decide(Mode::Chaos, "email", passes(1.0), Some("j@e.com"), false, None);
    assert_eq!(d, FillDecision::Skip(SkipReason::NoDomId));
}

#[test]
fn decide_chaos_fills_classified_field() {
    let d = decide(Mode::Chaos, "email", passes(1.0), Some("j@e.com"), true, None);
    assert_eq!(d, FillDecision::Fill { value: "j@e.com" });
}

#[test]
fn decide_training_wheels_always_prompts_classified_fields() {
    let d = decide(Mode::TrainingWheels, "email", passes(1.0), Some("j@e.com"), true, None);
    assert_eq!(d, FillDecision::Prompt { value: "j@e.com", key: "email" });
}

#[test]
fn decide_shadow_fills_above_threshold() {
    let d = decide(Mode::Shadow, "email", passes(0.90), Some("j@e.com"), true, None);
    assert_eq!(d, FillDecision::Fill { value: "j@e.com" });
}

#[test]
fn decide_shadow_fills_at_threshold() {
    let d = decide(Mode::Shadow, "email", passes(0.85), Some("j@e.com"), true, None);
    assert_eq!(d, FillDecision::Fill { value: "j@e.com" });
}

#[test]
fn decide_shadow_skips_below_threshold() {
    let d = decide(Mode::Shadow, "email", passes(0.84), Some("j@e.com"), true, None);
    assert_eq!(d, FillDecision::Skip(SkipReason::BelowConfidenceThreshold));
}

#[test]
fn decide_skip_precedence_unknown_beats_threshold() {
    let d = decide(Mode::Shadow, "", passes(1.0), Some("anything"), true, None);
    assert_eq!(d, FillDecision::Skip(SkipReason::NotClassified));
}

#[test]
fn decide_skip_precedence_no_value_beats_prompt() {
    let d = decide(Mode::TrainingWheels, "linkedin", passes(1.0), None, true, None);
    assert_eq!(d, FillDecision::Skip(SkipReason::NoProfileValue));
}

#[test]
fn decide_overlay_rejected_short_circuits_in_any_mode() {
    for mode in [Mode::TrainingWheels, Mode::Shadow, Mode::Chaos] {
        let d = decide(
            mode,
            "email",
            passes(1.0),
            Some("j@e.com"),
            true,
            Some(UserDecision::Rejected),
        );
        assert_eq!(
            d,
            FillDecision::Skip(SkipReason::UserPreviouslyRejected),
            "mode {:?} did not honor prior Rejected",
            mode
        );
    }
}

#[test]
fn decide_overlay_accepted_skips_prompt_in_training_wheels() {
    let d = decide(
        Mode::TrainingWheels,
        "email",
        passes(1.0),
        Some("j@e.com"),
        true,
        Some(UserDecision::Accepted),
    );
    assert_eq!(d, FillDecision::Fill { value: "j@e.com" });
}

#[test]
fn decide_overlay_accepted_overrides_shadow_threshold() {
    let d = decide(
        Mode::Shadow,
        "email",
        passes(0.10),
        Some("j@e.com"),
        true,
        Some(UserDecision::Accepted),
    );
    assert_eq!(d, FillDecision::Fill { value: "j@e.com" });
}

#[test]
fn decide_overlay_does_not_short_circuit_skip_precedence() {
    let d = decide(Mode::Chaos, "linkedin", passes(1.0), None, true, Some(UserDecision::Accepted));
    assert_eq!(d, FillDecision::Skip(SkipReason::NoProfileValue));
}

#[test]
fn is_yes_accepts_y_and_yes_in_any_case() {
    assert!(is_yes("y"));
    assert!(is_yes("  YES \n"));
    assert!(is_yes("Yes"));
    assert!(!is_yes(""));
    assert!(!is_yes("yep"));
    assert!(!is_yes("n"));
}

fn field(id: &str) -> FieldDescriptor {
    FieldDescriptor {
        label: "Email".into(),
        placeholder: "".into(),
        aria_label: "".into(),
        name: "email".into(),
        id: id.into(),
        kind: "email".into(),
    }
}

#[test]
fn settle_fill_counts_and_hands_back_the_script() {
    let mut t = RunTally::new();
    let d = field("e1");
    let js = t.settle(&d, "email", &FillDecision::Fill { value: "j@e.com" }, false);
    assert_eq!(js, Some(fill_js("e1", "j@e.com")));
    assert_eq!(t.filled, 1);
    assert_eq!(t.skipped, 0);
    assert_eq!(t.to_verify, vec![("e1".to_string(), "j@e.com".to_string())]);
    assert_eq!(t.feedback_events.len(), 1);
    assert!(t.feedback_events[0].accepted);
    assert_eq!(t.feedback_events[0].actual, "email");
}

#[test]
fn settle_skip_only_counts() {
    let mut t = RunTally::new();
    let js = t.settle(&field("e1"), "email", &FillDecision::Skip(SkipReason::NoDomId), true);
    assert_eq!(js, None);
    assert_eq!(t.skipped, 1);
    assert!(t.feedback_events.is_empty());
    assert!(t.to_verify.is_empty());
}

#[test]
fn settle_prompt_declined_records_rejection() {
    let mut t = RunTally::new();
    let decision = FillDecision::Prompt { value: "j@e.com", key: "email" };
    let js = t.settle(&field("e1"), "email", &decision, false);
    assert_eq!(js, None);
    assert_eq!(t.prompted, 1);
    assert_eq!(t.skipped, 1);
    assert_eq!(t.filled, 0);
    assert!(!t.feedback_events[0].accepted);
    assert_eq!(t.feedback_events[0].actual, "");
}

#[test]
fn settle_prompt_accepted_fills() {
    let mut t = RunTally::new();
    let decision = FillDecision::Prompt { value: "j@e.com", key: "email" };
    let js = t.settle(&field("e1"), "email", &decision, true);
    assert_eq!(js, Some(fill_js("e1", "j@e.com")));
    assert_eq!(t.prompted, 1);
    assert_eq!(t.filled, 1);
    assert!(t.feedback_events[0].accepted);
}

#[test]
fn record_retry_counts_outcomes() {
    let mut o = VerifyOutcome::default();
    o.record_retry(true);
    o.record_retry(false);
    o.record_retry(false);
    assert_eq!(o, VerifyOutcome { retried_total: 3, retried_filled: 1, failed: 2 });
}

#[test]
fn only_chaos_fills_a_field_nobody_was_asked_about() {
    let v = Some("Jane");
    for above in [false, true] {
        assert!(matches!(
            decide(Mode::TrainingWheels, "first_name", above, v, true, None),
            FillDecision::Prompt { .. }
        ));
        assert!(matches!(
            decide(Mode::Chaos, "first_name", above, v, true, None),
            FillDecision::Fill { value: "Jane" }
        ));
    }
    assert!(!matches!(
        decide(Mode::Shadow, "first_name", false, v, true, None),
        FillDecision::Fill { .. } | FillDecision::Prompt { .. }
    ));
}

#[test]
fn a_run_keeps_its_books_balanced() {
    let mut t = RunTally::new();
    let prompt = FillDecision::Prompt { value: "j@e.com", key: "email" };
    let steps: Vec<(FillDecision, bool)> = vec![
        (FillDecision::Fill { value: "Jane" }, false),
        (FillDecision::Skip(SkipReason::NoDomId), true),
        (prompt.clone(), true),
        (prompt, false),
    ];
    let mut scripts = 0;
    for (i, (d, answer)) in steps.iter().enumerate() {
        if t.settle(&field(&format!("f{i}")), "email", d, *answer).is_some() {
            scripts += 1;
        }
    }
    assert_eq!(t.filled + t.skipped, 4);
    assert_eq!(t.filled, 2);
    assert_eq!(scripts, t.filled);
    assert_eq!(t.to_verify.len(), t.filled);
    assert_eq!(t.feedback_events.iter().filter(|e| e.accepted).count(), t.filled);
    assert_eq!(t.prompted, 2);
}

#[test]
fn format_summary_with_screenshot_is_the_exact_text() {
    let s = RunSummary {
        url: "u".into(),
        fields_seen: 1,
        fields_filled: 1,
        fields_skipped: 0,
        screenshot_path: Some("/tmp/run-1.png".to_string()),
        feedback_events: vec![],
    };
    assert_eq!(
        format_summary(&s, 2),
        "atsisbroken 0.1.0\n  url: u\n  fields seen: 1\n  filled: 1\n  skipped (unknown / freetext / empty): 0\n  feedback queue: 2 events on disk\n  screenshot: /tmp/run-1.png\n  ⚠ NOT submitted — review in browser, click Submit yourself."
    );
}
