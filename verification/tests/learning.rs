use atsisbroken::learning::{fingerprint, top_entries, CorrectionOverlay, FeedbackStats, UserDecision};
use atsisbroken::{Feedback, FieldDescriptor};

fn fb(label: &str, predicted: &str, actual: &str, accepted: bool) -> Feedback {
    Feedback {
        field: FieldDescriptor {
            label: label.into(),
            placeholder: "".into(),
            aria_label: "".into(),
            name: "".into(),
            id: "".into(),
            kind: "text".into(),
        },
        predicted: predicted.into(),
        actual: actual.into(),
        accepted,
    }
}

fn text_field(label: &str, id: &str) -> FieldDescriptor {
    FieldDescriptor {
        label: label.into(),
        placeholder: "".into(),
        aria_label: "".into(),
        name: "".into(),
        id: id.into(),
        kind: "text".into(),
    }
}

#[test]
fn fingerprint_ignores_id_for_stability() {
    let d1 = FieldDescriptor {
        label: "Email".into(),
        placeholder: "".into(),
        aria_label: "".into(),
        name: "primaryEmail".into(),
        id: "input-1234567890-abc".into(),
        kind: "email".into(),
    };
    let d2 = FieldDescriptor { id: "input-9999999-xyz".into(), ..d1.clone() };
    assert_eq!(fingerprint(&d1), fingerprint(&d2));
}

#[test]
fn fingerprint_normalizes_whitespace_and_case() {
    let d1 = FieldDescriptor {
        label: "  Email  ".into(),
        placeholder: "".into(),
        aria_label: "".into(),
        name: "EMAIL".into(),
        id: "".into(),
        kind: "Email".into(),
    };
    let d2 = FieldDescriptor {
        label: "email".into(),
        placeholder: "".into(),
        aria_label: "".into(),
        name: "email".into(),
        id: "".into(),
        kind: "email".into(),
    };
    assert_eq!(fingerprint(&d1), fingerprint(&d2));
}

#[test]
fn overlay_records_rejection() {
    let q = vec![fb("Salary expectation", "freetext", "", false)];
    let ov = CorrectionOverlay::from_queue(&q);
    let d = text_field("Salary expectation", "anything");
    assert_eq!(ov.decision_for(&d), Some(UserDecision::Rejected));
}

#[test]
fn overlay_records_every_accepted_event() {
    let q = vec![fb("Email", "email", "email", true)];
    let ov = CorrectionOverlay::from_queue(&q);
    assert_eq!(ov.decision_for(&text_field("Email", "")), Some(UserDecision::Accepted));
}

#[test]
fn overlay_records_user_correction_as_accepted() {
    let q = vec![fb("Email", "email", "first_name", true)];
    let ov = CorrectionOverlay::from_queue(&q);
    assert_eq!(ov.decision_for(&text_field("Email", "")), Some(UserDecision::Accepted));
}

#[test]
fn overlay_most_recent_wins() {
    let q = vec![fb("Email", "email", "", false), fb("Email", "email", "first_name", true)];
    let ov = CorrectionOverlay::from_queue(&q);
    assert_eq!(ov.decision_for(&text_field("Email", "")), Some(UserDecision::Accepted));
}

#[test]
fn overlay_decision_for_unknown_field_returns_none() {
    let ov = CorrectionOverlay::default();
    assert!(ov.decision_for(&text_field("Anything", "")).is_none());
}

#[test]
fn stats_count_accepted_rejected() {
    let q = vec![
        fb("a", "email", "email", true),
        fb("b", "phone", "", false),
        fb("c", "linkedin", "linkedin", true),
        fb("d", "freetext", "", false),
        fb("e", "freetext", "", false),
    ];
    let s = FeedbackStats::from_queue(&q);
    assert_eq!(s.total, 5);
    assert_eq!(s.accepted, 2);
    assert_eq!(s.rejected, 3);
}

#[test]
fn stats_top_rejected_keys_sorted_desc() {
    let q = vec![
        fb("a", "freetext", "", false),
        fb("b", "freetext", "", false),
        fb("c", "phone", "", false),
        fb("d", "freetext", "", false),
    ];
    let s = FeedbackStats::from_queue(&q);
    assert_eq!(s.top_rejected_keys[0], ("freetext".to_string(), 3));
    assert_eq!(s.top_rejected_keys[1], ("phone".to_string(), 1));
}

#[test]
fn stats_top_rejected_capped_at_five() {
    let q: Vec<Feedback> = (0..10).map(|i| fb("x", &format!("k{i}"), "", false)).collect();
    let s = FeedbackStats::from_queue(&q);
    assert_eq!(s.top_rejected_keys.len(), 5);
}

#[test]
fn overlay_counts_field_shapes_not_events() {
    let q = vec![
        fb("Email", "email", "email", true),
        fb("Email", "email", "", false),
        fb("Phone", "phone", "phone", true),
    ];
    let ov = CorrectionOverlay::from_queue(&q);
    assert_eq!(ov.len(), 2);
    assert!(!ov.is_empty());
    assert_eq!(ov.decision_for(&text_field("Email", "x")), Some(UserDecision::Rejected));
}

#[test]
fn stats_count_per_key_in_first_appearance_order() {
    let q = vec![
        fb("a", "email", "email", true),
        fb("b", "phone", "phone", true),
        fb("c", "email", "email", true),
    ];
    let s = FeedbackStats::from_queue(&q);
    assert_eq!(s.per_key_accepted, vec![("email".to_string(), 2), ("phone".to_string(), 1)]);
    assert!(s.per_key_rejected.is_empty());
    assert!(s.top_rejected_keys.is_empty());
}

#[test]
fn top_entries_breaks_ties_by_table_order() {
    let table = vec![
        ("a".to_string(), 1),
        ("b".to_string(), 3),
        ("c".to_string(), 1),
        ("d".to_string(), 3),
    ];
    let top = top_entries(&table, 3);
    assert_eq!(
        top,
        vec![("b".to_string(), 3), ("d".to_string(), 3), ("a".to_string(), 1)]
    );
    assert_eq!(top_entries(&table, 8).len(), 4);
}
