use atsisbroken::browser::connector::{AuthShape, ConnectorKind};

#[test]
fn every_connector_has_display_name() {
    for k in ConnectorKind::all() {
        assert!(!k.display_name().is_empty(), "{k:?} has empty display_name");
    }
}

#[test]
fn every_connector_has_auth_shape() {
    for k in ConnectorKind::all() {
        let _ = k.auth_shape();
    }
}

#[test]
fn all_slice_covers_every_variant() {
    let all = ConnectorKind::all();
    assert_eq!(all.len(), 34);
    let mut sorted: Vec<&ConnectorKind> = all.iter().collect();
    sorted.sort();
    sorted.dedup();
    assert_eq!(sorted.len(), all.len(), "ALL contains duplicates");
}

#[test]
fn github_is_public_handle() {
    assert_eq!(ConnectorKind::GitHub.auth_shape(), AuthShape::PublicHandle);
}

#[test]
fn linkedin_is_oauth() {
    assert_eq!(ConnectorKind::LinkedIn.auth_shape(), AuthShape::OAuth);
}

#[test]
fn substack_is_session_cookie() {
    assert_eq!(ConnectorKind::Substack.auth_shape(), AuthShape::SessionCookie);
}

#[test]
fn manual_resume_is_manual_paste() {
    assert_eq!(ConnectorKind::ManualResume.auth_shape(), AuthShape::ManualPaste);
}

#[test]
fn display_names_read_as_the_service_calls_itself() {
    assert_eq!(ConnectorKind::GitHub.display_name(), "GitHub");
    assert_eq!(ConnectorKind::StackOverflow.display_name(), "Stack Overflow");
    assert_eq!(ConnectorKind::CratesIo.display_name(), "crates.io");
}

#[test]
fn debug_names_match_variant_names() {
    for k in ConnectorKind::all() {
        assert_eq!(k.debug_name(), format!("{k:?}"));
    }
}
