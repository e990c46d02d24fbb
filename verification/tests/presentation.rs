use yazelix_venus::presentation::PresentationState;

#[test]
fn attachment_revision_collision_waits_for_the_new_generation() {
    let mut presentation = PresentationState::default();
    let attachment_a = presentation.candidate(Some(1));
    presentation.publish(attachment_a);
    assert_eq!(presentation.presented_revision(), Some(1));

    presentation.invalidate();
    let attachment_b = presentation.candidate(Some(1));
    assert_ne!(attachment_b, attachment_a);
    assert_eq!(presentation.presented_revision(), None);

    presentation.publish(attachment_b);
    assert_eq!(presentation.presented_revision(), Some(1));
}

#[test]
fn output_keeps_presented_geometry_until_a_structural_transition() {
    let mut presentation = PresentationState::default();
    let workspace_a = presentation.candidate(Some(7));
    presentation.publish(workspace_a);
    assert!(presentation.has_presented_geometry());

    presentation.content_changed();
    let output = presentation.candidate(Some(8));
    assert!(output.generation > workspace_a.generation);
    assert!(presentation.has_presented_geometry());
    assert_eq!(presentation.presented_revision(), Some(7));
    presentation.publish(workspace_a);
    assert_eq!(presentation.presented_revision(), Some(7));
    presentation.publish(output);
    assert_eq!(presentation.presented_revision(), Some(8));

    presentation.invalidate();
    let workspace_b = presentation.candidate(Some(7));
    assert!(!presentation.has_presented_geometry());
    presentation.publish(workspace_a);
    assert!(!presentation.has_presented_geometry());

    presentation.publish(workspace_b);
    assert!(presentation.has_presented_geometry());
    presentation.unpublish();
    assert!(!presentation.has_presented_geometry());

    presentation.publish(workspace_b);
    assert!(presentation.has_presented_geometry());
}

#[test]
fn published_candidate_is_current_until_content_changes() {
    let mut presentation = PresentationState::default();
    let first = presentation.candidate(Some(7));
    assert!(!presentation.is_current(first));
    presentation.publish(first);
    assert!(presentation.is_current(first));
    presentation.content_changed();
    assert!(!presentation.is_current(first));
    let unrevisioned = presentation.candidate(None);
    presentation.publish(unrevisioned);
    assert!(!presentation.is_current(unrevisioned));
    assert!(presentation.has_presented_geometry());
    assert_eq!(presentation.presented_revision(), None);
}
