use yazelix_venus::attachment::window_title;
use yazelix_venus::presentation::PresentationState;
use yazelix_venus::status::{record_render_failure, SESSION_VERSION};

#[test]
fn renderer_failure_uses_non_gpu_diagnostics_until_success() {
    let mut notice = None;
    let mut presentation = PresentationState::default();
    let candidate = presentation.candidate(Some(7));
    presentation.publish(candidate);
    let mut titles = Vec::new();
    let mut diagnostics = Vec::new();
    let mut alerts = 0;

    for error in ["the Venus glyph atlas is full", "a later renderer failure"] {
        if let Some(failure) = record_render_failure(&mut notice, &mut presentation, error) {
            titles.push(failure.clone());
            diagnostics.push(format!("venus: {failure}"));
            alerts += 1;
        }
    }

    let failure = "Venus renderer failure: the Venus glyph atlas is full";
    assert!(!presentation.has_presented_geometry());
    assert_eq!(titles, [failure]);
    assert_eq!(diagnostics, [format!("venus: {failure}")]);
    assert_eq!(alerts, 1);
    assert_eq!(window_title(Some("Orbit title"), notice.as_deref()), failure);

    assert!(notice.take().is_some());
    assert_eq!(window_title(Some("Orbit title"), notice.as_deref()), "Orbit title");
    assert_eq!(window_title(Some(""), None), "Venus");
}

#[test]
fn canonical_session_revision_is_orbs_v10() {
    assert_eq!(SESSION_VERSION, 10);
}
