use yazelix_venus::shortcuts::WIRE_ALT;
use yazelix_venus::workspace::{
    active_popup, active_tab_has_panes, snapshot_eq, visible_metadata_endpoints, Pane, Popup, PopupEntry, Snapshot,
    Tab, WorkspaceFailure, WorkspaceModel, WorkspaceResponse,
};

fn pane(id: &str, endpoint: &[u8], live: bool) -> Pane {
    Pane { id: id.into(), session: format!("session-{id}"), endpoint: endpoint.to_vec(), live }
}

#[test]
fn rejected_workspace_action_preserves_the_last_complete_snapshot() {
    let snapshot = Snapshot {
        active_tab: "t1".into(),
        tabs: vec![Tab {
            id: "t1".into(),
            directory: b"/tmp/eon".to_vec(),
            selected_pane: "pane-1".into(),
            panes: vec![Pane {
                id: "pane-1".into(),
                session: "session-1".into(),
                endpoint: b"/run/eon/orbit.sock".to_vec(),
                live: true,
            }],
            popups: Vec::new(),
            selected_popup: None,
        }],
        entries: Vec::new(),
    };
    let mut model = WorkspaceModel::default();

    assert_eq!(model.apply(WorkspaceResponse::Snapshot(snapshot.clone())), (true, true));
    assert_eq!(model.apply(WorkspaceResponse::Snapshot(snapshot.clone())), (false, false));
    assert_eq!(
        model.apply(WorkspaceResponse::Failure(WorkspaceFailure {
            code: "edge".into(),
            detail: "there is no pane above the selected pane".into(),
        })),
        (true, false)
    );

    assert!(snapshot_eq(model.snapshot().unwrap(), &snapshot));
    assert_eq!(model.active_attachment(), Some((&b"/run/eon/orbit.sock"[..], true)));
    assert_eq!(model.notice(), Some("Eon workspace edge: there is no pane above the selected pane"));
    assert_eq!(model.apply(WorkspaceResponse::Snapshot(snapshot.clone())), (true, false));
    assert_eq!(model.notice(), None);
    assert_eq!(model.apply(WorkspaceResponse::Snapshot(snapshot.clone())), (false, false));

    assert!(model.mark_unavailable("Cannot connect to Eon".into()));
    assert!(!model.mark_unavailable("Cannot connect to Eon".into()));

    let mut offline = snapshot;
    offline.tabs[0].panes[0].live = false;
    model.apply(WorkspaceResponse::Snapshot(offline));
    assert_eq!(model.active_attachment(), Some((&b"/run/eon/orbit.sock"[..], false)));
}

fn two_tabs(active: &str) -> Snapshot {
    Snapshot {
        active_tab: active.into(),
        tabs: vec![
            Tab {
                id: "t1".into(),
                directory: b"/tmp/eon".to_vec(),
                selected_pane: "pane-1".into(),
                panes: vec![pane("pane-1", b"one", true), pane("pane-2", b"offline", false)],
                popups: Vec::new(),
                selected_popup: None,
            },
            Tab {
                id: "t2".into(),
                directory: b"/tmp/nova".to_vec(),
                selected_pane: "pane-3".into(),
                panes: vec![pane("pane-3", b"hidden", true)],
                popups: Vec::new(),
                selected_popup: None,
            },
        ],
        entries: Vec::new(),
    }
}

/// Show the project popup over the first tab.
fn show_test_popup(snapshot: &mut Snapshot) {
    snapshot.entries = vec![PopupEntry { id: "project".into(), label: "Project".into(), modifiers: WIRE_ALT, key: "KeyZ".into() }];
    snapshot.tabs[0].popups = vec![Popup {
        id: "u1".into(),
        entry: "project".into(),
        session: "popup-session".into(),
        endpoint: b"/tmp/popup.sock".to_vec(),
    }];
    snapshot.tabs[0].selected_popup = Some("u1".into());
}

#[test]
fn metadata_endpoints_are_only_live_panes_in_the_active_tab() {
    let snapshot = two_tabs("t1");
    assert!(visible_metadata_endpoints(&snapshot, Some(b"one"), false).is_empty());
    assert_eq!(visible_metadata_endpoints(&snapshot, Some(b"one"), true), vec![b"one".to_vec()]);

    let mut popup = snapshot;
    show_test_popup(&mut popup);
    assert!(visible_metadata_endpoints(&popup, Some(b"popup"), true).is_empty());

    let inactive_popup = Snapshot { active_tab: "t2".into(), ..popup };
    assert_eq!(visible_metadata_endpoints(&inactive_popup, Some(b"hidden"), true), vec![b"hidden".to_vec()]);
    assert!(visible_metadata_endpoints(&two_tabs("missing"), None, true).is_empty());
}

#[test]
fn an_endpoint_shared_by_panes_is_observed_once() {
    let mut snapshot = two_tabs("t1");
    snapshot.tabs[0].panes[1].live = true;
    snapshot.tabs[0].panes[1].endpoint = b"one".to_vec();
    snapshot.tabs[0].panes.push(pane("pane-4", b"four", true));
    assert_eq!(
        visible_metadata_endpoints(&snapshot, None, false),
        vec![b"one".to_vec(), b"four".to_vec()]
    );
}

#[test]
fn pane_chrome_needs_panes_and_no_popup() {
    assert!(active_tab_has_panes(&two_tabs("t1")));
    let mut covered = two_tabs("t1");
    show_test_popup(&mut covered);
    assert!(!active_tab_has_panes(&covered));
    assert!(!active_tab_has_panes(&two_tabs("missing")));
    let mut empty = two_tabs("t2");
    empty.tabs[1].panes.clear();
    assert!(!active_tab_has_panes(&empty));
}

#[test]
fn the_active_popup_is_the_selected_popup_of_the_active_tab() {
    let mut snapshot = two_tabs("t1");
    assert!(active_popup(&snapshot).is_none());
    show_test_popup(&mut snapshot);
    assert_eq!(active_popup(&snapshot).map(|popup| popup.id.as_str()), Some("u1"));
    assert!(active_popup(&Snapshot { active_tab: "t2".into(), ..snapshot.clone() }).is_none());
    snapshot.tabs[0].selected_popup = Some("gone".into());
    assert!(active_popup(&snapshot).is_none());
    snapshot.tabs[0].selected_popup = None;
    assert!(active_popup(&snapshot).is_none());
}

#[test]
fn a_popup_change_is_a_snapshot_change() {
    let mut model = WorkspaceModel::default();
    let snapshot = two_tabs("t1");
    assert_eq!(model.apply(WorkspaceResponse::Snapshot(snapshot.clone())), (true, true));
    let mut popup = snapshot.clone();
    show_test_popup(&mut popup);
    assert!(!snapshot_eq(&snapshot, &popup));
    assert_eq!(model.apply(WorkspaceResponse::Snapshot(popup.clone())), (true, true));
    assert_eq!(model.apply(WorkspaceResponse::Snapshot(popup.clone())), (false, false));
    let mut hidden = popup;
    hidden.tabs[0].selected_popup = None;
    assert_eq!(model.apply(WorkspaceResponse::Snapshot(hidden)), (true, true));
}
