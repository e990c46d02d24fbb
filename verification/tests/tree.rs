use yazelix_venus::accessibility::{
    AccessibleLinks, WorkspaceNodes, CLOSE_TAB_NODE, CONTENT_NODE, NEW_TAB_NODE, PANE_PANEL_NODE, SHORTCUTS_NODE,
    SHORTCUT_DIALOG_NODE, STATUS_NODE, TAB_LIST_NODE, TEXT_RUN_NODE_START, WINDOW_NODE,
};
use yazelix_venus::tree::{accessibility_tree, AccessNode, AccessRole, AccessTree, PresentedView, TreePane, TreeTab, TreeWorkspace};
use yazelix_venus::viewer::{ShortcutGroup, ShortcutRow};
use yazelix_venus::workspace::WorkspaceFocus;

fn view() -> PresentedView {
    PresentedView {
        title: "Venus".into(),
        status: "Connecting to Orbit".into(),
        rows: Vec::new(),
        terminal: false,
        scrollback_label: None,
        workspace: None,
        shortcut_viewer: None,
        focus: WorkspaceFocus::Terminal,
        link_labels: Vec::new(),
    }
}

fn node(tree: &AccessTree, id: u64) -> &AccessNode {
    tree.nodes.iter().find(|node| node.id == id).unwrap()
}

fn labelled<'a>(tree: &'a AccessTree, label: &str) -> &'a AccessNode {
    tree.nodes.iter().find(|node| node.label.as_deref() == Some(label)).unwrap()
}

#[test]
fn shortcut_viewer_replaces_terminal_tree_with_a_focused_dialog() {
    let mut presented = view();
    presented.shortcut_viewer = Some(vec![ShortcutGroup {
        title: "Host".into(),
        rows: vec![ShortcutRow { shortcut: "Alt+/".into(), label: "Show or close shortcuts".into() }],
    }]);
    let tree = accessibility_tree(&presented, &WorkspaceNodes::new(), &AccessibleLinks::new());
    assert_eq!(node(&tree, WINDOW_NODE).children, [SHORTCUT_DIALOG_NODE]);
    assert_eq!(node(&tree, SHORTCUT_DIALOG_NODE).role, AccessRole::Dialog);
    assert!(node(&tree, SHORTCUT_DIALOG_NODE).modal);
    assert_eq!(tree.focus, SHORTCUT_DIALOG_NODE);
    let group = labelled(&tree, "Host");
    assert_eq!(group.role, AccessRole::Group);
    assert_eq!(node(&tree, SHORTCUT_DIALOG_NODE).children, [group.id]);
    assert!(tree.nodes.iter().any(|node| node.value.as_deref() == Some("Alt+/ — Show or close shortcuts")));
    assert!(tree.nodes.iter().all(|node| node.id != CONTENT_NODE));
}

#[test]
fn scene_notice_preserves_terminal_content_and_adds_an_alert() {
    let mut presented = view();
    presented.title = "shell".into();
    presented.rows = vec!["terminal content".into()];
    presented.status = "renderer failure".into();
    presented.terminal = true;
    let tree = accessibility_tree(&presented, &WorkspaceNodes::new(), &AccessibleLinks::new());
    assert_eq!(node(&tree, CONTENT_NODE).role, AccessRole::Terminal);
    assert!(node(&tree, CONTENT_NODE).read_only);
    assert_eq!(node(&tree, TEXT_RUN_NODE_START).value.as_deref(), Some("terminal content"));
    assert_eq!(node(&tree, STATUS_NODE).role, AccessRole::Alert);
    assert_eq!(node(&tree, STATUS_NODE).label.as_deref(), Some("renderer failure"));
    assert_eq!(node(&tree, WINDOW_NODE).children, [CONTENT_NODE, STATUS_NODE]);
    assert_eq!(tree.focus, CONTENT_NODE);
}

#[test]
fn scrollback_is_a_terminal_description_without_live_alerts() {
    let mut presented = view();
    presented.terminal = true;
    presented.status.clear();
    presented.scrollback_label = Some("12 rows".into());
    let tree = accessibility_tree(&presented, &WorkspaceNodes::new(), &AccessibleLinks::new());
    assert_eq!(
        node(&tree, CONTENT_NODE).description.as_deref(),
        Some("Scrollback: 12 rows above live output (committed display rows)")
    );
    assert_eq!(node(&tree, WINDOW_NODE).children, [CONTENT_NODE]);
    assert!(tree.nodes.iter().all(|node| node.id != STATUS_NODE));
}

#[test]
fn status_without_a_terminal_is_the_content_itself() {
    let tree = accessibility_tree(&view(), &WorkspaceNodes::new(), &AccessibleLinks::new());
    assert_eq!(node(&tree, CONTENT_NODE).role, AccessRole::Alert);
    assert_eq!(node(&tree, CONTENT_NODE).label.as_deref(), Some("Venus status"));
    assert_eq!(node(&tree, CONTENT_NODE).value.as_deref(), Some("Connecting to Orbit"));
    let mut quiet = view();
    quiet.status.clear();
    let tree = accessibility_tree(&quiet, &WorkspaceNodes::new(), &AccessibleLinks::new());
    assert_eq!(node(&tree, CONTENT_NODE).role, AccessRole::GenericContainer);
    assert_eq!(node(&tree, CONTENT_NODE).label.as_deref(), Some("Tab content"));
}

fn workspace_view(focus: WorkspaceFocus) -> (PresentedView, WorkspaceNodes) {
    let mut presented = view();
    presented.title = "shell".into();
    presented.rows = vec!["terminal".into()];
    presented.status.clear();
    presented.terminal = true;
    presented.focus = focus;
    presented.workspace = Some(TreeWorkspace {
        tabs: vec![
            TreeTab { id: "t1".into(), label: "Tab 1 of 2  /tmp/eon".into(), selected: true },
            TreeTab { id: "t2".into(), label: "Tab 2 of 2  /tmp/nova".into(), selected: false },
        ],
        panes: vec![
            TreePane { id: "p1".into(), label: "p1 offline".into(), selected: false },
            TreePane { id: "p2".into(), label: "p2  /tmp/eon".into(), selected: true },
        ],
        quota: None,
        popup_label: None,
        terminal_visible: true,
    });
    let mut nodes = WorkspaceNodes::new();
    nodes.set_workspace(&vec!["t1".into(), "t2".into()], &vec!["p1".into(), "p2".into()]);
    (presented, nodes)
}

#[test]
fn workspace_accessibility_order_matches_tabs_then_one_expanded_pane() {
    let (presented, nodes) = workspace_view(WorkspaceFocus::Panes);
    let tab_1 = nodes.tab_node("t1").unwrap();
    let tab_2 = nodes.tab_node("t2").unwrap();
    let pane_1 = nodes.pane_node("p1").unwrap();
    let pane_2 = nodes.pane_node("p2").unwrap();
    let tree = accessibility_tree(&presented, &nodes, &AccessibleLinks::new());
    assert_eq!(node(&tree, WINDOW_NODE).children, [TAB_LIST_NODE, NEW_TAB_NODE, SHORTCUTS_NODE, CLOSE_TAB_NODE, PANE_PANEL_NODE]);
    assert_eq!(node(&tree, TAB_LIST_NODE).children, [tab_1, tab_2]);
    assert_eq!(node(&tree, PANE_PANEL_NODE).children, [pane_1, pane_2, CONTENT_NODE]);
    assert_eq!(node(&tree, PANE_PANEL_NODE).label.as_deref(), Some("Active tab panes"));
    assert_eq!(node(&tree, tab_1).role, AccessRole::Tab);
    assert_eq!(node(&tree, tab_1).label.as_deref(), Some("Tab 1 of 2  /tmp/eon"));
    assert_eq!(node(&tree, tab_1).selected, Some(true));
    assert_eq!(node(&tree, pane_1).label.as_deref(), Some("p1 offline"));
    assert_eq!(node(&tree, pane_2).role, AccessRole::Button);
    assert_eq!(node(&tree, pane_2).expanded, Some(true));
    assert_eq!(tree.focus, pane_2);

    let (presented, nodes) = workspace_view(WorkspaceFocus::Tabs);
    assert_eq!(accessibility_tree(&presented, &nodes, &AccessibleLinks::new()).focus, tab_1);
    let (presented, nodes) = workspace_view(WorkspaceFocus::Terminal);
    assert_eq!(accessibility_tree(&presented, &nodes, &AccessibleLinks::new()).focus, CONTENT_NODE);
}

#[test]
fn eon_bar_buttons_share_labels_and_separate_focus_from_activation() {
    let (presented, nodes) = workspace_view(WorkspaceFocus::Terminal);
    let tree = accessibility_tree(&presented, &nodes, &AccessibleLinks::new());
    for (id, label) in [
        (NEW_TAB_NODE, "New tab — Alt+Shift+T"),
        (SHORTCUTS_NODE, "Keyboard shortcuts — Alt+/"),
        (CLOSE_TAB_NODE, "Close tab — Alt+Shift+W"),
    ] {
        let button = node(&tree, id);
        assert_eq!(button.role, AccessRole::Button);
        assert_eq!(button.label.as_deref(), Some(label));
        assert!(button.click && button.focus);
    }
    assert_eq!(node(&tree, CLOSE_TAB_NODE).description.as_deref(), Some("Active tab t1"));
}

#[test]
fn popup_and_empty_body_expose_only_visible_accessibility_targets() {
    let (mut presented, nodes) = workspace_view(WorkspaceFocus::Terminal);
    let workspace = presented.workspace.as_mut().unwrap();
    workspace.panes.clear();
    workspace.popup_label = Some("Project".into());
    let tree = accessibility_tree(&presented, &nodes, &AccessibleLinks::new());
    assert_eq!(node(&tree, PANE_PANEL_NODE).label.as_deref(), Some("Project"));
    assert_eq!(node(&tree, PANE_PANEL_NODE).children, [CONTENT_NODE]);

    let workspace = presented.workspace.as_mut().unwrap();
    workspace.popup_label = None;
    workspace.terminal_visible = false;
    let tree = accessibility_tree(&presented, &nodes, &AccessibleLinks::new());
    assert_eq!(node(&tree, PANE_PANEL_NODE).label.as_deref(), Some("Empty tab"));
    assert!(node(&tree, PANE_PANEL_NODE).children.is_empty());
    // Without a visible terminal, terminal focus falls to the selected tab.
    assert_eq!(tree.focus, nodes.tab_node("t1").unwrap());
}

#[test]
fn visible_links_offer_only_open_and_copy() {
    let mut presented = view();
    presented.terminal = true;
    presented.status.clear();
    presented.rows = vec!["link".into()];
    let mut links = AccessibleLinks::new();
    links.set_links(Some((7, 1)), &vec![(0, 0)]);
    presented.link_labels = vec!["https://example.com/one".into()];
    let tree = accessibility_tree(&presented, &WorkspaceNodes::new(), &links);
    let open = labelled(&tree, "https://example.com/one");
    let copy = labelled(&tree, "Copy https://example.com/one");
    assert_eq!(open.role, AccessRole::Link);
    assert!(open.click && !open.focus);
    assert_eq!(copy.role, AccessRole::Button);
    assert!(copy.click && !copy.focus);
    assert_eq!(node(&tree, CONTENT_NODE).children, [TEXT_RUN_NODE_START, open.id, copy.id]);
}
