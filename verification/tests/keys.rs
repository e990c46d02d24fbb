use yazelix_venus::input::InputState;
use yazelix_venus::interaction::ElementState::{Pressed, Released};
use yazelix_venus::keys::{viewer_key, workspace_key, workspace_key_action, WorkspaceKey};
use yazelix_venus::platform::NativePlatform;
use yazelix_venus::shortcuts::{KeyCode, Modifiers, NativeShortcutAction, ShortcutViewerCommand, WorkspaceDirection, ALT, WIRE_ALT};
use yazelix_venus::workspace::{CommonAction, InvokeIntent, Popup, PopupEntry, Snapshot, Tab, WorkspaceAction, WorkspaceFocus};

const SLASH: u64 = 1;
const LETTER: u64 = 2;

fn alt_input() -> InputState {
    let mut input = InputState::new();
    input.set_modifiers(false, false, true, false);
    input
}

#[test]
fn the_viewer_takes_its_toggle_and_every_key_while_open() {
    let linux = NativePlatform::Linux;
    let mut input = alt_input();
    assert_eq!(viewer_key(&mut input, linux, false, false, SLASH, Some(KeyCode::Slash), Pressed, false), None);
    assert_eq!(
        viewer_key(&mut input, linux, false, true, SLASH, Some(KeyCode::Slash), Pressed, false),
        Some(Some(ShortcutViewerCommand::Toggle))
    );
    assert_eq!(viewer_key(&mut input, linux, true, true, SLASH, Some(KeyCode::Slash), Released, false), Some(None));
    assert_eq!(viewer_key(&mut input, linux, false, true, LETTER, Some(KeyCode::KeyC), Pressed, false), None);

    let mut input = InputState::new();
    assert_eq!(viewer_key(&mut input, linux, true, true, LETTER, Some(KeyCode::KeyC), Pressed, false), Some(None));
    assert_eq!(viewer_key(&mut input, linux, true, true, LETTER, Some(KeyCode::KeyC), Released, false), Some(None));
    assert_eq!(
        viewer_key(&mut input, linux, true, true, SLASH, Some(KeyCode::Escape), Pressed, false),
        Some(Some(ShortcutViewerCommand::Close))
    );
    assert_eq!(viewer_key(&mut input, linux, true, true, 9, None, Pressed, false), Some(None));
}

#[test]
fn the_chrome_decides_focus_requests_and_traversal_in_order() {
    let none: Option<WorkspaceAction> = None;
    let mut input = InputState::new();
    assert_eq!(
        workspace_key(&mut input, LETTER, true, Pressed, false, WorkspaceFocus::Terminal, None, false, none.clone(), true, true),
        WorkspaceKey::Unhandled
    );
    assert_eq!(
        workspace_key(&mut input, LETTER, false, Pressed, false, WorkspaceFocus::Tabs, None, false, none.clone(), true, true),
        WorkspaceKey::Taken
    );
    assert_eq!(
        workspace_key(&mut input, LETTER, false, Pressed, false, WorkspaceFocus::Terminal, None, false, none.clone(), true, true),
        WorkspaceKey::Unhandled
    );

    let cycle = Some(NativeShortcutAction::CycleFocus);
    assert_eq!(
        workspace_key(&mut input, SLASH, true, Pressed, false, WorkspaceFocus::Terminal, cycle, false, none.clone(), true, true),
        WorkspaceKey::Focus(WorkspaceFocus::Tabs)
    );
    assert_eq!(
        workspace_key(&mut input, SLASH, true, Pressed, true, WorkspaceFocus::Tabs, cycle, false, none.clone(), true, true),
        WorkspaceKey::Taken
    );
    assert_eq!(
        workspace_key(&mut input, SLASH, true, Released, false, WorkspaceFocus::Tabs, cycle, false, none.clone(), true, true),
        WorkspaceKey::Taken
    );

    let create = Some(WorkspaceAction::Workspace(CommonAction::CreateTab));
    assert_eq!(
        workspace_key(&mut input, LETTER, true, Pressed, false, WorkspaceFocus::Terminal, None, false, create.clone(), true, true),
        WorkspaceKey::Queue(WorkspaceAction::Workspace(CommonAction::CreateTab))
    );
    assert_eq!(
        workspace_key(&mut input, LETTER, true, Pressed, true, WorkspaceFocus::Terminal, None, false, create.clone(), true, true),
        WorkspaceKey::Taken
    );
    workspace_key(&mut input, LETTER, true, Released, false, WorkspaceFocus::Terminal, None, false, create.clone(), true, true);
    assert_eq!(
        workspace_key(&mut input, LETTER, true, Pressed, false, WorkspaceFocus::Terminal, None, false, create.clone(), true, false),
        WorkspaceKey::Taken
    );
    workspace_key(&mut input, LETTER, true, Released, false, WorkspaceFocus::Terminal, None, false, create, true, true);

    let left = Some(NativeShortcutAction::TraverseChrome(WorkspaceDirection::Left));
    assert_eq!(
        workspace_key(&mut input, 7, true, Pressed, false, WorkspaceFocus::Tabs, left, false, none.clone(), true, true),
        WorkspaceKey::Traverse(WorkspaceDirection::Left)
    );
    assert_eq!(
        workspace_key(&mut input, 7, true, Pressed, false, WorkspaceFocus::Panes, left, false, none.clone(), true, true),
        WorkspaceKey::Taken
    );
    let back = Some(NativeShortcutAction::ReturnToTerminal);
    assert_eq!(
        workspace_key(&mut input, 8, true, Pressed, false, WorkspaceFocus::Panes, back, false, none, true, true),
        WorkspaceKey::Focus(WorkspaceFocus::Terminal)
    );
}

fn snapshot() -> Snapshot {
    let tab = |id: &str| Tab {
        id: id.into(),
        directory: b"/tmp".to_vec(),
        selected_pane: String::new(),
        panes: vec![],
        popups: vec![],
        selected_popup: None,
    };
    Snapshot { active_tab: "t1".into(), tabs: vec![tab("t1"), tab("t2")], entries: vec![] }
}

#[test]
fn workspace_requests_follow_tab_popup_then_table_priority() {
    let alt = Modifiers { bits: ALT };
    let linux = NativePlatform::Linux;
    let mut snapshot = snapshot();
    assert_eq!(
        workspace_key_action(linux, KeyCode::Digit2, "Digit2", alt, &snapshot, true),
        Some(WorkspaceAction::Workspace(CommonAction::FocusId("t2".into())))
    );
    assert_eq!(workspace_key_action(linux, KeyCode::Digit9, "Digit9", alt, &snapshot, true), None);
    assert_eq!(
        workspace_key_action(linux, KeyCode::KeyH, "KeyH", alt, &snapshot, true),
        Some(WorkspaceAction::Workspace(CommonAction::Focus(WorkspaceDirection::Left)))
    );
    snapshot.entries = vec![PopupEntry { id: "project".into(), label: "Project".into(), modifiers: WIRE_ALT, key: "KeyH".into() }];
    snapshot.tabs[0].popups = vec![Popup {
        id: "u1".into(),
        entry: "project".into(),
        session: "popup".into(),
        endpoint: b"/tmp/popup.sock".to_vec(),
    }];
    assert_eq!(
        workspace_key_action(linux, KeyCode::KeyH, "KeyH", alt, &snapshot, false),
        Some(WorkspaceAction::InvokePopup {
            tab: "t1".into(),
            entry: "project".into(),
            expected_instance: Some("u1".into()),
            intent: InvokeIntent::Focus,
        })
    );
    assert_eq!(workspace_key_action(linux, KeyCode::Other, "KeyQ", Modifiers { bits: 0 }, &snapshot, true), None);
}
