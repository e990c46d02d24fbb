use yazelix_venus::interaction::{
    accessibility_workspace_focus, button_reaches_terminal, can_follow_implicit_resize, chrome_direction, copy_is_ready,
    cycle_workspace_focus, dismisses_clipboard_notice, ime_allowed, ime_reaches_terminal, shortcut_is_ready,
    terminal_focused, AccessibilityTarget, ElementState, WorkspaceHeaderControl,
};
use yazelix_venus::model::LocalNoticeSource;
use yazelix_venus::shortcuts::{NativeShortcutAction, WorkspaceDirection};
use yazelix_venus::workspace::{CommonAction, WorkspaceFocus};

#[test]
fn focus_cycles_through_the_workspace_chrome() {
    assert_eq!(cycle_workspace_focus(WorkspaceFocus::Terminal, true), WorkspaceFocus::Tabs);
    assert_eq!(cycle_workspace_focus(WorkspaceFocus::Tabs, true), WorkspaceFocus::Panes);
    assert_eq!(cycle_workspace_focus(WorkspaceFocus::Tabs, false), WorkspaceFocus::Terminal);
    assert_eq!(cycle_workspace_focus(WorkspaceFocus::Panes, true), WorkspaceFocus::Terminal);
}

#[test]
fn arrows_move_along_the_focused_chrome() {
    let traverse = |direction| Some(NativeShortcutAction::TraverseChrome(direction));
    assert_eq!(chrome_direction(WorkspaceFocus::Tabs, traverse(WorkspaceDirection::Left)), Some(WorkspaceDirection::Left));
    assert_eq!(chrome_direction(WorkspaceFocus::Tabs, traverse(WorkspaceDirection::Up)), None);
    assert_eq!(chrome_direction(WorkspaceFocus::Panes, traverse(WorkspaceDirection::Down)), Some(WorkspaceDirection::Down));
    assert_eq!(chrome_direction(WorkspaceFocus::Panes, traverse(WorkspaceDirection::Right)), None);
    assert_eq!(chrome_direction(WorkspaceFocus::Terminal, traverse(WorkspaceDirection::Left)), None);
    assert_eq!(chrome_direction(WorkspaceFocus::Tabs, Some(NativeShortcutAction::CycleFocus)), None);
    assert_eq!(chrome_direction(WorkspaceFocus::Tabs, None), None);
}

#[test]
fn structural_shortcuts_do_not_repeat_and_copy_waits_for_selection() {
    assert!(shortcut_is_ready(ElementState::Pressed, false));
    assert!(!shortcut_is_ready(ElementState::Pressed, true));
    assert!(!shortcut_is_ready(ElementState::Released, false));
    assert!(copy_is_ready(false, ElementState::Pressed, false));
    assert!(!copy_is_ready(true, ElementState::Pressed, false));
}

#[test]
fn resize_does_not_dismiss_clipboard_result() {
    assert!(dismisses_clipboard_notice(LocalNoticeSource::Input));
    assert!(!dismisses_clipboard_notice(LocalNoticeSource::Resize));
    assert!(can_follow_implicit_resize(true));
    assert!(!can_follow_implicit_resize(false));
}

#[test]
fn ime_requires_current_attached_terminal_but_always_cleans_up() {
    assert!(!ime_allowed(false, WorkspaceFocus::Terminal, true));
    assert!(!ime_allowed(true, WorkspaceFocus::Panes, true));
    assert!(!ime_allowed(true, WorkspaceFocus::Terminal, false));
    assert!(ime_allowed(true, WorkspaceFocus::Terminal, true));
    // The second argument says whether the event disables the input method.
    assert!(ime_reaches_terminal(false, true));
    assert!(!ime_reaches_terminal(false, false));
    assert!(ime_reaches_terminal(true, false));
    assert!(terminal_focused(true, WorkspaceFocus::Terminal));
    assert!(!terminal_focused(true, WorkspaceFocus::Tabs));
}

#[test]
fn workspace_chrome_preserves_terminal_release_pairing() {
    for (workspace, terminal_hit, state, current, expected) in [
        (true, false, ElementState::Pressed, true, false),
        (true, false, ElementState::Released, false, true),
        (true, true, ElementState::Pressed, true, true),
        (false, false, ElementState::Pressed, true, true),
        (false, false, ElementState::Pressed, false, false),
    ] {
        assert_eq!(button_reaches_terminal(workspace, terminal_hit, state, current), expected);
    }
}

#[test]
fn published_accessibility_focus_waits_for_eon_queue_admission() {
    for (target, admitted, expected_focus, expected_action) in [
        (AccessibilityTarget::Tab("t2".into()), true, Some(WorkspaceFocus::Tabs), CommonAction::FocusId("t2".into())),
        (AccessibilityTarget::Pane("pane-3".into()), false, None, CommonAction::FocusId("pane-3".into())),
    ] {
        let mut queued = None;
        let focus = accessibility_workspace_focus(target, |action| {
            queued = Some(action);
            admitted
        });
        assert_eq!((focus, queued), (expected_focus, Some(expected_action)));
    }
    assert_eq!(
        accessibility_workspace_focus(AccessibilityTarget::Terminal, |_| unreachable!()),
        Some(WorkspaceFocus::Terminal)
    );
    assert_eq!(
        accessibility_workspace_focus(
            AccessibilityTarget::HeaderControl { control: WorkspaceHeaderControl::NewTab, activate: true },
            |_| true
        ),
        None
    );
}

#[test]
fn orbit_focus_requires_window_and_terminal_focus() {
    assert!(terminal_focused(true, WorkspaceFocus::Terminal));
    assert!(!terminal_focused(false, WorkspaceFocus::Terminal));
    assert!(!terminal_focused(true, WorkspaceFocus::Tabs));
    assert!(!terminal_focused(true, WorkspaceFocus::Panes));
}
