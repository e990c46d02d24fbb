//! Where a key press goes before the terminal: first the shortcut viewer, then
//! the workspace chrome. Each step captures the keys it takes, so their repeats
//! and releases stay with it.

use vstd::prelude::*;
use crate::input::{spec_consume, InputState};
use crate::interaction::{
    chrome_direction, cycle_workspace_focus, spec_chrome_direction, spec_cycle_workspace_focus, ElementState,
};
use crate::platform::NativePlatform;
use crate::shortcuts::{
    key_action, popup_shortcut, shortcut_viewer_command, spec_popup_shortcut, spec_shortcut_viewer_command,
    spec_tab_shortcut_index, tab_shortcut_index, workspace_shortcut, KeyCode, NativeShortcutAction,
    ShortcutViewerCommand, WorkspaceDirection,
};
use crate::workspace::{CommonAction, Snapshot, WorkspaceAction, WorkspaceFocus};

verus! {

/// What the shortcut viewer makes of a key transition: `None` where the key is
/// not the viewer's; otherwise it is taken, with the command to carry out on a
/// press.
pub open spec fn spec_viewer_key(
    v: crate::input::InputView,
    platform: NativePlatform,
    open: bool,
    has_snapshot: bool,
    key: u64,
    code: Option<KeyCode>,
    state: ElementState,
    repeat: bool,
) -> (crate::input::InputView, Option<Option<ShortcutViewerCommand>>) {
    if !open && !has_snapshot {
        (v, None)
    } else {
        let command = match code {
            Some(c) => spec_shortcut_viewer_command(platform, open, c, v.modifiers, repeat),
            None => None,
        };
        let (after, consumed) = spec_consume(v, key, state, repeat, open || command is Some);
        if !consumed {
            (after, None)
        } else if state == ElementState::Pressed {
            (after, Some(command))
        } else {
            (after, Some(None))
        }
    }
}

/// Offer a key transition to the shortcut viewer. While it is open the viewer
/// takes every key; while closed, only its toggle, and only once a workspace is
/// known. `code` is the key as shortcuts know it, where it is identified.
pub fn viewer_key(
    input: &mut InputState,
    platform: NativePlatform,
    open: bool,
    has_snapshot: bool,
    key: u64,
    code: Option<KeyCode>,
    state: ElementState,
    repeat: bool,
) -> (outcome: Option<Option<ShortcutViewerCommand>>)
    ensures
        (final(input)@, outcome) == spec_viewer_key(old(input)@, platform, open, has_snapshot, key, code, state, repeat),
{
    if !open && !has_snapshot {
        return None;
    }
    let command = match code {
        Some(c) => shortcut_viewer_command(platform, open, c, input.modifiers(), repeat),
        None => None,
    };
    if !input.consumes_shortcut(key, state, repeat, open || command.is_some()) {
        return None;
    }
    if state == ElementState::Pressed {
        Some(command)
    } else {
        Some(None)
    }
}

/// The workspace request a key names, by priority: focusing a tab by position,
/// invoking a popup by its shortcut, then a workspace shortcut of the fixed table.
pub open spec fn is_workspace_key_action(
    action: Option<WorkspaceAction>,
    platform: NativePlatform,
    code: KeyCode,
    name: Seq<char>,
    m: crate::shortcuts::Modifiers,
    snapshot: Snapshot,
    terminal_focused: bool,
) -> bool {
    match spec_tab_shortcut_index(platform, code, m) {
        Some(i) => if i < snapshot.tabs@.len() {
            action matches Some(WorkspaceAction::Workspace(CommonAction::FocusId(id))) && id@ == snapshot.tabs@[i as int].id@
        } else {
            action is None
        },
        None => match spec_popup_shortcut(name, m, snapshot, terminal_focused) {
            Some((tab, entry, instance, intent)) => action matches Some(WorkspaceAction::InvokePopup {
                tab: t,
                entry: e,
                expected_instance: i,
                intent: n,
            }) && t@ == tab && e@ == entry && n == intent && match i {
                Some(i) => instance == Some(i@),
                None => instance is None,
            },
            None => match key_action(platform, code, m) {
                Some(NativeShortcutAction::Focus(d)) => action == Some(WorkspaceAction::Workspace(CommonAction::Focus(d))),
                Some(NativeShortcutAction::Move(d)) => action == Some(WorkspaceAction::Workspace(CommonAction::Move(d))),
                Some(NativeShortcutAction::CreatePane) => action == Some(WorkspaceAction::Workspace(CommonAction::CreatePane)),
                Some(NativeShortcutAction::CreateTab) => action == Some(WorkspaceAction::Workspace(CommonAction::CreateTab)),
                Some(NativeShortcutAction::CloseTab) => action matches Some(
                    WorkspaceAction::Workspace(CommonAction::CloseTab { tab }),
                ) && tab@ == snapshot.active_tab@,
                _ => action is None,
            },
        },
    }
}

/// The workspace request that the key `code`, named `name`, makes with these
/// modifiers.
pub fn workspace_key_action(
    platform: NativePlatform,
    code: KeyCode,
    name: &str,
    m: crate::shortcuts::Modifiers,
    snapshot: &Snapshot,
    terminal_focused: bool,
) -> (action: Option<WorkspaceAction>)
    ensures
        is_workspace_key_action(action, platform, code, name@, m, *snapshot, terminal_focused),
{
    match tab_shortcut_index(platform, code, m) {
        Some(i) => if i < snapshot.tabs.len() {
            Some(WorkspaceAction::Workspace(CommonAction::FocusId(snapshot.tabs[i].id.clone())))
        } else {
            None
        },
        None => match popup_shortcut(name, m, snapshot, terminal_focused) {
            Some(action) => Some(action),
            None => match workspace_shortcut(platform, code, m, snapshot.active_tab.as_str()) {
                Some(action) => Some(WorkspaceAction::Workspace(action)),
                None => None,
            },
        },
    }
}

/// What the workspace chrome does with a key transition.
#[derive(Clone, Debug, PartialEq, Eq)]
pub enum WorkspaceKey {
    /// The key is not the chrome's: it goes on to the terminal.
    Unhandled,
    /// The chrome takes the key and does nothing with it.
    Taken,
    /// Move the workspace focus here.
    Focus(WorkspaceFocus),
    /// Send this request to Eon.
    Queue(WorkspaceAction),
    /// Move along the focused chrome in this direction.
    Traverse(WorkspaceDirection),
}

/// The chrome's decision. An unidentified key is taken while the chrome has focus.
/// A recognized key (the fixed focus-cycling or return shortcut, a tab position,
/// or any workspace request) is captured; on a press it cycles the focus, gives it
/// back to the terminal, or sends the request once presentation is current and the
/// request may be sent on this press. Other keys go to the terminal while it has
/// focus; in the chrome, arrows move along it and everything else is taken.
pub open spec fn spec_workspace_key(
    v: crate::input::InputView,
    key: u64,
    identified: bool,
    state: ElementState,
    repeat: bool,
    focus: WorkspaceFocus,
    fixed: Option<NativeShortcutAction>,
    tab_shortcut: bool,
    action: Option<WorkspaceAction>,
    has_panes: bool,
    presented: bool,
) -> (crate::input::InputView, WorkspaceKey) {
    if !identified {
        (v, if focus != WorkspaceFocus::Terminal { WorkspaceKey::Taken } else { WorkspaceKey::Unhandled })
    } else {
        let cycles = fixed == Some(NativeShortcutAction::CycleFocus);
        let to_terminal = fixed == Some(NativeShortcutAction::ReturnToTerminal) && focus != WorkspaceFocus::Terminal;
        let recognized = cycles || to_terminal || tab_shortcut || action is Some;
        let (after, consumed) = spec_consume(v, key, state, repeat, recognized);
        let outcome = if consumed {
            if state != ElementState::Pressed {
                WorkspaceKey::Taken
            } else if cycles && !repeat {
                WorkspaceKey::Focus(spec_cycle_workspace_focus(focus, has_panes))
            } else if to_terminal {
                WorkspaceKey::Focus(WorkspaceFocus::Terminal)
            } else if action is Some && (!repeat || action->0 matches WorkspaceAction::Workspace(CommonAction::Focus(_)))
                && presented {
                WorkspaceKey::Queue(action->0)
            } else {
                WorkspaceKey::Taken
            }
        } else if focus == WorkspaceFocus::Terminal {
            WorkspaceKey::Unhandled
        } else if state == ElementState::Pressed && spec_chrome_direction(focus, fixed) is Some {
            WorkspaceKey::Traverse(spec_chrome_direction(focus, fixed)->0)
        } else {
            WorkspaceKey::Taken
        };
        (after, outcome)
    }
}

/// Offer a key transition to the workspace chrome. `fixed` is the key's action in
/// the fixed shortcut table, `tab_shortcut` whether it focuses a tab by position,
/// and `action` the workspace request it makes (see `workspace_key_action`).
pub fn workspace_key(
    input: &mut InputState,
    key: u64,
    identified: bool,
    state: ElementState,
    repeat: bool,
    focus: WorkspaceFocus,
    fixed: Option<NativeShortcutAction>,
    tab_shortcut: bool,
    action: Option<WorkspaceAction>,
    has_panes: bool,
    presented: bool,
) -> (outcome: WorkspaceKey)
    ensures
        (final(input)@, outcome) == spec_workspace_key(
            old(input)@,
            key,
            identified,
            state,
            repeat,
            focus,
            fixed,
            tab_shortcut,
            action,
            has_panes,
            presented,
        ),
{
    if !identified {
        return if focus != WorkspaceFocus::Terminal { WorkspaceKey::Taken } else { WorkspaceKey::Unhandled };
    }
    let cycles = fixed == Some(NativeShortcutAction::CycleFocus);
    let to_terminal = fixed == Some(NativeShortcutAction::ReturnToTerminal) && focus != WorkspaceFocus::Terminal;
    let recognized = cycles || to_terminal || tab_shortcut || action.is_some();
    if input.consumes_shortcut(key, state, repeat, recognized) {
        if state != ElementState::Pressed {
            WorkspaceKey::Taken
        } else if cycles && !repeat {
            WorkspaceKey::Focus(cycle_workspace_focus(focus, has_panes))
        } else if to_terminal {
            WorkspaceKey::Focus(WorkspaceFocus::Terminal)
        } else {
            match action {
                Some(action) => {
                    let sends = !repeat || match &action {
                        WorkspaceAction::Workspace(CommonAction::Focus(_)) => true,
                        _ => false,
                    };
                    if sends && presented {
                        WorkspaceKey::Queue(action)
                    } else {
                        WorkspaceKey::Taken
                    }
                },
                None => WorkspaceKey::Taken,
            }
        }
    } else if focus == WorkspaceFocus::Terminal {
        WorkspaceKey::Unhandled
    } else if state == ElementState::Pressed {
        match chrome_direction(focus, fixed) {
            Some(direction) => WorkspaceKey::Traverse(direction),
            None => WorkspaceKey::Taken,
        }
    } else {
        WorkspaceKey::Taken
    }
}

} // verus!
