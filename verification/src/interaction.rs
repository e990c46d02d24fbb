//! Which native input reaches the terminal, the workspace chrome or Venus itself.

use vstd::prelude::*;
use crate::model::LocalNoticeSource;
use crate::shortcuts::{NativeShortcutAction, WorkspaceDirection};
use crate::workspace::{CommonAction, WorkspaceFocus};

verus! {

/// A key or button transition.
#[derive(Clone, Copy, Debug, PartialEq, Eq, Structural)]
pub enum ElementState {
    Pressed,
    Released,
}

/// A shortcut acts on a fresh press, not on a repeat or a release.
pub fn shortcut_is_ready(state: ElementState, repeat: bool) -> (ready: bool)
    ensures
        ready == (state == ElementState::Pressed && !repeat),
{
    state == ElementState::Pressed && !repeat
}

/// Copy waits until a selection gesture has finished.
pub fn copy_is_ready(selecting: bool, state: ElementState, repeat: bool) -> (ready: bool)
    ensures
        ready == (!selecting && state == ElementState::Pressed && !repeat),
{
    !selecting && shortcut_is_ready(state, repeat)
}

/// Only a mouse event may follow the resize it implicitly caused.
pub fn can_follow_implicit_resize(is_mouse: bool) -> (follows: bool)
    ensures
        follows == is_mouse,
{
    is_mouse
}

/// Input notices also retire a clipboard result; resize notices do not.
pub fn dismisses_clipboard_notice(source: LocalNoticeSource) -> (dismisses: bool)
    ensures
        dismisses == (source == LocalNoticeSource::Input),
{
    source == LocalNoticeSource::Input
}

/// The terminal has keyboard focus when the window does and the workspace chrome
/// does not.
pub fn terminal_focused(window_focused: bool, focus: WorkspaceFocus) -> (focused: bool)
    ensures
        focused == (window_focused && focus == WorkspaceFocus::Terminal),
{
    window_focused && focus == WorkspaceFocus::Terminal
}

/// The input method is enabled for a focused terminal of an attached session.
pub fn ime_allowed(window_focused: bool, focus: WorkspaceFocus, attached: bool) -> (allowed: bool)
    ensures
        allowed == (attached && window_focused && focus == WorkspaceFocus::Terminal),
{
    attached && terminal_focused(window_focused, focus)
}

/// Input method events reach the terminal while allowed; disabling always does, so
/// that composition state is cleaned up.
pub fn ime_reaches_terminal(allowed: bool, disabled: bool) -> (reaches: bool)
    ensures
        reaches == (allowed || disabled),
{
    allowed || disabled
}

/// A release always reaches the terminal so presses stay paired; a press reaches it
/// on a current presentation, and in a workspace only over the terminal.
pub fn button_reaches_terminal(workspace: bool, terminal_hit: bool, state: ElementState, presentation_current: bool) -> (reaches: bool)
    ensures
        reaches == (state == ElementState::Released || (presentation_current && (!workspace || terminal_hit))),
{
    state == ElementState::Released || (presentation_current && (!workspace || terminal_hit))
}

/// A workspace header button.
#[derive(Clone, Copy, Debug, PartialEq, Eq, Structural)]
pub enum WorkspaceHeaderControl {
    NewTab,
    Shortcuts,
    CloseTab,
}

/// Accessible action routed back through Venus and Eon semantics.
#[derive(Clone, Debug, PartialEq, Eq)]
pub enum AccessibilityTarget {
    Terminal,
    Tab(String),
    Pane(String),
    HeaderControl { control: WorkspaceHeaderControl, activate: bool },
    Link { row: u16, column: u16, copy: bool },
}

/// What an accessible action stands for, as values.
pub enum AccessibilityTargetView {
    Terminal,
    Tab(Seq<char>),
    Pane(Seq<char>),
    HeaderControl { control: WorkspaceHeaderControl, activate: bool },
    Link { row: u16, column: u16, copy: bool },
}

impl View for AccessibilityTarget {
    type V = AccessibilityTargetView;

    open spec fn view(&self) -> AccessibilityTargetView {
        match self {
            AccessibilityTarget::Terminal => AccessibilityTargetView::Terminal,
            AccessibilityTarget::Tab(id) => AccessibilityTargetView::Tab(id@),
            AccessibilityTarget::Pane(id) => AccessibilityTargetView::Pane(id@),
            AccessibilityTarget::HeaderControl { control, activate } => AccessibilityTargetView::HeaderControl {
                control: *control,
                activate: *activate,
            },
            AccessibilityTarget::Link { row, column, copy } => AccessibilityTargetView::Link { row: *row, column: *column, copy: *copy },
        }
    }
}

/// The focus that an accessible activation moves to. The terminal takes focus at
/// once; a tab or pane only once Eon admitted the request to focus it, which `queue`
/// submits and reports; links and header buttons move no focus.
pub fn accessibility_workspace_focus<F: FnOnce(CommonAction) -> bool>(target: AccessibilityTarget, queue: F) -> (focus: Option<WorkspaceFocus>)
    requires
        forall|action: CommonAction| call_requires(queue, (action,)),
    ensures
        match target {
            AccessibilityTarget::Terminal => focus == Some(WorkspaceFocus::Terminal),
            AccessibilityTarget::Tab(id) => exists|admitted: bool| call_ensures(queue, (CommonAction::FocusId(id),), admitted)
                && focus == (if admitted { Some(WorkspaceFocus::Tabs) } else { None }),
            AccessibilityTarget::Pane(id) => exists|admitted: bool| call_ensures(queue, (CommonAction::FocusId(id),), admitted)
                && focus == (if admitted { Some(WorkspaceFocus::Panes) } else { None }),
            _ => focus is None,
        },
{
    let (focus, id) = match target {
        AccessibilityTarget::Terminal => return Some(WorkspaceFocus::Terminal),
        AccessibilityTarget::Tab(id) => (WorkspaceFocus::Tabs, id),
        AccessibilityTarget::Pane(id) => (WorkspaceFocus::Panes, id),
        _ => return None,
    };
    let admitted = queue(CommonAction::FocusId(id));
    if admitted { Some(focus) } else { None }
}

pub open spec fn spec_cycle_workspace_focus(focus: WorkspaceFocus, has_panes: bool) -> WorkspaceFocus {
    match focus {
        WorkspaceFocus::Terminal => WorkspaceFocus::Tabs,
        WorkspaceFocus::Tabs => if has_panes { WorkspaceFocus::Panes } else { WorkspaceFocus::Terminal },
        WorkspaceFocus::Panes => WorkspaceFocus::Terminal,
    }
}

/// Focus cycles from the terminal to the tabs, to the panes where the active tab
/// shows any, and back to the terminal.
pub fn cycle_workspace_focus(focus: WorkspaceFocus, has_panes: bool) -> (next: WorkspaceFocus)
    ensures
        next == spec_cycle_workspace_focus(focus, has_panes),
{
    match focus {
        WorkspaceFocus::Terminal => WorkspaceFocus::Tabs,
        WorkspaceFocus::Tabs => if has_panes { WorkspaceFocus::Panes } else { WorkspaceFocus::Terminal },
        WorkspaceFocus::Panes => WorkspaceFocus::Terminal,
    }
}

pub open spec fn spec_chrome_direction(focus: WorkspaceFocus, action: Option<NativeShortcutAction>) -> Option<WorkspaceDirection> {
    match action {
        Some(NativeShortcutAction::TraverseChrome(direction)) => match focus {
            WorkspaceFocus::Tabs => if direction == WorkspaceDirection::Left || direction == WorkspaceDirection::Right {
                Some(direction)
            } else {
                None
            },
            WorkspaceFocus::Panes => if direction == WorkspaceDirection::Up || direction == WorkspaceDirection::Down {
                Some(direction)
            } else {
                None
            },
            WorkspaceFocus::Terminal => None,
        },
        _ => None,
    }
}

/// Arrow keys move along the focused workspace chrome: left and right among tabs,
/// up and down among panes.
pub fn chrome_direction(focus: WorkspaceFocus, action: Option<NativeShortcutAction>) -> (direction: Option<WorkspaceDirection>)
    ensures
        direction == spec_chrome_direction(focus, action),
{
    match action {
        Some(NativeShortcutAction::TraverseChrome(direction)) => match focus {
            WorkspaceFocus::Tabs => if direction == WorkspaceDirection::Left || direction == WorkspaceDirection::Right {
                Some(direction)
            } else {
                None
            },
            WorkspaceFocus::Panes => if direction == WorkspaceDirection::Up || direction == WorkspaceDirection::Down {
                Some(direction)
            } else {
                None
            },
            WorkspaceFocus::Terminal => None,
        },
        _ => None,
    }
}

} // verus!
