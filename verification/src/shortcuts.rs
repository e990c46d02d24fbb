//! Native shortcuts: the fixed table, how key presses match it, and how shortcuts
//! are labelled for the user on each platform.

use vstd::prelude::*;
use crate::platform::NativePlatform;
use crate::workspace::{find_tab, CommonAction, InvokeIntent, Popup, PopupEntry, Snapshot, WorkspaceAction, tab_index};
use crate::text::{push_escaped, escape_default, str_eq};
use vstd::string::StringExecFns;
use vstd::string::StrSliceExecFns;

verus! {

/// Native modifier keys as a bit set.
#[derive(Clone, Copy, Debug, PartialEq, Eq, Structural)]
pub struct Modifiers {
    pub bits: u8,
}

pub const SHIFT: u8 = 0x01;
pub const CTRL: u8 = 0x02;
pub const ALT: u8 = 0x04;
pub const SUPER: u8 = 0x08;

/// Modifier bits of Eon workspace shortcuts.
pub const WIRE_CTRL: u8 = 0x01;
pub const WIRE_ALT: u8 = 0x02;
pub const WIRE_SHIFT: u8 = 0x04;
pub const WIRE_SUPER: u8 = 0x08;

pub open spec fn modifiers(bits: u8) -> Modifiers {
    Modifiers { bits }
}

/// A physical key, as far as shortcuts distinguish keys.
#[derive(Clone, Copy, Debug, PartialEq, Eq, Structural)]
pub enum KeyCode {
    Digit0,
    Digit1,
    Digit2,
    Digit3,
    Digit4,
    Digit5,
    Digit6,
    Digit7,
    Digit8,
    Digit9,
    KeyC,
    KeyH,
    KeyJ,
    KeyK,
    KeyL,
    KeyM,
    KeyT,
    KeyV,
    KeyW,
    F6,
    Escape,
    ArrowLeft,
    ArrowRight,
    ArrowUp,
    ArrowDown,
    Slash,
    Paste,
    PageUp,
    PageDown,
    Home,
    End,
    /// Any other key, identified or not.
    Other,
}

/// A direction in the Eon workspace.
#[derive(Clone, Copy, Debug, PartialEq, Eq, Structural)]
pub enum WorkspaceDirection {
    Left,
    Right,
    Up,
    Down,
}

/// What a native shortcut does.
#[derive(Clone, Copy, Debug, PartialEq, Eq, Structural)]
pub enum NativeShortcutAction {
    ToggleViewer,
    FocusTabPosition,
    Focus(WorkspaceDirection),
    Move(WorkspaceDirection),
    CreatePane,
    CreateTab,
    CloseTab,
    CycleFocus,
    ReturnToTerminal,
    TraverseChrome(WorkspaceDirection),
    Copy,
    Paste,
    OpenLink,
}

/// What triggers a native shortcut.
#[derive(Clone, Copy, Debug, PartialEq, Eq, Structural)]
pub enum NativeShortcutTrigger {
    Key(KeyCode, Modifiers),
    AltDigits,
    Copy,
    Paste,
    OpenLink,
}

/// One row of the fixed shortcut table.
#[derive(Clone, Copy, Debug, PartialEq, Eq)]
pub struct NativeShortcut {
    pub group: &'static str,
    pub label: &'static str,
    pub trigger: NativeShortcutTrigger,
    pub action: NativeShortcutAction,
}

/// Rows in the fixed shortcut table.
pub const FIXED_SHORTCUT_COUNT: usize = 22;

/// The trigger and action of row `i` of the fixed table.
pub open spec fn fixed_row(i: int) -> (NativeShortcutTrigger, NativeShortcutAction) {
    let alt = Modifiers { bits: ALT };
    let none = Modifiers { bits: 0 };
    let alt_shift = Modifiers { bits: ALT | SHIFT };
    let ctrl_alt = Modifiers { bits: CTRL | ALT };
    if i == 0 { (NativeShortcutTrigger::AltDigits, NativeShortcutAction::FocusTabPosition) }
    else if i == 1 { (NativeShortcutTrigger::Key(KeyCode::KeyH, alt), NativeShortcutAction::Focus(WorkspaceDirection::Left)) }
    else if i == 2 { (NativeShortcutTrigger::Key(KeyCode::KeyL, alt), NativeShortcutAction::Focus(WorkspaceDirection::Right)) }
    else if i == 3 { (NativeShortcutTrigger::Key(KeyCode::KeyK, alt), NativeShortcutAction::Focus(WorkspaceDirection::Up)) }
    else if i == 4 { (NativeShortcutTrigger::Key(KeyCode::KeyJ, alt), NativeShortcutAction::Focus(WorkspaceDirection::Down)) }
    else if i == 5 { (NativeShortcutTrigger::Key(KeyCode::F6, none), NativeShortcutAction::CycleFocus) }
    else if i == 6 { (NativeShortcutTrigger::Key(KeyCode::Escape, none), NativeShortcutAction::ReturnToTerminal) }
    else if i == 7 { (NativeShortcutTrigger::Key(KeyCode::ArrowLeft, none), NativeShortcutAction::TraverseChrome(WorkspaceDirection::Left)) }
    else if i == 8 { (NativeShortcutTrigger::Key(KeyCode::ArrowRight, none), NativeShortcutAction::TraverseChrome(WorkspaceDirection::Right)) }
    else if i == 9 { (NativeShortcutTrigger::Key(KeyCode::ArrowUp, none), NativeShortcutAction::TraverseChrome(WorkspaceDirection::Up)) }
    else if i == 10 { (NativeShortcutTrigger::Key(KeyCode::ArrowDown, none), NativeShortcutAction::TraverseChrome(WorkspaceDirection::Down)) }
    else if i == 11 { (NativeShortcutTrigger::Key(KeyCode::KeyM, alt), NativeShortcutAction::CreatePane) }
    else if i == 12 { (NativeShortcutTrigger::Key(KeyCode::KeyT, alt_shift), NativeShortcutAction::CreateTab) }
    else if i == 13 { (NativeShortcutTrigger::Key(KeyCode::KeyW, alt_shift), NativeShortcutAction::CloseTab) }
    else if i == 14 { (NativeShortcutTrigger::Key(KeyCode::KeyH, ctrl_alt), NativeShortcutAction::Move(WorkspaceDirection::Left)) }
    else if i == 15 { (NativeShortcutTrigger::Key(KeyCode::KeyL, ctrl_alt), NativeShortcutAction::Move(WorkspaceDirection::Right)) }
    else if i == 16 { (NativeShortcutTrigger::Key(KeyCode::KeyK, ctrl_alt), NativeShortcutAction::Move(WorkspaceDirection::Up)) }
    else if i == 17 { (NativeShortcutTrigger::Key(KeyCode::KeyJ, ctrl_alt), NativeShortcutAction::Move(WorkspaceDirection::Down)) }
    else if i == 18 { (NativeShortcutTrigger::Key(KeyCode::Slash, alt), NativeShortcutAction::ToggleViewer) }
    else if i == 19 { (NativeShortcutTrigger::Copy, NativeShortcutAction::Copy) }
    else if i == 20 { (NativeShortcutTrigger::Paste, NativeShortcutAction::Paste) }
    else { (NativeShortcutTrigger::OpenLink, NativeShortcutAction::OpenLink) }
}

/// The group and the description of row `i` of the fixed table.
pub open spec fn fixed_text(i: int) -> (Seq<char>, Seq<char>) {
    if i == 0 { ("Navigate"@, "Focus tab by position"@) }
    else if i == 1 { ("Navigate"@, "Focus previous tab"@) }
    else if i == 2 { ("Navigate"@, "Focus next tab"@) }
    else if i == 3 { ("Navigate"@, "Focus pane above"@) }
    else if i == 4 { ("Navigate"@, "Focus pane below"@) }
    else if i == 5 { ("Navigate"@, "Cycle terminal, tabs, and panes"@) }
    else if i == 6 { ("Navigate"@, "Return focus to the terminal"@) }
    else if i == 7 { ("Navigate"@, "Previous tab while tabs are focused"@) }
    else if i == 8 { ("Navigate"@, "Next tab while tabs are focused"@) }
    else if i == 9 { ("Navigate"@, "Previous pane while panes are focused"@) }
    else if i == 10 { ("Navigate"@, "Next pane while panes are focused"@) }
    else if i == 11 { ("Tabs and panes"@, "Create pane"@) }
    else if i == 12 { ("Tabs and panes"@, "Create tab"@) }
    else if i == 13 { ("Tabs and panes"@, "Close active tab"@) }
    else if i == 14 { ("Tabs and panes"@, "Move tab left"@) }
    else if i == 15 { ("Tabs and panes"@, "Move tab right"@) }
    else if i == 16 { ("Tabs and panes"@, "Move pane up"@) }
    else if i == 17 { ("Tabs and panes"@, "Move pane down"@) }
    else if i == 18 { ("Host"@, "Show or close shortcuts"@) }
    else if i == 19 { ("Host"@, "Copy selected text or focused link"@) }
    else if i == 20 { ("Host"@, "Paste"@) }
    else { ("Host"@, "Open link"@) }
}

/// Row `i` of the fixed shortcut table.
pub fn fixed_shortcut(i: usize) -> (shortcut: NativeShortcut)
    requires
        i < FIXED_SHORTCUT_COUNT,
    ensures
        (shortcut.trigger, shortcut.action) == fixed_row(i as int),
        (shortcut.group@, shortcut.label@) == fixed_text(i as int),
{
    let alt = Modifiers { bits: ALT };
    let none = Modifiers { bits: 0 };
    let alt_shift = Modifiers { bits: ALT | SHIFT };
    let ctrl_alt = Modifiers { bits: CTRL | ALT };
    let (group, label, trigger, action) = if i == 0 {
        ("Navigate", "Focus tab by position", NativeShortcutTrigger::AltDigits, NativeShortcutAction::FocusTabPosition)
    } else if i == 1 {
        ("Navigate", "Focus previous tab", NativeShortcutTrigger::Key(KeyCode::KeyH, alt), NativeShortcutAction::Focus(WorkspaceDirection::Left))
    } else if i == 2 {
        ("Navigate", "Focus next tab", NativeShortcutTrigger::Key(KeyCode::KeyL, alt), NativeShortcutAction::Focus(WorkspaceDirection::Right))
    } else if i == 3 {
        ("Navigate", "Focus pane above", NativeShortcutTrigger::Key(KeyCode::KeyK, alt), NativeShortcutAction::Focus(WorkspaceDirection::Up))
    } else if i == 4 {
        ("Navigate", "Focus pane below", NativeShortcutTrigger::Key(KeyCode::KeyJ, alt), NativeShortcutAction::Focus(WorkspaceDirection::Down))
    } else if i == 5 {
        ("Navigate", "Cycle terminal, tabs, and panes", NativeShortcutTrigger::Key(KeyCode::F6, none), NativeShortcutAction::CycleFocus)
    } else if i == 6 {
        ("Navigate", "Return focus to the terminal", NativeShortcutTrigger::Key(KeyCode::Escape, none), NativeShortcutAction::ReturnToTerminal)
    } else if i == 7 {
        ("Navigate", "Previous tab while tabs are focused", NativeShortcutTrigger::Key(KeyCode::ArrowLeft, none), NativeShortcutAction::TraverseChrome(WorkspaceDirection::Left))
    } else if i == 8 {
        ("Navigate", "Next tab while tabs are focused", NativeShortcutTrigger::Key(KeyCode::ArrowRight, none), NativeShortcutAction::TraverseChrome(WorkspaceDirection::Right))
    } else if i == 9 {
        ("Navigate", "Previous pane while panes are focused", NativeShortcutTrigger::Key(KeyCode::ArrowUp, none), NativeShortcutAction::TraverseChrome(WorkspaceDirection::Up))
    } else if i == 10 {
        ("Navigate", "Next pane while panes are focused", NativeShortcutTrigger::Key(KeyCode::ArrowDown, none), NativeShortcutAction::TraverseChrome(WorkspaceDirection::Down))
    } else if i == 11 {
        ("Tabs and panes", "Create pane", NativeShortcutTrigger::Key(KeyCode::KeyM, alt), NativeShortcutAction::CreatePane)
    } else if i == 12 {
        ("Tabs and panes", "Create tab", NativeShortcutTrigger::Key(KeyCode::KeyT, alt_shift), NativeShortcutAction::CreateTab)
    } else if i == 13 {
        ("Tabs and panes", "Close active tab", NativeShortcutTrigger::Key(KeyCode::KeyW, alt_shift), NativeShortcutAction::CloseTab)
    } else if i == 14 {
        ("Tabs and panes", "Move tab left", NativeShortcutTrigger::Key(KeyCode::KeyH, ctrl_alt), NativeShortcutAction::Move(WorkspaceDirection::Left))
    } else if i == 15 {
        ("Tabs and panes", "Move tab right", NativeShortcutTrigger::Key(KeyCode::KeyL, ctrl_alt), NativeShortcutAction::Move(WorkspaceDirection::Right))
    } else if i == 16 {
        ("Tabs and panes", "Move pane up", NativeShortcutTrigger::Key(KeyCode::KeyK, ctrl_alt), NativeShortcutAction::Move(WorkspaceDirection::Up))
    } else if i == 17 {
        ("Tabs and panes", "Move pane down", NativeShortcutTrigger::Key(KeyCode::KeyJ, ctrl_alt), NativeShortcutAction::Move(WorkspaceDirection::Down))
    } else if i == 18 {
        ("Host", "Show or close shortcuts", NativeShortcutTrigger::Key(KeyCode::Slash, alt), NativeShortcutAction::ToggleViewer)
    } else if i == 19 {
        ("Host", "Copy selected text or focused link", NativeShortcutTrigger::Copy, NativeShortcutAction::Copy)
    } else if i == 20 {
        ("Host", "Paste", NativeShortcutTrigger::Paste, NativeShortcutAction::Paste)
    } else {
        ("Host", "Open link", NativeShortcutTrigger::OpenLink, NativeShortcutAction::OpenLink)
    };
    NativeShortcut { group, label, trigger, action }
}

/// Copy and paste use Ctrl+Shift on Linux and Command on macOS.
pub open spec fn spec_copy_paste_modifiers(platform: NativePlatform) -> Modifiers {
    match platform {
        NativePlatform::Linux => Modifiers { bits: CTRL | SHIFT },
        NativePlatform::Macos => Modifiers { bits: SUPER },
    }
}

pub fn copy_paste_modifiers(platform: NativePlatform) -> (m: Modifiers)
    ensures
        m == spec_copy_paste_modifiers(platform),
{
    match platform {
        NativePlatform::Linux => Modifiers { bits: CTRL | SHIFT },
        NativePlatform::Macos => Modifiers { bits: SUPER },
    }
}

/// Opening a link takes Ctrl on Linux and Command on macOS.
pub open spec fn spec_open_link_modifiers(platform: NativePlatform) -> Modifiers {
    match platform {
        NativePlatform::Linux => Modifiers { bits: CTRL },
        NativePlatform::Macos => Modifiers { bits: SUPER },
    }
}

pub fn open_link_modifiers(platform: NativePlatform) -> (m: Modifiers)
    ensures
        m == spec_open_link_modifiers(platform),
{
    match platform {
        NativePlatform::Linux => Modifiers { bits: CTRL },
        NativePlatform::Macos => Modifiers { bits: SUPER },
    }
}

pub open spec fn is_digit_key(key: KeyCode) -> bool {
    key == KeyCode::Digit0 || key == KeyCode::Digit1 || key == KeyCode::Digit2 || key == KeyCode::Digit3
        || key == KeyCode::Digit4 || key == KeyCode::Digit5 || key == KeyCode::Digit6 || key == KeyCode::Digit7
        || key == KeyCode::Digit8 || key == KeyCode::Digit9
}

/// Whether a key press with these modifiers triggers `trigger`.
pub open spec fn trigger_matches_key(trigger: NativeShortcutTrigger, platform: NativePlatform, key: KeyCode, m: Modifiers) -> bool {
    match trigger {
        NativeShortcutTrigger::Key(code, expected) => key == code && key != KeyCode::Other && m == expected,
        NativeShortcutTrigger::AltDigits => m == Modifiers { bits: ALT } && is_digit_key(key),
        NativeShortcutTrigger::Copy => key == KeyCode::KeyC && m == spec_copy_paste_modifiers(platform),
        NativeShortcutTrigger::Paste => key == KeyCode::Paste || (key == KeyCode::KeyV && m == spec_copy_paste_modifiers(platform)),
        NativeShortcutTrigger::OpenLink => false,
    }
}

fn matches_key(trigger: NativeShortcutTrigger, platform: NativePlatform, key: KeyCode, m: Modifiers) -> (matched: bool)
    ensures
        matched == trigger_matches_key(trigger, platform, key, m),
{
    match trigger {
        NativeShortcutTrigger::Key(code, expected) => key == code && key != KeyCode::Other && m == expected,
        NativeShortcutTrigger::AltDigits => m == Modifiers { bits: ALT } && match key {
            KeyCode::Digit0 | KeyCode::Digit1 | KeyCode::Digit2 | KeyCode::Digit3 | KeyCode::Digit4
            | KeyCode::Digit5 | KeyCode::Digit6 | KeyCode::Digit7 | KeyCode::Digit8 | KeyCode::Digit9 => true,
            _ => false,
        },
        NativeShortcutTrigger::Copy => key == KeyCode::KeyC && m == copy_paste_modifiers(platform),
        NativeShortcutTrigger::Paste => key == KeyCode::Paste || (key == KeyCode::KeyV && m == copy_paste_modifiers(platform)),
        NativeShortcutTrigger::OpenLink => false,
    }
}

/// The first fixed row at or after `from` that a key press triggers, or the row count.
pub open spec fn first_key_match(platform: NativePlatform, key: KeyCode, m: Modifiers, from: int) -> int
    decreases FIXED_SHORTCUT_COUNT - from,
{
    if from < 0 || from >= FIXED_SHORTCUT_COUNT {
        FIXED_SHORTCUT_COUNT as int
    } else if trigger_matches_key(fixed_row(from).0, platform, key, m) {
        from
    } else {
        first_key_match(platform, key, m, from + 1)
    }
}

/// The action of the first fixed shortcut that a key press triggers.
pub open spec fn key_action(platform: NativePlatform, key: KeyCode, m: Modifiers) -> Option<NativeShortcutAction> {
    let i = first_key_match(platform, key, m, 0);
    if i < FIXED_SHORTCUT_COUNT { Some(fixed_row(i).1) } else { None }
}

/// The fixed shortcut that a key press triggers.
pub fn native_key_shortcut_for(platform: NativePlatform, key: KeyCode, m: Modifiers) -> (shortcut: Option<NativeShortcut>)
    ensures
        match key_action(platform, key, m) {
            None => shortcut is None,
            Some(action) => shortcut matches Some(s) && s.action == action
                && s.trigger == fixed_row(first_key_match(platform, key, m, 0)).0,
        },
{
    let mut i: usize = 0;
    while i < FIXED_SHORTCUT_COUNT
        invariant
            i <= FIXED_SHORTCUT_COUNT,
            first_key_match(platform, key, m, 0) == first_key_match(platform, key, m, i as int),
        decreases FIXED_SHORTCUT_COUNT - i,
    {
        let shortcut = fixed_shortcut(i);
        if matches_key(shortcut.trigger, platform, key, m) {
            return Some(shortcut);
        }
        i = i + 1;
    }
    None
}

/// An unmodified arrow key traverses the focused chrome in its own direction, on
/// every platform: Left to the previous tab, Right to the next tab, Up to the
/// previous pane and Down to the next pane.
pub proof fn lemma_arrow_keys_point_their_own_way(platform: NativePlatform)
    ensures
        key_action(platform, KeyCode::ArrowLeft, Modifiers { bits: 0 })
            == Some(NativeShortcutAction::TraverseChrome(WorkspaceDirection::Left)),
        key_action(platform, KeyCode::ArrowRight, Modifiers { bits: 0 })
            == Some(NativeShortcutAction::TraverseChrome(WorkspaceDirection::Right)),
        key_action(platform, KeyCode::ArrowUp, Modifiers { bits: 0 })
            == Some(NativeShortcutAction::TraverseChrome(WorkspaceDirection::Up)),
        key_action(platform, KeyCode::ArrowDown, Modifiers { bits: 0 })
            == Some(NativeShortcutAction::TraverseChrome(WorkspaceDirection::Down)),
{
    reveal_with_fuel(first_key_match, 12);
}

/// The fixed shortcut that a pointer press triggers: only a left click with the
/// platform's link modifiers opens a link.
pub fn native_pointer_shortcut_for(platform: NativePlatform, left_button: bool, m: Modifiers) -> (shortcut: Option<NativeShortcut>)
    ensures
        (left_button && m == spec_open_link_modifiers(platform)) ==> (shortcut matches Some(s)
            && s.action == NativeShortcutAction::OpenLink),
        !(left_button && m == spec_open_link_modifiers(platform)) ==> shortcut is None,
{
    if left_button && m == open_link_modifiers(platform) {
        Some(fixed_shortcut(21))
    } else {
        None
    }
}

/// A copy shortcut copies the focused link only when no text is selected and the
/// link is current.
pub fn link_copy_shortcut(platform: NativePlatform, key: KeyCode, m: Modifiers, selected: bool, current: bool) -> (copy: bool)
    ensures
        copy == (key_action(platform, key, m) == Some(NativeShortcutAction::Copy) && !selected && current),
{
    let copies = match native_key_shortcut_for(platform, key, m) {
        Some(shortcut) => shortcut.action == NativeShortcutAction::Copy,
        None => false,
    };
    copies && !selected && current
}

/// The paste key, or the platform's paste shortcut.
pub fn paste_shortcut(platform: NativePlatform, named_paste: bool, key: KeyCode, m: Modifiers) -> (paste: bool)
    ensures
        paste == (named_paste || key_action(platform, key, m) == Some(NativeShortcutAction::Paste)),
{
    named_paste || match native_key_shortcut_for(platform, key, m) {
        Some(shortcut) => shortcut.action == NativeShortcutAction::Paste,
        None => false,
    }
}

/// What a key does while the shortcut viewer may take keys.
#[derive(Clone, Copy, Debug, PartialEq, Eq, Structural)]
pub enum ShortcutViewerCommand {
    Toggle,
    Close,
    /// Scroll by this many lines (negative: up).
    ScrollLines(i8),
    /// Scroll by this many pages (negative: up).
    ScrollPages(i8),
    Start,
    End,
}

/// The viewer toggles on its shortcut; while open, unmodified navigation keys move
/// through it and Escape closes it.
pub open spec fn spec_shortcut_viewer_command(platform: NativePlatform, open: bool, key: KeyCode, m: Modifiers, repeat: bool) -> Option<ShortcutViewerCommand> {
    if !repeat && key_action(platform, key, m) == Some(NativeShortcutAction::ToggleViewer) {
        Some(ShortcutViewerCommand::Toggle)
    } else if !open || m != (Modifiers { bits: 0 }) {
        None
    } else {
        match key {
            KeyCode::Escape => if !repeat { Some(ShortcutViewerCommand::Close) } else { None },
            KeyCode::ArrowUp => Some(ShortcutViewerCommand::ScrollLines(-1i8)),
            KeyCode::ArrowDown => Some(ShortcutViewerCommand::ScrollLines(1i8)),
            KeyCode::PageUp => Some(ShortcutViewerCommand::ScrollPages(-1i8)),
            KeyCode::PageDown => Some(ShortcutViewerCommand::ScrollPages(1i8)),
            KeyCode::Home => Some(ShortcutViewerCommand::Start),
            KeyCode::End => Some(ShortcutViewerCommand::End),
            _ => None,
        }
    }
}

pub fn shortcut_viewer_command(platform: NativePlatform, open: bool, key: KeyCode, m: Modifiers, repeat: bool) -> (command: Option<ShortcutViewerCommand>)
    ensures
        command == spec_shortcut_viewer_command(platform, open, key, m, repeat),
{
    if !repeat {
        if let Some(shortcut) = native_key_shortcut_for(platform, key, m) {
            if shortcut.action == NativeShortcutAction::ToggleViewer {
                return Some(ShortcutViewerCommand::Toggle);
            }
        }
    }
    if !open || m != (Modifiers { bits: 0 }) {
        return None;
    }
    match key {
        KeyCode::Escape => if !repeat { Some(ShortcutViewerCommand::Close) } else { None },
        KeyCode::ArrowUp => Some(ShortcutViewerCommand::ScrollLines(-1i8)),
        KeyCode::ArrowDown => Some(ShortcutViewerCommand::ScrollLines(1i8)),
        KeyCode::PageUp => Some(ShortcutViewerCommand::ScrollPages(-1i8)),
        KeyCode::PageDown => Some(ShortcutViewerCommand::ScrollPages(1i8)),
        KeyCode::Home => Some(ShortcutViewerCommand::Start),
        KeyCode::End => Some(ShortcutViewerCommand::End),
        _ => None,
    }
}

/// Alt+1 to Alt+9 focus the first nine tabs and Alt+0 the tenth.
pub open spec fn spec_tab_shortcut_index(platform: NativePlatform, key: KeyCode, m: Modifiers) -> Option<usize> {
    if key_action(platform, key, m) != Some(NativeShortcutAction::FocusTabPosition) {
        None
    } else {
        match key {
            KeyCode::Digit1 => Some(0),
            KeyCode::Digit2 => Some(1),
            KeyCode::Digit3 => Some(2),
            KeyCode::Digit4 => Some(3),
            KeyCode::Digit5 => Some(4),
            KeyCode::Digit6 => Some(5),
            KeyCode::Digit7 => Some(6),
            KeyCode::Digit8 => Some(7),
            KeyCode::Digit9 => Some(8),
            KeyCode::Digit0 => Some(9),
            _ => None,
        }
    }
}

pub fn tab_shortcut_index(platform: NativePlatform, key: KeyCode, m: Modifiers) -> (index: Option<usize>)
    ensures
        index == spec_tab_shortcut_index(platform, key, m),
{
    let focuses = match native_key_shortcut_for(platform, key, m) {
        Some(shortcut) => shortcut.action == NativeShortcutAction::FocusTabPosition,
        None => false,
    };
    if !focuses {
        return None;
    }
    match key {
        KeyCode::Digit1 => Some(0),
        KeyCode::Digit2 => Some(1),
        KeyCode::Digit3 => Some(2),
        KeyCode::Digit4 => Some(3),
        KeyCode::Digit5 => Some(4),
        KeyCode::Digit6 => Some(5),
        KeyCode::Digit7 => Some(6),
        KeyCode::Digit8 => Some(7),
        KeyCode::Digit9 => Some(8),
        KeyCode::Digit0 => Some(9),
        _ => None,
    }
}

/// The workspace action of a workspace shortcut; closing applies to the active tab.
pub fn workspace_shortcut(platform: NativePlatform, key: KeyCode, m: Modifiers, active_tab: &str) -> (action: Option<CommonAction>)
    ensures
        match key_action(platform, key, m) {
            Some(NativeShortcutAction::Focus(d)) => action == Some(CommonAction::Focus(d)),
            Some(NativeShortcutAction::Move(d)) => action == Some(CommonAction::Move(d)),
            Some(NativeShortcutAction::CreatePane) => action == Some(CommonAction::CreatePane),
            Some(NativeShortcutAction::CreateTab) => action == Some(CommonAction::CreateTab),
            Some(NativeShortcutAction::CloseTab) => action matches Some(CommonAction::CloseTab { tab }) && tab@ == active_tab@,
            _ => action is None,
        },
{
    let shortcut = match native_key_shortcut_for(platform, key, m) {
        Some(shortcut) => shortcut,
        None => return None,
    };
    match shortcut.action {
        NativeShortcutAction::Focus(d) => Some(CommonAction::Focus(d)),
        NativeShortcutAction::Move(d) => Some(CommonAction::Move(d)),
        NativeShortcutAction::CreatePane => Some(CommonAction::CreatePane),
        NativeShortcutAction::CreateTab => Some(CommonAction::CreateTab),
        NativeShortcutAction::CloseTab => Some(CommonAction::CloseTab { tab: active_tab.to_owned() }),
        _ => None,
    }
}

/// The first entry at or after `from` invoked by `wire` modifiers and the key
/// named `key`, or the entry count.
pub open spec fn find_entry(entries: Seq<PopupEntry>, wire: u8, key: Seq<char>, from: int) -> int
    decreases entries.len() - from,
{
    if from < 0 || from >= entries.len() {
        entries.len() as int
    } else if entries[from].modifiers == wire && entries[from].key@ == key {
        from
    } else {
        find_entry(entries, wire, key, from + 1)
    }
}

/// The first popup at or after `from` that shows the entry `entry`, or the popup count.
pub open spec fn find_instance(popups: Seq<Popup>, entry: Seq<char>, from: int) -> int
    decreases popups.len() - from,
{
    if from < 0 || from >= popups.len() {
        popups.len() as int
    } else if popups[from].entry@ == entry {
        from
    } else {
        find_instance(popups, entry, from + 1)
    }
}

/// The popup request of a key press, given the physical key's name: the first
/// entry whose shortcut is that key with these modifiers, invoked in the active tab and expecting the instance of
/// that entry the tab already holds. From the terminal the popup toggles; from
/// the workspace chrome it only takes focus.
pub open spec fn spec_popup_shortcut(key: Seq<char>, m: Modifiers, snapshot: Snapshot, terminal_focused: bool) -> Option<
    (Seq<char>, Seq<char>, Option<Seq<char>>, InvokeIntent),
> {
    let e = find_entry(snapshot.entries@, spec_wire_modifiers(m), key, 0);
    let t = find_tab(snapshot.tabs@, snapshot.active_tab@, 0);
    if e >= snapshot.entries@.len() || t >= snapshot.tabs@.len() {
        None
    } else {
        let entry = snapshot.entries@[e];
        let tab = snapshot.tabs@[t];
        let i = find_instance(tab.popups@, entry.id@, 0);
        Some((
            tab.id@,
            entry.id@,
            if i < tab.popups@.len() { Some(tab.popups@[i].id@) } else { None },
            if terminal_focused { InvokeIntent::Toggle } else { InvokeIntent::Focus },
        ))
    }
}

fn entry_index(entries: &Vec<PopupEntry>, wire: u8, key: &str) -> (index: usize)
    ensures
        index as int == find_entry(entries@, wire, key@, 0),
{
    let mut e: usize = 0;
    while e < entries.len()
        invariant
            e <= entries@.len(),
            find_entry(entries@, wire, key@, 0) == find_entry(entries@, wire, key@, e as int),
        decreases entries@.len() - e,
    {
        if entries[e].modifiers == wire && str_eq(entries[e].key.as_str(), key) {
            return e;
        }
        e = e + 1;
    }
    e
}

fn instance_index(popups: &Vec<Popup>, entry: &str) -> (index: usize)
    ensures
        index as int == find_instance(popups@, entry@, 0),
{
    let mut i: usize = 0;
    while i < popups.len()
        invariant
            i <= popups@.len(),
            find_instance(popups@, entry@, 0) == find_instance(popups@, entry@, i as int),
        decreases popups@.len() - i,
    {
        if str_eq(popups[i].entry.as_str(), entry) {
            return i;
        }
        i = i + 1;
    }
    i
}

/// The popup that a press of the key named `key` invokes, if its shortcut
/// belongs to an entry.
pub fn popup_shortcut(key: &str, m: Modifiers, snapshot: &Snapshot, terminal_focused: bool) -> (action: Option<WorkspaceAction>)
    ensures
        match spec_popup_shortcut(key@, m, *snapshot, terminal_focused) {
            None => action is None,
            Some((tab, entry, instance, intent)) => action matches Some(WorkspaceAction::InvokePopup {
                tab: t,
                entry: e,
                expected_instance: i,
                intent: n,
            }) && t@ == tab && e@ == entry && n == intent && match i {
                Some(i) => instance == Some(i@),
                None => instance is None,
            },
        },
{
    let e = entry_index(&snapshot.entries, wire_modifiers(m), key);
    let t = tab_index(&snapshot.tabs, snapshot.active_tab.as_str());
    if e >= snapshot.entries.len() || t >= snapshot.tabs.len() {
        return None;
    }
    let entry = &snapshot.entries[e];
    let tab = &snapshot.tabs[t];
    let i = instance_index(&tab.popups, entry.id.as_str());
    let expected_instance = if i < tab.popups.len() { Some(tab.popups[i].id.clone()) } else { None };
    Some(WorkspaceAction::InvokePopup {
        tab: tab.id.clone(),
        entry: entry.id.clone(),
        expected_instance,
        intent: if terminal_focused { InvokeIntent::Toggle } else { InvokeIntent::Focus },
    })
}

/// A workspace shortcut is sent on a press; a held focus shortcut repeats.
pub fn sends_workspace_shortcut(action: &WorkspaceAction, pressed: bool, repeat: bool) -> (sends: bool)
    ensures
        sends == (pressed && (!repeat || *action matches WorkspaceAction::Workspace(CommonAction::Focus(_)))),
{
    pressed && (!repeat || match action {
        WorkspaceAction::Workspace(CommonAction::Focus(_)) => true,
        _ => false,
    })
}

/// The name of a key as the workspace protocol and the key table write it.
pub open spec fn key_name(key: KeyCode) -> Seq<char> {
    match key {
        KeyCode::Digit0 => "Digit0"@,
        KeyCode::Digit1 => "Digit1"@,
        KeyCode::Digit2 => "Digit2"@,
        KeyCode::Digit3 => "Digit3"@,
        KeyCode::Digit4 => "Digit4"@,
        KeyCode::Digit5 => "Digit5"@,
        KeyCode::Digit6 => "Digit6"@,
        KeyCode::Digit7 => "Digit7"@,
        KeyCode::Digit8 => "Digit8"@,
        KeyCode::Digit9 => "Digit9"@,
        KeyCode::KeyC => "KeyC"@,
        KeyCode::KeyH => "KeyH"@,
        KeyCode::KeyJ => "KeyJ"@,
        KeyCode::KeyK => "KeyK"@,
        KeyCode::KeyL => "KeyL"@,
        KeyCode::KeyM => "KeyM"@,
        KeyCode::KeyT => "KeyT"@,
        KeyCode::KeyV => "KeyV"@,
        KeyCode::KeyW => "KeyW"@,
        KeyCode::F6 => "F6"@,
        KeyCode::Escape => "Escape"@,
        KeyCode::ArrowLeft => "ArrowLeft"@,
        KeyCode::ArrowRight => "ArrowRight"@,
        KeyCode::ArrowUp => "ArrowUp"@,
        KeyCode::ArrowDown => "ArrowDown"@,
        KeyCode::Slash => "Slash"@,
        KeyCode::Paste => "Paste"@,
        KeyCode::PageUp => "PageUp"@,
        KeyCode::PageDown => "PageDown"@,
        KeyCode::Home => "Home"@,
        KeyCode::End => "End"@,
        KeyCode::Other => "Unidentified"@,
    }
}

impl KeyCode {
    /// The name of this key.
    pub fn name(self) -> (name: &'static str)
        ensures
            name@ == key_name(self),
    {
        match self {
            KeyCode::Digit0 => "Digit0",
            KeyCode::Digit1 => "Digit1",
            KeyCode::Digit2 => "Digit2",
            KeyCode::Digit3 => "Digit3",
            KeyCode::Digit4 => "Digit4",
            KeyCode::Digit5 => "Digit5",
            KeyCode::Digit6 => "Digit6",
            KeyCode::Digit7 => "Digit7",
            KeyCode::Digit8 => "Digit8",
            KeyCode::Digit9 => "Digit9",
            KeyCode::KeyC => "KeyC",
            KeyCode::KeyH => "KeyH",
            KeyCode::KeyJ => "KeyJ",
            KeyCode::KeyK => "KeyK",
            KeyCode::KeyL => "KeyL",
            KeyCode::KeyM => "KeyM",
            KeyCode::KeyT => "KeyT",
            KeyCode::KeyV => "KeyV",
            KeyCode::KeyW => "KeyW",
            KeyCode::F6 => "F6",
            KeyCode::Escape => "Escape",
            KeyCode::ArrowLeft => "ArrowLeft",
            KeyCode::ArrowRight => "ArrowRight",
            KeyCode::ArrowUp => "ArrowUp",
            KeyCode::ArrowDown => "ArrowDown",
            KeyCode::Slash => "Slash",
            KeyCode::Paste => "Paste",
            KeyCode::PageUp => "PageUp",
            KeyCode::PageDown => "PageDown",
            KeyCode::Home => "Home",
            KeyCode::End => "End",
            KeyCode::Other => "Unidentified",
        }
    }
}

/// How a key name reads in a shortcut label: letters and digits without their
/// `Key`/`Digit` prefix, arrows by direction, punctuation as its character.
pub open spec fn key_label(key: Seq<char>) -> Seq<char> {
    if key.len() >= 3 && key[0] == 'K' && key[1] == 'e' && key[2] == 'y' {
        key.skip(3)
    } else if key.len() >= 5 && key[0] == 'D' && key[1] == 'i' && key[2] == 'g' && key[3] == 'i' && key[4] == 't' {
        key.skip(5)
    } else if key == "ArrowLeft"@ {
        "Left"@
    } else if key == "ArrowRight"@ {
        "Right"@
    } else if key == "ArrowUp"@ {
        "Up"@
    } else if key == "ArrowDown"@ {
        "Down"@
    } else if key == "Backquote"@ {
        "`"@
    } else if key == "Backslash"@ {
        "\\"@
    } else if key == "BracketLeft"@ {
        "["@
    } else if key == "BracketRight"@ {
        "]"@
    } else if key == "Comma"@ {
        ","@
    } else if key == "Equal"@ {
        "="@
    } else if key == "Minus"@ {
        "-"@
    } else if key == "Period"@ {
        "."@
    } else if key == "Quote"@ {
        "'"@
    } else if key == "Semicolon"@ {
        ";"@
    } else if key == "Slash"@ {
        "/"@
    } else {
        key
    }
}

fn push_key_label(out: &mut String, key: &str)
    ensures
        final(out)@ == old(out)@ + key_label(key@),
{
    let length = key.unicode_len();
    if length >= 3 && key.get_char(0) == 'K' && key.get_char(1) == 'e' && key.get_char(2) == 'y' {
        out.append(key.substring_char(3, length));
    } else if length >= 5 && key.get_char(0) == 'D' && key.get_char(1) == 'i' && key.get_char(2) == 'g'
        && key.get_char(3) == 'i' && key.get_char(4) == 't' {
        out.append(key.substring_char(5, length));
    } else if str_eq(key, "ArrowLeft") {
        out.append("Left");
    } else if str_eq(key, "ArrowRight") {
        out.append("Right");
    } else if str_eq(key, "ArrowUp") {
        out.append("Up");
    } else if str_eq(key, "ArrowDown") {
        out.append("Down");
    } else if str_eq(key, "Backquote") {
        out.append("`");
    } else if str_eq(key, "Backslash") {
        out.append("\\");
    } else if str_eq(key, "BracketLeft") {
        out.append("[");
    } else if str_eq(key, "BracketRight") {
        out.append("]");
    } else if str_eq(key, "Comma") {
        out.append(",");
    } else if str_eq(key, "Equal") {
        out.append("=");
    } else if str_eq(key, "Minus") {
        out.append("-");
    } else if str_eq(key, "Period") {
        out.append(".");
    } else if str_eq(key, "Quote") {
        out.append("'");
    } else if str_eq(key, "Semicolon") {
        out.append(";");
    } else if str_eq(key, "Slash") {
        out.append("/");
    } else {
        out.append(key);
    }
}

/// The four modifier names of a platform, in label order: Ctrl, Alt, Shift, Super.
pub open spec fn modifier_name(platform: NativePlatform, i: int) -> Seq<char> {
    match platform {
        NativePlatform::Linux => if i == 0 { "Ctrl"@ } else if i == 1 { "Alt"@ } else if i == 2 { "Shift"@ } else { "Super"@ },
        NativePlatform::Macos => if i == 0 { "Control"@ } else if i == 1 { "Option"@ } else if i == 2 { "Shift"@ } else { "Command"@ },
    }
}

/// Each held modifier's name followed by `+`, in label order.
pub open spec fn modifier_prefix(platform: NativePlatform, wire: u8) -> Seq<char> {
    (if wire & WIRE_CTRL != 0 { modifier_name(platform, 0) + "+"@ } else { Seq::empty() })
        + (if wire & WIRE_ALT != 0 { modifier_name(platform, 1) + "+"@ } else { Seq::empty() })
        + (if wire & WIRE_SHIFT != 0 { modifier_name(platform, 2) + "+"@ } else { Seq::empty() })
        + (if wire & WIRE_SUPER != 0 { modifier_name(platform, 3) + "+"@ } else { Seq::empty() })
}

/// A shortcut as the user reads it: held modifiers, then the key, joined by `+`.
pub open spec fn shortcut_label(platform: NativePlatform, wire: u8, key: Seq<char>) -> Seq<char> {
    modifier_prefix(platform, wire) + key_label(key)
}

fn push_modifier(out: &mut String, platform: NativePlatform, i: u8)
    requires
        i < 4,
    ensures
        final(out)@ == old(out)@ + modifier_name(platform, i as int) + "+"@,
{
    let name = match platform {
        NativePlatform::Linux => if i == 0 { "Ctrl" } else if i == 1 { "Alt" } else if i == 2 { "Shift" } else { "Super" },
        NativePlatform::Macos => if i == 0 { "Control" } else if i == 1 { "Option" } else if i == 2 { "Shift" } else { "Command" },
    };
    out.append(name);
    out.append("+");
}

fn push_modifier_if(out: &mut String, platform: NativePlatform, held: bool, i: u8)
    requires
        i < 4,
    ensures
        final(out)@ == old(out)@ + (if held { modifier_name(platform, i as int) + "+"@ } else { Seq::empty() }),
{
    if held {
        push_modifier(out, platform, i);
    } else {
        assert(old(out)@ + Seq::<char>::empty() =~= old(out)@);
    }
}

/// Label a shortcut given by workspace modifier bits and a key name.
pub fn physical_shortcut_label_for(platform: NativePlatform, wire: u8, key: &str) -> (label: String)
    ensures
        label@ == shortcut_label(platform, wire, key@),
{
    let mut label = String::new();
    push_modifier_if(&mut label, platform, wire & WIRE_CTRL != 0, 0);
    push_modifier_if(&mut label, platform, wire & WIRE_ALT != 0, 1);
    push_modifier_if(&mut label, platform, wire & WIRE_SHIFT != 0, 2);
    push_modifier_if(&mut label, platform, wire & WIRE_SUPER != 0, 3);
    assert(label@ =~= modifier_prefix(platform, wire));
    push_key_label(&mut label, key);
    label
}

/// The workspace modifier bits of native modifiers.
pub open spec fn spec_wire_modifiers(m: Modifiers) -> u8 {
    ((if m.bits & SHIFT != 0 { WIRE_SHIFT } else { 0u8 }) | (if m.bits & CTRL != 0 { WIRE_CTRL } else { 0u8 })
        | (if m.bits & ALT != 0 { WIRE_ALT } else { 0u8 }) | (if m.bits & SUPER != 0 { WIRE_SUPER } else { 0u8 })) as u8
}

pub fn wire_modifiers(m: Modifiers) -> (wire: u8)
    ensures
        wire == spec_wire_modifiers(m),
{
    (if m.bits & SHIFT != 0 { WIRE_SHIFT } else { 0u8 }) | (if m.bits & CTRL != 0 { WIRE_CTRL } else { 0u8 })
        | (if m.bits & ALT != 0 { WIRE_ALT } else { 0u8 }) | (if m.bits & SUPER != 0 { WIRE_SUPER } else { 0u8 })
}

/// How a shortcut trigger is labelled on a platform.
pub open spec fn trigger_label(trigger: NativeShortcutTrigger, platform: NativePlatform) -> Seq<char> {
    match trigger {
        NativeShortcutTrigger::Key(code, m) => shortcut_label(platform, spec_wire_modifiers(m), key_name(code)),
        NativeShortcutTrigger::AltDigits => match platform {
            NativePlatform::Linux => "Alt+1…9 / Alt+0"@,
            NativePlatform::Macos => "Option+1…9 / Option+0"@,
        },
        NativeShortcutTrigger::Copy => shortcut_label(platform, spec_wire_modifiers(spec_copy_paste_modifiers(platform)), "KeyC"@),
        NativeShortcutTrigger::Paste => shortcut_label(platform, spec_wire_modifiers(spec_copy_paste_modifiers(platform)), "KeyV"@)
            + " or Paste"@,
        NativeShortcutTrigger::OpenLink => shortcut_label(platform, spec_wire_modifiers(spec_open_link_modifiers(platform)), "click"@),
    }
}

impl NativeShortcutTrigger {
    /// The label of this trigger on a platform.
    pub fn display_label_for(self, platform: NativePlatform) -> (label: String)
        ensures
            label@ == trigger_label(self, platform),
    {
        match self {
            NativeShortcutTrigger::Key(code, m) => physical_shortcut_label_for(platform, wire_modifiers(m), code.name()),
            NativeShortcutTrigger::AltDigits => String::from_str(match platform {
                NativePlatform::Linux => "Alt+1…9 / Alt+0",
                NativePlatform::Macos => "Option+1…9 / Option+0",
            }),
            NativeShortcutTrigger::Copy => physical_shortcut_label_for(platform, wire_modifiers(copy_paste_modifiers(platform)), "KeyC"),
            NativeShortcutTrigger::Paste => {
                let mut label = physical_shortcut_label_for(platform, wire_modifiers(copy_paste_modifiers(platform)), "KeyV");
                label.append(" or Paste");
                label
            }
            NativeShortcutTrigger::OpenLink => physical_shortcut_label_for(platform, wire_modifiers(open_link_modifiers(platform)), "click"),
        }
    }
}

/// The status hint for a focused link: the escaped target, then how to open or copy it.
pub open spec fn link_hint(platform: NativePlatform, uri: Seq<char>) -> Seq<char> {
    escape_default(uri) + "\n"@ + trigger_label(NativeShortcutTrigger::OpenLink, platform) + " Open · "@
        + trigger_label(NativeShortcutTrigger::Copy, platform) + " Copy"@
}

pub fn link_hint_for(platform: NativePlatform, uri: &str) -> (hint: String)
    ensures
        hint@ == link_hint(platform, uri@),
{
    let mut hint = String::new();
    push_escaped(&mut hint, uri);
    hint.append("\n");
    let open = NativeShortcutTrigger::OpenLink.display_label_for(platform);
    hint.append(open.as_str());
    hint.append(" Open · ");
    let copy = NativeShortcutTrigger::Copy.display_label_for(platform);
    hint.append(copy.as_str());
    hint.append(" Copy");
    hint
}

} // verus!
