//! Native keyboard, pointer and input-method state. Presses and releases pair up
//! within one Orbit attachment; what an attachment leaves unpaired is retired so
//! that the next attachment never sees half a key sequence.

use vstd::prelude::*;
use crate::interaction::ElementState;
use crate::selection::SelectionStep;
use crate::shortcuts::{Modifiers, SHIFT, CTRL, ALT, SUPER};
use crate::text::str_eq;
use crate::model::{LocalNoticeSource, NoticeFilter, NoticeOwner, SessionModel, bounded_text, keep_pred, notices_view};
use vstd::string::StringExecFns;
use vstd::string::StrSliceExecFns;

verus! {

/// Rejection of an input-method commit that is no acceptable key text.
pub const IME_REJECTED: &'static str = "native input method commit is not accepted semantic key text";

/// Terminal focus as Orbit receives it.
#[derive(Clone, Copy, Debug, PartialEq, Eq, Structural)]
pub enum FocusEvent {
    Gained,
    Lost,
}

/// A native pointer button.
#[derive(Clone, Copy, Debug, PartialEq, Eq, Structural)]
pub enum PointerButton {
    Left,
    Right,
    Middle,
    Back,
    Forward,
    Other(u16),
}

/// A pointer button as Orbit names it.
#[derive(Clone, Copy, Debug, PartialEq, Eq, Structural)]
pub enum OrbitButton {
    Left,
    Middle,
    Right,
    Four,
    Five,
    Six,
    Seven,
    Eight,
    Nine,
    Ten,
    Eleven,
    Unknown,
}

/// A pointer transition as Orbit receives it.
#[derive(Clone, Copy, Debug, PartialEq, Eq, Structural)]
pub enum MouseAction {
    Press,
    Release,
    Motion,
}

/// A key transition as Orbit receives it.
#[derive(Clone, Copy, Debug, PartialEq, Eq, Structural)]
pub enum KeyAction {
    Press,
    Repeat,
    Release,
}

/// The start or the end of a selection gesture.
#[derive(Clone, Copy, Debug, PartialEq, Eq, Structural)]
pub enum SelectionEdge {
    Begin,
    Finish,
}

/// A native input-method event.
#[derive(Clone, Debug, PartialEq, Eq)]
pub enum ImeEvent {
    Enabled,
    Disabled,
    Preedit(String),
    Commit(String),
}

pub open spec fn spec_orbit_button(button: PointerButton) -> OrbitButton {
    match button {
        PointerButton::Left => OrbitButton::Left,
        PointerButton::Middle => OrbitButton::Middle,
        PointerButton::Right => OrbitButton::Right,
        PointerButton::Back => OrbitButton::Eight,
        PointerButton::Forward => OrbitButton::Nine,
        PointerButton::Other(n) => if n == 10 {
            OrbitButton::Ten
        } else if n == 11 {
            OrbitButton::Eleven
        } else {
            OrbitButton::Unknown
        },
    }
}

/// The Orbit name of a native button: back and forward are buttons eight and nine,
/// and of the other buttons only ten and eleven have a name.
pub fn orbit_button(button: PointerButton) -> (orbit: OrbitButton)
    ensures
        orbit == spec_orbit_button(button),
{
    match button {
        PointerButton::Left => OrbitButton::Left,
        PointerButton::Middle => OrbitButton::Middle,
        PointerButton::Right => OrbitButton::Right,
        PointerButton::Back => OrbitButton::Eight,
        PointerButton::Forward => OrbitButton::Nine,
        PointerButton::Other(n) => if n == 10 {
            OrbitButton::Ten
        } else if n == 11 {
            OrbitButton::Eleven
        } else {
            OrbitButton::Unknown
        },
    }
}

pub open spec fn spec_key_action(state: ElementState, repeat: bool) -> KeyAction {
    match state {
        ElementState::Released => KeyAction::Release,
        ElementState::Pressed => if repeat { KeyAction::Repeat } else { KeyAction::Press },
    }
}

/// A release is a release whatever its repeat flag; a press is a repeat or a press.
pub fn key_action(state: ElementState, repeat: bool) -> (action: KeyAction)
    ensures
        action == spec_key_action(state, repeat),
{
    match state {
        ElementState::Released => KeyAction::Release,
        ElementState::Pressed => if repeat { KeyAction::Repeat } else { KeyAction::Press },
    }
}

pub open spec fn spec_native_modifiers(shift: bool, control: bool, alt: bool, super_key: bool) -> Modifiers {
    Modifiers {
        bits: ((if shift { SHIFT as int } else { 0 }) + (if control { CTRL as int } else { 0 }) + (if alt {
            ALT as int
        } else {
            0
        }) + (if super_key { SUPER as int } else { 0 })) as u8,
    }
}

/// The modifier set of the native modifier keys that are held.
pub fn native_modifiers(shift: bool, control: bool, alt: bool, super_key: bool) -> (modifiers: Modifiers)
    ensures
        modifiers == spec_native_modifiers(shift, control, alt, super_key),
{
    let mut bits: u8 = 0;
    if shift {
        bits = bits + SHIFT;
    }
    if control {
        bits = bits + CTRL;
    }
    if alt {
        bits = bits + ALT;
    }
    if super_key {
        bits = bits + SUPER;
    }
    Modifiers { bits }
}

/// Most wheel steps that one native wheel event becomes.
pub const MAX_WHEEL_STEPS: usize = 32;

pub open spec fn wheel_count(steps: int, room: int) -> int {
    let magnitude = if steps < 0 { -steps } else { steps };
    if magnitude < room { magnitude } else { room }
}

/// The wheel buttons of whole vertical and horizontal steps: up to
/// [`MAX_WHEEL_STEPS`] in all, vertical first, as buttons four (up) and five
/// (down), then six (left) and seven (right).
pub open spec fn spec_wheel_buttons(vertical: i64, horizontal: i64) -> Seq<OrbitButton> {
    let v = wheel_count(vertical as int, MAX_WHEEL_STEPS as int);
    let h = wheel_count(horizontal as int, MAX_WHEEL_STEPS - v);
    Seq::new(v as nat, |i: int| if vertical > 0 { OrbitButton::Four } else { OrbitButton::Five })
        + Seq::new(h as nat, |i: int| if horizontal > 0 { OrbitButton::Six } else { OrbitButton::Seven })
}

fn push_steps(buttons: &mut Vec<OrbitButton>, button: OrbitButton, steps: i64)
    requires
        old(buttons)@.len() <= MAX_WHEEL_STEPS,
    ensures
        final(buttons)@ == old(buttons)@ + Seq::new(
            wheel_count(steps as int, MAX_WHEEL_STEPS - old(buttons)@.len()) as nat,
            |i: int| button,
        ),
{
    let room = MAX_WHEEL_STEPS - buttons.len();
    let magnitude: u64 = if steps == i64::MIN {
        9_223_372_036_854_775_808u64
    } else if steps < 0 {
        (-steps) as u64
    } else {
        steps as u64
    };
    let count: usize = if magnitude < room as u64 { magnitude as usize } else { room };
    let ghost start = buttons@;
    let mut i: usize = 0;
    while i < count
        invariant
            i <= count,
            buttons@ == start + Seq::new(i as nat, |k: int| button),
        decreases count - i,
    {
        buttons.push(button);
        assert(buttons@ =~= start + Seq::new((i + 1) as nat, |k: int| button));
        i = i + 1;
    }
}

/// The wheel buttons of whole vertical and horizontal steps.
pub fn wheel_buttons(vertical: i64, horizontal: i64) -> (buttons: Vec<OrbitButton>)
    ensures
        buttons@ == spec_wheel_buttons(vertical, horizontal),
{
    let mut buttons: Vec<OrbitButton> = Vec::new();
    push_steps(&mut buttons, if vertical > 0 { OrbitButton::Four } else { OrbitButton::Five }, vertical);
    push_steps(&mut buttons, if horizontal > 0 { OrbitButton::Six } else { OrbitButton::Seven }, horizontal);
    assert(buttons@ =~= spec_wheel_buttons(vertical, horizontal));
    buttons
}

/// A character that never travels as key text: C0 controls, DEL, and the private
/// range where macOS reports function keys.
pub open spec fn is_excluded_key_char(c: char) -> bool {
    (c as u32) <= 0x1f || (c as u32) == 0x7f || (0xf700 <= (c as u32) && (c as u32) <= 0xf8ff)
}

/// The length in bytes of `text`, as `str::len` gives it.
pub open spec fn utf8_len(text: Seq<char>) -> nat {
    (vstd::utf8::encode_utf8(text).len() as usize) as nat
}

pub open spec fn spec_key_text_ok(text: Seq<char>, max_bytes: nat) -> bool {
    &&& text.len() > 0
    &&& utf8_len(text) <= max_bytes
    &&& forall|i: int| 0 <= i < text.len() ==> !is_excluded_key_char(#[trigger] text[i])
}

/// Key text as Orbit accepts it: not empty, at most `max_bytes` bytes, and without
/// control or private function-key characters.
pub fn key_text(text: &str, max_bytes: usize) -> (accepted: Option<String>)
    ensures
        match accepted {
            Some(owned) => spec_key_text_ok(text@, max_bytes as nat) && owned@ == text@,
            None => !spec_key_text_ok(text@, max_bytes as nat),
        },
{
    if text.is_empty() || text.len() > max_bytes {
        if text.is_empty() {
            assert(text@.len() == 0) by {
                assert(text@ == text@);
            }
        }
        return None;
    }
    let mut excluded = false;
    for c in it: text.chars()
        invariant
            it.seq() == text@,
            excluded == exists|i: int| 0 <= i < it.index() && is_excluded_key_char(#[trigger] text@[i]),
    {
        let code = c as u32;
        if code <= 0x1f || code == 0x7f || (0xf700 <= code && code <= 0xf8ff) {
            excluded = true;
        }
    }
    if excluded {
        None
    } else {
        Some(text.to_owned())
    }
}

pub open spec fn spec_layout_metadata(modifiers: Modifiers, text: Option<Seq<char>>, unshifted: Option<Seq<char>>) -> (Option<char>, Modifiers) {
    match unshifted {
        None => (None, Modifiers { bits: 0 }),
        Some(unshifted) => {
            let consumed = if modifiers.bits == SHIFT && (text matches Some(t) && t != unshifted) {
                Modifiers { bits: SHIFT }
            } else {
                Modifiers { bits: 0 }
            };
            (if unshifted.len() == 1 { Some(unshifted[0]) } else { None }, consumed)
        },
    }
}

/// What a key reports of the layout, given the text the key typed and, where the
/// key without modifiers is a character key, that key's text: the unshifted
/// character where that text is one character, and Shift as consumed only where
/// Shift alone was held and changed the text.
pub fn layout_metadata(modifiers: Modifiers, text: Option<&str>, unshifted: Option<&str>) -> (metadata: (Option<char>, Modifiers))
    ensures
        metadata == spec_layout_metadata(
            modifiers,
            match text { Some(t) => Some(t@), None => None },
            match unshifted { Some(u) => Some(u@), None => None },
        ),
{
    let unshifted = match unshifted {
        Some(u) => u,
        None => return (None, Modifiers { bits: 0 }),
    };
    let changed = match text {
        Some(t) => !str_eq(t, unshifted),
        None => false,
    };
    let consumed = if modifiers.bits == SHIFT && changed {
        Modifiers { bits: SHIFT }
    } else {
        Modifiers { bits: 0 }
    };
    let character = if unshifted.unicode_len() == 1 {
        Some(unshifted.get_char(0))
    } else {
        None
    };
    (character, consumed)
}

/// What the input state holds, as values.
pub struct InputView {
    pub modifiers: Modifiers,
    pub focus_event: Option<FocusEvent>,
    pub pressed_keys: Seq<u64>,
    pub retired_keys: Seq<u64>,
    pub captured_shortcuts: Seq<u64>,
    pub pressed_buttons: Seq<PointerButton>,
    pub composing: bool,
    pub preedit: Seq<char>,
    pub selecting: bool,
}

/// `s` with every occurrence of `x` taken out, the rest in order.
pub open spec fn without<A>(s: Seq<A>, x: A) -> Seq<A>
    decreases s.len(),
{
    if s.len() == 0 {
        s
    } else if s.last() == x {
        without(s.drop_last(), x)
    } else {
        without(s.drop_last(), x).push(s.last())
    }
}

/// `s` after `Vec::swap_remove` at its first `x`, or `s` where there is none.
pub open spec fn swap_remove_first<A>(s: Seq<A>, x: A) -> Seq<A> {
    match s.index_of_first(x) {
        Some(i) => s.update(i, s.last()).drop_last(),
        None => s,
    }
}

/// The pressed set after a committed transition of `x`: a press puts `x` last.
pub open spec fn commit_transition<A>(s: Seq<A>, x: A, state: ElementState) -> Seq<A> {
    if state == ElementState::Pressed {
        without(s, x).push(x)
    } else {
        without(s, x)
    }
}

pub open spec fn spec_retire(v: InputView) -> InputView {
    InputView {
        retired_keys: v.retired_keys + v.pressed_keys + v.captured_shortcuts,
        pressed_keys: Seq::empty(),
        captured_shortcuts: Seq::empty(),
        pressed_buttons: Seq::empty(),
        composing: false,
        preedit: Seq::empty(),
        selecting: false,
        ..v
    }
}

pub open spec fn retire_message(v: InputView) -> Option<FocusEvent> {
    if v.focus_event == Some(FocusEvent::Gained) {
        Some(FocusEvent::Lost)
    } else {
        None
    }
}

pub open spec fn focus_event_for(focused: bool) -> FocusEvent {
    if focused {
        FocusEvent::Gained
    } else {
        FocusEvent::Lost
    }
}

pub open spec fn spec_native_focus(v: InputView, native_focused: bool, terminal_focused: bool) -> InputView {
    let base = if native_focused {
        v
    } else {
        InputView { modifiers: Modifiers { bits: 0 }, retired_keys: Seq::empty(), ..spec_retire(v) }
    };
    InputView { focus_event: Some(focus_event_for(terminal_focused)), ..base }
}

pub open spec fn spec_terminal_focus(v: InputView, focused: bool) -> InputView {
    let base = if focused {
        v
    } else {
        spec_retire(v)
    };
    InputView { focus_event: Some(focus_event_for(focused)), ..base }
}

/// Whether a transition of a retired key is swallowed, and the state after it.
pub open spec fn spec_suppress(v: InputView, key: u64, state: ElementState, repeat: bool) -> (InputView, bool) {
    if !v.retired_keys.contains(key) {
        (v, false)
    } else if state == ElementState::Pressed && repeat {
        (v, true)
    } else {
        (
            InputView { retired_keys: swap_remove_first(v.retired_keys, key), ..v },
            state == ElementState::Released,
        )
    }
}

/// Whether a shortcut key transition is consumed, and the state after it.
pub open spec fn spec_consume(v: InputView, key: u64, state: ElementState, repeat: bool, recognized: bool) -> (InputView, bool) {
    if v.captured_shortcuts.contains(key) {
        if state == ElementState::Released {
            (InputView { captured_shortcuts: swap_remove_first(v.captured_shortcuts, key), ..v }, true)
        } else {
            (v, true)
        }
    } else if state == ElementState::Pressed && !repeat && recognized {
        (InputView { captured_shortcuts: v.captured_shortcuts.push(key), ..v }, true)
    } else {
        (v, false)
    }
}

pub open spec fn spec_mouse_button(v: InputView, state: ElementState, button: PointerButton, accept_press: bool) -> Option<(MouseAction, OrbitButton)> {
    if v.selecting {
        None
    } else if state == ElementState::Pressed && (!accept_press || v.pressed_buttons.contains(button)) {
        None
    } else if state == ElementState::Released && !v.pressed_buttons.contains(button) {
        None
    } else {
        Some((
            if state == ElementState::Pressed { MouseAction::Press } else { MouseAction::Release },
            spec_orbit_button(button),
        ))
    }
}

pub open spec fn spec_selection_edge(v: InputView, state: ElementState, button: PointerButton) -> Option<SelectionEdge> {
    if button != PointerButton::Left {
        None
    } else if state == ElementState::Pressed && !v.selecting && v.pressed_buttons.len() == 0 {
        Some(SelectionEdge::Begin)
    } else if state == ElementState::Released && v.selecting {
        Some(SelectionEdge::Finish)
    } else {
        None
    }
}

pub open spec fn spec_commit_selection(selecting: bool, step: SelectionStep) -> bool {
    match step {
        SelectionStep::Begin { .. } | SelectionStep::Update => true,
        SelectionStep::Finish | SelectionStep::Cancel => false,
        SelectionStep::Copy => selecting,
    }
}

/// Where `x` first occurs in `v`, if it does.
fn find_key(v: &Vec<u64>, x: u64) -> (found: Option<usize>)
    ensures
        match v@.index_of_first(x) {
            Some(i) => found == Some(i as usize),
            None => found is None,
        },
{
    proof {
        v@.index_of_first_ensures(x);
    }
    let mut i: usize = 0;
    while i < v.len()
        invariant
            i <= v@.len(),
            forall|j: int| 0 <= j < i ==> v@[j] != x,
            match v@.index_of_first(x) {
                Some(index) => {
                    &&& v@.contains(x)
                    &&& 0 <= index < v@.len()
                    &&& v@[index] == x
                    &&& forall|j: int| 0 <= j < index < v@.len() ==> v@[j] != x
                },
                None => !v@.contains(x),
            },
        decreases v@.len() - i,
    {
        if v[i] == x {
            proof {
                let index = v@.index_of_first(x).unwrap();
                assert(v@.contains(x));
                if index < i {
                    assert(v@[index] != x);
                }
                if i < index {
                    assert(v@[i as int] != x);
                }
            }
            return Some(i);
        }
        i = i + 1;
    }
    proof {
        if v@.contains(x) {
            let j = choose|j: int| 0 <= j < v@.len() && v@[j] == x;
            assert(v@[j] != x);
        }
    }
    None
}

/// `v` without `x`, through a loop that keeps the rest in order.
fn remove_key(v: &Vec<u64>, x: u64) -> (kept: Vec<u64>)
    ensures
        kept@ == without(v@, x),
{
    let mut kept: Vec<u64> = Vec::new();
    let mut i: usize = 0;
    while i < v.len()
        invariant
            i <= v@.len(),
            kept@ == without(v@.take(i as int), x),
        decreases v@.len() - i,
    {
        proof {
            assert(v@.take(i as int + 1).drop_last() =~= v@.take(i as int));
        }
        if v[i] != x {
            kept.push(v[i]);
        }
        i = i + 1;
    }
    assert(v@.take(v@.len() as int) =~= v@);
    kept
}

/// `v` without `x`, through a loop that keeps the rest in order.
fn remove_button(v: &Vec<PointerButton>, x: PointerButton) -> (kept: Vec<PointerButton>)
    ensures
        kept@ == without(v@, x),
{
    let mut kept: Vec<PointerButton> = Vec::new();
    let mut i: usize = 0;
    while i < v.len()
        invariant
            i <= v@.len(),
            kept@ == without(v@.take(i as int), x),
        decreases v@.len() - i,
    {
        proof {
            assert(v@.take(i as int + 1).drop_last() =~= v@.take(i as int));
        }
        if v[i] != x {
            kept.push(v[i]);
        }
        i = i + 1;
    }
    assert(v@.take(v@.len() as int) =~= v@);
    kept
}

/// Whether `x` occurs in `v`.
fn has_button(v: &Vec<PointerButton>, x: PointerButton) -> (found: bool)
    ensures
        found == v@.contains(x),
{
    let mut i: usize = 0;
    while i < v.len()
        invariant
            i <= v@.len(),
            forall|j: int| 0 <= j < i ==> v@[j] != x,
        decreases v@.len() - i,
    {
        if v[i] == x {
            assert(v@[i as int] == x);
            return true;
        }
        i = i + 1;
    }
    proof {
        if v@.contains(x) {
            let j = choose|j: int| 0 <= j < v@.len() && v@[j] == x;
            assert(v@[j] != x);
        }
    }
    false
}

/// A key transition as Orbit receives it, but for the physical key itself.
#[derive(Clone, Debug, PartialEq, Eq)]
pub struct KeyReport {
    pub action: KeyAction,
    pub modifiers: Modifiers,
    pub consumed_modifiers: Modifiers,
    pub composing: bool,
    pub text: Option<String>,
    pub unshifted_codepoint: Option<char>,
}

/// Native input state between events.
pub struct InputState {
    modifiers: Modifiers,
    focus_event: Option<FocusEvent>,
    pressed_keys: Vec<u64>,
    retired_keys: Vec<u64>,
    captured_shortcuts: Vec<u64>,
    pressed_buttons: Vec<PointerButton>,
    composing: bool,
    preedit: String,
    selecting: bool,
}

impl View for InputState {
    type V = InputView;

    closed spec fn view(&self) -> InputView {
        InputView {
            modifiers: self.modifiers,
            focus_event: self.focus_event,
            pressed_keys: self.pressed_keys@,
            retired_keys: self.retired_keys@,
            captured_shortcuts: self.captured_shortcuts@,
            pressed_buttons: self.pressed_buttons@,
            composing: self.composing,
            preedit: self.preedit@,
            selecting: self.selecting,
        }
    }
}

pub open spec fn empty_input() -> InputView {
    InputView {
        modifiers: Modifiers { bits: 0 },
        focus_event: None,
        pressed_keys: Seq::empty(),
        retired_keys: Seq::empty(),
        captured_shortcuts: Seq::empty(),
        pressed_buttons: Seq::empty(),
        composing: false,
        preedit: Seq::empty(),
        selecting: false,
    }
}

impl InputState {
    /// No modifier, no focus report, nothing pressed or retired.
    pub fn new() -> (input: Self)
        ensures
            input@ == empty_input(),
    {
        InputState {
            modifiers: Modifiers { bits: 0 },
            focus_event: None,
            pressed_keys: Vec::new(),
            retired_keys: Vec::new(),
            captured_shortcuts: Vec::new(),
            pressed_buttons: Vec::new(),
            composing: false,
            preedit: String::new(),
            selecting: false,
        }
    }

    /// The modifier keys that are held.
    pub fn modifiers(&self) -> (modifiers: Modifiers)
        ensures
            modifiers == self@.modifiers,
    {
        self.modifiers
    }

    /// Record which native modifier keys are held.
    pub fn set_modifiers(&mut self, shift: bool, control: bool, alt: bool, super_key: bool)
        ensures
            final(self)@ == (InputView { modifiers: spec_native_modifiers(shift, control, alt, super_key), ..old(self)@ }),
    {
        self.modifiers = native_modifiers(shift, control, alt, super_key);
    }

    /// The text being composed by the input method.
    pub fn preedit(&self) -> (preedit: &str)
        ensures
            preedit@ == self@.preedit,
    {
        self.preedit.as_str()
    }

    /// The focus report last sent, to replay to a new attachment.
    pub fn latest_focus(&self) -> (focus: Option<FocusEvent>)
        ensures
            focus == self@.focus_event,
    {
        self.focus_event
    }

    fn clear_composition(&mut self)
        ensures
            final(self)@ == (InputView { composing: false, preedit: Seq::empty(), ..old(self)@ }),
    {
        self.composing = false;
        self.preedit = String::new();
    }

    /// Retire what can only be paired within one Orbit attachment: keys that are
    /// held or captured wait for their release, and buttons, selection and
    /// composition end. A terminal that had focus is told it lost it.
    pub fn retire_orbit_generation(&mut self) -> (lost: Option<FocusEvent>)
        ensures
            final(self)@ == spec_retire(old(self)@),
            lost == retire_message(old(self)@),
    {
        let ghost before = self@;
        let mut retired: Vec<u64> = Vec::new();
        std::mem::swap(&mut retired, &mut self.pressed_keys);
        retired.append(&mut self.captured_shortcuts);
        self.retired_keys.append(&mut retired);
        self.pressed_buttons.clear();
        self.selecting = false;
        self.clear_composition();
        assert(self.retired_keys@ =~= before.retired_keys + before.pressed_keys + before.captured_shortcuts);
        assert(self@ =~= spec_retire(before));
        if self.focus_event == Some(FocusEvent::Gained) {
            Some(FocusEvent::Lost)
        } else {
            None
        }
    }

    /// The window gained or lost focus. Losing it retires the attachment's pairing
    /// state and forgets modifiers and retired keys, whose releases go elsewhere.
    pub fn native_focus(&mut self, native_focused: bool, terminal_focused: bool) -> (event: FocusEvent)
        ensures
            final(self)@ == spec_native_focus(old(self)@, native_focused, terminal_focused),
            event == focus_event_for(terminal_focused),
    {
        let event = if terminal_focused { FocusEvent::Gained } else { FocusEvent::Lost };
        if !native_focused {
            let _ = self.retire_orbit_generation();
            self.modifiers = Modifiers { bits: 0 };
            self.retired_keys.clear();
        }
        self.focus_event = Some(event);
        event
    }

    /// The terminal gained or lost focus inside the window; losing it retires the
    /// attachment's pairing state.
    pub fn terminal_focus(&mut self, focused: bool) -> (event: FocusEvent)
        ensures
            final(self)@ == spec_terminal_focus(old(self)@, focused),
            event == focus_event_for(focused),
    {
        let event = if focused {
            FocusEvent::Gained
        } else {
            let _ = self.retire_orbit_generation();
            FocusEvent::Lost
        };
        self.focus_event = Some(event);
        event
    }

    /// Consume the remainder of a key sequence retired with an old attachment: its
    /// repeats and its release. A fresh press of that key starts a new sequence.
    pub fn suppresses_retired_key(&mut self, key: u64, state: ElementState, repeat: bool) -> (suppressed: bool)
        ensures
            (final(self)@, suppressed) == spec_suppress(old(self)@, key, state, repeat),
    {
        proof {
            self.retired_keys@.index_of_first_ensures(key);
        }
        let index = match find_key(&self.retired_keys, key) {
            Some(index) => index,
            None => return false,
        };
        let ghost before = self@;
        proof {
            before.retired_keys.index_of_first_ensures(key);
            assert(before.retired_keys.len() == self.retired_keys.len());
        }
        if state == ElementState::Pressed && repeat {
            return true;
        }
        self.retired_keys.swap_remove(index);
        assert(self@.retired_keys == swap_remove_first(before.retired_keys, key));
        assert(self@ == (InputView { retired_keys: swap_remove_first(before.retired_keys, key), ..before }));
        state == ElementState::Released
    }

    /// A key transition goes to Orbit when the key is held, or when it is a fresh
    /// press.
    pub fn key_is_current(&self, key: u64, state: ElementState, repeat: bool) -> (current: bool)
        ensures
            current == (self@.pressed_keys.contains(key) || (state == ElementState::Pressed && !repeat)),
    {
        proof {
            self.pressed_keys@.index_of_first_ensures(key);
        }
        find_key(&self.pressed_keys, key).is_some() || (state == ElementState::Pressed && !repeat)
    }

    /// The report of a key transition that goes to Orbit, given the text it typed
    /// and, for a character key, its text without modifiers. Only a held key or a
    /// fresh press is reported; typed text is kept only where Orbit accepts it as
    /// key text.
    pub fn key(
        &self,
        key: u64,
        state: ElementState,
        repeat: bool,
        text: Option<&str>,
        unshifted: Option<&str>,
        max_text_bytes: usize,
    ) -> (report: Option<KeyReport>)
        ensures
            !(self@.pressed_keys.contains(key) || (state == ElementState::Pressed && !repeat)) ==> report is None,
            (self@.pressed_keys.contains(key) || (state == ElementState::Pressed && !repeat)) ==> (report matches Some(r) && {
                let kept: Option<Seq<char>> = match text {
                    Some(t) => if spec_key_text_ok(t@, max_text_bytes as nat) { Some(t@) } else { None },
                    None => None,
                };
                let metadata = spec_layout_metadata(
                    self@.modifiers,
                    kept,
                    match unshifted { Some(u) => Some(u@), None => None },
                );
                &&& r.action == spec_key_action(state, repeat)
                &&& r.modifiers == self@.modifiers
                &&& r.composing == self@.composing
                &&& (r.text matches Some(t) ==> kept == Some(t@))
                &&& (r.text is None ==> kept is None)
                &&& r.unshifted_codepoint == metadata.0
                &&& r.consumed_modifiers == metadata.1
            }),
    {
        if !self.key_is_current(key, state, repeat) {
            return None;
        }
        let accepted = match text {
            Some(t) => key_text(t, max_text_bytes),
            None => None,
        };
        let (unshifted_codepoint, consumed_modifiers) = match &accepted {
            Some(t) => layout_metadata(self.modifiers, Some(t.as_str()), unshifted),
            None => layout_metadata(self.modifiers, None, unshifted),
        };
        Some(KeyReport {
            action: key_action(state, repeat),
            modifiers: self.modifiers,
            consumed_modifiers,
            composing: self.composing,
            text: accepted,
            unshifted_codepoint,
        })
    }

    /// Record an admitted press, or forget a key on its release.
    pub fn commit_key(&mut self, key: u64, state: ElementState)
        ensures
            final(self)@ == (InputView { pressed_keys: commit_transition(old(self)@.pressed_keys, key, state), ..old(self)@ }),
    {
        let mut kept = remove_key(&self.pressed_keys, key);
        if state == ElementState::Pressed {
            kept.push(key);
        }
        self.pressed_keys = kept;
    }

    /// Track the input method. Enabling and preedit change no key state, disabling
    /// ends composition, and a commit ends it too and becomes key text, unless the
    /// text is empty or is no acceptable key text.
    pub fn ime(&mut self, event: ImeEvent, max_text_bytes: usize) -> (result: Result<Option<String>, &'static str>)
        ensures
            match event {
                ImeEvent::Enabled => final(self)@ == old(self)@ && result == Ok::<Option<String>, &'static str>(None),
                ImeEvent::Disabled => final(self)@ == (InputView { composing: false, preedit: Seq::empty(), ..old(self)@ })
                    && result == Ok::<Option<String>, &'static str>(None),
                ImeEvent::Preedit(text) => final(self)@ == (InputView { composing: text@.len() > 0, preedit: text@, ..old(self)@ })
                    && result == Ok::<Option<String>, &'static str>(None),
                ImeEvent::Commit(text) => {
                    &&& final(self)@ == (InputView { composing: false, preedit: Seq::empty(), ..old(self)@ })
                    &&& text@.len() == 0 ==> result == Ok::<Option<String>, &'static str>(None)
                    &&& text@.len() > 0 && spec_key_text_ok(text@, max_text_bytes as nat)
                        ==> (result matches Ok(Some(accepted)) && accepted@ == text@)
                    &&& text@.len() > 0 && !spec_key_text_ok(text@, max_text_bytes as nat)
                        ==> result == Err::<Option<String>, &'static str>(IME_REJECTED)
                },
            },
    {
        match event {
            ImeEvent::Enabled => {
                assert(self@ == old(self)@);
                Ok(None)
            },
            ImeEvent::Disabled => {
                self.clear_composition();
                Ok(None)
            },
            ImeEvent::Preedit(text) => {
                self.composing = !text.as_str().is_empty();
                self.preedit = text;
                Ok(None)
            },
            ImeEvent::Commit(text) => {
                self.clear_composition();
                if text.as_str().is_empty() {
                    return Ok(None);
                }
                match key_text(text.as_str(), max_text_bytes) {
                    Some(accepted) => Ok(Some(accepted)),
                    None => Err(IME_REJECTED),
                }
            },
        }
    }

    /// The button that pointer motion reports: the one pressed last, if any.
    pub fn motion_button(&self) -> (button: Option<OrbitButton>)
        ensures
            button == (if self@.pressed_buttons.len() == 0 {
                None
            } else {
                Some(spec_orbit_button(self@.pressed_buttons.last()))
            }),
    {
        let count = self.pressed_buttons.len();
        if count == 0 {
            None
        } else {
            Some(orbit_button(self.pressed_buttons[count - 1]))
        }
    }

    /// The transition a native button event becomes, without committing it: none
    /// during a selection, none for a press that is not accepted or of a held
    /// button, and none for a release of a button that is not held.
    pub fn mouse_button(&self, state: ElementState, button: PointerButton, accept_press: bool) -> (transition: Option<(MouseAction, OrbitButton)>)
        ensures
            transition == spec_mouse_button(self@, state, button, accept_press),
    {
        if self.selecting {
            return None;
        }
        let held = has_button(&self.pressed_buttons, button);
        match state {
            ElementState::Pressed => if !accept_press || held {
                return None;
            },
            ElementState::Released => if !held {
                return None;
            },
        }
        let action = match state {
            ElementState::Pressed => MouseAction::Press,
            ElementState::Released => MouseAction::Release,
        };
        Some((action, orbit_button(button)))
    }

    /// Record an admitted press, or forget a button on its release.
    pub fn commit_mouse_button(&mut self, state: ElementState, button: PointerButton)
        ensures
            final(self)@ == (InputView { pressed_buttons: commit_transition(old(self)@.pressed_buttons, button, state), ..old(self)@ }),
    {
        let mut kept = remove_button(&self.pressed_buttons, button);
        if state == ElementState::Pressed {
            kept.push(button);
        }
        self.pressed_buttons = kept;
    }

    /// Which edge of a selection gesture a left-button event is: a press with no
    /// selection and no button held begins one, and a release during one finishes
    /// it.
    pub fn selection_edge(&self, state: ElementState, button: PointerButton) -> (edge: Option<SelectionEdge>)
        ensures
            edge == spec_selection_edge(self@, state, button),
    {
        if button != PointerButton::Left {
            return None;
        }
        match state {
            ElementState::Pressed => if !self.selecting && self.pressed_buttons.len() == 0 {
                Some(SelectionEdge::Begin)
            } else {
                None
            },
            ElementState::Released => if self.selecting {
                Some(SelectionEdge::Finish)
            } else {
                None
            },
        }
    }

    /// Record a selection step that Orbit admitted.
    pub fn commit_selection(&mut self, step: SelectionStep)
        ensures
            final(self)@ == (InputView { selecting: spec_commit_selection(old(self)@.selecting, step), ..old(self)@ }),
    {
        self.selecting = match step {
            SelectionStep::Begin { .. } | SelectionStep::Update => true,
            SelectionStep::Finish | SelectionStep::Cancel => false,
            SelectionStep::Copy => self.selecting,
        };
    }

    /// End a selection gesture without a step.
    pub fn cancel_selection(&mut self)
        ensures
            final(self)@ == (InputView { selecting: false, ..old(self)@ }),
    {
        self.selecting = false;
    }

    /// Whether a selection gesture is in progress.
    pub fn is_selecting(&self) -> (selecting: bool)
        ensures
            selecting == self@.selecting,
    {
        self.selecting
    }

    /// The pointer is busy during a selection or while a button is held.
    pub fn pointer_busy(&self) -> (busy: bool)
        ensures
            busy == (self@.selecting || self@.pressed_buttons.len() > 0),
    {
        self.selecting || self.pressed_buttons.len() > 0
    }

    /// Whether a key transition belongs to a native shortcut. A recognized fresh
    /// press captures the key; its repeats are consumed and its release ends the
    /// capture.
    pub fn consumes_shortcut(&mut self, key: u64, state: ElementState, repeat: bool, recognized: bool) -> (consumed: bool)
        ensures
            (final(self)@, consumed) == spec_consume(old(self)@, key, state, repeat, recognized),
    {
        proof {
            self.captured_shortcuts@.index_of_first_ensures(key);
        }
        match find_key(&self.captured_shortcuts, key) {
            Some(index) => {
                let ghost before = self@;
                proof {
                    assert(before.captured_shortcuts.len() == self.captured_shortcuts.len());
                }
                if state == ElementState::Released {
                    self.captured_shortcuts.swap_remove(index);
                    assert(self@ == (InputView { captured_shortcuts: swap_remove_first(before.captured_shortcuts, key), ..before }));
                }
                true
            },
            None => {
                if state == ElementState::Pressed && !repeat && recognized {
                    self.captured_shortcuts.push(key);
                    true
                } else {
                    false
                }
            },
        }
    }
}

proof fn lemma_contains_push<A>(s: Seq<A>, x: A, y: A)
    ensures
        s.push(x).contains(y) <==> (s.contains(y) || y == x),
{
    let p = s.push(x);
    if s.contains(y) {
        let i = choose|i: int| 0 <= i < s.len() && s[i] == y;
        assert(p[i] == y);
    }
    if y == x {
        assert(p[s.len() as int] == y);
    }
    if p.contains(y) {
        let i = choose|i: int| 0 <= i < p.len() && p[i] == y;
        if i < s.len() {
            assert(s[i] == y);
        }
    }
}

/// What `without` keeps: every element but `x`, and no new duplicate.
pub proof fn lemma_without<A>(s: Seq<A>, x: A)
    ensures
        forall|y: A| #[trigger] without(s, x).contains(y) <==> (s.contains(y) && y != x),
        s.no_duplicates() ==> without(s, x).no_duplicates(),
    decreases s.len(),
{
    if s.len() > 0 {
        let rest = s.drop_last();
        let last = s.last();
        lemma_without(rest, x);
        assert(rest.push(last) =~= s);
        assert forall|y: A| #[trigger] without(s, x).contains(y) <==> (s.contains(y) && y != x) by {
            lemma_contains_push(rest, last, y);
            lemma_contains_push(without(rest, x), last, y);
        }
        if s.no_duplicates() {
            assert(rest.no_duplicates()) by {
                assert forall|i: int, j: int| 0 <= i < rest.len() && 0 <= j < rest.len() && i != j implies rest[i] != rest[j] by {
                    assert(s[i] == rest[i] && s[j] == rest[j]);
                }
            }
            if last != x {
                assert(!rest.contains(last)) by {
                    if rest.contains(last) {
                        let i = choose|i: int| 0 <= i < rest.len() && rest[i] == last;
                        assert(s[i] == s[s.len() - 1]);
                    }
                }
                assert(!without(rest, x).contains(last));
                let w = without(s, x);
                assert forall|i: int, j: int| 0 <= i < w.len() && 0 <= j < w.len() && i != j implies w[i] != w[j] by {
                    if i == w.len() - 1 {
                        assert(without(rest, x)[j] == w[j]);
                        assert(without(rest, x).contains(w[j]));
                    } else if j == w.len() - 1 {
                        assert(without(rest, x)[i] == w[i]);
                        assert(without(rest, x).contains(w[i]));
                    } else {
                        assert(without(rest, x)[i] == w[i] && without(rest, x)[j] == w[j]);
                    }
                }
            }
        }
    }
}

/// Every committed transition keeps each key, or each button, held at most once: a
/// press leaves it held once, a release leaves it not held, and nothing else
/// changes.
pub proof fn lemma_commit_keeps_pressed_unique<A>(pressed: Seq<A>, x: A, state: ElementState)
    requires
        pressed.no_duplicates(),
    ensures
        commit_transition(pressed, x, state).no_duplicates(),
        commit_transition(pressed, x, state).contains(x) == (state == ElementState::Pressed),
        forall|y: A| y != x ==> (#[trigger] commit_transition(pressed, x, state).contains(y) == pressed.contains(y)),
{
    lemma_without(pressed, x);
    let w = without(pressed, x);
    if state == ElementState::Pressed {
        let c = w.push(x);
        assert(c[c.len() - 1] == x);
        assert forall|i: int, j: int| 0 <= i < c.len() && 0 <= j < c.len() && i != j implies c[i] != c[j] by {
            if i == c.len() - 1 {
                assert(w.contains(c[j]));
            } else if j == c.len() - 1 {
                assert(w.contains(c[i]));
            } else {
                assert(c[i] == w[i] && c[j] == w[j]);
            }
        }
        assert forall|y: A| y != x implies (#[trigger] c.contains(y) == pressed.contains(y)) by {
            if c.contains(y) {
                let i = choose|i: int| 0 <= i < c.len() && c[i] == y;
                assert(w[i] == y);
            }
            if w.contains(y) {
                let i = choose|i: int| 0 <= i < w.len() && w[i] == y;
                assert(c[i] == y);
            }
        }
    }
}

/// A key held when its attachment is retired does not reach the next attachment:
/// its repeats and its release are swallowed, whatever else happens in between but
/// a fresh press or a release of that key.
pub proof fn lemma_retired_key_release_is_swallowed(input: InputView, key: u64, repeat: bool)
    requires
        input.pressed_keys.contains(key),
    ensures
        spec_suppress(spec_retire(input), key, ElementState::Released, repeat).1,
        spec_suppress(spec_retire(input), key, ElementState::Pressed, true).1,
        spec_suppress(spec_retire(input), key, ElementState::Pressed, true).0 == spec_retire(input),
{
    let retired = spec_retire(input).retired_keys;
    let i = choose|i: int| 0 <= i < input.pressed_keys.len() && input.pressed_keys[i] == key;
    assert(retired[input.retired_keys.len() + i] == key);
}

/// A recognized shortcut is one-shot: its press, its repeats and its release are
/// all consumed, and once released the capture is as it was before.
pub proof fn lemma_recognized_shortcut_is_one_shot(input: InputView, key: u64, repeat_recognized: bool, release_recognized: bool)
    requires
        !input.captured_shortcuts.contains(key),
    ensures
        ({
            let (pressed, consumed_press) = spec_consume(input, key, ElementState::Pressed, false, true);
            let (repeated, consumed_repeat) = spec_consume(pressed, key, ElementState::Pressed, true, repeat_recognized);
            let (released, consumed_release) = spec_consume(repeated, key, ElementState::Released, false, release_recognized);
            &&& consumed_press && consumed_repeat && consumed_release
            &&& released == input
        }),
{
    let captured = input.captured_shortcuts;
    let pushed = captured.push(key);
    assert(pushed[captured.len() as int] == key);
    assert(pushed.contains(key));
    pushed.index_of_first_ensures(key);
    let first = pushed.index_of_first(key).unwrap();
    if first < captured.len() {
        assert(captured[first] == key);
    }
    assert(pushed.update(first, pushed.last()).drop_last() =~= captured);
}

/// The notice for input that could not be encoded.
pub open spec fn encode_failure_notice(detail: Seq<char>) -> Seq<char> {
    "Venus could not encode input: "@ + detail
}

/// Report input that could not be encoded as the input path's notice.
pub fn record_encode_failure<S, R>(model: &mut SessionModel<S, R>, detail: &str)
    ensures
        final(model).current == old(model).current,
        final(model).scene == old(model).scene,
        final(model).connection == old(model).connection,
        old(model).connection.spec_is_terminal() ==> notices_view(final(model).notices@) == notices_view(old(model).notices@),
        !old(model).connection.spec_is_terminal() ==> notices_view(final(model).notices@)
            == notices_view(old(model).notices@).filter(keep_pred(NoticeFilter::DropVenus(LocalNoticeSource::Input))).push(
            (NoticeOwner::Venus(LocalNoticeSource::Input), bounded_text(encode_failure_notice(detail@)))),
{
    let mut notice = String::from_str("Venus could not encode input: ");
    notice.append(detail);
    model.set_venus_notice(LocalNoticeSource::Input, notice);
}

/// An input-method event as a key text for Orbit, if it commits one; a rejected
/// commit becomes the input path's notice instead.
pub fn native_ime_message<S, R>(input: &mut InputState, model: &mut SessionModel<S, R>, event: ImeEvent, max_text_bytes: usize) -> (text: Option<String>)
    ensures
        match event {
            ImeEvent::Commit(committed) => {
                &&& final(input)@ == (InputView { composing: false, preedit: Seq::empty(), ..old(input)@ })
                &&& committed@.len() > 0 && spec_key_text_ok(committed@, max_text_bytes as nat)
                    ==> (text matches Some(t) && t@ == committed@) && *final(model) == *old(model)
                &&& committed@.len() == 0 ==> text is None && *final(model) == *old(model)
                &&& committed@.len() > 0 && !spec_key_text_ok(committed@, max_text_bytes as nat) ==> {
                    &&& text is None
                    &&& final(model).connection == old(model).connection
                    &&& !old(model).connection.spec_is_terminal() ==> notices_view(final(model).notices@)
                        == notices_view(old(model).notices@).filter(keep_pred(NoticeFilter::DropVenus(LocalNoticeSource::Input))).push(
                        (NoticeOwner::Venus(LocalNoticeSource::Input), bounded_text(encode_failure_notice(IME_REJECTED@))))
                }
            },
            ImeEvent::Enabled => text is None && *final(model) == *old(model) && final(input)@ == old(input)@,
            ImeEvent::Disabled => text is None && *final(model) == *old(model)
                && final(input)@ == (InputView { composing: false, preedit: Seq::empty(), ..old(input)@ }),
            ImeEvent::Preedit(preedit) => text is None && *final(model) == *old(model)
                && final(input)@ == (InputView { composing: preedit@.len() > 0, preedit: preedit@, ..old(input)@ }),
        },
{
    match input.ime(event, max_text_bytes) {
        Ok(text) => text,
        Err(detail) => {
            record_encode_failure(model, detail);
            None
        },
    }
}

} // verus!
