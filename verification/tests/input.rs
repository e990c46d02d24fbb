use yazelix_venus::input::{
    native_ime_message, layout_metadata, KeyAction, KeyReport, native_modifiers, key_text, wheel_buttons, FocusEvent, ImeEvent, InputState, MouseAction,
    OrbitButton, PointerButton, SelectionEdge, IME_REJECTED, MAX_WHEEL_STEPS,
};
use yazelix_venus::interaction::ElementState::{self, Pressed, Released};
use yazelix_venus::model::{LocalNoticeSource, SessionModel};
use yazelix_venus::selection::SelectionStep;
use yazelix_venus::shortcuts::{Modifiers, ALT, CTRL, SHIFT, SUPER};

// Key identities as the native layer numbers them.
const KEY_A: u64 = 1;
const KEY_C: u64 = 2;
const KEY_H: u64 = 3;
const KEY_J: u64 = 4;
const KEY_V: u64 = 5;
const KEY_X: u64 = 6;
const ESCAPE: u64 = 7;
const PASTE: u64 = 8;
const CONTROL_LEFT: u64 = 9;

// The key-text limit that the session protocol sets.
const MAX_KEY_TEXT_BYTES: usize = 256;

fn m(bits: u8) -> Modifiers {
    Modifiers { bits }
}

#[test]
fn derives_layout_metadata_without_a_keyboard_map() {
    let mut input = InputState::new();
    input.set_modifiers(true, true, true, true);
    assert_eq!(input.modifiers(), m(SHIFT | CTRL | ALT | SUPER));

    for (text, unshifted, expected) in [
        ("?", "/", (Some('/'), m(SHIFT))),
        ("Ч", "ч", (Some('ч'), m(SHIFT))),
        ("SS", "ss", (None, m(SHIFT))),
        (" ", " ", (Some(' '), m(0))),
    ] {
        assert_eq!(layout_metadata(m(SHIFT), Some(text), Some(unshifted)), expected);
    }
    for modifier in [CTRL, ALT, SUPER] {
        assert_eq!(layout_metadata(m(SHIFT | modifier), Some("?"), Some("/")), (Some('/'), m(0)));
    }
    assert_eq!(layout_metadata(m(SHIFT), Some("?"), None), (None, m(0)));
}

#[test]
fn native_modifiers_are_a_bit_set() {
    assert_eq!(native_modifiers(false, false, false, false), m(0));
    assert_eq!(native_modifiers(true, false, false, false), m(SHIFT));
    assert_eq!(native_modifiers(false, true, true, false), m(CTRL | ALT));
    assert_eq!(native_modifiers(true, true, true, true), m(0x0f));
}

#[test]
fn ime_distinguishes_committed_rejected_and_state_only_text() {
    let mut input = InputState::new();
    assert_eq!(input.ime(ImeEvent::Enabled, MAX_KEY_TEXT_BYTES), Ok(None));
    assert_eq!(input.ime(ImeEvent::Preedit("a".into()), MAX_KEY_TEXT_BYTES), Ok(None));
    assert_eq!(input.preedit(), "a");
    assert_eq!(input.ime(ImeEvent::Commit("啊".into()), MAX_KEY_TEXT_BYTES), Ok(Some("啊".to_string())));
    assert!(input.preedit().is_empty());
    assert_eq!(input.ime(ImeEvent::Preedit("stale".into()), MAX_KEY_TEXT_BYTES), Ok(None));
    assert_eq!(input.ime(ImeEvent::Disabled, MAX_KEY_TEXT_BYTES), Ok(None));
    assert!(input.preedit().is_empty());

    assert_eq!(input.ime(ImeEvent::Commit(String::new()), MAX_KEY_TEXT_BYTES), Ok(None));
    let exact_bound = "x".repeat(MAX_KEY_TEXT_BYTES);
    assert_eq!(input.ime(ImeEvent::Commit(exact_bound.clone()), MAX_KEY_TEXT_BYTES), Ok(Some(exact_bound)));

    for rejected in ["x".repeat(MAX_KEY_TEXT_BYTES + 1), "\r".into(), "\u{f700}".into()] {
        assert_eq!(input.ime(ImeEvent::Preedit("discarded".into()), MAX_KEY_TEXT_BYTES), Ok(None));
        assert_eq!(input.ime(ImeEvent::Commit(rejected), MAX_KEY_TEXT_BYTES), Err(IME_REJECTED));
        assert!(input.preedit().is_empty());
    }
}

#[test]
fn focus_loss_clears_transient_native_input_state() {
    let mut input = InputState::new();
    assert_eq!(input.latest_focus(), None);
    assert_eq!(input.native_focus(true, true), FocusEvent::Gained);
    assert_eq!(input.latest_focus(), Some(FocusEvent::Gained));
    input.set_modifiers(false, true, false, false);
    assert_eq!(input.ime(ImeEvent::Preedit("compose".into()), MAX_KEY_TEXT_BYTES), Ok(None));
    input.commit_key(KEY_A, Pressed);
    input.commit_mouse_button(Pressed, PointerButton::Left);

    assert_eq!(input.native_focus(false, false), FocusEvent::Lost);
    assert_eq!(input.latest_focus(), Some(FocusEvent::Lost));
    assert!(input.preedit().is_empty());
    assert_eq!(input.motion_button(), None);
    assert_eq!(input.modifiers(), m(0));
    assert!(!input.suppresses_retired_key(KEY_A, Released, false));
}

#[test]
fn terminal_focus_preserves_native_modifiers_but_retires_terminal_state() {
    let mut input = InputState::new();
    input.native_focus(true, true);
    input.set_modifiers(false, true, false, false);
    input.commit_key(CONTROL_LEFT, Pressed);
    input.commit_mouse_button(Pressed, PointerButton::Left);
    assert_eq!(input.ime(ImeEvent::Preedit("compose".into()), MAX_KEY_TEXT_BYTES), Ok(None));
    input.commit_selection(SelectionStep::Begin { frame_revision: 1 });
    assert!(input.consumes_shortcut(PASTE, Pressed, false, true));
    assert!(input.consumes_shortcut(KEY_H, Pressed, false, true));

    assert_eq!(input.terminal_focus(false), FocusEvent::Lost);
    assert_eq!(input.modifiers(), m(CTRL));
    assert!(input.preedit().is_empty());
    assert!(!input.is_selecting());
    assert!(input.mouse_button(Released, PointerButton::Left, true).is_none());
    assert!(input.suppresses_retired_key(CONTROL_LEFT, Pressed, true));
    assert!(input.suppresses_retired_key(CONTROL_LEFT, Released, false));
    assert!(input.suppresses_retired_key(PASTE, Released, false));
    assert!(input.suppresses_retired_key(KEY_H, Released, false));

    assert_eq!(input.terminal_focus(true), FocusEvent::Gained);
    assert_eq!(input.modifiers(), m(CTRL));
}

#[test]
fn retiring_an_attachment_keeps_only_current_native_truth() {
    let mut input = InputState::new();
    input.native_focus(true, true);
    input.set_modifiers(false, false, true, false);
    assert!(!input.key_is_current(KEY_A, Released, false));
    assert!(!input.key_is_current(KEY_A, Pressed, true));
    assert!(input.key_is_current(KEY_A, Pressed, false));
    input.commit_key(KEY_A, Pressed);
    assert!(input.key_is_current(KEY_A, Pressed, true));
    assert!(input.key_is_current(KEY_A, Released, false));
    input.commit_mouse_button(Pressed, PointerButton::Right);
    assert_eq!(input.ime(ImeEvent::Preedit("stale".into()), MAX_KEY_TEXT_BYTES), Ok(None));

    assert_eq!(input.retire_orbit_generation(), Some(FocusEvent::Lost));
    assert_eq!(input.latest_focus(), Some(FocusEvent::Gained));
    assert_eq!(input.modifiers(), m(ALT));
    assert!(input.preedit().is_empty());
    assert!(input.mouse_button(Released, PointerButton::Right, true).is_none());
    assert!(input.suppresses_retired_key(KEY_A, Released, false));
    assert!(!input.suppresses_retired_key(KEY_A, Released, false));
}

#[test]
fn a_fresh_press_of_a_retired_key_starts_a_new_sequence() {
    let mut input = InputState::new();
    input.commit_key(KEY_A, Pressed);
    assert_eq!(input.retire_orbit_generation(), None);
    assert!(input.suppresses_retired_key(KEY_A, Pressed, true));
    assert!(!input.suppresses_retired_key(KEY_A, Pressed, false));
    assert!(!input.suppresses_retired_key(KEY_A, Released, false));
}

#[test]
fn pointer_motion_keeps_the_remaining_pressed_button() {
    for (released, expected) in [(PointerButton::Left, OrbitButton::Right), (PointerButton::Right, OrbitButton::Left)] {
        let mut input = InputState::new();
        input.commit_mouse_button(Pressed, PointerButton::Left);
        input.commit_mouse_button(Pressed, PointerButton::Right);
        input.commit_mouse_button(Released, released);
        assert_eq!(input.motion_button(), Some(expected));
    }
}

#[test]
fn button_pairing_survives_presentation_and_queue_gates() {
    let mut input = InputState::new();
    assert!(input.mouse_button(Pressed, PointerButton::Left, false).is_none());
    assert!(input.mouse_button(Released, PointerButton::Left, true).is_none());
    assert!(input.mouse_button(Pressed, PointerButton::Right, true).is_some());
    assert_eq!(input.motion_button(), None);

    input.commit_mouse_button(Pressed, PointerButton::Right);
    assert!(input.mouse_button(Pressed, PointerButton::Right, true).is_none());
    assert_eq!(
        input.mouse_button(Released, PointerButton::Right, false),
        Some((MouseAction::Release, OrbitButton::Right))
    );
    assert_eq!(input.motion_button(), Some(OrbitButton::Right));

    input.commit_mouse_button(Released, PointerButton::Right);
    assert_eq!(input.motion_button(), None);
}

#[test]
fn native_buttons_have_orbit_names() {
    let mut input = InputState::new();
    for (native, orbit) in [
        (PointerButton::Middle, OrbitButton::Middle),
        (PointerButton::Back, OrbitButton::Eight),
        (PointerButton::Forward, OrbitButton::Nine),
        (PointerButton::Other(10), OrbitButton::Ten),
        (PointerButton::Other(11), OrbitButton::Eleven),
        (PointerButton::Other(12), OrbitButton::Unknown),
    ] {
        assert_eq!(input.mouse_button(Pressed, native, true), Some((MouseAction::Press, orbit)));
        input.commit_mouse_button(Pressed, native);
        assert_eq!(input.motion_button(), Some(orbit));
    }
}

#[test]
fn wheel_steps_are_capped_and_vertical_first() {
    assert!(wheel_buttons(0, 0).is_empty());
    assert_eq!(wheel_buttons(1, 0), vec![OrbitButton::Four]);
    assert_eq!(wheel_buttons(1, 1), vec![OrbitButton::Four, OrbitButton::Six]);
    assert_eq!(wheel_buttons(0, -2), vec![OrbitButton::Seven, OrbitButton::Seven]);
    let burst = wheel_buttons(-1_000, 0);
    assert_eq!(burst.len(), MAX_WHEEL_STEPS);
    assert!(burst.iter().all(|button| *button == OrbitButton::Five));
    let mixed = wheel_buttons(30, 5);
    assert_eq!(mixed.len(), 32);
    assert_eq!(mixed[29], OrbitButton::Four);
    assert_eq!(mixed[30], OrbitButton::Six);
    assert_eq!(wheel_buttons(i64::MIN, 3).len(), 32);
}

#[test]
fn left_drag_and_copy_are_explicit_revision_bound_actions() {
    let mut input = InputState::new();
    input.commit_mouse_button(Pressed, PointerButton::Right);
    assert_eq!(input.selection_edge(Pressed, PointerButton::Left), None);
    input.commit_mouse_button(Released, PointerButton::Right);
    assert_eq!(input.selection_edge(Pressed, PointerButton::Left), Some(SelectionEdge::Begin));
    assert_eq!(input.selection_edge(Pressed, PointerButton::Right), None);
    input.commit_selection(SelectionStep::Begin { frame_revision: 9 });
    assert!(input.is_selecting());
    assert!(input.pointer_busy());
    assert!(input.mouse_button(Pressed, PointerButton::Right, true).is_none());

    input.commit_selection(SelectionStep::Update);
    assert_eq!(input.selection_edge(Released, PointerButton::Left), Some(SelectionEdge::Finish));
    assert!(input.is_selecting());
    input.commit_selection(SelectionStep::Finish);
    assert!(!input.is_selecting());
    assert!(!input.pointer_busy());

    input.set_modifiers(true, true, false, false);
    assert!(input.consumes_shortcut(KEY_C, Pressed, false, true));
    input.set_modifiers(false, false, false, false);
    assert!(input.consumes_shortcut(KEY_C, Released, false, false));
    assert!(!input.consumes_shortcut(KEY_X, Pressed, false, false));
}

#[test]
fn native_control_text_does_not_replace_physical_key_meaning() {
    assert_eq!(key_text("a", MAX_KEY_TEXT_BYTES), Some("a".into()));
    assert_eq!(key_text("界", MAX_KEY_TEXT_BYTES), Some("界".into()));
    assert_eq!(key_text("\r", MAX_KEY_TEXT_BYTES), None);
    assert_eq!(key_text("\u{f700}", MAX_KEY_TEXT_BYTES), None);
    assert_eq!(key_text("\u{7f}", MAX_KEY_TEXT_BYTES), None);
    assert_eq!(key_text("", MAX_KEY_TEXT_BYTES), None);
    assert_eq!(key_text("界", 2), None);
}

#[test]
fn recognized_shortcuts_are_one_shot() {
    let mut input = InputState::new();
    assert!(!input.consumes_shortcut(KEY_V, Pressed, false, false));
    assert!(input.consumes_shortcut(KEY_V, Pressed, false, true));
    assert!(input.consumes_shortcut(KEY_V, Pressed, true, false));
    assert!(input.consumes_shortcut(KEY_V, Released, false, false));
    assert!(!input.consumes_shortcut(KEY_V, Released, false, false));

    assert!(input.consumes_shortcut(PASTE, Pressed, false, true));
    input.native_focus(false, false);
    assert!(!input.consumes_shortcut(PASTE, Released, false, false));

    assert!(input.consumes_shortcut(KEY_V, Pressed, false, true));
    assert!(input.consumes_shortcut(PASTE, Pressed, false, true));
    assert!(input.consumes_shortcut(KEY_V, Released, false, false));
    assert!(input.consumes_shortcut(PASTE, Released, false, false));

    assert!(input.consumes_shortcut(KEY_V, Pressed, false, true));
    assert!(input.consumes_shortcut(KEY_V, Released, false, false));
}

#[test]
fn workspace_shortcut_capture_starts_once_and_retains_release() {
    let mut input = InputState::new();
    let mut shortcut =
        |key: u64, state: ElementState, repeat: bool, recognized: bool| input.consumes_shortcut(key, state, repeat, recognized);
    assert!(!shortcut(KEY_H, Pressed, true, true));
    assert!(shortcut(KEY_H, Pressed, false, true));
    assert!(shortcut(KEY_H, Pressed, true, true));
    assert!(shortcut(KEY_H, Released, false, false));
    assert!(shortcut(ESCAPE, Pressed, false, true));
    assert!(shortcut(ESCAPE, Released, false, false));
    assert!(!shortcut(KEY_J, Released, false, false));
}

#[test]
fn rejected_native_ime_commit_uses_the_input_notice_owner() {
    let mut input = InputState::new();
    let mut model: SessionModel<u32, Vec<u8>> = SessionModel::new();
    let rejected = "x".repeat(MAX_KEY_TEXT_BYTES + 1);

    assert_eq!(native_ime_message(&mut input, &mut model, ImeEvent::Commit(rejected), MAX_KEY_TEXT_BYTES), None);
    assert_eq!(
        model.notice(),
        Some("Venus could not encode input: native input method commit is not accepted semantic key text")
    );
    assert_eq!(
        native_ime_message(&mut input, &mut model, ImeEvent::Commit("界".into()), MAX_KEY_TEXT_BYTES),
        Some("界".to_string())
    );
    assert!(model.clear_venus_notice(LocalNoticeSource::Input));
    assert_eq!(model.notice(), None);
}

#[test]
fn key_reports_carry_layout_text_and_composition() {
    let mut input = InputState::new();
    input.set_modifiers(true, false, false, false);
    assert_eq!(input.key(KEY_A, Released, false, None, Some("a"), MAX_KEY_TEXT_BYTES), None);
    assert_eq!(input.key(KEY_A, Pressed, true, Some("A"), Some("a"), MAX_KEY_TEXT_BYTES), None);
    assert_eq!(
        input.key(KEY_A, Pressed, false, Some("A"), Some("a"), MAX_KEY_TEXT_BYTES),
        Some(KeyReport {
            action: KeyAction::Press,
            modifiers: m(SHIFT),
            consumed_modifiers: m(SHIFT),
            composing: false,
            text: Some("A".into()),
            unshifted_codepoint: Some('a'),
        })
    );
    input.commit_key(KEY_A, Pressed);
    let repeat = input.key(KEY_A, Pressed, true, Some("\r"), None, MAX_KEY_TEXT_BYTES).unwrap();
    assert_eq!(repeat.action, KeyAction::Repeat);
    assert_eq!(repeat.text, None);
    assert_eq!(repeat.unshifted_codepoint, None);
    assert_eq!(input.ime(ImeEvent::Preedit("か".into()), MAX_KEY_TEXT_BYTES), Ok(None));
    let release = input.key(KEY_A, Released, false, None, Some("a"), MAX_KEY_TEXT_BYTES).unwrap();
    assert_eq!(release.action, KeyAction::Release);
    assert!(release.composing);
    assert_eq!(release.consumed_modifiers, m(0));
}
