use yazelix_venus::clipboard::{
    NativeClipboard, clipboard_notice, clipboard_paste_message, clipboard_paste_notice, native_clipboard_for,
};
use yazelix_venus::model::{ClipboardEffect, ClipboardLocation};
use yazelix_venus::platform::NativePlatform;

#[test]
fn clipboard_results_are_attributed_without_copying_terminal_cells() {
    assert_eq!(clipboard_notice(NativeClipboard::Standard, Ok(())), "Text copied to the native clipboard.");
    assert_eq!(clipboard_notice(NativeClipboard::Both, Ok(())), "Text copied to the native clipboard and primary selection.");
    assert_eq!(
        clipboard_notice(NativeClipboard::Standard, Err("display unavailable")),
        "Venus could not write the native clipboard: display unavailable"
    );
}

#[test]
fn clipboard_effects_preserve_native_targets() {
    let copy = |location| ClipboardEffect::SelectionCopy { location, text: "text".into() };
    let write = |location| ClipboardEffect::TerminalWrite { location, text: "text".into() };
    for (effect, expected) in [
        (copy(ClipboardLocation::Selection), NativeClipboard::Both),
        (copy(ClipboardLocation::Standard), NativeClipboard::Standard),
        (copy(ClipboardLocation::Primary), NativeClipboard::Primary),
        (write(ClipboardLocation::Standard), NativeClipboard::Standard),
        (write(ClipboardLocation::Selection), NativeClipboard::Primary),
        (write(ClipboardLocation::Primary), NativeClipboard::Primary),
    ] {
        assert_eq!(native_clipboard_for(NativePlatform::Linux, &effect), expected);
        assert_eq!(native_clipboard_for(NativePlatform::Macos, &effect), NativeClipboard::Standard);
    }
}

#[test]
fn paste_failures_name_the_native_clipboard() {
    assert_eq!(
        clipboard_paste_notice("display unavailable"),
        "Venus could not paste from the native clipboard: display unavailable"
    );
}

// The paste limit that the session protocol sets.
const MAX_PASTE_BYTES: usize = 1024;

#[test]
fn native_clipboard_text_becomes_one_bounded_semantic_paste() {
    let text = "first\n界\0second";
    assert_eq!(clipboard_paste_message(text.as_bytes().to_vec(), MAX_PASTE_BYTES), Ok(text.as_bytes().to_vec()));
    assert_eq!(
        clipboard_paste_message(Vec::new(), MAX_PASTE_BYTES).unwrap_err(),
        "The native clipboard contains no text"
    );
    // A reader takes at most one byte past the limit.
    let oversized = vec![b'x'; MAX_PASTE_BYTES + 1];
    assert_eq!(
        clipboard_paste_message(oversized, MAX_PASTE_BYTES).unwrap_err(),
        format!("Native clipboard text exceeds the {} byte paste limit", MAX_PASTE_BYTES)
    );
    assert!(clipboard_paste_message(vec![b'x'; MAX_PASTE_BYTES], MAX_PASTE_BYTES).is_ok());
    assert_eq!(
        clipboard_paste_message(vec![0xff], MAX_PASTE_BYTES).unwrap_err(),
        "stream did not contain valid UTF-8"
    );
    assert_eq!(
        clipboard_paste_notice("display unavailable"),
        "Venus could not paste from the native clipboard: display unavailable"
    );
}
