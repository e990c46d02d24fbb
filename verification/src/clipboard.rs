//! Native clipboard targets and the notices that report clipboard results.

use vstd::prelude::*;
use vstd::string::StringExecFns;
use crate::model::{ClipboardEffect, ClipboardLocation};
use crate::platform::NativePlatform;
use crate::text::{decimal, push_decimal, is_utf8};

verus! {

/// Which native clipboard a write goes to.
#[derive(Clone, Copy, Debug, PartialEq, Eq, Structural)]
pub enum NativeClipboard {
    Standard,
    Primary,
    Both,
}

/// The native clipboard for an Orbit clipboard effect. macOS has one clipboard; on
/// Linux a selection copy to the selection location reaches both clipboards.
pub open spec fn spec_native_clipboard_for(platform: NativePlatform, effect: ClipboardEffect) -> NativeClipboard {
    if platform == NativePlatform::Macos {
        NativeClipboard::Standard
    } else {
        match effect {
            ClipboardEffect::SelectionCopy { location, .. } => match location {
                ClipboardLocation::Selection => NativeClipboard::Both,
                ClipboardLocation::Standard => NativeClipboard::Standard,
                ClipboardLocation::Primary => NativeClipboard::Primary,
            },
            ClipboardEffect::TerminalWrite { location, .. } => match location {
                ClipboardLocation::Standard => NativeClipboard::Standard,
                _ => NativeClipboard::Primary,
            },
        }
    }
}

pub fn native_clipboard_for(platform: NativePlatform, effect: &ClipboardEffect) -> (clipboard: NativeClipboard)
    ensures
        clipboard == spec_native_clipboard_for(platform, *effect),
{
    if let NativePlatform::Macos = platform {
        return NativeClipboard::Standard;
    }
    match effect {
        ClipboardEffect::SelectionCopy { location, .. } => match location {
            ClipboardLocation::Selection => NativeClipboard::Both,
            ClipboardLocation::Standard => NativeClipboard::Standard,
            ClipboardLocation::Primary => NativeClipboard::Primary,
        },
        ClipboardEffect::TerminalWrite { location, .. } => match location {
            ClipboardLocation::Standard => NativeClipboard::Standard,
            _ => NativeClipboard::Primary,
        },
    }
}

/// The notice for a clipboard write: where the text went, or why it did not.
pub open spec fn spec_clipboard_notice(clipboard: NativeClipboard, result: Result<(), Seq<char>>) -> Seq<char> {
    match result {
        Err(error) => "Venus could not write the native clipboard: "@ + error,
        Ok(()) => match clipboard {
            NativeClipboard::Standard => "Text copied to the native clipboard."@,
            NativeClipboard::Primary => "Text copied to the native primary selection."@,
            NativeClipboard::Both => "Text copied to the native clipboard and primary selection."@,
        },
    }
}

pub fn clipboard_notice(clipboard: NativeClipboard, result: Result<(), &str>) -> (notice: String)
    ensures
        notice@ == spec_clipboard_notice(clipboard, match result {
            Ok(()) => Ok(()),
            Err(error) => Err(error@),
        }),
{
    match result {
        Err(error) => {
            let mut notice = String::from_str("Venus could not write the native clipboard: ");
            notice.append(error);
            notice
        }
        Ok(()) => String::from_str(match clipboard {
            NativeClipboard::Standard => "Text copied to the native clipboard.",
            NativeClipboard::Primary => "Text copied to the native primary selection.",
            NativeClipboard::Both => "Text copied to the native clipboard and primary selection.",
        }),
    }
}

/// The notice for a paste that could not be read.
pub fn clipboard_paste_notice(error: &str) -> (notice: String)
    ensures
        notice@ == "Venus could not paste from the native clipboard: "@ + error@,
{
    let mut notice = String::from_str("Venus could not paste from the native clipboard: ");
    notice.append(error);
    notice
}

pub open spec fn spec_paste_verdict(text: Seq<u8>, max_paste_bytes: nat) -> Result<Seq<u8>, Seq<char>> {
    if text.len() == 0 {
        Err("The native clipboard contains no text"@)
    } else if text.len() > max_paste_bytes {
        Err("Native clipboard text exceeds the "@ + decimal(max_paste_bytes) + " byte paste limit"@)
    } else if !vstd::utf8::valid_utf8(text) {
        Err("stream did not contain valid UTF-8"@)
    } else {
        Ok(text)
    }
}

/// The paste that native clipboard text becomes: the bytes read from the
/// clipboard, of which at most one past `max_paste_bytes` need be read, pasted
/// whole when they are non-empty UTF-8 within the limit, and refused otherwise
/// with the reason.
pub fn clipboard_paste_message(text: Vec<u8>, max_paste_bytes: usize) -> (paste: Result<Vec<u8>, String>)
    ensures
        match spec_paste_verdict(text@, max_paste_bytes as nat) {
            Ok(bytes) => paste matches Ok(pasted) && pasted@ == bytes,
            Err(reason) => paste matches Err(message) && message@ == reason,
        },
{
    if text.len() == 0 {
        return Err(String::from_str("The native clipboard contains no text"));
    }
    if text.len() > max_paste_bytes {
        let mut message = String::from_str("Native clipboard text exceeds the ");
        push_decimal(&mut message, max_paste_bytes as u64);
        message.append(" byte paste limit");
        return Err(message);
    }
    if !is_utf8(text.as_slice()) {
        return Err(String::from_str("stream did not contain valid UTF-8"));
    }
    Ok(text)
}

} // verus!
