//! Command-line arguments of one Venus window.
//!
//! Arguments arrive as raw bytes. Option values that name a number stay text here;
//! the caller parses them as floating-point numbers and refuses them with the same
//! usage error when they are out of range.

use vstd::prelude::*;
use vstd::string::StringSliceAdditionalSpecFns;
use crate::text::{bytes_eq, copy_bytes, is_utf8};

verus! {

/// The usage line returned for every refused command line.
pub open spec fn usage() -> Seq<char> {
    "usage: yazelix-venus [--application-id ID] [--no-decorations] [--background-opacity VALUE] [--background-blur] [--cursor-effect-v1 none|tail] [--cursor-trail-color-v1 #RRGGBB --cursor-trail-duration-v1 0.25..4.0] [ORBIT_SOCKET [EON_WORKSPACE_SOCKET]]"@
}

/// The usage line.
pub fn usage_text() -> (text: &'static str)
    ensures
        text@ == usage(),
{
    "usage: yazelix-venus [--application-id ID] [--no-decorations] [--background-opacity VALUE] [--background-blur] [--cursor-effect-v1 none|tail] [--cursor-trail-color-v1 #RRGGBB --cursor-trail-duration-v1 0.25..4.0] [ORBIT_SOCKET [EON_WORKSPACE_SOCKET]]"
}

/// An RGB color.
#[derive(Clone, Copy, Debug, PartialEq, Eq, Structural)]
pub struct Color {
    pub r: u8,
    pub g: u8,
    pub b: u8,
}

/// Whether an application id is 1 to 128 bytes of letters, digits, `-`, `_` and `.`.
pub open spec fn spec_valid_application_id(value: Seq<u8>) -> bool {
    &&& 0 < value.len() <= 128
    &&& forall|i: int| 0 <= i < value.len() ==> crate::links::is_alnum(#[trigger] value[i]) || value[i] == 0x2d
        || value[i] == 0x5f || value[i] == 0x2e
}

/// Check an application id.
pub fn valid_application_id(value: &[u8]) -> (valid: bool)
    ensures
        valid == spec_valid_application_id(value@),
{
    if value.len() == 0 || value.len() > 128 {
        return false;
    }
    let mut i: usize = 0;
    while i < value.len()
        invariant
            i <= value@.len(),
            forall|k: int| 0 <= k < i ==> crate::links::is_alnum(#[trigger] value@[k]) || value@[k] == 0x2d
                || value@[k] == 0x5f || value@[k] == 0x2e,
        decreases value@.len() - i,
    {
        let c = value[i];
        let alnum = (0x30 <= c && c <= 0x39) || (0x41 <= c && c <= 0x5a) || (0x61 <= c && c <= 0x7a);
        if !(alnum || c == 0x2d || c == 0x5f || c == 0x2e) {
            return false;
        }
        i = i + 1;
    }
    true
}

/// The value of one hex digit.
pub open spec fn hex_value(c: u8) -> int {
    if 0x30 <= c <= 0x39 { c - 0x30 } else if 0x41 <= c <= 0x46 { c - 0x41 + 10 } else { c - 0x61 + 10 }
}

fn hex_digit(c: u8) -> (value: u8)
    requires
        crate::links::is_hex(c),
    ensures
        value as int == hex_value(c),
        value < 16,
{
    if 0x30 <= c && c <= 0x39 { c - 0x30 } else if 0x41 <= c && c <= 0x46 { c - 0x41 + 10 } else { c - 0x61 + 10 }
}

/// A `#RRGGBB` color in ASCII hex digits of either case.
pub open spec fn spec_parse_cursor_color(value: Seq<u8>) -> Option<Color> {
    if value.len() == 7 && value[0] == 0x23 && (forall|i: int| 1 <= i < 7 ==> crate::links::is_hex(#[trigger] value[i])) {
        Some(Color {
            r: (hex_value(value[1]) * 16 + hex_value(value[2])) as u8,
            g: (hex_value(value[3]) * 16 + hex_value(value[4])) as u8,
            b: (hex_value(value[5]) * 16 + hex_value(value[6])) as u8,
        })
    } else {
        None
    }
}

/// Parse a `#RRGGBB` color.
pub fn parse_cursor_color(value: &[u8]) -> (color: Option<Color>)
    ensures
        color == spec_parse_cursor_color(value@),
{
    if value.len() != 7 || value[0] != 0x23 {
        return None;
    }
    let mut i: usize = 1;
    while i < 7
        invariant
            1 <= i <= 7,
            value@.len() == 7,
            forall|k: int| 1 <= k < i ==> crate::links::is_hex(#[trigger] value@[k]),
        decreases 7 - i,
    {
        let c = value[i];
        if !((0x30 <= c && c <= 0x39) || (0x41 <= c && c <= 0x46) || (0x61 <= c && c <= 0x66)) {
            return None;
        }
        i = i + 1;
    }
    let r = hex_digit(value[1]) * 16 + hex_digit(value[2]);
    let g = hex_digit(value[3]) * 16 + hex_digit(value[4]);
    let b = hex_digit(value[5]) * 16 + hex_digit(value[6]);
    Some(Color { r, g, b })
}

/// Options gathered while scanning the command line.
pub struct ParseState {
    pub application_id: Option<Seq<u8>>,
    pub orbit_socket: Option<Seq<u8>>,
    pub workspace_socket: Option<Seq<u8>>,
    pub decorations: bool,
    pub background_opacity: Option<Seq<u8>>,
    pub background_blur: bool,
    pub cursor_effect: Option<bool>,
    pub cursor_trail_color: Option<Color>,
    pub cursor_trail_duration: Option<Seq<u8>>,
    pub font_family: Option<Seq<u8>>,
    pub font_size: Option<Seq<u8>>,
    pub line_height: Option<Seq<u8>>,
    pub columns: Option<u16>,
    pub rows: Option<u16>,
}

pub open spec fn initial_state() -> ParseState {
    ParseState {
        application_id: None,
        orbit_socket: None,
        workspace_socket: None,
        decorations: true,
        background_opacity: None,
        background_blur: false,
        cursor_effect: None,
        cursor_trail_color: None,
        cursor_trail_duration: None,
        font_family: None,
        font_size: None,
        line_height: None,
        columns: None,
        rows: None,
    }
}

/// Whether a byte is an ASCII decimal digit.
pub open spec fn is_digit(b: u8) -> bool {
    0x30 <= b <= 0x39
}

/// The number that a string of decimal digits writes.
pub open spec fn decimal_value(s: Seq<u8>) -> nat
    decreases s.len(),
{
    if s.len() == 0 { 0 } else { decimal_value(s.drop_last()) * 10 + (s.last() - 0x30) as nat }
}

/// A grid dimension: one to five decimal digits writing a number from 1 to 65535.
pub open spec fn spec_parse_count(v: Seq<u8>) -> Option<u16> {
    if 0 < v.len() <= 5 && (forall|k: int| 0 <= k < v.len() ==> is_digit(#[trigger] v[k])) && 0 < decimal_value(v)
        <= u16::MAX {
        Some(decimal_value(v) as u16)
    } else {
        None
    }
}

pub open spec fn pow10(n: nat) -> nat
    decreases n,
{
    if n == 0 { 1 } else { 10 * pow10((n - 1) as nat) }
}

proof fn lemma_pow10_small(n: nat)
    requires
        n <= 4,
    ensures
        pow10(n) <= 10000,
{
    reveal_with_fuel(pow10, 5);
    if n == 0 {
    } else if n == 1 {
    } else if n == 2 {
    } else if n == 3 {
    } else {
        assert(n == 4);
    }
}

/// Read a grid dimension.
pub fn parse_count(v: &[u8]) -> (count: Option<u16>)
    ensures
        count == spec_parse_count(v@),
{
    if v.len() == 0 || v.len() > 5 {
        return None;
    }
    let mut value: u32 = 0;
    let mut i: usize = 0;
    while i < v.len()
        invariant
            0 < v@.len() <= 5,
            i <= v@.len(),
            forall|k: int| 0 <= k < i ==> is_digit(#[trigger] v@[k]),
            value as int == decimal_value(v@.take(i as int)),
            (value as nat) < pow10(i as nat),
        decreases v@.len() - i,
    {
        let b = v[i];
        if !(0x30 <= b && b <= 0x39) {
            assert(!is_digit(v@[i as int]));
            return None;
        }
        proof {
            lemma_pow10_small(i as nat);
            assert(v@.take(i + 1).drop_last() =~= v@.take(i as int));
        }
        value = value * 10 + (b - 0x30) as u32;
        i = i + 1;
    }
    assert(v@.take(v@.len() as int) =~= v@);
    if value == 0 || value > 65535 {
        return None;
    }
    Some(value as u16)
}

/// Scan the arguments from `i` on: each option at most once, each option value
/// present, at most two sockets, nothing else that starts with `-`.
pub open spec fn parse_from(args: Seq<Seq<u8>>, i: int, st: ParseState) -> Option<ParseState>
    decreases args.len() - i,
{
    if i < 0 || i >= args.len() {
        Some(st)
    } else {
        let a = args[i];
        let has_value = i + 1 < args.len();
        let v = args[i + 1];
        if a == "--application-id".spec_bytes() {
            if st.application_id is Some || !has_value || !vstd::utf8::valid_utf8(v) || !spec_valid_application_id(v) {
                None
            } else {
                parse_from(args, i + 2, ParseState { application_id: Some(v), ..st })
            }
        } else if a == "--no-decorations".spec_bytes() {
            parse_from(args, i + 1, ParseState { decorations: false, ..st })
        } else if a == "--background-opacity".spec_bytes() {
            if st.background_opacity is Some || !has_value || !vstd::utf8::valid_utf8(v) {
                None
            } else {
                parse_from(args, i + 2, ParseState { background_opacity: Some(v), ..st })
            }
        } else if a == "--background-blur".spec_bytes() {
            if st.background_blur { None } else { parse_from(args, i + 1, ParseState { background_blur: true, ..st }) }
        } else if a == "--cursor-effect-v1".spec_bytes() {
            if st.cursor_effect is Some || !has_value {
                None
            } else if v == "none".spec_bytes() {
                parse_from(args, i + 2, ParseState { cursor_effect: Some(false), ..st })
            } else if v == "tail".spec_bytes() {
                parse_from(args, i + 2, ParseState { cursor_effect: Some(true), ..st })
            } else {
                None
            }
        } else if a == "--cursor-trail-color-v1".spec_bytes() {
            if st.cursor_trail_color is Some || !has_value || !vstd::utf8::valid_utf8(v) || spec_parse_cursor_color(v) is None {
                None
            } else {
                parse_from(args, i + 2, ParseState { cursor_trail_color: spec_parse_cursor_color(v), ..st })
            }
        } else if a == "--cursor-trail-duration-v1".spec_bytes() {
            if st.cursor_trail_duration is Some || !has_value || !vstd::utf8::valid_utf8(v) {
                None
            } else {
                parse_from(args, i + 2, ParseState { cursor_trail_duration: Some(v), ..st })
            }
        } else if a == "--workspace".spec_bytes() {
            if st.workspace_socket is Some || !has_value {
                None
            } else {
                parse_from(args, i + 2, ParseState { workspace_socket: Some(v), ..st })
            }
        } else if a == "--font-family".spec_bytes() {
            if st.font_family is Some || !has_value || !vstd::utf8::valid_utf8(v) {
                None
            } else {
                parse_from(args, i + 2, ParseState { font_family: Some(v), ..st })
            }
        } else if a == "--font-size".spec_bytes() {
            if st.font_size is Some || !has_value || !vstd::utf8::valid_utf8(v) {
                None
            } else {
                parse_from(args, i + 2, ParseState { font_size: Some(v), ..st })
            }
        } else if a == "--line-height".spec_bytes() {
            if st.line_height is Some || !has_value || !vstd::utf8::valid_utf8(v) {
                None
            } else {
                parse_from(args, i + 2, ParseState { line_height: Some(v), ..st })
            }
        } else if a == "--columns".spec_bytes() {
            if st.columns is Some || !has_value || spec_parse_count(v) is None {
                None
            } else {
                parse_from(args, i + 2, ParseState { columns: spec_parse_count(v), ..st })
            }
        } else if a == "--rows".spec_bytes() {
            if st.rows is Some || !has_value || spec_parse_count(v) is None {
                None
            } else {
                parse_from(args, i + 2, ParseState { rows: spec_parse_count(v), ..st })
            }
        } else if a.len() > 0 && a[0] == 0x2d {
            None
        } else if st.orbit_socket is None {
            parse_from(args, i + 1, ParseState { orbit_socket: Some(a), ..st })
        } else if st.workspace_socket is None {
            parse_from(args, i + 1, ParseState { workspace_socket: Some(a), ..st })
        } else {
            None
        }
    }
}

/// How the cursor trail is configured.
#[derive(Clone, Debug, PartialEq, Eq)]
pub enum CursorTail {
    /// No option given: the default color for one second.
    Default,
    /// `--cursor-effect-v1 none`.
    Disabled,
    /// `--cursor-effect-v1 tail` with a color and the duration text.
    Custom { color: Color, duration: Vec<u8> },
}


/// Arguments of one Venus window.
#[derive(Clone, Debug, PartialEq, Eq)]
pub struct LaunchArguments {
    pub application_id: Vec<u8>,
    /// The Orbit socket; without one, the platform's default socket is used.
    pub orbit_socket: Option<Vec<u8>>,
    pub workspace_socket: Option<Vec<u8>>,
    pub supervised: bool,
    pub decorations: bool,
    /// The opacity text, still to be parsed as a number in `0..=1`.
    pub background_opacity: Option<Vec<u8>>,
    pub background_blur: bool,
    pub cursor_tail: CursorTail,
    /// The font family name, still to be checked as a font name.
    pub font_family: Option<Vec<u8>>,
    /// The font size text, still to be parsed as a number in `6..=96`.
    pub font_size: Option<Vec<u8>>,
    /// The line height text, still to be parsed as a number in `1..=3`.
    pub line_height: Option<Vec<u8>>,
    /// The terminal grid asked for, in cells.
    pub columns: Option<u16>,
    pub rows: Option<u16>,
}

pub open spec fn opt_view(value: Option<Vec<u8>>) -> Option<Seq<u8>> {
    match value {
        Some(v) => Some(v@),
        None => None,
    }
}

/// Whether `parsed` is what a successful scan `st` with presentation control
/// `control` yields.
pub open spec fn assembled(parsed: LaunchArguments, st: ParseState, control: Option<Seq<u8>>) -> bool {
    &&& parsed.application_id@ == match st.application_id {
        Some(id) => id,
        None => "eon".spec_bytes(),
    }
    &&& opt_view(parsed.orbit_socket) == st.orbit_socket
    &&& opt_view(parsed.workspace_socket) == st.workspace_socket
    &&& parsed.supervised == (control == Some("stdin".spec_bytes()))
    &&& parsed.decorations == st.decorations
    &&& opt_view(parsed.background_opacity) == st.background_opacity
    &&& parsed.background_blur == st.background_blur
    &&& opt_view(parsed.font_family) == st.font_family
    &&& opt_view(parsed.font_size) == st.font_size
    &&& opt_view(parsed.line_height) == st.line_height
    &&& parsed.columns == st.columns
    &&& parsed.rows == st.rows
    &&& match (st.cursor_effect, st.cursor_trail_color, st.cursor_trail_duration) {
        (None, None, None) => parsed.cursor_tail == CursorTail::Default,
        (Some(false), None, None) => parsed.cursor_tail == CursorTail::Disabled,
        (Some(true), Some(color), Some(duration)) => parsed.cursor_tail matches CursorTail::Custom { color: c, duration: d }
            && c == color && d@ == duration,
        _ => false,
    }
}

/// Whether the trail options of a scan fit together.
pub open spec fn tail_fits(st: ParseState) -> bool {
    match (st.cursor_effect, st.cursor_trail_color, st.cursor_trail_duration) {
        (None, None, None) => true,
        (Some(false), None, None) => true,
        (Some(true), Some(_), Some(_)) => true,
        _ => false,
    }
}

/// The arguments as byte strings.
pub open spec fn args_view(args: Seq<Vec<u8>>) -> Seq<Seq<u8>> {
    args.map_values(|a: Vec<u8>| a@)
}

/// Parse a command line; `None` is a usage error.
pub fn launch_arguments(args: &Vec<Vec<u8>>, presentation_control: Option<&[u8]>) -> (parsed: Option<LaunchArguments>)
    ensures
        ({
            let control = match presentation_control {
                Some(c) => Some(c@),
                None => None,
            };
            match parse_from(args_view(args@), 0, initial_state()) {
                None => parsed is None,
                Some(st) => if tail_fits(st) {
                    parsed matches Some(p) && assembled(p, st, control)
                } else {
                    parsed is None
                },
            }
        }),
{
    let ghost view = args_view(args@);
    let mut application_id: Option<Vec<u8>> = None;
    let mut orbit_socket: Option<Vec<u8>> = None;
    let mut workspace_socket: Option<Vec<u8>> = None;
    let mut decorations = true;
    let mut background_opacity: Option<Vec<u8>> = None;
    let mut background_blur = false;
    let mut cursor_effect: Option<bool> = None;
    let mut cursor_trail_color: Option<Color> = None;
    let mut cursor_trail_duration: Option<Vec<u8>> = None;
    let mut font_family: Option<Vec<u8>> = None;
    let mut font_size: Option<Vec<u8>> = None;
    let mut line_height: Option<Vec<u8>> = None;
    let mut columns: Option<u16> = None;
    let mut rows: Option<u16> = None;
    let mut i: usize = 0;
    while i < args.len()
        invariant
            i <= args@.len(),
            view == args_view(args@),
            parse_from(view, 0, initial_state()) == parse_from(view, i as int, ParseState {
                application_id: opt_view(application_id),
                orbit_socket: opt_view(orbit_socket),
                workspace_socket: opt_view(workspace_socket),
                decorations,
                background_opacity: opt_view(background_opacity),
                background_blur,
                cursor_effect,
                cursor_trail_color,
                cursor_trail_duration: opt_view(cursor_trail_duration),
                font_family: opt_view(font_family),
                font_size: opt_view(font_size),
                line_height: opt_view(line_height),
                columns,
                rows,
            }),
        decreases args@.len() - i,
    {
        let a = args[i].as_slice();
        let has_value = i + 1 < args.len();
        assert(view[i as int] == a@);
        if bytes_eq(a, "--application-id".as_bytes()) {
            if application_id.is_some() || !has_value {
                return None;
            }
            let v = args[i + 1].as_slice();
            assert(view[i + 1] == v@);
            if !is_utf8(v) || !valid_application_id(v) {
                return None;
            }
            application_id = Some(copy_bytes(v));
            i = i + 2;
        } else if bytes_eq(a, "--no-decorations".as_bytes()) {
            decorations = false;
            i = i + 1;
        } else if bytes_eq(a, "--background-opacity".as_bytes()) {
            if background_opacity.is_some() || !has_value {
                return None;
            }
            let v = args[i + 1].as_slice();
            assert(view[i + 1] == v@);
            if !is_utf8(v) {
                return None;
            }
            background_opacity = Some(copy_bytes(v));
            i = i + 2;
        } else if bytes_eq(a, "--background-blur".as_bytes()) {
            if background_blur {
                return None;
            }
            background_blur = true;
            i = i + 1;
        } else if bytes_eq(a, "--cursor-effect-v1".as_bytes()) {
            if cursor_effect.is_some() || !has_value {
                return None;
            }
            let v = args[i + 1].as_slice();
            assert(view[i + 1] == v@);
            if bytes_eq(v, "none".as_bytes()) {
                cursor_effect = Some(false);
            } else if bytes_eq(v, "tail".as_bytes()) {
                cursor_effect = Some(true);
            } else {
                return None;
            }
            i = i + 2;
        } else if bytes_eq(a, "--cursor-trail-color-v1".as_bytes()) {
            if cursor_trail_color.is_some() || !has_value {
                return None;
            }
            let v = args[i + 1].as_slice();
            assert(view[i + 1] == v@);
            if !is_utf8(v) {
                return None;
            }
            match parse_cursor_color(v) {
                Some(color) => cursor_trail_color = Some(color),
                None => return None,
            }
            i = i + 2;
        } else if bytes_eq(a, "--cursor-trail-duration-v1".as_bytes()) {
            if cursor_trail_duration.is_some() || !has_value {
                return None;
            }
            let v = args[i + 1].as_slice();
            assert(view[i + 1] == v@);
            if !is_utf8(v) {
                return None;
            }
            cursor_trail_duration = Some(copy_bytes(v));
            i = i + 2;
        } else if bytes_eq(a, "--workspace".as_bytes()) {
            if workspace_socket.is_some() || !has_value {
                return None;
            }
            let v = args[i + 1].as_slice();
            assert(view[i + 1] == v@);
            workspace_socket = Some(copy_bytes(v));
            i = i + 2;
        } else if bytes_eq(a, "--font-family".as_bytes()) {
            if font_family.is_some() || !has_value {
                return None;
            }
            let v = args[i + 1].as_slice();
            assert(view[i + 1] == v@);
            if !is_utf8(v) {
                return None;
            }
            font_family = Some(copy_bytes(v));
            i = i + 2;
        } else if bytes_eq(a, "--font-size".as_bytes()) {
            if font_size.is_some() || !has_value {
                return None;
            }
            let v = args[i + 1].as_slice();
            assert(view[i + 1] == v@);
            if !is_utf8(v) {
                return None;
            }
            font_size = Some(copy_bytes(v));
            i = i + 2;
        } else if bytes_eq(a, "--line-height".as_bytes()) {
            if line_height.is_some() || !has_value {
                return None;
            }
            let v = args[i + 1].as_slice();
            assert(view[i + 1] == v@);
            if !is_utf8(v) {
                return None;
            }
            line_height = Some(copy_bytes(v));
            i = i + 2;
        } else if bytes_eq(a, "--columns".as_bytes()) {
            if columns.is_some() || !has_value {
                return None;
            }
            let v = args[i + 1].as_slice();
            assert(view[i + 1] == v@);
            match parse_count(v) {
                Some(n) => columns = Some(n),
                None => return None,
            }
            i = i + 2;
        } else if bytes_eq(a, "--rows".as_bytes()) {
            if rows.is_some() || !has_value {
                return None;
            }
            let v = args[i + 1].as_slice();
            assert(view[i + 1] == v@);
            match parse_count(v) {
                Some(n) => rows = Some(n),
                None => return None,
            }
            i = i + 2;
        } else if a.len() > 0 && a[0] == 0x2d {
            return None;
        } else if orbit_socket.is_none() {
            orbit_socket = Some(copy_bytes(a));
            i = i + 1;
        } else if workspace_socket.is_none() {
            workspace_socket = Some(copy_bytes(a));
            i = i + 1;
        } else {
            return None;
        }
    }
    let cursor_tail = match (cursor_effect, cursor_trail_color, cursor_trail_duration) {
        (None, None, None) => CursorTail::Default,
        (Some(false), None, None) => CursorTail::Disabled,
        (Some(true), Some(color), Some(duration)) => CursorTail::Custom { color, duration },
        _ => return None,
    };
    let supervised = match presentation_control {
        Some(control) => bytes_eq(control, "stdin".as_bytes()),
        None => false,
    };
    let application_id = match application_id {
        Some(id) => id,
        None => copy_bytes("eon".as_bytes()),
    };
    Some(LaunchArguments {
        application_id,
        orbit_socket,
        workspace_socket,
        supervised,
        decorations,
        background_opacity,
        background_blur,
        cursor_tail,
        font_family,
        font_size,
        line_height,
        columns,
        rows,
    })
}

} // verus!
