//! Renderer decisions that do not depend on the GPU: vertex accounting, device
//! loss, and how terminal cell text is split across font layers.

use vstd::prelude::*;
use vstd::string::StringExecFns;
use vstd::string::StrSliceExecFns;
use crate::input::utf8_len;
use crate::links::is_control;

verus! {

/// Bytes per encoded vertex.
pub const VERTEX_SIZE: usize = 24;

/// Result of one bounded surface presentation attempt.
#[derive(Clone, Copy, Debug, PartialEq, Eq, Structural)]
pub enum PresentOutcome {
    Presented,
    Deferred,
    Occluded,
    Recovered,
}

/// GPU and text failure suitable for the client-visible bounded status path.
#[derive(Clone, Debug, PartialEq, Eq)]
pub struct RenderError(pub String);

impl RenderError {
    /// The failure as shown to the user.
    pub fn message(&self) -> (message: &str)
        ensures
            message@ == self.0@,
    {
        self.0.as_str()
    }
}

/// The renderer's failure text after the GPU device was lost.
pub open spec fn device_lost_message() -> Seq<char> {
    "the Venus GPU device was lost"@
}

/// A failure of one renderer step, prefixed with the step's context.
pub fn display_error(context: &str, error: &str) -> (failure: RenderError)
    ensures
        failure.0@ == context@ + ": "@ + error@,
{
    let mut text = String::from_str(context);
    text.append(": ");
    text.append(error);
    RenderError(text)
}

/// Record a device loss; an explicit destroy is not a loss. Returns whether the
/// device is now lost.
pub fn record_device_loss(device_lost: &mut bool, destroyed: bool) -> (lost: bool)
    ensures
        lost == !destroyed,
        *final(device_lost) == (*old(device_lost) || !destroyed),
{
    if destroyed {
        return false;
    }
    *device_lost = true;
    true
}

/// Refuse to recover a surface on a lost device.
pub fn ensure_device_available(device_lost: bool) -> (result: Result<(), RenderError>)
    ensures
        !device_lost ==> result is Ok,
        device_lost ==> (result matches Err(error) && error.0@ == device_lost_message()),
{
    if device_lost {
        Err(RenderError(String::from_str("the Venus GPU device was lost")))
    } else {
        Ok(())
    }
}

/// How many vertices `byte_len` encoded bytes hold.
pub fn vertex_count(byte_len: usize) -> (count: u32)
    requires
        byte_len / VERTEX_SIZE <= u32::MAX,
    ensures
        count as int == byte_len / VERTEX_SIZE,
{
    (byte_len / VERTEX_SIZE) as u32
}

/// Where the dynamic cursor's vertices end: at the boundary while a dynamic cursor
/// is drawn, else after every vertex; never beyond the total.
pub fn cursor_vertex_boundary(total: u32, boundary: u32, dynamic: bool) -> (end: u32)
    ensures
        end == (if dynamic && boundary < total { boundary } else { total }),
{
    let end = if dynamic { boundary } else { total };
    if end < total { end } else { total }
}

/// The font layer a terminal character is drawn with.
#[derive(Clone, Copy, Debug, PartialEq, Eq, Structural)]
pub enum CellTextKind {
    Text,
    Braille,
    Box,
}

/// Box drawing and Braille characters have layers of their own.
pub open spec fn spec_cell_text_kind(c: char) -> CellTextKind {
    if 0x2500 <= (c as u32) <= 0x257f {
        CellTextKind::Box
    } else if 0x2800 <= (c as u32) <= 0x28ff {
        CellTextKind::Braille
    } else {
        CellTextKind::Text
    }
}

pub fn cell_text_kind(c: char) -> (kind: CellTextKind)
    ensures
        kind == spec_cell_text_kind(c),
{
    let code = c as u32;
    if 0x2500 <= code && code <= 0x257f {
        CellTextKind::Box
    } else if 0x2800 <= code && code <= 0x28ff {
        CellTextKind::Braille
    } else {
        CellTextKind::Text
    }
}

/// The texts of segments, joined in order.
pub open spec fn joined(texts: Seq<Seq<char>>) -> Seq<char>
    decreases texts.len(),
{
    if texts.len() == 0 { Seq::empty() } else { joined(texts.drop_last()) + texts.last() }
}

/// `segments` split `text` into maximal runs of one layer: they join to the text,
/// none is empty, each holds characters of its layer only, and neighbours differ.
pub open spec fn is_layer_split(text: Seq<char>, segments: Seq<(Seq<char>, CellTextKind)>) -> bool {
    &&& joined(segments.map_values(|segment: (Seq<char>, CellTextKind)| segment.0)) == text
    &&& forall|i: int| 0 <= i < segments.len() ==> (#[trigger] segments[i]).0.len() > 0
    &&& forall|i: int, j: int| 0 <= i < segments.len() && 0 <= j < segments[i].0.len()
        ==> spec_cell_text_kind(#[trigger] segments[i].0[j]) == segments[i].1
    &&& forall|i: int| 0 < i < segments.len() ==> (#[trigger] segments[i]).1 != segments[i - 1].1
}

/// Split cell text into runs that each use one font layer.
pub fn cell_text_segments(text: &str) -> (segments: Vec<(&str, CellTextKind)>)
    ensures
        is_layer_split(text@, segments@.map_values(|segment: (&str, CellTextKind)| (segment.0@, segment.1))),
{
    let mut segments: Vec<(&str, CellTextKind)> = Vec::new();
    let length = text.unicode_len();
    if length == 0 {
        proof {
            let view = segments@.map_values(|segment: (&str, CellTextKind)| (segment.0@, segment.1));
            assert(view.map_values(|segment: (Seq<char>, CellTextKind)| segment.0) =~= Seq::<Seq<char>>::empty());
            assert(text@ =~= Seq::<char>::empty());
        }
        return segments;
    }
    let mut start: usize = 0;
    let mut kind = cell_text_kind(text.get_char(0));
    let mut index: usize = 1;
    proof {
        let view = segments@.map_values(|segment: (&str, CellTextKind)| (segment.0@, segment.1));
        assert(view.map_values(|segment: (Seq<char>, CellTextKind)| segment.0) =~= Seq::<Seq<char>>::empty());
        assert(text@.take(0) =~= Seq::<char>::empty());
    }
    while index < length
        invariant
            length == text@.len(),
            0 <= start < index <= length,
            kind == spec_cell_text_kind(text@[start as int]),
            forall|j: int| start <= j < index ==> spec_cell_text_kind(#[trigger] text@[j]) == kind,
            segments@.len() > 0 ==> segments@.last().1 != kind,
            is_layer_split(text@.take(start as int),
                segments@.map_values(|segment: (&str, CellTextKind)| (segment.0@, segment.1))),
        decreases length - index,
    {
        let next_kind = cell_text_kind(text.get_char(index));
        if next_kind != kind {
            let ghost before = segments@.map_values(|segment: (&str, CellTextKind)| (segment.0@, segment.1));
            let piece = text.substring_char(start, index);
            segments.push((piece, kind));
            proof {
                let after = segments@.map_values(|segment: (&str, CellTextKind)| (segment.0@, segment.1));
                assert(after =~= before.push((text@.subrange(start as int, index as int), kind)));
                let texts = after.map_values(|segment: (Seq<char>, CellTextKind)| segment.0);
                assert(texts.drop_last() =~= before.map_values(|segment: (Seq<char>, CellTextKind)| segment.0));
                assert(text@.take(index as int) =~= text@.take(start as int) + text@.subrange(start as int, index as int));
            }
            start = index;
            kind = next_kind;
        }
        index = index + 1;
    }
    let ghost before = segments@.map_values(|segment: (&str, CellTextKind)| (segment.0@, segment.1));
    let piece = text.substring_char(start, length);
    segments.push((piece, kind));
    proof {
        let after = segments@.map_values(|segment: (&str, CellTextKind)| (segment.0@, segment.1));
        assert(after =~= before.push((text@.subrange(start as int, length as int), kind)));
        let texts = after.map_values(|segment: (Seq<char>, CellTextKind)| segment.0);
        assert(texts.drop_last() =~= before.map_values(|segment: (Seq<char>, CellTextKind)| segment.0));
        assert(text@ =~= text@.take(start as int) + text@.subrange(start as int, length as int));
    }
    segments
}

/// Private-use symbols that the Nerd Font face draws.
pub open spec fn is_nerd_font_char(c: char) -> bool {
    (0xe000 <= (c as u32) <= 0xf8ff) || (0xf0000 <= (c as u32) <= 0xf2fff)
}

/// Whether `text` holds a Nerd Font symbol.
pub fn is_nerd_font_symbol(text: &str) -> (symbol: bool)
    ensures
        symbol == exists|i: int| 0 <= i < text@.len() && is_nerd_font_char(#[trigger] text@[i]),
{
    let mut found = false;
    for c in it: text.chars()
        invariant
            it.seq() == text@,
            found == exists|i: int| 0 <= i < it.index() && is_nerd_font_char(#[trigger] text@[i]),
    {
        let code = c as u32;
        if (0xe000 <= code && code <= 0xf8ff) || (0xf0000 <= code && code <= 0xf2fff) {
            found = true;
        }
    }
    found
}

/// One run of terminal text at a cell position.
#[derive(Clone, Debug)]
pub struct GlyphRun {
    pub column: u16,
    pub row: u16,
    pub columns: u16,
    pub text: String,
}

/// A single full block cell, drawn as an exact rectangle.
pub fn is_full_block_run(run: &GlyphRun) -> (full: bool)
    ensures
        full == (run.columns == 1 && run.text@ == seq!['\u{2588}']),
{
    run.columns == 1 && run.text.as_str().unicode_len() == 1 && run.text.as_str().get_char(0) == '\u{2588}'
        && {
        assert(run.text@ =~= seq![run.text@[0]]);
        true
    }
}

/// The column where a run's ink may end: its cells, or for a Nerd Font symbol the
/// blank cells up to the next run (or the row end), never less than its cells.
pub fn cell_ink_right(run: &GlyphRun, next: Option<&GlyphRun>, columns: u16) -> (right: u16)
    ensures
        ({
            let cell_right = if run.column + run.columns > u16::MAX { u16::MAX as int } else { run.column + run.columns };
            let symbol = exists|i: int| 0 <= i < run.text@.len() && is_nerd_font_char(#[trigger] run.text@[i]);
            let limit: int = match next {
                Some(next) => next.column as int,
                None => columns as int,
            };
            right == if symbol && limit > cell_right { limit } else { cell_right }
        }),
{
    let cell_right = run.column.saturating_add(run.columns);
    if is_nerd_font_symbol(run.text.as_str()) {
        let limit = match next {
            Some(next) => next.column,
            None => columns,
        };
        if limit > cell_right { limit } else { cell_right }
    } else {
        cell_right
    }
}

/// Most fallback font families.
pub const MAX_FONT_FALLBACKS: usize = 8;
/// Longest font family name, in bytes.
pub const MAX_FONT_NAME_BYTES: usize = 128;

/// A character with the Unicode `White_Space` property, which `str::trim` removes.
pub open spec fn is_white_space(c: char) -> bool {
    let u = c as u32;
    (0x09 <= u <= 0x0d) || u == 0x20 || u == 0x85 || u == 0xa0 || u == 0x1680 || (0x2000 <= u <= 0x200a)
        || u == 0x2028 || u == 0x2029 || u == 0x202f || u == 0x205f || u == 0x3000
}

/// A usable family name: not empty, at most [`MAX_FONT_NAME_BYTES`] bytes, with
/// no white space at either end and no control character.
pub open spec fn font_name_ok(name: Seq<char>) -> bool {
    &&& name.len() > 0
    &&& utf8_len(name) <= MAX_FONT_NAME_BYTES
    &&& !is_white_space(name[0])
    &&& !is_white_space(name.last())
    &&& forall|i: int| 0 <= i < name.len() ==> !is_control(#[trigger] name[i])
}

fn white_space(c: char) -> (space: bool)
    ensures
        space == is_white_space(c),
{
    let u = c as u32;
    (0x09 <= u && u <= 0x0d) || u == 0x20 || u == 0x85 || u == 0xa0 || u == 0x1680 || (0x2000 <= u && u <= 0x200a)
        || u == 0x2028 || u == 0x2029 || u == 0x202f || u == 0x205f || u == 0x3000
}

/// Whether a font family name is usable.
pub fn valid_font_name(name: &str) -> (valid: bool)
    ensures
        valid == font_name_ok(name@),
{
    if name.len() > MAX_FONT_NAME_BYTES {
        return false;
    }
    let count = name.unicode_len();
    if count == 0 {
        return false;
    }
    if white_space(name.get_char(0)) || white_space(name.get_char(count - 1)) {
        return false;
    }
    let mut i: usize = 0;
    while i < count
        invariant
            count == name@.len(),
            i <= count,
            forall|k: int| 0 <= k < i ==> !is_control(#[trigger] name@[k]),
        decreases count - i,
    {
        let code = name.get_char(i) as u32;
        if code <= 0x1f || (0x7f <= code && code <= 0x9f) {
            assert(is_control(name@[i as int]));
            return false;
        }
        i = i + 1;
    }
    true
}

pub open spec fn font_names_ok(family: Option<Seq<char>>, fallbacks: Seq<Seq<char>>) -> bool {
    &&& fallbacks.len() <= MAX_FONT_FALLBACKS
    &&& match family {
        Some(name) => font_name_ok(name),
        None => true,
    }
    &&& forall|i: int| 0 <= i < fallbacks.len() ==> font_name_ok(#[trigger] fallbacks[i])
}

/// Whether the configured family and fallbacks are usable: at most
/// [`MAX_FONT_FALLBACKS`] fallbacks, and every name usable.
pub fn valid_font_names(family: Option<&str>, fallbacks: &Vec<String>) -> (valid: bool)
    ensures
        valid == font_names_ok(
            match family { Some(name) => Some(name@), None => None },
            fallbacks@.map_values(|name: String| name@),
        ),
{
    let ghost names = fallbacks@.map_values(|name: String| name@);
    if fallbacks.len() > MAX_FONT_FALLBACKS {
        return false;
    }
    if let Some(name) = family {
        if !valid_font_name(name) {
            return false;
        }
    }
    let mut i: usize = 0;
    while i < fallbacks.len()
        invariant
            i <= fallbacks@.len(),
            names == fallbacks@.map_values(|name: String| name@),
            forall|k: int| 0 <= k < i ==> font_name_ok(#[trigger] names[k]),
        decreases fallbacks@.len() - i,
    {
        if !valid_font_name(fallbacks[i].as_str()) {
            assert(!font_name_ok(names[i as int]));
            return false;
        }
        i = i + 1;
    }
    true
}

pub open spec fn invalid_typography_message() -> Seq<char> {
    "invalid terminal typography: font size must be 6..96, line height 1..3, with at most eight fallback families and nonempty trimmed family names up to 128 bytes without controls"@
}

/// The failure for typography that cannot be used.
pub fn invalid_typography() -> (failure: RenderError)
    ensures
        failure.0@ == invalid_typography_message(),
{
    RenderError(String::from_str(
        "invalid terminal typography: font size must be 6..96, line height 1..3, with at most eight fallback families and nonempty trimmed family names up to 128 bytes without controls",
    ))
}

/// How a text run is shaped.
#[derive(Clone, Copy, Debug, PartialEq, Eq, Structural)]
pub enum TextShaping {
    /// Character by character, enough for ASCII.
    Basic,
    /// Full shaping, for clusters, ligatures and complex scripts.
    Advanced,
}

/// ASCII text is shaped character by character; anything else is fully shaped.
pub fn shaping(text: &str) -> (shaping: TextShaping)
    ensures
        shaping == (if vstd::string::is_ascii(text) { TextShaping::Basic } else { TextShaping::Advanced }),
{
    if text.is_ascii() {
        TextShaping::Basic
    } else {
        TextShaping::Advanced
    }
}

} // verus!
