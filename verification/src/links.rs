//! Safety policy for terminal hyperlinks that the user opens or copies.

use vstd::prelude::*;
use vstd::string::StringSliceAdditionalSpecFns;
use vstd::string::StringExecFns;
use crate::platform::NativePlatform;
use crate::text::{decimal, push_decimal};

verus! {

/// Longest link target, in bytes, that Venus opens or copies.
pub const MAX_LINK_BYTES: usize = 4096;

/// Why a link target is refused.
#[derive(Clone, Copy, Debug, PartialEq, Eq, Structural)]
pub enum LinkError {
    /// Empty, or longer than [`MAX_LINK_BYTES`].
    Length,
    /// Holds a control character.
    Control,
    /// Not an ASCII HTTP/HTTPS URI with a host and no credentials.
    Malformed,
    /// Neither HTTP nor HTTPS.
    Scheme,
    /// A `%` not followed by two hex digits.
    PercentEscape,
}

impl LinkError {
    /// The client-visible notice for this refusal.
    pub fn message(self) -> (message: &'static str)
        ensures
            message@ == self.spec_message(),
    {
        match self {
            LinkError::Length => "Link target must contain 1–4096 bytes.",
            LinkError::Control => "Link target contains control characters.",
            LinkError::Malformed => "Cannot open this link: expected an ASCII HTTP/HTTPS URI with a host and no credentials.",
            LinkError::Scheme => "Only HTTP and HTTPS links can be opened. Copy other targets explicitly.",
            LinkError::PercentEscape => "Link target contains an invalid percent escape.",
        }
    }

    pub open spec fn spec_message(self) -> Seq<char> {
        match self {
            LinkError::Length => "Link target must contain 1–4096 bytes."@,
            LinkError::Control => "Link target contains control characters."@,
            LinkError::Malformed => "Cannot open this link: expected an ASCII HTTP/HTTPS URI with a host and no credentials."@,
            LinkError::Scheme => "Only HTTP and HTTPS links can be opened. Copy other targets explicitly."@,
            LinkError::PercentEscape => "Link target contains an invalid percent escape."@,
        }
    }
}

/// Unicode general category Cc, as `char::is_control` decides it.
pub open spec fn is_control(c: char) -> bool {
    (c as u32) <= 0x1f || (0x7f <= (c as u32) && (c as u32) <= 0x9f)
}

/// The verdict on copying `uri`, given its characters and its UTF-8 length.
pub open spec fn copy_verdict(chars: Seq<char>, byte_len: nat) -> Result<(), LinkError> {
    if chars.len() == 0 || byte_len > MAX_LINK_BYTES {
        Err(LinkError::Length)
    } else if exists|i: int| 0 <= i < chars.len() && is_control(#[trigger] chars[i]) {
        Err(LinkError::Control)
    } else {
        Ok(())
    }
}

fn char_is_control(c: char) -> (control: bool)
    ensures
        control == is_control(c),
{
    let code = c as u32;
    code <= 0x1f || (0x7f <= code && code <= 0x9f)
}

/// Check that `uri` may be copied: 1 to 4096 bytes without control characters.
pub fn validate_copy_uri(uri: &str) -> (result: Result<(), LinkError>)
    ensures
        result == copy_verdict(uri@, uri.len() as nat),
{
    if uri.is_empty() || uri.len() > MAX_LINK_BYTES {
        return Err(LinkError::Length);
    }
    let mut found = false;
    for c in it: uri.chars()
        invariant
            it.seq() == uri@,
            found == exists|i: int| 0 <= i < it.index() && is_control(#[trigger] uri@[i]),
    {
        if char_is_control(c) {
            found = true;
        }
    }
    assert(found == exists|i: int| 0 <= i < uri@.len() && is_control(#[trigger] uri@[i]));
    if found {
        Err(LinkError::Control)
    } else {
        Ok(())
    }
}


pub open spec fn is_alnum(c: u8) -> bool {
    (0x30 <= c <= 0x39) || (0x41 <= c <= 0x5a) || (0x61 <= c <= 0x7a)
}

pub open spec fn is_hex(c: u8) -> bool {
    (0x30 <= c <= 0x39) || (0x41 <= c <= 0x46) || (0x61 <= c <= 0x66)
}

/// Bytes a serialized URI may hold: unreserved, reserved and `%`.
pub open spec fn is_uri_byte(c: u8) -> bool {
    is_alnum(c) || c == 0x2d || c == 0x2e || c == 0x5f || c == 0x7e || c == 0x3a || c == 0x2f
        || c == 0x3f || c == 0x23 || c == 0x5b || c == 0x5d || c == 0x40 || c == 0x21 || c == 0x24
        || c == 0x26 || c == 0x27 || c == 0x28 || c == 0x29 || c == 0x2a || c == 0x2b || c == 0x2c
        || c == 0x3b || c == 0x3d || c == 0x25
}

pub open spec fn ascii_lower(c: u8) -> u8 {
    if 0x41 <= c <= 0x5a { (c + 0x20) as u8 } else { c }
}

/// The first index in `from..end` holding `x`, or `end`.
pub open spec fn find_in(b: Seq<u8>, x: u8, from: int, end: int) -> int
    decreases end - from,
{
    if from >= end { end } else if b[from] == x { from } else { find_in(b, x, from + 1, end) }
}

/// The first index at or after `from` ending an authority (`/`, `?` or `#`), or the length.
pub open spec fn authority_end(b: Seq<u8>, from: int) -> int
    decreases b.len() - from,
{
    if from >= b.len() {
        b.len() as int
    } else if b[from] == 0x2f || b[from] == 0x3f || b[from] == 0x23 {
        from
    } else {
        authority_end(b, from + 1)
    }
}

/// Whether the byte at `i` is a defect of a serialized URI.
pub open spec fn uri_fault_at(b: Seq<u8>, i: int) -> bool {
    !is_uri_byte(b[i]) || (b[i] == 0x25 && !(i + 2 < b.len() && is_hex(b[i + 1]) && is_hex(b[i + 2])))
}

/// The first defective byte at or after `from`, or the length.
pub open spec fn first_uri_fault(b: Seq<u8>, from: int) -> int
    decreases b.len() - from,
{
    if from >= b.len() { b.len() as int } else if uri_fault_at(b, from) { from } else { first_uri_fault(b, from + 1) }
}

/// The scheme `b[0..end]` is `http` or `https`, ignoring ASCII case.
pub open spec fn web_scheme(b: Seq<u8>, end: int) -> bool {
    (end == 4 || end == 5) && ascii_lower(b[0]) == 0x68 && ascii_lower(b[1]) == 0x74
        && ascii_lower(b[2]) == 0x74 && ascii_lower(b[3]) == 0x70
        && (end == 5 ==> ascii_lower(b[4]) == 0x73)
}

/// One DNS label `b[s..e]`: 1 to 63 letters, digits or inner hyphens.
pub open spec fn label_ok(b: Seq<u8>, s: int, e: int) -> bool {
    &&& 1 <= e - s <= 63
    &&& b[s] != 0x2d
    &&& b[e - 1] != 0x2d
    &&& forall|i: int| s <= i < e ==> is_alnum(#[trigger] b[i]) || b[i] == 0x2d
}

/// Every dot-separated label of `b[s..e]` is valid.
pub open spec fn labels_ok(b: Seq<u8>, s: int, e: int) -> bool
    decreases e - s,
{
    let d = find_in(b, 0x2e, s, e);
    if s > e {
        false
    } else if d >= e {
        label_ok(b, s, e)
    } else {
        label_ok(b, s, d) && labels_ok(b, d + 1, e)
    }
}

/// A host name `b[s..e]`: labels, optionally with one trailing dot, at most 253 bytes.
pub open spec fn host_ok(b: Seq<u8>, s: int, e: int) -> bool {
    let stripped = if e > s && b[e - 1] == 0x2e { e - 1 } else { e };
    labels_ok(b, s, stripped) && e - s <= 253
}

/// The decimal value of the digits `b[s..e]`.
pub open spec fn digits_value(b: Seq<u8>, s: int, e: int) -> int
    decreases e - s,
{
    if e <= s { 0 } else { 10 * digits_value(b, s, e - 1) + (b[e - 1] - 0x30) }
}

/// The port suffix `b[s..e]`: empty, or `:` and a decimal number up to 65535.
pub open spec fn port_ok(b: Seq<u8>, s: int, e: int) -> bool {
    s == e || (b[s] == 0x3a && e - s >= 2 && (forall|i: int| s + 1 <= i < e ==> 0x30 <= #[trigger] b[i] <= 0x39)
        && digits_value(b, s + 1, e) <= 65535)
}

/// The verdict on the authority that starts at `start`: an IPv6 literal's byte range
/// still to be parsed as an address, or none for a host name.
pub open spec fn authority_verdict(b: Seq<u8>, start: int) -> Result<Option<(usize, usize)>, LinkError> {
    let end = authority_end(b, start);
    if start < end && b[start] == 0x5b {
        let close = find_in(b, 0x5d, start + 1, end);
        if close >= end || close == start + 1 || !port_ok(b, close + 1, end) {
            Err(LinkError::Malformed)
        } else {
            Ok(Some(((start + 1) as usize, close as usize)))
        }
    } else {
        let colon = find_in(b, 0x3a, start, end);
        if !host_ok(b, start, colon) || !port_ok(b, colon, end) {
            Err(LinkError::Malformed)
        } else {
            Ok(None)
        }
    }
}

/// The verdict on opening the URI with these characters and UTF-8 bytes.
pub open spec fn open_verdict(chars: Seq<char>, b: Seq<u8>) -> Result<Option<(usize, usize)>, LinkError> {
    let colon = find_in(b, 0x3a, 0, b.len() as int);
    let fault = first_uri_fault(b, 0);
    match copy_verdict(chars, b.len()) {
        Err(error) => Err(error),
        Ok(()) => if colon >= b.len() {
            Err(LinkError::Malformed)
        } else if !web_scheme(b, colon) {
            Err(LinkError::Scheme)
        } else if !(colon + 3 <= b.len() && b[colon + 1] == 0x2f && b[colon + 2] == 0x2f) {
            Err(LinkError::Malformed)
        } else if fault < b.len() {
            if !is_uri_byte(b[fault]) { Err(LinkError::Malformed) } else { Err(LinkError::PercentEscape) }
        } else {
            authority_verdict(b, colon + 3)
        },
    }
}

fn byte_is_alnum(c: u8) -> (r: bool)
    ensures r == is_alnum(c),
{
    (0x30 <= c && c <= 0x39) || (0x41 <= c && c <= 0x5a) || (0x61 <= c && c <= 0x7a)
}

fn byte_is_hex(c: u8) -> (r: bool)
    ensures r == is_hex(c),
{
    (0x30 <= c && c <= 0x39) || (0x41 <= c && c <= 0x46) || (0x61 <= c && c <= 0x66)
}

fn byte_is_uri(c: u8) -> (r: bool)
    ensures r == is_uri_byte(c),
{
    byte_is_alnum(c) || c == 0x2d || c == 0x2e || c == 0x5f || c == 0x7e || c == 0x3a || c == 0x2f
        || c == 0x3f || c == 0x23 || c == 0x5b || c == 0x5d || c == 0x40 || c == 0x21 || c == 0x24
        || c == 0x26 || c == 0x27 || c == 0x28 || c == 0x29 || c == 0x2a || c == 0x2b || c == 0x2c
        || c == 0x3b || c == 0x3d || c == 0x25
}

fn lower(c: u8) -> (r: u8)
    ensures r == ascii_lower(c),
{
    if 0x41 <= c && c <= 0x5a { c + 0x20 } else { c }
}

fn find_byte(b: &[u8], x: u8, from: usize, end: usize) -> (r: usize)
    requires
        from <= end <= b@.len(),
    ensures
        r as int == find_in(b@, x, from as int, end as int),
        from <= r <= end,
{
    let mut i = from;
    while i < end
        invariant
            from <= i <= end <= b@.len(),
            find_in(b@, x, from as int, end as int) == find_in(b@, x, i as int, end as int),
        decreases end - i,
    {
        if b[i] == x {
            return i;
        }
        i = i + 1;
    }
    i
}

fn find_authority_end(b: &[u8], from: usize) -> (r: usize)
    requires
        from <= b@.len(),
    ensures
        r as int == authority_end(b@, from as int),
        from <= r <= b@.len(),
{
    let mut i = from;
    while i < b.len()
        invariant
            from <= i <= b@.len(),
            authority_end(b@, from as int) == authority_end(b@, i as int),
        decreases b@.len() - i,
    {
        if b[i] == 0x2f || b[i] == 0x3f || b[i] == 0x23 {
            return i;
        }
        i = i + 1;
    }
    i
}

fn find_uri_fault(b: &[u8]) -> (r: usize)
    ensures
        r as int == first_uri_fault(b@, 0),
        r <= b@.len(),
{
    let mut i: usize = 0;
    while i < b.len()
        invariant
            i <= b@.len(),
            first_uri_fault(b@, 0) == first_uri_fault(b@, i as int),
        decreases b@.len() - i,
    {
        let c = b[i];
        if !byte_is_uri(c) {
            return i;
        }
        if c == 0x25 {
            let escaped = b.len() - i > 2 && byte_is_hex(b[i + 1]) && byte_is_hex(b[i + 2]);
            if !escaped {
                return i;
            }
        }
        i = i + 1;
    }
    i
}

fn check_label(b: &[u8], s: usize, e: usize) -> (r: bool)
    requires
        s <= e <= b@.len(),
    ensures
        r == label_ok(b@, s as int, e as int),
{
    if e - s < 1 || e - s > 63 || b[s] == 0x2d || b[e - 1] == 0x2d {
        return false;
    }
    let mut i = s;
    while i < e
        invariant
            s <= i <= e <= b@.len(),
            forall|k: int| s <= k < i ==> is_alnum(#[trigger] b@[k]) || b@[k] == 0x2d,
        decreases e - i,
    {
        if !(byte_is_alnum(b[i]) || b[i] == 0x2d) {
            return false;
        }
        i = i + 1;
    }
    true
}

fn check_labels(b: &[u8], s: usize, e: usize) -> (r: bool)
    requires
        s <= e <= b@.len(),
    ensures
        r == labels_ok(b@, s as int, e as int),
{
    let mut j = s;
    loop
        invariant
            s <= j <= e <= b@.len(),
            labels_ok(b@, s as int, e as int) == labels_ok(b@, j as int, e as int),
        decreases e - j,
    {
        let d = find_byte(b, 0x2e, j, e);
        if !check_label(b, j, d) {
            return false;
        }
        if d >= e {
            return true;
        }
        j = d + 1;
    }
}

fn check_host(b: &[u8], s: usize, e: usize) -> (r: bool)
    requires
        s <= e <= b@.len(),
    ensures
        r == host_ok(b@, s as int, e as int),
{
    let stripped = if e > s && b[e - 1] == 0x2e { e - 1 } else { e };
    check_labels(b, s, stripped) && e - s <= 253
}

fn check_port(b: &[u8], s: usize, e: usize) -> (r: bool)
    requires
        s <= e <= b@.len(),
    ensures
        r == port_ok(b@, s as int, e as int),
{
    if s == e {
        return true;
    }
    if b[s] != 0x3a || e - s < 2 {
        return false;
    }
    let mut value: u32 = 0;
    let mut i = s + 1;
    while i < e
        invariant
            s + 1 <= i <= e <= b@.len(),
            forall|k: int| s + 1 <= k < i ==> 0x30 <= #[trigger] b@[k] <= 0x39,
            value as int == (if digits_value(b@, s + 1, i as int) > 65536 { 65536 } else { digits_value(b@, s + 1, i as int) }),
            digits_value(b@, s + 1, i as int) >= 0,
        decreases e - i,
    {
        let c = b[i];
        if c < 0x30 || c > 0x39 {
            return false;
        }
        let next = value * 10 + (c - 0x30) as u32;
        value = if next > 65536 { 65536 } else { next };
        i = i + 1;
    }
    value <= 65535
}

/// Check that `uri` may be opened: a copyable ASCII HTTP or HTTPS URI with a host and
/// no credentials, whose percent escapes are complete. On success, returns the byte
/// range of a bracketed IPv6 host, which must still parse as an IPv6 address.
pub fn validate_open_uri(uri: &str) -> (result: Result<Option<(usize, usize)>, LinkError>)
    ensures
        result == open_verdict(uri@, uri.spec_bytes()),
{
    let b = uri.as_bytes();
    let n = b.len();
    assert(b@.len() == uri.len());
    match validate_copy_uri(uri) {
        Err(error) => return Err(error),
        Ok(()) => {}
    }
    let colon = find_byte(b, 0x3a, 0, n);
    if colon >= n {
        return Err(LinkError::Malformed);
    }
    let scheme = (colon == 4 || colon == 5) && lower(b[0]) == 0x68 && lower(b[1]) == 0x74
        && lower(b[2]) == 0x74 && lower(b[3]) == 0x70 && (colon == 4 || lower(b[4]) == 0x73);
    if !scheme {
        return Err(LinkError::Scheme);
    }
    if !(colon + 3 <= b.len() && b[colon + 1] == 0x2f && b[colon + 2] == 0x2f) {
        return Err(LinkError::Malformed);
    }
    let fault = find_uri_fault(b);
    if fault < b.len() {
        if !byte_is_uri(b[fault]) {
            return Err(LinkError::Malformed);
        }
        return Err(LinkError::PercentEscape);
    }
    let start = colon + 3;
    let end = find_authority_end(b, start);
    if start < end && b[start] == 0x5b {
        let close = find_byte(b, 0x5d, start + 1, end);
        if close >= end || close == start + 1 || !check_port(b, close + 1, end) {
            return Err(LinkError::Malformed);
        }
        Ok(Some((start + 1, close)))
    } else {
        let host_end = find_byte(b, 0x3a, start, end);
        if !check_host(b, start, host_end) || !check_port(b, host_end, end) {
            return Err(LinkError::Malformed);
        }
        Ok(None)
    }
}

/// Opening is stricter than copying: a target that may be opened may be copied,
/// and a target refused for copying is refused for opening for the same reason.
pub proof fn lemma_open_refines_copy(chars: Seq<char>, bytes: Seq<u8>)
    ensures
        open_verdict(chars, bytes) is Ok ==> copy_verdict(chars, bytes.len()) is Ok,
        copy_verdict(chars, bytes.len()) matches Err(reason) ==> open_verdict(chars, bytes) == Err::<Option<(usize, usize)>, LinkError>(reason),
{
}

/// `find_in` reaches `end` when no byte of `from..end` is `x`.
proof fn lemma_find_in_absent(b: Seq<u8>, x: u8, from: int, end: int)
    requires
        from <= end,
        forall|i: int| from <= i < end ==> b[i] != x,
    ensures
        find_in(b, x, from, end) == end,
    decreases end - from,
{
    if from < end {
        lemma_find_in_absent(b, x, from + 1, end);
    }
}

/// `find_in` stops at the first `x` of `from..end`.
proof fn lemma_find_in_first(b: Seq<u8>, x: u8, from: int, k: int, end: int)
    requires
        from <= k < end,
        b[k] == x,
        forall|i: int| from <= i < k ==> b[i] != x,
    ensures
        find_in(b, x, from, end) == k,
    decreases k - from,
{
    if from < k {
        lemma_find_in_first(b, x, from + 1, k, end);
    }
}

/// An authority that runs into a `/` at `k` ends there.
proof fn lemma_authority_ends_at_slash(b: Seq<u8>, from: int, k: int)
    requires
        0 <= from <= k < b.len(),
        b[k] == 0x2f,
        forall|i: int| from <= i < k ==> b[i] != 0x2f && b[i] != 0x3f && b[i] != 0x23,
    ensures
        authority_end(b, from) == k,
    decreases k - from,
{
    if from < k {
        lemma_authority_ends_at_slash(b, from + 1, k);
    }
}

/// A URI with no defective byte from `from` on has its first fault at the end.
proof fn lemma_no_uri_fault(b: Seq<u8>, from: int)
    requires
        0 <= from <= b.len(),
        forall|i: int| from <= i < b.len() ==> !uri_fault_at(b, i),
    ensures
        first_uri_fault(b, from) == b.len(),
    decreases b.len() - from,
{
    if from < b.len() {
        lemma_no_uri_fault(b, from + 1);
    }
}

/// The bytes of `https://<label>.example/`.
pub open spec fn https_example_uri(label: Seq<u8>) -> Seq<u8> {
    seq![0x68u8, 0x74, 0x74, 0x70, 0x73, 0x3a, 0x2f, 0x2f] + label
        + seq![0x2eu8, 0x65, 0x78, 0x61, 0x6d, 0x70, 0x6c, 0x65, 0x2f]
}

/// Whether `https://<label>.example/` may be opened turns on its host label alone.
/// A label of letters, digits and hyphens is accepted, inner hyphens included,
/// exactly when it holds 1 to 63 bytes and neither starts nor ends with a hyphen;
/// the host is then a name, not an address to check. Any other such label is
/// refused as malformed.
pub proof fn lemma_example_host_label_verdict(label: Seq<u8>, chars: Seq<char>)
    requires
        label.len() + 17 <= MAX_LINK_BYTES,
        forall|i: int| 0 <= i < label.len() ==> {
            let c = #[trigger] label[i];
            (0x30 <= c <= 0x39) || (0x41 <= c <= 0x5a) || (0x61 <= c <= 0x7a) || c == 0x2d
        },
        chars.len() == label.len() + 17,
        forall|i: int| 0 <= i < chars.len() ==> (#[trigger] chars[i]) as u32 == https_example_uri(label)[i] as u32,
    ensures
        open_verdict(chars, https_example_uri(label)) == (if 1 <= label.len() <= 63 && label[0] != 0x2d
            && label[label.len() - 1] != 0x2d {
            Ok::<Option<(usize, usize)>, LinkError>(None)
        } else {
            Err(LinkError::Malformed)
        }),
{
    let b = https_example_uri(label);
    let prefix = seq![0x68u8, 0x74, 0x74, 0x70, 0x73, 0x3a, 0x2f, 0x2f];
    let suffix = seq![0x2eu8, 0x65, 0x78, 0x61, 0x6d, 0x70, 0x6c, 0x65, 0x2f];
    let n = b.len() as int;
    let l = label.len() as int;
    let dot = 8 + l;
    let slash = n - 1;
    assert(n == l + 17);
    assert forall|i: int| 0 <= i < 8 implies b[i] == prefix[i] by {}
    assert forall|i: int| 8 <= i < dot implies b[i] == label[i - 8] by {}
    assert forall|i: int| dot <= i < n implies b[i] == suffix[i - dot] by {}
    assert(b[0] == 0x68 && b[1] == 0x74 && b[2] == 0x74 && b[3] == 0x70 && b[4] == 0x73);
    assert(b[5] == 0x3a && b[6] == 0x2f && b[7] == 0x2f);
    assert(b[dot] == 0x2e && b[slash] == 0x2f && b[slash - 1] == 0x65);
    assert forall|i: int| dot + 1 <= i < slash implies is_alnum(b[i]) by {
        assert(b[i] == suffix[i - dot]);
    }
    assert forall|i: int| 8 <= i < dot implies is_alnum(#[trigger] b[i]) || b[i] == 0x2d by {
        assert(b[i] == label[i - 8]);
    }
    // Every byte is a letter, a digit, `-`, `.`, `:` or `/`.
    assert forall|i: int| 0 <= i < n implies {
        &&& is_alnum(b[i]) || b[i] == 0x2d || b[i] == 0x2e || b[i] == 0x3a || b[i] == 0x2f
    } by {
        if i < 8 {
            assert(b[i] == prefix[i]);
        } else if i < dot {
            assert(b[i] == label[i - 8]);
        } else {
            assert(b[i] == suffix[i - dot]);
        }
    }
    // Short enough, and free of control characters.
    assert forall|i: int| 0 <= i < chars.len() implies !is_control(#[trigger] chars[i]) by {
        assert(chars[i] as u32 == b[i] as u32);
    }
    assert(copy_verdict(chars, b.len()) == Ok::<(), LinkError>(()));
    // The scheme ends at the first colon.
    lemma_find_in_first(b, 0x3a, 0, 5, n);
    assert(web_scheme(b, 5));
    // No byte is a fault.
    assert forall|i: int| 0 <= i < n implies !uri_fault_at(b, i) by {}
    lemma_no_uri_fault(b, 0);
    // The authority runs from 8 to the final slash, and holds no port.
    lemma_authority_ends_at_slash(b, 8, slash);
    assert(b[8] != 0x5b);
    lemma_find_in_absent(b, 0x3a, 8, slash);
    assert(port_ok(b, slash, slash));
    // The host is the label and `example`.
    lemma_find_in_first(b, 0x2e, 8, dot, slash);
    lemma_find_in_absent(b, 0x2e, dot + 1, slash);
    assert(label_ok(b, dot + 1, slash));
    assert(labels_ok(b, dot + 1, slash));
    if l >= 1 {
        assert(b[8] == label[0]);
        assert(b[dot - 1] == label[l - 1]);
    }
    assert(label_ok(b, 8, dot) == (1 <= l <= 63 && label[0] != 0x2d && label[l - 1] != 0x2d));
    assert(labels_ok(b, 8, slash) == label_ok(b, 8, dot));
    assert(host_ok(b, 8, slash) == label_ok(b, 8, dot));
}

/// The identity of the links of one presented scene: the attachment generation and
/// the scene revision, when both are known.
pub fn link_identity(scene_revision: Option<u64>, generation: Option<u64>) -> (identity: Option<(u64, u64)>)
    ensures
        identity == (match (scene_revision, generation) {
            (Some(revision), Some(generation)) => Some((generation, revision)),
            _ => None,
        }),
{
    match (scene_revision, generation) {
        (Some(revision), Some(generation)) => Some((generation, revision)),
        _ => None,
    }
}

/// What `str::escape_debug` makes of a text.
pub uninterp spec fn escaped_debug(text: Seq<char>) -> Seq<char>;

/// Escapes `text` through `str::escape_debug`, which writes control and other
/// non-printable characters as escapes and keeps printable ones; the result is a
/// function of `text` alone.
#[verifier::external_body]
fn escape_debug(text: &str) -> (escaped: String)
    ensures
        escaped@ == escaped_debug(text@),
{
    text.escape_debug().to_string()
}

pub open spec fn spec_accessible_link_label(uri: Seq<char>, byte_len: nat) -> Seq<char> {
    if byte_len > MAX_LINK_BYTES {
        "Link target exceeds "@ + decimal(MAX_LINK_BYTES as nat) + " bytes"@
    } else {
        escaped_debug(uri)
    }
}

/// The accessible name of a link: its target escaped so that assistive technology
/// reads no control character, or a note that the target is too long to offer.
pub fn accessible_link_label(uri: &str) -> (label: String)
    ensures
        label@ == spec_accessible_link_label(uri@, uri.len() as nat),
{
    if uri.len() > MAX_LINK_BYTES {
        let mut label = String::from_str("Link target exceeds ");
        push_decimal(&mut label, MAX_LINK_BYTES as u64);
        label.append(" bytes");
        label
    } else {
        escape_debug(uri)
    }
}

pub open spec fn spec_link_spawn_error(platform: NativePlatform) -> Seq<char> {
    match platform {
        NativePlatform::Linux => "Cannot open link: install GIO (gio) on the desktop host PATH."@,
        NativePlatform::Macos => "Cannot open link: /usr/bin/open is unavailable."@,
    }
}

/// What the user is told when the platform's link opener cannot be started.
pub fn link_spawn_error(platform: NativePlatform) -> (message: &'static str)
    ensures
        message@ == spec_link_spawn_error(platform),
{
    match platform {
        NativePlatform::Linux => "Cannot open link: install GIO (gio) on the desktop host PATH.",
        NativePlatform::Macos => "Cannot open link: /usr/bin/open is unavailable.",
    }
}

/// What became of the platform's link dispatcher so far.
#[derive(Clone, Copy, Debug, PartialEq, Eq, Structural)]
pub enum DispatchState {
    /// It exited successfully.
    Succeeded,
    /// It exited with a failure.
    Failed,
    /// Its state could not be read.
    Unobservable,
    /// It is still running; `timed_out` once its deadline passed.
    Running { timed_out: bool },
}

pub open spec fn spec_dispatch_notice(state: DispatchState) -> Option<Seq<char>> {
    match state {
        DispatchState::Succeeded => Some("Link handed to the desktop handler."@),
        DispatchState::Failed => Some("Could not open link. Check the desktop's HTTP/HTTPS handler."@),
        DispatchState::Unobservable => Some("Could not observe the native link dispatcher."@),
        DispatchState::Running { timed_out } => if timed_out {
            Some("Link dispatcher timed out. The handler may already have opened."@)
        } else {
            None
        },
    }
}

/// The notice that ends a link dispatch, or none while it is still under way.
pub fn link_dispatch_notice(state: DispatchState) -> (notice: Option<&'static str>)
    ensures
        match spec_dispatch_notice(state) {
            Some(text) => notice matches Some(n) && n@ == text,
            None => notice is None,
        },
{
    match state {
        DispatchState::Succeeded => Some("Link handed to the desktop handler."),
        DispatchState::Failed => Some("Could not open link. Check the desktop's HTTP/HTTPS handler."),
        DispatchState::Unobservable => Some("Could not observe the native link dispatcher."),
        DispatchState::Running { timed_out } => if timed_out {
            Some("Link dispatcher timed out. The handler may already have opened.")
        } else {
            None
        },
    }
}

} // verus!
