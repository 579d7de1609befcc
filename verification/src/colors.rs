//! Hex colour strings such as `#3B82F6` or `#fa0`, as the category,
//! template and event editors accept them.

use vstd::prelude::*;
use vstd::string::*;
use vstd::utf8::{encode_utf8, is_char_boundary};
use crate::text::{trimmed, trim_str};

verus! {

/// `s` without its leading `#` characters.
pub open spec fn strip_hashes(s: Seq<char>) -> Seq<char>
    decreases s.len(),
{
    if s.len() > 0 && s[0] == '#' {
        strip_hashes(s.drop_first())
    } else {
        s
    }
}

/// An ASCII hexadecimal digit.
pub open spec fn is_hex_char(c: char) -> bool {
    ('0' <= c && c <= '9') || ('a' <= c && c <= 'f') || ('A' <= c && c <= 'F')
}

/// Three or six hex digits.
pub open spec fn is_hex_body(h: Seq<char>) -> bool {
    &&& (h.len() == 3 || h.len() == 6)
    &&& forall|i: int| 0 <= i < h.len() ==> is_hex_char(#[trigger] h[i])
}

/// A colour the category editor accepts: after trimming and dropping
/// leading `#`s, three or six hex digits.
pub open spec fn hex_color_ok(s: Seq<char>) -> bool {
    is_hex_body(strip_hashes(trimmed(s)))
}

proof fn lemma_strip_hashes_skip(s: Seq<char>, i: int)
    requires
        0 <= i <= s.len(),
        forall|k: int| 0 <= k < i ==> s[k] == '#',
    ensures
        strip_hashes(s) == strip_hashes(s.subrange(i, s.len() as int)),
    decreases i,
{
    if i > 0 {
        assert(s.drop_first().subrange(i - 1, s.drop_first().len() as int) =~= s.subrange(
            i,
            s.len() as int,
        ));
        lemma_strip_hashes_skip(s.drop_first(), i - 1);
    } else {
        assert(s.subrange(0, s.len() as int) =~= s);
    }
}

/// `s` without its leading `#` characters, as `trim_start_matches('#')`.
pub fn strip_leading_hashes(s: &str) -> (r: &str)
    ensures
        r@ == strip_hashes(s@),
{
    let n = s.unicode_len();
    let mut i: usize = 0;
    while i < n && s.get_char(i) == '#'
        invariant
            n == s@.len(),
            0 <= i <= n,
            forall|k: int| 0 <= k < i ==> s@[k] == '#',
        decreases n - i,
    {
        i = i + 1;
    }
    proof {
        lemma_strip_hashes_skip(s@, i as int);
    }
    s.substring_char(i, n)
}

fn is_hex_digit(c: char) -> (r: bool)
    ensures
        r == is_hex_char(c),
{
    ('0' <= c && c <= '9') || ('a' <= c && c <= 'f') || ('A' <= c && c <= 'F')
}

/// Whether the text is three or six hex digits.
fn hex_body(h: &str) -> (r: bool)
    ensures
        r == is_hex_body(h@),
{
    let n = h.unicode_len();
    if n != 3 && n != 6 {
        return false;
    }
    let mut i: usize = 0;
    while i < n
        invariant
            n == h@.len(),
            0 <= i <= n,
            forall|k: int| 0 <= k < i ==> is_hex_char(#[trigger] h@[k]),
        decreases n - i,
    {
        if !is_hex_digit(h.get_char(i)) {
            return false;
        }
        i = i + 1;
    }
    true
}

/// Whether a colour text is, after trimming and dropping leading `#`s,
/// three or six hex digits.
pub fn is_valid_hex_color(color: &str) -> (r: bool)
    ensures
        r == hex_color_ok(color@),
{
    let t = trim_str(color);
    let h = strip_leading_hashes(t);
    hex_body(h)
}

/// Value of an ASCII hex digit.
pub open spec fn hex_digit(c: u8) -> Option<int> {
    if 48 <= c <= 57 {
        Some(c - 48)
    } else if 97 <= c <= 102 {
        Some(c - 87)
    } else if 65 <= c <= 70 {
        Some(c - 55)
    } else {
        None
    }
}

/// `u8::from_str_radix(s, 16)` for a text of at most two bytes: an
/// optional `+`, then one or two hex digits.
pub open spec fn radix16_short(s: Seq<u8>) -> Option<int>
    recommends
        s.len() <= 2,
{
    let d = if s.len() > 0 && s[0] == 43 {
        s.drop_first()
    } else {
        s
    };
    if d.len() == 1 {
        hex_digit(d[0])
    } else if d.len() == 2 {
        match (hex_digit(d[0]), hex_digit(d[1])) {
            (Some(a), Some(b)) => Some(a * 16 + b),
            _ => None,
        }
    } else {
        None
    }
}

/// The colour of six hex digits (two per channel) or three (one per
/// channel, scaled by 17), read as `from_str_radix` reads each slice.
pub open spec fn hex_rgb(h: Seq<u8>) -> Option<(u8, u8, u8)> {
    if h.len() == 6 {
        match (
            radix16_short(h.subrange(0, 2)),
            radix16_short(h.subrange(2, 4)),
            radix16_short(h.subrange(4, 6)),
        ) {
            (Some(r), Some(g), Some(b)) => Some((r as u8, g as u8, b as u8)),
            _ => None,
        }
    } else if h.len() == 3 {
        match (
            radix16_short(h.subrange(0, 1)),
            radix16_short(h.subrange(1, 2)),
            radix16_short(h.subrange(2, 3)),
        ) {
            (Some(r), Some(g), Some(b)) => Some(((r * 17) as u8, (g * 17) as u8, (b * 17) as u8)),
            _ => None,
        }
    } else {
        None
    }
}

/// The channel slices of a six- or three-digit colour start and end at
/// character boundaries (slicing elsewhere panics).
pub open spec fn hex_sliceable(h: Seq<u8>) -> bool {
    &&& h.len() == 6 ==> is_char_boundary(h, 2) && is_char_boundary(h, 4)
    &&& h.len() == 3 ==> is_char_boundary(h, 1) && is_char_boundary(h, 2)
}

fn hex_digit_value(c: u8) -> (r: Option<u8>)
    ensures
        match hex_digit(c) {
            Some(v) => r == Some(v as u8),
            None => r is None,
        },
{
    if 48 <= c && c <= 57 {
        Some(c - 48)
    } else if 97 <= c && c <= 102 {
        Some(c - 87)
    } else if 65 <= c && c <= 70 {
        Some(c - 55)
    } else {
        None
    }
}

fn radix16_at(b: &[u8], lo: usize, hi: usize) -> (r: Option<u8>)
    requires
        lo <= hi <= b@.len(),
        hi - lo <= 2,
    ensures
        match radix16_short(b@.subrange(lo as int, hi as int)) {
            Some(v) => r == Some(v as u8) && 0 <= v < 256,
            None => r is None,
        },
{
    let ghost s = b@.subrange(lo as int, hi as int);
    let mut start = lo;
    if lo < hi && b[lo] == 43 {
        start = lo + 1;
    }
    let ghost d = b@.subrange(start as int, hi as int);
    assert(d =~= if s.len() > 0 && s[0] == 43 { s.drop_first() } else { s });
    if hi - start == 1 {
        hex_digit_value(b[start])
    } else if hi - start == 2 {
        match (hex_digit_value(b[start]), hex_digit_value(b[start + 1])) {
            (Some(x), Some(y)) => Some(x * 16 + y),
            _ => None,
        }
    } else {
        None
    }
}

/// The colour of a text of six or three hex digits (no `#`).
fn rgb_of_hex(h: &str) -> (r: Option<(u8, u8, u8)>)
    requires
        hex_sliceable(h.spec_bytes()),
    ensures
        r == hex_rgb(h.spec_bytes()),
{
    let b = h.as_bytes();
    let n = b.len();
    if n == 6 {
        match (radix16_at(b, 0, 2), radix16_at(b, 2, 4), radix16_at(b, 4, 6)) {
            (Some(r), Some(g), Some(bl)) => Some((r, g, bl)),
            _ => None,
        }
    } else if n == 3 {
        match (radix16_at(b, 0, 1), radix16_at(b, 1, 2), radix16_at(b, 2, 3)) {
            (Some(r), Some(g), Some(bl)) => Some((r * 17, g * 17, bl * 17)),
            _ => None,
        }
    } else {
        None
    }
}

/// The grey shown for a colour that cannot be read.
pub open spec fn gray() -> (u8, u8, u8) {
    (160, 160, 160)
}

/// The swatch colour of a category: the text trimmed, leading `#`s
/// dropped, read as six or three hex digits; grey otherwise.
pub fn parse_hex_color_or_gray(hex: &str) -> (r: (u8, u8, u8))
    requires
        hex_sliceable(encode_utf8(strip_hashes(trimmed(hex@)))),
    ensures
        r == match hex_rgb(encode_utf8(strip_hashes(trimmed(hex@)))) {
            Some(c) => c,
            None => gray(),
        },
{
    let h = strip_leading_hashes(trim_str(hex));
    match rgb_of_hex(h) {
        Some(c) => c,
        None => (160, 160, 160),
    }
}

/// The colour of the event editor's colour field: leading `#`s dropped,
/// read as six or three hex digits.
pub fn parse_hex_color(hex: &str) -> (r: Option<(u8, u8, u8)>)
    requires
        hex_sliceable(encode_utf8(strip_hashes(hex@))),
    ensures
        r == hex_rgb(encode_utf8(strip_hashes(hex@))),
{
    rgb_of_hex(strip_leading_hashes(hex))
}

/// The colour of the template editor's colour field: one `#`, then six
/// or three hex digits.
pub fn parse_hex_color_strict(hex: &str) -> (r: Option<(u8, u8, u8)>)
    requires
        hex@.len() > 0 && hex@[0] == '#' ==> hex_sliceable(encode_utf8(hex@.drop_first())),
    ensures
        !(hex@.len() > 0 && hex@[0] == '#') ==> r is None,
        hex@.len() > 0 && hex@[0] == '#' ==> r == hex_rgb(encode_utf8(hex@.drop_first())),
{
    let n = hex.unicode_len();
    if n == 0 || hex.get_char(0) != '#' {
        return None;
    }
    let rest = hex.substring_char(1, n);
    assert(rest@ =~= hex@.drop_first());
    rgb_of_hex(rest)
}

proof fn lemma_hex_char_byte(c: char)
    requires
        is_hex_char(c),
    ensures
        (c as u8) != 43,
        hex_digit(c as u8) is Some,
        (c as u8) < 128,
{
    assert((c as u32) < 128);
}

proof fn lemma_hex_slice(e: Seq<u8>, lo: int, hi: int)
    requires
        0 <= lo < hi <= e.len(),
        hi - lo <= 2,
        forall|i: int| 0 <= i < e.len() ==> e[i] != 43 && #[trigger] hex_digit(e[i]) is Some,
    ensures
        radix16_short(e.subrange(lo, hi)) is Some,
{
    let sl = e.subrange(lo, hi);
    assert(sl[0] == e[lo]);
    assert(hex_digit(e[lo]) is Some);
    assert(sl[0] != 43);
    if hi - lo == 2 {
        assert(sl[1] == e[lo + 1]);
        assert(hex_digit(e[lo + 1]) is Some);
    }
}

/// A colour that the category editor accepts is always read as a colour
/// (never the grey fallback), and reading it never slices inside a
/// character.
pub proof fn lemma_valid_color_parses(s: Seq<char>)
    requires
        hex_color_ok(s),
    ensures
        hex_sliceable(encode_utf8(strip_hashes(trimmed(s)))),
        hex_rgb(encode_utf8(strip_hashes(trimmed(s)))) is Some,
{
    let h = strip_hashes(trimmed(s));
    assert(vstd::utf8::is_ascii_chars(h)) by {
        assert forall|i: int| 0 <= i < h.len() implies '\0' <= #[trigger] h[i] <= '\u{7f}' by {
            lemma_hex_char_byte(h[i]);
        }
    }
    vstd::utf8::is_ascii_chars_encode_utf8(h);
    vstd::utf8::encode_utf8_valid_utf8(h);
    let e = encode_utf8(h);
    assert forall|i: int| 0 <= i < e.len() implies e[i] != 43 && #[trigger] hex_digit(e[i]) is Some by {
        lemma_hex_char_byte(h[i]);
        assert(h[i] as u8 == e[i]);
    }
    assert forall|i: int| 0 <= i < e.len() implies #[trigger] is_char_boundary(e, i) by {
        lemma_hex_char_byte(h[i]);
        assert(h[i] as u8 == e[i]);
        vstd::utf8::is_char_boundary_iff_not_is_continuation_byte(e, i);
    }
    if e.len() == 6 {
        lemma_hex_slice(e, 0, 2);
        lemma_hex_slice(e, 2, 4);
        lemma_hex_slice(e, 4, 6);
    } else {
        lemma_hex_slice(e, 0, 1);
        lemma_hex_slice(e, 1, 2);
        lemma_hex_slice(e, 2, 3);
    }
}

} // verus!
