//! The character repertoire and the mapping from characters to glyph indices.
//!
//! The repertoire is the same for every size: the printable ASCII range
//! `' '..='~'` followed by the Latin-1 supplement `'\u{A0}'..='\u{FF}'`.
//! Glyphs are numbered densely in that order. Every other character is drawn
//! with the glyph of `'?'`.

use vstd::prelude::*;

verus! {

/// Number of glyph cells in one row of a glyph sheet.
pub const CHARS_PER_ROW: u32 = 32;

/// Number of characters in the printable ASCII range `' '..='~'`.
pub const BASIC_COUNT: usize = 95;

/// Number of characters in the repertoire, and of cells in a glyph sheet.
pub const REPERTOIRE_SIZE: usize = 191;

/// Number of cell rows in a glyph sheet: `REPERTOIRE_SIZE / CHARS_PER_ROW`,
/// rounded up.
pub const SHEET_ROWS: u32 = 6;

/// Glyph index of `'?'`, which stands in for every unsupported character.
pub const FALLBACK_INDEX: usize = 31;

/// Whether `c` lies in the printable ASCII range `' '..='~'`.
pub open spec fn is_basic(c: char) -> bool {
    0x20 <= c as int <= 0x7E
}

/// Whether `c` lies in the Latin-1 supplement `'\u{A0}'..='\u{FF}'`.
pub open spec fn is_supplement(c: char) -> bool {
    0xA0 <= c as int <= 0xFF
}

/// Whether `c` has a glyph of its own.
pub open spec fn in_repertoire(c: char) -> bool {
    is_basic(c) || is_supplement(c)
}

/// The glyph index of `c`.
pub open spec fn glyph_index(c: char) -> int {
    if is_basic(c) {
        c as int - 0x20
    } else if is_supplement(c) {
        c as int - 0x20 - 33
    } else {
        31
    }
}

/// The character whose glyph sits at `index`, for `index` below
/// `REPERTOIRE_SIZE`.
pub open spec fn glyph_char(index: int) -> char {
    if index < 95 {
        (index + 0x20) as char
    } else {
        (index + 0x20 + 33) as char
    }
}

/// Maps a character to the index of its glyph.
///
/// Never fails: a character outside the repertoire maps to
/// `FALLBACK_INDEX`.
pub fn map_character(c: char) -> (index: usize)
    ensures
        index == glyph_index(c),
        index < REPERTOIRE_SIZE,
{
    let code: u32 = c as u32;
    if 0x20 <= code && code <= 0x7E {
        (code - 0x20) as usize
    } else if 0xA0 <= code && code <= 0xFF {
        (code - 0x20 - 33) as usize
    } else {
        FALLBACK_INDEX
    }
}

/// Whether `c` has a glyph of its own.
pub fn is_supported(c: char) -> (supported: bool)
    ensures
        supported == in_repertoire(c),
{
    let code: u32 = c as u32;
    (0x20 <= code && code <= 0x7E) || (0xA0 <= code && code <= 0xFF)
}

/// The character whose glyph sits at `index`: the inverse of
/// `map_character` on the repertoire.
pub fn repertoire_char(index: usize) -> (c: char)
    requires
        index < REPERTOIRE_SIZE,
    ensures
        c == glyph_char(index as int),
        in_repertoire(c),
        glyph_index(c) == index,
{
    if index < BASIC_COUNT {
        (index as u8 + 0x20) as char
    } else {
        (index as u8 + 0x20 + 33) as char
    }
}

/// On the printable ASCII range the glyph index is the distance from `' '`.
pub proof fn basic_index_is_offset_from_space(c: char)
    requires
        is_basic(c),
    ensures
        glyph_index(c) == c as int - ' ' as int,
        0 <= glyph_index(c) < 95,
{
}

/// On the Latin-1 supplement the glyph index continues where the printable
/// ASCII range ends.
pub proof fn supplement_index_follows_basic(c: char)
    requires
        is_supplement(c),
    ensures
        glyph_index(c) == 95 + (c as int - 0xA0),
        95 <= glyph_index(c) < 191,
{
}

/// No two characters of the repertoire share a glyph index. In particular
/// the mapping is injective on each of the two ranges, and no index of the
/// Latin-1 supplement is an index of the printable ASCII range.
pub proof fn distinct_characters_have_distinct_glyphs(a: char, b: char)
    requires
        in_repertoire(a),
        in_repertoire(b),
        a != b,
    ensures
        glyph_index(a) != glyph_index(b),
{
}

/// The images of the two ranges do not meet.
pub proof fn supplement_disjoint_from_basic(a: char, b: char)
    requires
        is_basic(a),
        is_supplement(b),
    ensures
        glyph_index(a) < 95 <= glyph_index(b),
{
}

/// A character outside the repertoire is drawn with the glyph of `'?'`.
pub proof fn unsupported_maps_to_question_mark(c: char)
    requires
        !in_repertoire(c),
    ensures
        glyph_index(c) == glyph_index('?'),
        glyph_index(c) == FALLBACK_INDEX,
{
}

/// Every glyph index below `REPERTOIRE_SIZE` is the index of exactly the
/// character `glyph_char` names.
pub proof fn glyph_char_inverts_glyph_index(index: int)
    requires
        0 <= index < 191,
    ensures
        in_repertoire(glyph_char(index)),
        glyph_index(glyph_char(index)) == index,
{
}

} // verus!
