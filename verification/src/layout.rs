//! Placement of the characters of a text, left to right and top to bottom.
//!
//! Every character other than a line break is placed at the cursor and
//! moves the cursor right by the cell width and the character spacing. A
//! line break takes the cursor back to the left edge and down by the cell
//! height and the line spacing. There is no wrapping and no kerning.

use vstd::prelude::*;
use crate::geometry::{Point, Rectangle};
use crate::mapping::glyph_index;
use crate::variant::{cell_rect, character_rect, SizeVariant};

verus! {

/// One character of a text, ready to be copied to a pixel buffer.
#[derive(Clone, Copy, Debug, PartialEq, Eq, Structural)]
pub struct Placement {
    /// The cell of the character's glyph in the glyph sheet.
    pub glyph: Rectangle,
    /// Where the top left corner of the cell goes.
    pub position: Point,
}

/// The placements of a text and the place where a text that follows it
/// would start.
#[derive(Clone, Debug)]
pub struct TextLayout {
    /// One placement for each character that is no line break, in the
    /// order of the text.
    pub placements: Vec<Placement>,
    /// The cursor after the last character.
    pub end: Point,
}

/// Whether `c` ends a line.
pub open spec fn is_line_break(c: char) -> bool {
    c == '\n'
}

/// The cursor after the character `c` was handled with the cursor at
/// `cursor`, in a text whose lines start at `line_start`.
pub open spec fn cursor_step(
    size: SizeVariant,
    line_start: int,
    line_spacing: int,
    cursor: (int, int),
    c: char,
) -> (int, int) {
    if is_line_break(c) {
        (line_start, cursor.1 + size.cell().height + line_spacing)
    } else {
        (cursor.0 + size.cell().width + size.spacing(), cursor.1)
    }
}

/// The cursor after the whole of `text`, for a text that starts at
/// `origin`.
pub open spec fn cursor_after(
    size: SizeVariant,
    origin: Point,
    line_spacing: int,
    text: Seq<char>,
) -> (int, int)
    decreases text.len(),
{
    if text.len() == 0 {
        (origin.x as int, origin.y as int)
    } else {
        cursor_step(
            size,
            origin.x as int,
            line_spacing,
            cursor_after(size, origin, line_spacing, text.drop_last()),
            text.last(),
        )
    }
}

/// Whether both coordinates of a cursor are coordinates of a `Point`.
pub open spec fn is_point(cursor: (int, int)) -> bool {
    i32::MIN <= cursor.0 <= i32::MAX && i32::MIN <= cursor.1 <= i32::MAX
}

/// Whether the cursor stays within the coordinates of a `Point` all through
/// `text`.
pub open spec fn stays_in_range(
    size: SizeVariant,
    origin: Point,
    line_spacing: int,
    text: Seq<char>,
) -> bool {
    forall|k: int|
        0 <= k <= text.len() ==> is_point(
            #[trigger] cursor_after(size, origin, line_spacing, text.take(k)),
        )
}

/// The placements of the characters of `text`, for a text that starts at
/// `origin`.
pub open spec fn placements_of(
    size: SizeVariant,
    origin: Point,
    line_spacing: int,
    text: Seq<char>,
) -> Seq<Placement>
    decreases text.len(),
{
    if text.len() == 0 {
        Seq::empty()
    } else {
        let before = placements_of(size, origin, line_spacing, text.drop_last());
        if is_line_break(text.last()) {
            before
        } else {
            let cursor = cursor_after(size, origin, line_spacing, text.drop_last());
            before.push(
                Placement {
                    glyph: cell_rect(glyph_index(text.last()), size.cell()),
                    position: Point { x: cursor.0 as i32, y: cursor.1 as i32 },
                },
            )
        }
    }
}

/// Moves the cursor past the character `c`, or returns `None` where the
/// new cursor would leave the coordinates of a `Point`.
pub fn next_position(
    size: &SizeVariant,
    line_start: i32,
    line_spacing: u32,
    position: Point,
    c: char,
) -> (next: Option<Point>)
    ensures
        next is Some <==> is_point(
            cursor_step(
                *size,
                line_start as int,
                line_spacing as int,
                (position.x as int, position.y as int),
                c,
            ),
        ),
        next matches Some(p) ==> (p.x as int, p.y as int) == cursor_step(
            *size,
            line_start as int,
            line_spacing as int,
            (position.x as int, position.y as int),
            c,
        ),
{
    let cell = size.character_size();
    if c == '\n' {
        let y: i64 = position.y as i64 + cell.height as i64 + line_spacing as i64;
        if y <= i32::MAX as i64 {
            Some(Point { x: line_start, y: y as i32 })
        } else {
            None
        }
    } else {
        let x: i64 = position.x as i64 + cell.width as i64 + size.character_spacing() as i64;
        if x <= i32::MAX as i64 {
            Some(Point { x: x as i32, y: position.y })
        } else {
            None
        }
    }
}

/// Lays out `text` with its first character at `origin` and `line_spacing`
/// extra pixels between lines.
///
/// Returns `None` where the cursor would leave the coordinates of a
/// `Point` at some character of the text.
pub fn layout_text(size: &SizeVariant, origin: Point, line_spacing: u32, text: &[char]) -> (layout:
    Option<TextLayout>)
    ensures
        layout is Some <==> stays_in_range(*size, origin, line_spacing as int, text@),
        layout matches Some(l) ==> {
            &&& l.placements@ == placements_of(*size, origin, line_spacing as int, text@)
            &&& (l.end.x as int, l.end.y as int) == cursor_after(
                *size,
                origin,
                line_spacing as int,
                text@,
            )
        },
{
    let mut placements: Vec<Placement> = Vec::new();
    let mut cursor = origin;
    let mut i: usize = 0;
    assert(text@.take(0) =~= Seq::<char>::empty());
    while i < text.len()
        invariant
            0 <= i <= text@.len(),
            (cursor.x as int, cursor.y as int) == cursor_after(
                *size,
                origin,
                line_spacing as int,
                text@.take(i as int),
            ),
            placements@ == placements_of(*size, origin, line_spacing as int, text@.take(i as int)),
            forall|k: int|
                0 <= k <= i ==> is_point(
                    #[trigger] cursor_after(*size, origin, line_spacing as int, text@.take(k)),
                ),
        decreases text@.len() - i,
    {
        let c = text[i];
        proof {
            let longer = text@.take(i + 1);
            assert(longer.drop_last() =~= text@.take(i as int));
            assert(longer.last() == c);
        }
        if c != '\n' {
            placements.push(Placement { glyph: character_rect(c, size), position: cursor });
        }
        match next_position(size, origin.x, line_spacing, cursor, c) {
            Some(next) => {
                cursor = next;
            },
            None => {
                assert(!is_point(
                    cursor_after(*size, origin, line_spacing as int, text@.take(i + 1)),
                ));
                return None;
            },
        }
        i = i + 1;
    }
    assert(text@.take(text@.len() as int) =~= text@);
    Some(TextLayout { placements, end: cursor })
}

} // verus!
