//! The sheet generator: composes the glyphs of one bitmap strike into a
//! packed glyph sheet.
//!
//! All glyphs share the cell and the baseline of the space character. A
//! glyph is placed in its cell by its own origin offsets, so a glyph that is
//! narrower or shorter than the cell leaves the rest of the cell black.

use vstd::prelude::*;
use vstd::pervasive::unreached;
use crate::bits::{expand_bits, expanded};
use crate::geometry::Size;
use crate::glyph::{BitDepth, GlyphBitmap, GlyphImage, GlyphMetrics};
use crate::mapping::{
    glyph_char, glyph_index, in_repertoire, repertoire_char, CHARS_PER_ROW, REPERTOIRE_SIZE,
};
use crate::sheet::{blit, Sheet};
use crate::source::{
    bitmap_of, cmap_in_reach, consults_bitmaps, fault_of, first_font, font_file, font_tables,
    glyph_ids, glyph_image_in, listed_strikes, locations_checked, lookup_glyph_image,
    lookup_glyph_index, metrics_of, open_strikes, read_font, reader_bytes, select_bitmap_tables,
    strike_sizes, table_data, table_of, table_provider, StrikeReader,
};
use crate::tables::{
    encodings_are_in_reach, encodings_in_reach, locations_are_in_order, locations_in_order, CMAP,
    EBLC,
};
use crate::variant::{cell_column, cell_row, DecorationDimensions, SizeVariant};

verus! {

/// Why a piece of font data could not be read.
#[derive(Clone, Copy, Debug, PartialEq, Eq, Structural)]
pub enum ParseFault {
    /// The data ends too early.
    BadEof,
    /// A field holds a value that it may not hold.
    BadValue,
    /// A table or the file has a version that is not understood.
    BadVersion,
    /// An offset points outside the data.
    BadOffset,
    /// An index names an item that is not there.
    BadIndex,
    /// A limit on nesting or size is exceeded.
    LimitExceeded,
    /// A value that must be present is absent.
    MissingValue,
    /// The font lacks the table with this tag.
    MissingTable(u32),
    /// Compressed data cannot be unpacked.
    CompressionError,
    /// The font has no character map that can be used.
    UnsuitableCmap,
    /// The data uses a feature that is not supported.
    NotImplemented,
}

/// Why a sheet could not be generated.
#[derive(Clone, Copy, Debug, PartialEq, Eq, Structural)]
pub enum GenerateError {
    /// The font data cannot be parsed.
    SourceUnreadable,
    /// The font lacks a table that generation needs.
    RequiredTableMissing,
    /// The font has no strike of the requested size.
    InvalidSizeRequested,
    /// The font has no glyph, or no bitmap of the requested size, for this
    /// character.
    GlyphUnavailable(char),
    /// The bitmap of this character is not a raw 1-bit bitmap.
    UnsupportedBitmap(char),
    /// The bitmap of this character holds fewer pixels than its width and
    /// height call for.
    TruncatedBitmap(char),
    /// The bitmap of this character comes without horizontal metrics, or,
    /// for the space character, with metrics that give a cell without
    /// pixels.
    MissingMetrics(char),
    /// The glyph of this character, placed by its metrics, does not lie
    /// inside the sheet.
    GlyphOutsideSheet(char),
}

impl GenerateError {
    /// The character that the error is about, where it is about one.
    pub open spec fn character(self) -> Option<char> {
        match self {
            GenerateError::GlyphUnavailable(ch) => Some(ch),
            GenerateError::UnsupportedBitmap(ch) => Some(ch),
            GenerateError::TruncatedBitmap(ch) => Some(ch),
            GenerateError::MissingMetrics(ch) => Some(ch),
            GenerateError::GlyphOutsideSheet(ch) => Some(ch),
            _ => None,
        }
    }
}

/// Where the top left pixel of a glyph `bitmap_height` pixels high goes:
/// horizontally the cell's left edge plus the glyph's offset from its
/// origin, vertically so that the glyph's origin sits `base.ascender` pixels
/// below the cell's top edge.
pub open spec fn glyph_origin(
    char_index: int,
    base: GlyphMetrics,
    glyph: GlyphMetrics,
    bitmap_height: int,
) -> (int, int) {
    (
        cell_column(char_index) * base.advance + glyph.origin_offset_x,
        cell_row(char_index) * base.line_height() + base.ascender - bitmap_height
            - glyph.origin_offset_y,
    )
}

/// Why the glyph of `ch` cannot be added to a sheet of `sheet_width` by
/// `sheet_height` pixels, or `None` where it can.
pub open spec fn sprite_error(
    char_index: int,
    ch: char,
    base: GlyphMetrics,
    image: GlyphImage,
    sheet_width: nat,
    sheet_height: nat,
) -> Option<GenerateError> {
    match image.bitmap {
        GlyphBitmap::Encapsulated => Some(GenerateError::UnsupportedBitmap(ch)),
        GlyphBitmap::Embedded { width, height, format, data } => {
            if format != BitDepth::One {
                Some(GenerateError::UnsupportedBitmap(ch))
            } else if width == 0 || height == 0 {
                None
            } else if expanded(width as int, data@).len() < width * height {
                Some(GenerateError::TruncatedBitmap(ch))
            } else {
                match image.metrics.horizontal_spec() {
                    None => Some(GenerateError::MissingMetrics(ch)),
                    Some(metrics) => {
                        let (x, y) = glyph_origin(char_index, base, metrics, height as int);
                        if 0 <= x && x + width <= sheet_width && 0 <= y && y + height
                            <= sheet_height {
                            None
                        } else {
                            Some(GenerateError::GlyphOutsideSheet(ch))
                        }
                    },
                }
            }
        },
    }
}

/// The pixels of a sheet after the glyph was added to it, where
/// `sprite_error` finds no fault.
pub open spec fn with_sprite(
    before: Seq<u8>,
    sheet_width: nat,
    sheet_height: nat,
    char_index: int,
    base: GlyphMetrics,
    image: GlyphImage,
) -> Seq<u8> {
    match image.bitmap {
        GlyphBitmap::Encapsulated => before,
        GlyphBitmap::Embedded { width, height, format, data } => {
            if width == 0 || height == 0 {
                before
            } else {
                match image.metrics.horizontal_spec() {
                    None => before,
                    Some(metrics) => {
                        let (x, y) = glyph_origin(char_index, base, metrics, height as int);
                        blit(
                            before,
                            sheet_width,
                            sheet_height,
                            expanded(width as int, data@).take(width * height),
                            width as nat,
                            height as nat,
                            x as nat,
                            y as nat,
                        )
                    },
                }
            }
        },
    }
}

/// Whether every pixel is either black or white.
pub open spec fn bilevel(pixels: Seq<u8>) -> bool {
    forall|i: int| 0 <= i < pixels.len() ==> pixels[i] == 0 || pixels[i] == 255
}

/// Adds the glyph of `ch`, the character with glyph index `char_index`, to
/// the sheet.
///
/// A glyph without pixels leaves the sheet as it is. So does every error.
/// The glyph's pixels are black or white, so a sheet that holds no gray
/// before holds none after.
pub fn add_to_sprite_sheet(
    char_index: usize,
    ch: char,
    base_metrics: &GlyphMetrics,
    glyph_image: &GlyphImage,
    sheet: &mut Sheet,
) -> (added: Result<(), GenerateError>)
    requires
        char_index < REPERTOIRE_SIZE,
    ensures
        final(sheet).spec_width() == old(sheet).spec_width(),
        final(sheet).spec_height() == old(sheet).spec_height(),
        added == match sprite_error(
            char_index as int,
            ch,
            *base_metrics,
            *glyph_image,
            old(sheet).spec_width(),
            old(sheet).spec_height(),
        ) {
            Some(error) => Err::<(), GenerateError>(error),
            None => Ok(()),
        },
        added is Err ==> final(sheet)@ == old(sheet)@,
        added is Ok ==> final(sheet)@ == with_sprite(
            old(sheet)@,
            old(sheet).spec_width(),
            old(sheet).spec_height(),
            char_index as int,
            *base_metrics,
            *glyph_image,
        ),
        old(sheet).well_formed() ==> final(sheet).well_formed(),
        old(sheet).well_formed() && bilevel(old(sheet)@) ==> bilevel(final(sheet)@),
{
    match &glyph_image.bitmap {
        GlyphBitmap::Encapsulated => Err(GenerateError::UnsupportedBitmap(ch)),
        GlyphBitmap::Embedded { width, height, format, data } => {
            match format {
                BitDepth::One => {},
                _ => {
                    return Err(GenerateError::UnsupportedBitmap(ch));
                },
            }
            let width: u32 = *width as u32;
            let height: u32 = *height as u32;
            if width == 0 || height == 0 {
                return Ok(());
            }
            let pixels = expand_bits(width, data.as_slice());
            let glyph = match Sheet::from_raw(width, height, pixels) {
                Some(glyph) => glyph,
                None => {
                    return Err(GenerateError::TruncatedBitmap(ch));
                },
            };
            let metrics = match glyph_image.metrics.horizontal() {
                Some(metrics) => metrics,
                None => {
                    return Err(GenerateError::MissingMetrics(ch));
                },
            };
            let column: i32 = (char_index % CHARS_PER_ROW as usize) as i32;
            let row: i32 = (char_index / CHARS_PER_ROW as usize) as i32;
            let advance: i32 = base_metrics.advance as i32;
            let ascender: i32 = base_metrics.ascender as i32;
            let row_height: i32 = ascender - base_metrics.descender as i32;
            assert(0 <= column * advance <= 31 * 255) by (nonlinear_arith)
                requires
                    0 <= column <= 31,
                    0 <= advance <= 255,
            ;
            assert(-5 * 255 <= row * row_height <= 5 * 255) by (nonlinear_arith)
                requires
                    0 <= row <= 5,
                    -255 <= row_height <= 255,
            ;
            let x: i32 = column * advance + metrics.origin_offset_x as i32;
            let y: i32 = row * row_height + ascender - height as i32
                - metrics.origin_offset_y as i32;
            if x < 0 || y < 0 {
                return Err(GenerateError::GlyphOutsideSheet(ch));
            }
            if sheet.copy_from(&glyph, x as u32, y as u32) {
                proof {
                    let w = width as int;
                    let h = height as int;
                    let after = sheet@;
                    assert forall|i: int|
                        0 <= i < after.len() && old(sheet).well_formed() && bilevel(old(sheet)@) implies after[i]
                        == 0
                        || after[i] == 255 by {
                        let column = i % (sheet.spec_width() as int);
                        let row = i / (sheet.spec_width() as int);
                        if x <= column < x + w && y <= row < y + h {
                            let k = (row - y) * w + (column - x);
                            assert(0 <= k < w * h) by (nonlinear_arith)
                                requires
                                    0 <= row - y < h,
                                    0 <= column - x < w,
                                    k == (row - y) * w + (column - x),
                            ;
                            assert(after[i] == glyph@[k]);
                        } else {
                            assert(after[i] == old(sheet)@[i]);
                        }
                    }
                }
                Ok(())
            } else {
                Err(GenerateError::GlyphOutsideSheet(ch))
            }
        },
    }
}

/// The strike size whose space character reports too wide an advance.
pub const OVERRIDDEN_STRIKE: u8 = 16;

/// The advance used for the strike of `OVERRIDDEN_STRIKE` pixels.
pub const OVERRIDDEN_ADVANCE: u8 = 10;

/// Something that generation did on its own account and that the caller
/// may want to know.
#[derive(Clone, Copy, Debug, PartialEq, Eq, Structural)]
pub enum Warning {
    /// The advance that the font reports for this strike was replaced.
    AdvanceOverridden {
        /// What the font reports.
        reported: u8,
        /// What the cells are made with.
        used: u8,
    },
    /// The glyph of this character has no pixels; its cell stays black.
    BlankGlyph(char),
}

/// What generation yields.
#[derive(Debug)]
pub struct GeneratedSheet {
    /// The metrics of the space character, after any override. They fix the
    /// cell and the baseline of every glyph.
    pub metrics: GlyphMetrics,
    /// The metrics record of the packed font.
    pub variant: SizeVariant,
    /// The glyph sheet, one byte per pixel.
    pub sheet: Sheet,
    /// What the caller may want to know, in the order in which it arose.
    pub warnings: Vec<Warning>,
}

/// Whether `warnings` is what generation of the strike of `strike_size`
/// pixels may report: first the override of the advance, where the strike
/// has one, then the characters without pixels, each a character of the
/// repertoire, in the order of their glyph indices.
pub open spec fn well_ordered(warnings: Seq<Warning>, strike_size: u8) -> bool {
    let blanks_from: int = if strike_size == OVERRIDDEN_STRIKE {
        1
    } else {
        0
    };
    &&& blanks_from <= warnings.len()
    &&& strike_size == OVERRIDDEN_STRIKE ==> (warnings[0] matches Warning::AdvanceOverridden {
        reported,
        used,
    } && used == OVERRIDDEN_ADVANCE)
    &&& forall|k: int|
        blanks_from <= k < warnings.len() ==> (#[trigger] warnings[k] matches Warning::BlankGlyph(
            ch,
        ) && in_repertoire(ch))
    &&& forall|j: int, k: int|
        blanks_from <= j < k < warnings.len() ==> blank_index(#[trigger] warnings[j])
            < blank_index(#[trigger] warnings[k])
}

/// The glyph index of the character that a warning of a glyph without
/// pixels names.
pub open spec fn blank_index(warning: Warning) -> int {
    match warning {
        Warning::BlankGlyph(ch) => glyph_index(ch),
        _ => -1,
    }
}

/// The advance with which the cells of a strike are made: what the font
/// reports, but for the one strike whose report is known to be wrong.
pub open spec fn corrected_advance(strike_size: u8, reported: u8) -> u8 {
    if strike_size == OVERRIDDEN_STRIKE {
        OVERRIDDEN_ADVANCE
    } else {
        reported
    }
}

/// The cell that the metrics of the space character give.
pub open spec fn cell_of(base: GlyphMetrics) -> Size {
    Size { width: base.advance as u32, height: base.line_height() as u32 }
}

/// Whether the metrics of the space character give a cell with pixels.
pub open spec fn gives_cell(base: GlyphMetrics) -> bool {
    base.advance >= 1 && base.line_height() >= 1
}

/// Whether `variant` is the metrics record that follows from the metrics
/// of the space character: their cell, no extra spacing, the baseline in
/// the last row above the descender, and the default decorations of a cell
/// of that height.
pub open spec fn derived_from(variant: SizeVariant, base: GlyphMetrics) -> bool {
    &&& variant.wf()
    &&& variant.cell() == cell_of(base)
    &&& variant.spacing() == 0
    &&& variant.baseline_offset() == if base.ascender >= 1 {
        (base.ascender - 1) as u32
    } else {
        0
    }
    &&& variant.underline_geometry() == DecorationDimensions::default_underline_spec(
        cell_of(base).height,
    )
    &&& variant.strikethrough_geometry() == DecorationDimensions::default_strikethrough_spec(
        cell_of(base).height,
    )
}

/// The replacement for the advance of the strike of `strike_size` pixels,
/// where that strike has one.
pub fn advance_override(strike_size: u8) -> (advance: Option<u8>)
    ensures
        advance == if strike_size == OVERRIDDEN_STRIKE {
            Some(OVERRIDDEN_ADVANCE)
        } else {
            None
        },
{
    if strike_size == OVERRIDDEN_STRIKE {
        Some(OVERRIDDEN_ADVANCE)
    } else {
        None
    }
}

/// Accepts `strike_size` where the font has a strike of that many pixels
/// per em.
pub fn require_strike(sizes: &[u8], strike_size: u8) -> (found: Result<(), GenerateError>)
    ensures
        found is Ok <==> sizes@.contains(strike_size),
        found matches Err(error) ==> error == GenerateError::InvalidSizeRequested,
{
    let mut i: usize = 0;
    while i < sizes.len()
        invariant
            0 <= i <= sizes@.len(),
            forall|k: int| 0 <= k < i ==> sizes@[k] != strike_size,
        decreases sizes@.len() - i,
    {
        if sizes[i] == strike_size {
            return Ok(());
        }
        i = i + 1;
    }
    Err(GenerateError::InvalidSizeRequested)
}

/// The metrics that fix the cell of a strike: the horizontal metrics of
/// the space character, with the advance corrected for the strike size.
pub fn cell_metrics(space: &GlyphImage, strike_size: u8) -> (base: Result<
    GlyphMetrics,
    GenerateError,
>)
    ensures
        base == match space.metrics.horizontal_spec() {
            None => Err::<GlyphMetrics, GenerateError>(GenerateError::MissingMetrics(' ')),
            Some(metrics) => Ok(
                GlyphMetrics {
                    advance: corrected_advance(strike_size, metrics.advance),
                    ..metrics
                },
            ),
        },
{
    match space.metrics.horizontal() {
        None => Err(GenerateError::MissingMetrics(' ')),
        Some(metrics) => {
            let advance = match advance_override(strike_size) {
                Some(advance) => advance,
                None => metrics.advance,
            };
            Ok(
                GlyphMetrics {
                    origin_offset_x: metrics.origin_offset_x,
                    origin_offset_y: metrics.origin_offset_y,
                    advance,
                    ascender: metrics.ascender,
                    descender: metrics.descender,
                },
            )
        },
    }
}

/// The metrics record of the packed font that the metrics of the space
/// character give, or `None` where they give a cell without pixels.
pub fn derive_variant(base: &GlyphMetrics) -> (variant: Option<SizeVariant>)
    ensures
        variant is Some <==> gives_cell(*base),
        variant matches Some(v) ==> derived_from(v, *base),
{
    let line_height: i32 = base.ascender as i32 - base.descender as i32;
    if base.advance == 0 || line_height < 1 {
        return None;
    }
    let height: u32 = line_height as u32;
    let baseline: u32 = if base.ascender >= 1 {
        (base.ascender - 1) as u32
    } else {
        0
    };
    SizeVariant::new(
        Size::new(base.advance as u32, height),
        0,
        baseline,
        DecorationDimensions::default_underline(height),
        DecorationDimensions::default_strikethrough(height),
    )
}

/// The kind of failure that a parse fault stands for: a missing table and
/// an unusable character map mean that a required table is missing, every
/// other fault that the font cannot be read.
pub open spec fn failure_kind(fault: ParseFault) -> GenerateError {
    match fault {
        ParseFault::MissingTable(_) => GenerateError::RequiredTableMissing,
        ParseFault::UnsuitableCmap => GenerateError::RequiredTableMissing,
        _ => GenerateError::SourceUnreadable,
    }
}

/// The kind of failure that a parse fault stands for.
pub fn failure_of(fault: ParseFault) -> (kind: GenerateError)
    ensures
        kind == failure_kind(fault),
{
    match fault {
        ParseFault::MissingTable(_) => GenerateError::RequiredTableMissing,
        ParseFault::UnsuitableCmap => GenerateError::RequiredTableMissing,
        _ => GenerateError::SourceUnreadable,
    }
}

/// What a font yields for one character at one strike size.
#[derive(Debug)]
pub struct GlyphLookup {
    /// The glyph index that the character map gives the character, zero
    /// where it has no glyph for it.
    pub glyph: u16,
    /// The bitmap of that glyph in the strike, if the strike has one, or
    /// why the lookup failed. Of no account where `glyph` is zero.
    pub image: Result<Option<GlyphImage>, ParseFault>,
}

impl GlyphLookup {
    /// The bitmap with which `ch` is drawn, or why there is none: a
    /// character without a glyph, and a glyph without a bitmap, is
    /// unavailable, and a lookup that failed means that the font is at
    /// fault.
    pub open spec fn accepted(self, ch: char) -> Result<GlyphImage, GenerateError> {
        if self.glyph == 0 {
            Err(GenerateError::GlyphUnavailable(ch))
        } else {
            match self.image {
                Ok(Some(image)) => Ok(image),
                Ok(None) => Err(GenerateError::GlyphUnavailable(ch)),
                Err(fault) => Err(failure_kind(fault)),
            }
        }
    }

    /// The bitmap with which `ch` is drawn, or why there is none.
    pub fn accept(&self, ch: char) -> (image: Result<&GlyphImage, GenerateError>)
        ensures
            image matches Ok(found) ==> self.accepted(ch) == Ok::<GlyphImage, GenerateError>(
                *found,
            ),
            image matches Err(error) ==> self.accepted(ch) == Err::<GlyphImage, GenerateError>(
                error,
            ),
    {
        if self.glyph == 0 {
            return Err(GenerateError::GlyphUnavailable(ch));
        }
        match &self.image {
            Ok(Some(image)) => Ok(image),
            Ok(None) => Err(GenerateError::GlyphUnavailable(ch)),
            Err(fault) => Err(failure_of(*fault)),
        }
    }
}

/// The metrics that fix the cell of the strike, or why the sheet cannot be
/// laid out: the space character must have a bitmap with horizontal
/// metrics, and these must give a cell with pixels.
pub open spec fn base_metrics(strike_size: u8, lookups: Seq<GlyphLookup>) -> Result<
    GlyphMetrics,
    GenerateError,
> {
    match lookups[0].accepted(' ') {
        Err(error) => Err(error),
        Ok(space) => match space.metrics.horizontal_spec() {
            None => Err(GenerateError::MissingMetrics(' ')),
            Some(metrics) => {
                let base = GlyphMetrics {
                    advance: corrected_advance(strike_size, metrics.advance),
                    ..metrics
                };
                if gives_cell(base) {
                    Ok(base)
                } else {
                    Err(GenerateError::MissingMetrics(' '))
                }
            },
        },
    }
}

/// Width in pixels of the sheet whose cells `base` fixes.
pub open spec fn sheet_width_of(base: GlyphMetrics) -> nat {
    (cell_of(base).width * 32) as nat
}

/// Height in pixels of the sheet whose cells `base` fixes.
pub open spec fn sheet_height_of(base: GlyphMetrics) -> nat {
    (cell_of(base).height * 6) as nat
}

/// The pixels of the sheet after the glyphs of the first `n` characters of
/// the repertoire were added to a black sheet, in the order of their glyph
/// indices, or the first failure among them.
pub open spec fn sheet_after(base: GlyphMetrics, lookups: Seq<GlyphLookup>, n: nat) -> Result<
    Seq<u8>,
    GenerateError,
>
    decreases n,
{
    if n == 0 {
        Ok(Seq::new(sheet_width_of(base) * sheet_height_of(base), |i: int| 0u8))
    } else {
        let index = (n - 1) as int;
        let ch = glyph_char(index);
        match sheet_after(base, lookups, (n - 1) as nat) {
            Err(error) => Err(error),
            Ok(before) => match lookups[index].accepted(ch) {
                Err(error) => Err(error),
                Ok(image) => match sprite_error(
                    index,
                    ch,
                    base,
                    image,
                    sheet_width_of(base),
                    sheet_height_of(base),
                ) {
                    Some(error) => Err(error),
                    None => Ok(
                        with_sprite(
                            before,
                            sheet_width_of(base),
                            sheet_height_of(base),
                            index,
                            base,
                            image,
                        ),
                    ),
                },
            },
        }
    }
}

/// The warning that the advance was replaced, where it was.
pub open spec fn override_warning(strike_size: u8, lookups: Seq<GlyphLookup>) -> Seq<Warning> {
    match lookups[0].accepted(' ') {
        Err(_) => Seq::empty(),
        Ok(space) => match space.metrics.horizontal_spec() {
            Some(metrics) if strike_size == OVERRIDDEN_STRIKE => seq![
                Warning::AdvanceOverridden { reported: metrics.advance, used: OVERRIDDEN_ADVANCE },
            ],
            _ => Seq::empty(),
        },
    }
}

/// One warning for each of the first `n` characters of the repertoire whose
/// glyph has no pixels, in the order of their glyph indices.
pub open spec fn blank_warnings(lookups: Seq<GlyphLookup>, n: nat) -> Seq<Warning>
    decreases n,
{
    if n == 0 {
        Seq::empty()
    } else {
        let index = (n - 1) as int;
        let before = blank_warnings(lookups, (n - 1) as nat);
        match lookups[index].accepted(glyph_char(index)) {
            Ok(image) if image.is_blank() => before.push(Warning::BlankGlyph(glyph_char(index))),
            _ => before,
        }
    }
}

/// Whether `generated` is the outcome that `lookups` call for: the first
/// failure, or else the sheet with every glyph in its cell, the metrics that
/// follow from those of the space character, and the warnings in order.
pub open spec fn composed_of(
    generated: Result<GeneratedSheet, GenerateError>,
    strike_size: u8,
    lookups: Seq<GlyphLookup>,
) -> bool {
    match base_metrics(strike_size, lookups) {
        Err(error) => generated matches Err(e) && e == error,
        Ok(base) => match sheet_after(base, lookups, REPERTOIRE_SIZE as nat) {
            Err(error) => generated matches Err(e) && e == error,
            Ok(pixels) => generated matches Ok(g) && {
                &&& g.metrics == base
                &&& derived_from(g.variant, base)
                &&& g.sheet.spec_width() == sheet_width_of(base)
                &&& g.sheet.spec_height() == sheet_height_of(base)
                &&& g.sheet@ == pixels
                &&& g.warnings@ == override_warning(strike_size, lookups) + blank_warnings(
                    lookups,
                    REPERTOIRE_SIZE as nat,
                )
            },
        },
    }
}

/// A failure among the first characters is the failure of the whole.
proof fn lemma_failure_stays(base: GlyphMetrics, lookups: Seq<GlyphLookup>, n: nat, m: nat)
    requires
        n <= m,
        sheet_after(base, lookups, n) is Err,
    ensures
        sheet_after(base, lookups, m) == sheet_after(base, lookups, n),
    decreases m - n,
{
    if n < m {
        lemma_failure_stays(base, lookups, n, (m - 1) as nat);
    }
}

/// Composes the glyph sheet of a strike from what the font yields for each
/// character of the repertoire, `lookups[i]` being what it yields for the
/// character with glyph index `i`.
///
/// The space character fixes the cell. The glyphs are added to a black
/// sheet in the order of their glyph indices by `add_to_sprite_sheet`, and
/// the first failure is the result.
pub fn compose_sheet(strike_size: u8, lookups: &[GlyphLookup]) -> (composed: Result<
    GeneratedSheet,
    GenerateError,
>)
    requires
        lookups@.len() == REPERTOIRE_SIZE,
    ensures
        composed_of(composed, strike_size, lookups@),
        composed matches Ok(g) ==> {
            &&& gives_cell(g.metrics)
            &&& g.sheet.spec_width() == g.variant.sheet_width_spec()
            &&& g.sheet.spec_height() == g.variant.sheet_height_spec()
            &&& g.sheet.well_formed()
            &&& bilevel(g.sheet@)
            &&& strike_size == OVERRIDDEN_STRIKE ==> g.metrics.advance == OVERRIDDEN_ADVANCE
            &&& well_ordered(g.warnings@, strike_size)
        },
        composed matches Err(error) ==> (error.character() matches Some(ch) ==> in_repertoire(ch)),
{
    let space = match lookups[0].accept(' ') {
        Ok(space) => space,
        Err(error) => {
            return Err(error);
        },
    };
    let metrics = match cell_metrics(space, strike_size) {
        Ok(metrics) => metrics,
        Err(error) => {
            return Err(error);
        },
    };
    let variant = match derive_variant(&metrics) {
        Some(variant) => variant,
        None => {
            return Err(GenerateError::MissingMetrics(' '));
        },
    };
    let mut warnings: Vec<Warning> = Vec::new();
    match (space.metrics.horizontal(), advance_override(strike_size)) {
        (Some(reported), Some(used)) => {
            warnings.push(Warning::AdvanceOverridden { reported: reported.advance, used });
        },
        _ => {},
    }
    let width = variant.sheet_width();
    let height = variant.sheet_height();
    assert(width * height <= 8160 * 1530) by (nonlinear_arith)
        requires
            0 <= width <= 8160,
            0 <= height <= 1530,
    ;
    let mut sheet = match Sheet::new(width, height) {
        Some(sheet) => sheet,
        None => unreached(),
    };
    let ghost overridden = override_warning(strike_size, lookups@);
    assert(warnings@ =~= overridden + blank_warnings(lookups@, 0));
    let mut index: usize = 0;
    while index < REPERTOIRE_SIZE
        invariant
            0 <= index <= REPERTOIRE_SIZE,
            lookups@.len() == REPERTOIRE_SIZE,
            base_metrics(strike_size, lookups@) == Ok::<GlyphMetrics, GenerateError>(metrics),
            derived_from(variant, metrics),
            overridden == override_warning(strike_size, lookups@),
            overridden.len() == if strike_size == OVERRIDDEN_STRIKE {
                1int
            } else {
                0int
            },
            warnings@ == overridden + blank_warnings(lookups@, index as nat),
            well_ordered(warnings@, strike_size),
            forall|k: int|
                overridden.len() <= k < warnings@.len() ==> blank_index(#[trigger] warnings@[k])
                    < index,
            sheet.spec_width() == sheet_width_of(metrics),
            sheet.spec_height() == sheet_height_of(metrics),
            sheet.spec_width() == variant.sheet_width_spec(),
            sheet.spec_height() == variant.sheet_height_spec(),
            sheet.well_formed(),
            bilevel(sheet@),
            sheet_after(metrics, lookups@, index as nat) == Ok::<Seq<u8>, GenerateError>(sheet@),
        decreases REPERTOIRE_SIZE - index,
    {
        let ch = repertoire_char(index);
        let added = match lookups[index].accept(ch) {
            Ok(image) => {
                match add_to_sprite_sheet(index, ch, &metrics, image, &mut sheet) {
                    Ok(_) => {
                        if image.has_no_pixels() {
                            warnings.push(Warning::BlankGlyph(ch));
                        }
                        Ok(())
                    },
                    Err(error) => Err(error),
                }
            },
            Err(error) => Err(error),
        };
        match added {
            Ok(_) => {},
            Err(error) => {
                proof {
                    assert(sheet_after(metrics, lookups@, (index + 1) as nat) == Err::<
                        Seq<u8>,
                        GenerateError,
                    >(error));
                    lemma_failure_stays(
                        metrics,
                        lookups@,
                        (index + 1) as nat,
                        REPERTOIRE_SIZE as nat,
                    );
                }
                return Err(error);
            },
        }
        proof {
            assert(warnings@ =~= overridden + blank_warnings(lookups@, (index + 1) as nat));
        }
        index = index + 1;
    }
    Ok(GeneratedSheet { metrics, variant, sheet, warnings })
}

/// What the font in `data` yields for `ch` in the strike of `strike_size`
/// pixels: the glyph index that its character map gives `ch`, and the
/// bitmap of that glyph. The bitmap of a character without a glyph is not
/// looked up.
pub open spec fn lookup_of(data: Seq<u8>, ch: char, strike_size: u8) -> GlyphLookup {
    let glyph = glyph_ids(data)[ch];
    GlyphLookup {
        glyph,
        image: if glyph == 0 {
            Ok(None)
        } else {
            glyph_image_in(data, glyph, strike_size as u16)
        },
    }
}

/// What the font in `data` yields for each character of the repertoire, in
/// the order of the glyph indices.
pub open spec fn lookups_of(data: Seq<u8>, strike_size: u8) -> Seq<GlyphLookup> {
    Seq::new(REPERTOIRE_SIZE as nat, |i: int| lookup_of(data, glyph_char(i), strike_size))
}

/// Why the font in `data` cannot be opened for lookups in its strike of
/// `strike_size` pixels, or `None` where it can. In this order:
/// - the file and its first font must parse;
/// - the font must have a bitmap location table, which must pass the check
///   of its records and must parse;
/// - the character map, where the font has one, must pass the check of its
///   encoding records;
/// - the tables that every lookup needs must parse;
/// - the bitmap location table must list a strike of `strike_size` pixels.
///
/// A table that fails its check makes the font unreadable.
pub open spec fn unreadiness(data: Seq<u8>, strike_size: u8) -> Option<GenerateError> {
    if font_file(data) is Some {
        Some(failure_kind(font_file(data)->Some_0))
    } else if first_font(data) is Some {
        Some(failure_kind(first_font(data)->Some_0))
    } else {
        match table_of(data, EBLC) {
            Err(fault) => Some(failure_kind(fault)),
            Ok(None) => Some(GenerateError::RequiredTableMissing),
            Ok(Some(table)) => if !locations_in_order(table) {
                Some(GenerateError::SourceUnreadable)
            } else {
                match listed_strikes(table) {
                    Err(fault) => Some(failure_kind(fault)),
                    Ok(sizes) => match table_of(data, CMAP) {
                        Err(fault) => Some(failure_kind(fault)),
                        Ok(cmap) => if cmap is Some && !encodings_in_reach(cmap->Some_0) {
                            Some(GenerateError::SourceUnreadable)
                        } else if font_tables(data) is Some {
                            Some(failure_kind(font_tables(data)->Some_0))
                        } else if !sizes.contains(strike_size) {
                            Some(GenerateError::InvalidSizeRequested)
                        } else {
                            None
                        },
                    },
                }
            },
        }
    }
}

/// What opening the font in `data` and looking up the repertoire in its
/// strike of `strike_size` pixels yields: the lookups, or why the font
/// cannot be opened.
pub open spec fn opened(data: Seq<u8>, strike_size: u8) -> Result<Seq<GlyphLookup>, GenerateError> {
    match unreadiness(data, strike_size) {
        Some(error) => Err(error),
        None => Ok(lookups_of(data, strike_size)),
    }
}

/// Whether a reader is ready for the lookups of the font in `data`.
pub open spec fn ready_for(reader: StrikeReader, data: Seq<u8>) -> bool {
    &&& reader_bytes(reader) == data
    &&& consults_bitmaps(reader)
    &&& cmap_in_reach(data)
    &&& locations_checked(data)
}

/// Looks up what the font yields for `ch` in the strike of `strike_size`
/// pixels. The bitmap of a character without a glyph is not looked up.
fn look_up(reader: &mut StrikeReader<'_>, ch: char, strike_size: u8) -> (lookup: GlyphLookup)
    requires
        in_repertoire(ch),
        ready_for(*old(reader), reader_bytes(*old(reader))),
    ensures
        lookup == lookup_of(reader_bytes(*old(reader)), ch, strike_size),
        ready_for(*final(reader), reader_bytes(*old(reader))),
{
    let glyph = lookup_glyph_index(reader, ch);
    if glyph == 0 {
        return GlyphLookup { glyph, image: Ok(None) };
    }
    let image = match lookup_glyph_image(reader, glyph, strike_size as u16) {
        Ok(Some(found)) => Ok(
            Some(GlyphImage { metrics: metrics_of(&found), bitmap: bitmap_of(&found) }),
        ),
        Ok(None) => Ok(None),
        Err(error) => Err(fault_of(&error)),
    };
    GlyphLookup { glyph, image }
}

/// Opens the font in `font_data` for lookups in its black and white
/// strikes, provided that it has one of `strike_size` pixels per em.
///
/// It fails as `unreadiness` tells. A reader that it hands out is ready
/// for the lookups: it reads from `font_data`, consults the black and white
/// bitmap tables, and the tables that it trusts have passed their checks.
pub fn open_strike<'a>(font_data: &'a [u8], strike_size: u8) -> (reader: Result<
    StrikeReader<'a>,
    GenerateError,
>)
    ensures
        match unreadiness(font_data@, strike_size) {
            Some(error) => reader matches Err(e) && e == error,
            None => reader matches Ok(r) && ready_for(r, font_data@),
        },
{
    let font = match read_font(font_data) {
        Ok(font) => font,
        Err(error) => {
            return Err(failure_of(fault_of(&error)));
        },
    };
    let provider = match table_provider(&font) {
        Ok(provider) => provider,
        Err(error) => {
            return Err(failure_of(fault_of(&error)));
        },
    };
    let table = match table_data(&provider, EBLC) {
        Ok(Some(table)) => table,
        Ok(None) => {
            return Err(GenerateError::RequiredTableMissing);
        },
        Err(error) => {
            return Err(failure_of(fault_of(&error)));
        },
    };
    if !locations_are_in_order(table.as_slice()) {
        return Err(GenerateError::SourceUnreadable);
    }
    let sizes = match strike_sizes(table.as_slice()) {
        Ok(sizes) => sizes,
        Err(error) => {
            return Err(failure_of(fault_of(&error)));
        },
    };
    match table_data(&provider, CMAP) {
        Ok(Some(cmap)) => {
            if !encodings_are_in_reach(cmap.as_slice()) {
                return Err(GenerateError::SourceUnreadable);
            }
        },
        Ok(None) => {},
        Err(error) => {
            return Err(failure_of(fault_of(&error)));
        },
    }
    let mut reader = match open_strikes(provider) {
        Ok(reader) => reader,
        Err(error) => {
            return Err(failure_of(fault_of(&error)));
        },
    };
    select_bitmap_tables(&mut reader);
    match require_strike(sizes.as_slice(), strike_size) {
        Ok(_) => Ok(reader),
        Err(error) => Err(error),
    }
}

/// Looks up each character of the repertoire in the strike of
/// `strike_size` pixels, in the order of the glyph indices.
pub fn look_up_repertoire(reader: &mut StrikeReader<'_>, strike_size: u8) -> (lookups: Vec<
    GlyphLookup,
>)
    requires
        ready_for(*old(reader), reader_bytes(*old(reader))),
    ensures
        lookups@ == lookups_of(reader_bytes(*old(reader)), strike_size),
        ready_for(*final(reader), reader_bytes(*old(reader))),
{
    let ghost data = reader_bytes(*reader);
    let mut lookups: Vec<GlyphLookup> = Vec::new();
    let mut index: usize = 0;
    while index < REPERTOIRE_SIZE
        invariant
            0 <= index <= REPERTOIRE_SIZE,
            lookups@.len() == index,
            ready_for(*reader, data),
            forall|k: int|
                0 <= k < index ==> lookups@[k] == lookup_of(data, glyph_char(k), strike_size),
        decreases REPERTOIRE_SIZE - index,
    {
        let found = look_up(reader, repertoire_char(index), strike_size);
        lookups.push(found);
        index = index + 1;
    }
    assert(lookups@ =~= lookups_of(data, strike_size));
    lookups
}

/// A character without a glyph in the font ends generation: where the
/// font can be opened, the character with glyph index `k` has no glyph in
/// it, and the characters before it were composed without a failure, the
/// outcome is that this character's glyph is unavailable. No glyph stands
/// in for it.
pub proof fn missing_glyph_ends_generation(
    data: Seq<u8>,
    strike_size: u8,
    k: int,
    generated: Result<GeneratedSheet, GenerateError>,
)
    requires
        0 <= k < REPERTOIRE_SIZE,
        unreadiness(data, strike_size) is None,
        glyph_ids(data)[glyph_char(k)] == 0,
        k > 0 ==> base_metrics(strike_size, lookups_of(data, strike_size)) is Ok && sheet_after(
            base_metrics(strike_size, lookups_of(data, strike_size))->Ok_0,
            lookups_of(data, strike_size),
            k as nat,
        ) is Ok,
        composed_of(generated, strike_size, lookups_of(data, strike_size)),
    ensures
        generated matches Err(error) && error == GenerateError::GlyphUnavailable(glyph_char(k)),
{
    let lookups = lookups_of(data, strike_size);
    assert(lookups[k] == lookup_of(data, glyph_char(k), strike_size));
    if k > 0 {
        let base = base_metrics(strike_size, lookups)->Ok_0;
        assert(sheet_after(base, lookups, (k + 1) as nat) == Err::<Seq<u8>, GenerateError>(
            GenerateError::GlyphUnavailable(glyph_char(k)),
        ));
        lemma_failure_stays(base, lookups, (k + 1) as nat, REPERTOIRE_SIZE as nat);
    }
}

/// Generates the glyph sheet of the strike of `strike_size` pixels per em
/// of the font in `font_data`.
///
/// The font is opened as `unreadiness` tells, each character of the
/// repertoire is looked up in it, and `compose_sheet` makes the sheet of
/// what the lookups yield.
pub fn generate(font_data: &[u8], strike_size: u8) -> (generated: Result<
    GeneratedSheet,
    GenerateError,
>)
    ensures
        match opened(font_data@, strike_size) {
            Err(error) => generated matches Err(e) && e == error,
            Ok(lookups) => composed_of(generated, strike_size, lookups),
        },
        generated matches Ok(g) ==> {
            &&& gives_cell(g.metrics)
            &&& derived_from(g.variant, g.metrics)
            &&& g.sheet.spec_width() == g.variant.sheet_width_spec()
            &&& g.sheet.spec_height() == g.variant.sheet_height_spec()
            &&& g.sheet.well_formed()
            &&& bilevel(g.sheet@)
            &&& strike_size == OVERRIDDEN_STRIKE ==> g.metrics.advance == OVERRIDDEN_ADVANCE
            &&& well_ordered(g.warnings@, strike_size)
        },
        generated matches Err(error) ==> (error.character() matches Some(ch) ==> in_repertoire(
            ch,
        )),
{
    let mut reader = match open_strike(font_data, strike_size) {
        Ok(reader) => reader,
        Err(error) => {
            return Err(error);
        },
    };
    let lookups = look_up_repertoire(&mut reader, strike_size);
    compose_sheet(strike_size, lookups.as_slice())
}

} // verus!
