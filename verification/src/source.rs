//! Bitmap strikes of a font file, read by the `allsorts` crate.
//!
//! What the reader makes of a font file takes the whole of the font formats
//! to state, but it depends on the bytes of the file alone. So each call has
//! a name for what it returns on given bytes, and the functions here promise
//! that their result is that: `font_file`, `first_font`, `table_of`,
//! `listed_strikes` and `font_tables` for the steps of opening a font,
//! `glyph_ids` and `glyph_image_in` for the two lookups. The values that
//! `allsorts` hands about between its calls have names for what they stand
//! for: `file_bytes`, `provider_bytes` and `reader_bytes` for the bytes that
//! a value reads from, `fault_view`, `metrics_view` and `bitmap_view` for
//! the plain value that a conversion makes of one.
//!
//! The reader trusts some numbers of a font. The lookups therefore ask
//! that the character map and the bitmap location table passed the checks
//! of `tables`.

use vstd::prelude::*;
use crate::generator::ParseFault;
use crate::glyph::{BitDepth, GlyphBitmap, GlyphImage, GlyphMetrics, GlyphMetricsSource};
use crate::mapping::in_repertoire;
use crate::tables::{encodings_in_reach, locations_in_order, CMAP, EBLC};

verus! {

/// Why `allsorts` could not read a piece of font data.
#[verifier::external_type_specification]
#[verifier::external_body]
pub struct ExParseError(allsorts::error::ParseError);

/// A font file whose table directory was read.
#[verifier::external_type_specification]
#[verifier::external_body]
pub struct ExOpenTypeFont<'a>(allsorts::tables::OpenTypeFont<'a>);

/// Access to the tables of one font of a font file.
#[verifier::external_type_specification]
#[verifier::external_body]
pub struct ExOffsetTableFontProvider<'a>(allsorts::tables::OffsetTableFontProvider<'a>);

/// A glyph bitmap with its metrics, as `allsorts` hands it out.
#[verifier::external_type_specification]
#[verifier::external_body]
pub struct ExBitmapGlyph(allsorts::bitmap::BitmapGlyph);

/// A font whose character map and bitmap strikes can be queried. It holds
/// an `allsorts::Font` over the tables of one font file.
///
/// Verus does not take a declaration of the generic `Font`, so the font is
/// hidden in this struct.
#[verifier::external_body]
pub struct StrikeReader<'a> {
    font: allsorts::Font<allsorts::tables::OffsetTableFontProvider<'a>>,
}

/// The bytes of the font file that a parsed file reads from.
pub uninterp spec fn file_bytes(font: allsorts::tables::OpenTypeFont) -> Seq<u8>;

/// The bytes of the font file that a table provider reads from.
pub uninterp spec fn provider_bytes(provider: allsorts::tables::OffsetTableFontProvider) -> Seq<
    u8,
>;

/// The bytes of the font file that a reader reads from.
pub uninterp spec fn reader_bytes(reader: StrikeReader) -> Seq<u8>;

/// Whether a reader was told to consult the black and white bitmap tables.
pub uninterp spec fn consults_bitmaps(reader: StrikeReader) -> bool;

/// The fault that a parse error stands for.
pub uninterp spec fn fault_view(error: allsorts::error::ParseError) -> ParseFault;

/// Where the metrics of a found glyph come from.
pub uninterp spec fn metrics_view(glyph: allsorts::bitmap::BitmapGlyph) -> GlyphMetricsSource;

/// The pixel data of a found glyph.
pub uninterp spec fn bitmap_view(glyph: allsorts::bitmap::BitmapGlyph) -> GlyphBitmap;

/// Why the header and table directory of a font file cannot be read, or
/// `None` where they can.
pub uninterp spec fn font_file(data: Seq<u8>) -> Option<ParseFault>;

/// Why the first font of a font file cannot be had, or `None` where it
/// can.
pub uninterp spec fn first_font(data: Seq<u8>) -> Option<ParseFault>;

/// The bytes of the table with tag `tag` of the first font of a font file,
/// `None` where the font has no such table, or why the table cannot be
/// had.
pub uninterp spec fn table_of(data: Seq<u8>, tag: u32) -> Result<Option<Seq<u8>>, ParseFault>;

/// The pixels per em of the strikes that a bitmap location table lists, in
/// the table's order, or why the table cannot be read.
pub uninterp spec fn listed_strikes(table: Seq<u8>) -> Result<Seq<u8>, ParseFault>;

/// Why the tables that every lookup needs cannot be read from the first
/// font of a font file, or `None` where they can: the character map, the
/// font header, the maximum profile, and the horizontal header and
/// metrics.
pub uninterp spec fn font_tables(data: Seq<u8>) -> Option<ParseFault>;

/// The character map of the first font of a font file: the glyph index of
/// each character, zero for a character without a glyph. Characters are
/// looked up without a variation selector and whatever their presentation.
pub uninterp spec fn glyph_ids(data: Seq<u8>) -> Map<char, u16>;

/// The bitmap of at most one bit per pixel that the black and white bitmap
/// tables of a font file hold for a glyph at `ppem` pixels per em, `None`
/// where they hold none, or why the lookup fails.
pub uninterp spec fn glyph_image_in(data: Seq<u8>, glyph: u16, ppem: u16) -> Result<
    Option<GlyphImage>,
    ParseFault,
>;

/// Whether the character map of a font file, where it has one, passed the
/// check of its encoding records.
pub open spec fn cmap_in_reach(data: Seq<u8>) -> bool {
    match table_of(data, CMAP) {
        Ok(Some(cmap)) => encodings_in_reach(cmap),
        _ => true,
    }
}

/// Whether the bitmap location table of a font file, where it has one,
/// passed the check of its records.
pub open spec fn locations_checked(data: Seq<u8>) -> bool {
    match table_of(data, EBLC) {
        Ok(Some(table)) => locations_in_order(table),
        _ => true,
    }
}

/// Calls `ReadScope::read` for an `OpenTypeFont` on the whole of `data`.
/// The parsed file reads from `data`.
#[verifier::external_body]
pub(crate) fn read_font<'a>(data: &'a [u8]) -> (found: Result<
    allsorts::tables::OpenTypeFont<'a>,
    allsorts::error::ParseError,
>)
    ensures
        match found {
            Ok(font) => font_file(data@) is None && file_bytes(font) == data@,
            Err(error) => font_file(data@) == Some(fault_view(error)),
        },
{
    allsorts::binary::read::ReadScope::new(data).read::<allsorts::tables::OpenTypeFont<'a>>()
}

/// Calls `OpenTypeFont::table_provider` for the first font of the file.
/// The provider reads from the bytes of the file.
#[verifier::external_body]
pub(crate) fn table_provider<'a>(font: &allsorts::tables::OpenTypeFont<'a>) -> (found: Result<
    allsorts::tables::OffsetTableFontProvider<'a>,
    allsorts::error::ParseError,
>)
    ensures
        match found {
            Ok(provider) => first_font(file_bytes(*font)) is None && provider_bytes(provider)
                == file_bytes(*font),
            Err(error) => first_font(file_bytes(*font)) == Some(fault_view(error)),
        },
{
    font.table_provider(0)
}

/// Calls `FontTableProvider::table_data` for the table with tag `tag` and
/// copies the table's bytes, if the font has that table.
#[verifier::external_body]
pub(crate) fn table_data(provider: &allsorts::tables::OffsetTableFontProvider<'_>, tag: u32) -> (found:
    Result<Option<Vec<u8>>, allsorts::error::ParseError>)
    ensures
        match found {
            Ok(Some(table)) => table_of(provider_bytes(*provider), tag) == Ok::<
                Option<Seq<u8>>,
                ParseFault,
            >(Some(table@)),
            Ok(None) => table_of(provider_bytes(*provider), tag) == Ok::<
                Option<Seq<u8>>,
                ParseFault,
            >(None),
            Err(error) => table_of(provider_bytes(*provider), tag) == Err::<
                Option<Seq<u8>>,
                ParseFault,
            >(fault_view(error)),
        },
{
    let table = allsorts::tables::FontTableProvider::table_data(provider, tag)?;
    Ok(table.map(|bytes| bytes.into_owned()))
}

/// Calls `ReadScope::read` for a `CBLCTable` on `table` and picks the
/// horizontal pixels per em of each strike, in the table's order.
///
/// The parser computes the length of an offset array from a record's first
/// and last glyph index, and steps a glyph count by one, without a check.
/// A table that passed `locations_are_in_order` holds no record on which
/// that goes wrong.
#[verifier::external_body]
pub(crate) fn strike_sizes(table: &[u8]) -> (found: Result<Vec<u8>, allsorts::error::ParseError>)
    requires
        locations_in_order(table@),
    ensures
        match found {
            Ok(sizes) => listed_strikes(table@) == Ok::<Seq<u8>, ParseFault>(sizes@),
            Err(error) => listed_strikes(table@) == Err::<Seq<u8>, ParseFault>(fault_view(error)),
        },
{
    let strikes = allsorts::binary::read::ReadScope::new(table)
        .read::<allsorts::bitmap::cbdt::CBLCTable<'_>>()?;
    Ok(strikes.bitmap_sizes.iter().map(|strike| strike.inner.ppem_x).collect())
}

/// Calls `Font::new`. The reader reads from the bytes of the provider, and
/// is not yet told which image tables to consult.
#[verifier::external_body]
pub(crate) fn open_strikes<'a>(provider: allsorts::tables::OffsetTableFontProvider<'a>) -> (found:
    Result<StrikeReader<'a>, allsorts::error::ParseError>)
    ensures
        match found {
            Ok(reader) => font_tables(provider_bytes(provider)) is None && reader_bytes(reader)
                == provider_bytes(provider),
            Err(error) => font_tables(provider_bytes(provider)) == Some(fault_view(error)),
        },
{
    Ok(StrikeReader { font: allsorts::Font::new(provider)? })
}

/// Calls `Font::set_embedded_image_filter` with the `EBDT` flag alone, so
/// that image lookups consult the black and white bitmap tables.
#[verifier::external_body]
pub(crate) fn select_bitmap_tables(reader: &mut StrikeReader<'_>)
    ensures
        consults_bitmaps(*final(reader)),
        reader_bytes(*final(reader)) == reader_bytes(*old(reader)),
{
    reader.font.set_embedded_image_filter(allsorts::font::GlyphTableFlag::EBDT.into())
}

/// Calls `Font::lookup_glyph_index` for `ch` without a variation selector
/// and without asking for a matching presentation. It reads the glyph
/// index off the font's character map, which no lookup changes; what it
/// keeps of earlier lookups only saves it the reading.
///
/// The call slices the character map at the offset of the encoding record
/// that the font was opened with, which fails for an offset beyond the
/// table. In a sub-table of format 12 it adds a character's offset to a
/// glyph index, and in one of format 2 a count to a code, without a check.
/// For a symbol font it subtracts from the character's code, which can go
/// below zero for a control character. So the character map must have
/// passed its check, and the character must be one of the repertoire.
#[verifier::external_body]
pub(crate) fn lookup_glyph_index(reader: &mut StrikeReader<'_>, ch: char) -> (glyph: u16)
    requires
        in_repertoire(ch),
        cmap_in_reach(reader_bytes(*old(reader))),
    ensures
        glyph == glyph_ids(reader_bytes(*old(reader)))[ch],
        reader_bytes(*final(reader)) == reader_bytes(*old(reader)),
        consults_bitmaps(*final(reader)) == consults_bitmaps(*old(reader)),
{
    reader.font.lookup_glyph_index(
        ch,
        allsorts::font::MatchingPresentation::NotRequired,
        None,
    ).0
}

/// Calls `Font::lookup_glyph_image` for a bitmap of at most one bit per
/// pixel at `ppem` pixels per em. It loads the bitmap tables where they
/// are not loaded yet and changes nothing else.
///
/// The call reads the bitmap location table with the parser that
/// `strike_sizes` uses, and subtracts and adds the offsets of a glyph's
/// image without a check. So the table must have passed its check.
#[verifier::external_body]
pub(crate) fn lookup_glyph_image(reader: &mut StrikeReader<'_>, glyph: u16, ppem: u16) -> (found:
    Result<Option<allsorts::bitmap::BitmapGlyph>, allsorts::error::ParseError>)
    requires
        consults_bitmaps(*old(reader)),
        locations_checked(reader_bytes(*old(reader))),
    ensures
        match found {
            Ok(Some(image)) => glyph_image_in(reader_bytes(*old(reader)), glyph, ppem) == Ok::<
                Option<GlyphImage>,
                ParseFault,
            >(Some(GlyphImage { metrics: metrics_view(image), bitmap: bitmap_view(image) })),
            Ok(None) => glyph_image_in(reader_bytes(*old(reader)), glyph, ppem) == Ok::<
                Option<GlyphImage>,
                ParseFault,
            >(None),
            Err(error) => glyph_image_in(reader_bytes(*old(reader)), glyph, ppem) == Err::<
                Option<GlyphImage>,
                ParseFault,
            >(fault_view(error)),
        },
        reader_bytes(*final(reader)) == reader_bytes(*old(reader)),
        consults_bitmaps(*final(reader)) == consults_bitmaps(*old(reader)),
{
    reader.font.lookup_glyph_image(glyph, ppem, allsorts::bitmap::BitDepth::One)
}

/// Tells the variants of `allsorts::bitmap::Bitmap` apart and, for a raw
/// bitmap, copies its fields and tells the variants of its `BitDepth`
/// apart.
#[verifier::external_body]
pub(crate) fn bitmap_of(glyph: &allsorts::bitmap::BitmapGlyph) -> (bitmap: GlyphBitmap)
    ensures
        bitmap == bitmap_view(*glyph),
{
    match &glyph.bitmap {
        allsorts::bitmap::Bitmap::Encapsulated(_) => GlyphBitmap::Encapsulated,
        allsorts::bitmap::Bitmap::Embedded(bitmap) => GlyphBitmap::Embedded {
            width: bitmap.width,
            height: bitmap.height,
            data: bitmap.data.to_vec(),
            format: match bitmap.format {
                allsorts::bitmap::BitDepth::One => BitDepth::One,
                allsorts::bitmap::BitDepth::Two => BitDepth::Two,
                allsorts::bitmap::BitDepth::Four => BitDepth::Four,
                allsorts::bitmap::BitDepth::Eight => BitDepth::Eight,
                allsorts::bitmap::BitDepth::ThirtyTwo => BitDepth::ThirtyTwo,
            },
        },
    }
}

/// Tells the variants of `allsorts::bitmap::Metrics` apart and, for
/// embedded metrics, calls `EmbeddedMetrics::hori` and copies its fields.
#[verifier::external_body]
pub(crate) fn metrics_of(glyph: &allsorts::bitmap::BitmapGlyph) -> (metrics: GlyphMetricsSource)
    ensures
        metrics == metrics_view(*glyph),
{
    match &glyph.metrics {
        allsorts::bitmap::Metrics::Embedded(metrics) => GlyphMetricsSource::Embedded {
            horizontal: metrics.hori().map(
                |hori|
                    GlyphMetrics {
                        origin_offset_x: hori.origin_offset_x,
                        origin_offset_y: hori.origin_offset_y,
                        advance: hori.advance,
                        ascender: hori.ascender,
                        descender: hori.descender,
                    },
            ),
        },
        allsorts::bitmap::Metrics::HmtxVmtx(_) => GlyphMetricsSource::HmtxVmtx,
    }
}

/// Tells the variants of `allsorts::error::ParseError` apart, one for one.
#[verifier::external_body]
pub(crate) fn fault_of(error: &allsorts::error::ParseError) -> (fault: ParseFault)
    ensures
        fault == fault_view(*error),
{
    match error {
        allsorts::error::ParseError::BadEof => ParseFault::BadEof,
        allsorts::error::ParseError::BadValue => ParseFault::BadValue,
        allsorts::error::ParseError::BadVersion => ParseFault::BadVersion,
        allsorts::error::ParseError::BadOffset => ParseFault::BadOffset,
        allsorts::error::ParseError::BadIndex => ParseFault::BadIndex,
        allsorts::error::ParseError::LimitExceeded => ParseFault::LimitExceeded,
        allsorts::error::ParseError::MissingValue => ParseFault::MissingValue,
        allsorts::error::ParseError::MissingTable(tag) => ParseFault::MissingTable(*tag),
        allsorts::error::ParseError::CompressionError => ParseFault::CompressionError,
        allsorts::error::ParseError::UnsuitableCmap => ParseFault::UnsuitableCmap,
        allsorts::error::ParseError::NotImplemented => ParseFault::NotImplemented,
    }
}

} // verus!
