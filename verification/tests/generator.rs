use profont::generator::{
    add_to_sprite_sheet, advance_override, cell_metrics, compose_sheet, derive_variant,
    failure_of, generate, require_strike, GenerateError, GlyphLookup, ParseFault, Warning,
    OVERRIDDEN_ADVANCE, OVERRIDDEN_STRIKE,
};
use profont::mapping::{repertoire_char, REPERTOIRE_SIZE};
use profont::geometry::Size;
use profont::glyph::{BitDepth, GlyphBitmap, GlyphImage, GlyphMetrics, GlyphMetricsSource};
use profont::sheet::Sheet;
use profont::variant::DecorationDimensions;

fn base() -> GlyphMetrics {
    GlyphMetrics { origin_offset_x: 0, origin_offset_y: -4, advance: 8, ascender: 11, descender: -4 }
}

fn metrics(origin_offset_x: i16, origin_offset_y: i16) -> GlyphMetricsSource {
    GlyphMetricsSource::Embedded {
        horizontal: Some(GlyphMetrics {
            origin_offset_x,
            origin_offset_y,
            advance: 8,
            ascender: 11,
            descender: -4,
        }),
    }
}

fn letter(origin_offset_x: i16, origin_offset_y: i16) -> GlyphImage {
    GlyphImage {
        metrics: metrics(origin_offset_x, origin_offset_y),
        bitmap: GlyphBitmap::Embedded {
            width: 5,
            height: 3,
            format: BitDepth::One,
            data: vec![0b1000_1000, 0b0111_0000, 0b1010_1000],
        },
    }
}

fn blank_sheet() -> Sheet {
    Sheet::new(8 * 32, 15 * 6).unwrap()
}

fn filled_pixels(sheet: &Sheet) -> Vec<(u32, u32)> {
    let mut filled = Vec::new();
    for y in 0..sheet.height() {
        for x in 0..sheet.width() {
            match sheet.pixel(x, y).unwrap() {
                0 => {}
                255 => filled.push((x, y)),
                other => panic!("unexpected gray value {}", other),
            }
        }
    }
    filled
}

#[test]
fn a_glyph_goes_to_its_cell_on_the_shared_baseline() {
    let mut sheet = blank_sheet();
    // Glyph 33 sits in column 1 of row 1. One pixel of left bearing, bottom
    // edge on the baseline: x = 8 + 1, y = 15 + 11 - 3.
    assert_eq!(add_to_sprite_sheet(33, 'A', &base(), &letter(1, 0), &mut sheet), Ok(()));
    assert_eq!(
        filled_pixels(&sheet),
        vec![(9, 23), (13, 23), (10, 24), (11, 24), (12, 24), (9, 25), (11, 25), (13, 25)]
    );
}

#[test]
fn a_descender_reaches_below_the_baseline() {
    let mut sheet = blank_sheet();
    assert_eq!(add_to_sprite_sheet(0, ' ', &base(), &letter(0, -4), &mut sheet), Ok(()));
    let filled = filled_pixels(&sheet);
    assert_eq!(filled.first(), Some(&(0, 12)));
    assert_eq!(filled.last(), Some(&(4, 14)));
}

#[test]
fn a_later_glyph_overwrites_only_its_own_rectangle() {
    let mut sheet = blank_sheet();
    add_to_sprite_sheet(0, ' ', &base(), &letter(0, 0), &mut sheet).unwrap();
    let first = filled_pixels(&sheet);
    add_to_sprite_sheet(190, 'ÿ', &base(), &letter(3, 8), &mut sheet).unwrap();
    let both = filled_pixels(&sheet);
    assert_eq!(both.len(), 2 * first.len());
    assert_eq!(&both[..first.len()], &first[..]);
    // Column 30 of row 5: x = 240 + 3, y = 75 + 11 - 3 - 8.
    assert_eq!(both[first.len()], (243, 75));
}

#[test]
fn a_glyph_without_pixels_leaves_the_sheet_alone() {
    for (width, height) in [(0u8, 5u8), (5, 0), (0, 0)] {
        let mut sheet = blank_sheet();
        let empty = GlyphImage {
            metrics: GlyphMetricsSource::HmtxVmtx,
            bitmap: GlyphBitmap::Embedded { width, height, format: BitDepth::One, data: vec![0xFF] },
        };
        assert!(empty.has_no_pixels());
        assert_eq!(add_to_sprite_sheet(5, '%', &base(), &empty, &mut sheet), Ok(()));
        assert!(filled_pixels(&sheet).is_empty());
    }
    assert!(!letter(0, 0).has_no_pixels());
}

#[test]
fn only_raw_one_bit_bitmaps_are_accepted() {
    let mut sheet = blank_sheet();
    let encapsulated = GlyphImage { metrics: metrics(0, 0), bitmap: GlyphBitmap::Encapsulated };
    assert_eq!(
        add_to_sprite_sheet(1, '!', &base(), &encapsulated, &mut sheet),
        Err(GenerateError::UnsupportedBitmap('!'))
    );
    for format in [BitDepth::Two, BitDepth::Four, BitDepth::Eight, BitDepth::ThirtyTwo] {
        let gray = GlyphImage {
            metrics: metrics(0, 0),
            bitmap: GlyphBitmap::Embedded { width: 0, height: 0, format, data: vec![0xFF; 64] },
        };
        assert!(!gray.has_no_pixels());
        assert_eq!(
            add_to_sprite_sheet(1, '!', &base(), &gray, &mut sheet),
            Err(GenerateError::UnsupportedBitmap('!'))
        );
    }
    assert!(filled_pixels(&sheet).is_empty());
}

#[test]
fn a_bitmap_with_too_few_rows_is_refused() {
    let mut sheet = blank_sheet();
    let short = GlyphImage {
        metrics: metrics(0, 0),
        bitmap: GlyphBitmap::Embedded {
            width: 5,
            height: 3,
            format: BitDepth::One,
            data: vec![0xFF, 0xFF],
        },
    };
    assert_eq!(
        add_to_sprite_sheet(2, '"', &base(), &short, &mut sheet),
        Err(GenerateError::TruncatedBitmap('"'))
    );
    assert!(filled_pixels(&sheet).is_empty());
}

#[test]
fn a_glyph_needs_horizontal_metrics() {
    let mut sheet = blank_sheet();
    let bitmap = letter(0, 0).bitmap;
    for source in [GlyphMetricsSource::HmtxVmtx, GlyphMetricsSource::Embedded { horizontal: None }] {
        assert_eq!(source.horizontal(), None);
        let image = GlyphImage { metrics: source, bitmap: bitmap.clone() };
        assert_eq!(
            add_to_sprite_sheet(3, '#', &base(), &image, &mut sheet),
            Err(GenerateError::MissingMetrics('#'))
        );
    }
    assert!(filled_pixels(&sheet).is_empty());
}

#[test]
fn a_glyph_that_leaves_the_sheet_is_refused() {
    let cases = [
        (0usize, -1i16, 0i16),  // left of the sheet
        (0, 0, 9),              // above the sheet
        (31, 4, 0),             // right of the sheet
        (190, 0, -5),           // below the sheet
        (0, i16::MIN, 0),
        (0, 0, i16::MAX),
        (190, i16::MAX, i16::MIN),
    ];
    for (index, x, y) in cases {
        let mut sheet = blank_sheet();
        assert_eq!(
            add_to_sprite_sheet(index, '$', &base(), &letter(x, y), &mut sheet),
            Err(GenerateError::GlyphOutsideSheet('$'))
        );
        assert!(filled_pixels(&sheet).is_empty());
    }
    let mut sheet = blank_sheet();
    assert_eq!(add_to_sprite_sheet(31, '?', &base(), &letter(3, 0), &mut sheet), Ok(()));
    assert_eq!(add_to_sprite_sheet(190, 'ÿ', &base(), &letter(0, -4), &mut sheet), Ok(()));
    assert_eq!(add_to_sprite_sheet(0, ' ', &base(), &letter(0, 8), &mut sheet), Ok(()));
}

#[test]
fn the_sixteen_pixel_strike_gets_its_advance_replaced() {
    assert_eq!(OVERRIDDEN_STRIKE, 16);
    assert_eq!(OVERRIDDEN_ADVANCE, 10);
    assert_eq!(advance_override(16), Some(10));
    for strike in [0u8, 9, 12, 15, 17, 22, 29, 255] {
        assert_eq!(advance_override(strike), None);
    }
}

#[test]
fn cell_metrics_are_those_of_the_space_character() {
    let space = GlyphImage {
        metrics: GlyphMetricsSource::Embedded {
            horizontal: Some(GlyphMetrics {
                origin_offset_x: 1,
                origin_offset_y: -2,
                advance: 14,
                ascender: 15,
                descender: -3,
            }),
        },
        bitmap: GlyphBitmap::Encapsulated,
    };
    let reported = cell_metrics(&space, 22).unwrap();
    assert_eq!(
        reported,
        GlyphMetrics { origin_offset_x: 1, origin_offset_y: -2, advance: 14, ascender: 15, descender: -3 }
    );
    let corrected = cell_metrics(&space, 16).unwrap();
    assert_eq!(
        corrected,
        GlyphMetrics { origin_offset_x: 1, origin_offset_y: -2, advance: 10, ascender: 15, descender: -3 }
    );
}

#[test]
fn cell_metrics_need_horizontal_metrics_of_the_space() {
    for source in [GlyphMetricsSource::HmtxVmtx, GlyphMetricsSource::Embedded { horizontal: None }] {
        let space = GlyphImage { metrics: source, bitmap: GlyphBitmap::Encapsulated };
        assert_eq!(cell_metrics(&space, 12), Err(GenerateError::MissingMetrics(' ')));
        assert_eq!(cell_metrics(&space, 16), Err(GenerateError::MissingMetrics(' ')));
    }
}

#[test]
fn the_variant_follows_from_the_cell_metrics() {
    let variant = derive_variant(&base()).unwrap();
    assert_eq!(variant.character_size(), Size::new(8, 15));
    assert_eq!(variant.character_spacing(), 0);
    assert_eq!(variant.baseline(), 10);
    assert_eq!(variant.underline(), DecorationDimensions::new(16, 1));
    assert_eq!(variant.strikethrough(), DecorationDimensions::new(7, 1));
    assert_eq!(variant.sheet_width(), 256);
    assert_eq!(variant.sheet_height(), 90);

    let tall = GlyphMetrics {
        origin_offset_x: 0,
        origin_offset_y: 0,
        advance: 255,
        ascender: 127,
        descender: -128,
    };
    let variant = derive_variant(&tall).unwrap();
    assert_eq!(variant.character_size(), Size::new(255, 255));
    assert_eq!(variant.baseline(), 126);

    let sunk = GlyphMetrics { ascender: -1, descender: -9, ..base() };
    let variant = derive_variant(&sunk).unwrap();
    assert_eq!(variant.character_size(), Size::new(8, 8));
    assert_eq!(variant.baseline(), 0);
}

#[test]
fn metrics_without_a_cell_give_no_variant() {
    assert!(derive_variant(&GlyphMetrics { advance: 0, ..base() }).is_none());
    assert!(derive_variant(&GlyphMetrics { ascender: 3, descender: 3, ..base() }).is_none());
    assert!(derive_variant(&GlyphMetrics { ascender: -4, descender: 11, ..base() }).is_none());
    assert!(derive_variant(&GlyphMetrics { ascender: 4, descender: 3, ..base() }).is_some());
}

#[test]
fn a_strike_must_be_among_those_of_the_font() {
    assert_eq!(require_strike(&[9, 11, 12, 15, 16, 22, 29], 12), Ok(()));
    assert_eq!(require_strike(&[9, 11, 12, 15, 16, 22, 29], 29), Ok(()));
    assert_eq!(require_strike(&[12], 12), Ok(()));
    assert_eq!(
        require_strike(&[9, 11, 12, 15, 16, 22, 29], 13),
        Err(GenerateError::InvalidSizeRequested)
    );
    assert_eq!(require_strike(&[], 12), Err(GenerateError::InvalidSizeRequested));
}

#[test]
fn glyph_zero_stands_for_a_missing_glyph() {
    let unmapped = GlyphLookup { glyph: 0, image: Ok(Some(letter(0, 0))) };
    assert_eq!(unmapped.accept('é').unwrap_err(), GenerateError::GlyphUnavailable('é'));
    let mapped = GlyphLookup { glyph: 1, image: Ok(Some(letter(2, -1))) };
    let found = mapped.accept('é').unwrap();
    assert_eq!(found.metrics, metrics(2, -1));
    assert!(matches!(found.bitmap, GlyphBitmap::Embedded { width: 5, height: 3, .. }));
    let last = GlyphLookup { glyph: u16::MAX, image: Ok(Some(letter(0, 0))) };
    assert!(last.accept(' ').is_ok());
}

#[test]
fn a_lookup_without_a_bitmap_makes_the_glyph_unavailable() {
    let none = GlyphLookup { glyph: 7, image: Ok(None) };
    assert_eq!(none.accept('q').unwrap_err(), GenerateError::GlyphUnavailable('q'));
    let cut = GlyphLookup { glyph: 7, image: Err(ParseFault::BadEof) };
    assert_eq!(cut.accept('q').unwrap_err(), GenerateError::SourceUnreadable);
    let tableless = GlyphLookup { glyph: 7, image: Err(ParseFault::MissingTable(7)) };
    assert_eq!(tableless.accept('q').unwrap_err(), GenerateError::RequiredTableMissing);
}

/// Lookups in which every character but the two spaces has the glyph of
/// `letter`, offset by one pixel from the left edge of its cell.
fn lookups() -> Vec<GlyphLookup> {
    (0..REPERTOIRE_SIZE)
        .map(|index| {
            let image = if index == 0 || index == 95 {
                GlyphImage {
                    metrics: metrics(0, 0),
                    bitmap: GlyphBitmap::Embedded {
                        width: 0,
                        height: 0,
                        format: BitDepth::One,
                        data: Vec::new(),
                    },
                }
            } else {
                letter(1, 0)
            };
            GlyphLookup { glyph: index as u16 + 1, image: Ok(Some(image)) }
        })
        .collect()
}

#[test]
fn composes_a_sheet_of_what_was_looked_up() {
    let composed = compose_sheet(12, &lookups()).unwrap();
    assert_eq!(
        composed.metrics,
        GlyphMetrics { origin_offset_x: 0, origin_offset_y: 0, advance: 8, ascender: 11, descender: -4 }
    );
    assert_eq!(composed.variant.character_size(), Size::new(8, 15));
    assert_eq!((composed.sheet.width(), composed.sheet.height()), (256, 90));
    assert_eq!(
        composed.warnings,
        vec![Warning::BlankGlyph(' '), Warning::BlankGlyph('\u{A0}')]
    );
    let filled = filled_pixels(&composed.sheet);
    assert_eq!(filled.len(), 8 * 189);
    for index in 0..REPERTOIRE_SIZE as u32 {
        let (left, top) = (index % 32 * 8 + 1, index / 32 * 15 + 8);
        let expected = index != 0 && index != 95;
        assert_eq!(composed.sheet.pixel(left, top), Some(if expected { 255 } else { 0 }));
        assert_eq!(composed.sheet.pixel(left + 1, top), Some(0));
        assert_eq!(composed.sheet.pixel(left + 1, top + 1), Some(if expected { 255 } else { 0 }));
    }
}

#[test]
fn composing_replaces_the_advance_of_the_sixteen_pixel_strike() {
    let wide = GlyphMetrics { origin_offset_x: 0, origin_offset_y: 0, advance: 14, ascender: 11, descender: -4 };
    let mut all = lookups();
    all[0].image = Ok(Some(GlyphImage {
        metrics: GlyphMetricsSource::Embedded { horizontal: Some(wide) },
        bitmap: GlyphBitmap::Embedded { width: 0, height: 0, format: BitDepth::One, data: Vec::new() },
    }));
    let composed = compose_sheet(16, &all).unwrap();
    assert_eq!(composed.metrics.advance, 10);
    assert_eq!(composed.sheet.width(), 320);
    assert_eq!(
        composed.warnings,
        vec![
            Warning::AdvanceOverridden { reported: 14, used: 10 },
            Warning::BlankGlyph(' '),
            Warning::BlankGlyph('\u{A0}'),
        ]
    );
    let composed = compose_sheet(15, &all).unwrap();
    assert_eq!(composed.metrics.advance, 14);
    assert_eq!(composed.sheet.width(), 448);
    assert_eq!(composed.warnings.len(), 2);
}

#[test]
fn the_first_failure_in_glyph_order_is_the_result() {
    let mut all = lookups();
    all[40].glyph = 0;
    all[20].image = Ok(Some(GlyphImage { metrics: metrics(0, 0), bitmap: GlyphBitmap::Encapsulated }));
    all[30].image = Ok(None);
    assert_eq!(
        compose_sheet(12, &all).unwrap_err(),
        GenerateError::UnsupportedBitmap(repertoire_char(20))
    );
    all[20] = GlyphLookup { glyph: 21, image: Ok(Some(letter(0, 0))) };
    assert_eq!(
        compose_sheet(12, &all).unwrap_err(),
        GenerateError::GlyphUnavailable(repertoire_char(30))
    );
    all[30].image = Err(ParseFault::BadOffset);
    assert_eq!(compose_sheet(12, &all).unwrap_err(), GenerateError::SourceUnreadable);
    all[30].image = Ok(Some(letter(0, 0)));
    assert_eq!(
        compose_sheet(12, &all).unwrap_err(),
        GenerateError::GlyphUnavailable(repertoire_char(40))
    );
    all[40].glyph = 41;
    all[31].image = Ok(Some(letter(4, 0)));
    assert_eq!(compose_sheet(12, &all).unwrap_err(), GenerateError::GlyphOutsideSheet('?'));
    all[31].image = Ok(Some(letter(3, 0)));
    assert!(compose_sheet(12, &all).is_ok());
}

#[test]
fn the_space_character_must_give_the_cell() {
    let mut all = lookups();
    all[0].glyph = 0;
    assert_eq!(compose_sheet(12, &all).unwrap_err(), GenerateError::GlyphUnavailable(' '));
    all[0] = GlyphLookup { glyph: 1, image: Ok(None) };
    assert_eq!(compose_sheet(12, &all).unwrap_err(), GenerateError::GlyphUnavailable(' '));
    all[0].image = Err(ParseFault::MissingTable(0x45424454));
    assert_eq!(compose_sheet(12, &all).unwrap_err(), GenerateError::RequiredTableMissing);
    all[0].image = Ok(Some(GlyphImage {
        metrics: GlyphMetricsSource::HmtxVmtx,
        bitmap: GlyphBitmap::Encapsulated,
    }));
    assert_eq!(compose_sheet(12, &all).unwrap_err(), GenerateError::MissingMetrics(' '));
    let flat = GlyphMetrics { origin_offset_x: 0, origin_offset_y: 0, advance: 8, ascender: 3, descender: 3 };
    all[0].image = Ok(Some(GlyphImage {
        metrics: GlyphMetricsSource::Embedded { horizontal: Some(flat) },
        bitmap: GlyphBitmap::Encapsulated,
    }));
    assert_eq!(compose_sheet(12, &all).unwrap_err(), GenerateError::MissingMetrics(' '));
    // The cell is fixed before the space is drawn: its own bitmap fails later.
    let fine = GlyphMetrics { ascender: 11, descender: -4, ..flat };
    all[0].image = Ok(Some(GlyphImage {
        metrics: GlyphMetricsSource::Embedded { horizontal: Some(fine) },
        bitmap: GlyphBitmap::Encapsulated,
    }));
    assert_eq!(compose_sheet(12, &all).unwrap_err(), GenerateError::UnsupportedBitmap(' '));
}

#[test]
fn data_that_is_no_font_is_unreadable() {
    assert_eq!(generate(&[], 12).unwrap_err(), GenerateError::SourceUnreadable);
    assert_eq!(generate(b"not a font file", 12).unwrap_err(), GenerateError::SourceUnreadable);
    assert_eq!(generate(&[0, 1, 0, 0, 0, 9], 12).unwrap_err(), GenerateError::SourceUnreadable);
}

#[test]
fn a_font_without_bitmap_tables_lacks_a_required_table() {
    let no_tables = [0, 1, 0, 0, 0, 0, 0, 0, 0, 0, 0, 0];
    assert_eq!(generate(&no_tables, 12).unwrap_err(), GenerateError::RequiredTableMissing);
}

#[test]
fn missing_tables_are_told_from_unreadable_data() {
    assert_eq!(failure_of(ParseFault::MissingTable(0x45424C43)), GenerateError::RequiredTableMissing);
    assert_eq!(failure_of(ParseFault::UnsuitableCmap), GenerateError::RequiredTableMissing);
    for fault in [
        ParseFault::BadEof,
        ParseFault::BadValue,
        ParseFault::BadVersion,
        ParseFault::BadOffset,
        ParseFault::BadIndex,
        ParseFault::LimitExceeded,
        ParseFault::MissingValue,
        ParseFault::CompressionError,
        ParseFault::NotImplemented,
    ] {
        assert_eq!(failure_of(fault), GenerateError::SourceUnreadable);
    }
}
