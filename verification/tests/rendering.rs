use embedded_graphics::{
    geometry::{Point as DrawPoint, Size as DrawSize},
    image::ImageRaw,
    mock_display::MockDisplay,
    mono_font::{
        mapping::StrGlyphMapping, DecorationDimensions as DrawDecoration, MonoFont, MonoTextStyle,
    },
    pixelcolor::BinaryColor,
    text::{Baseline, Text},
    Drawable,
};
use profont::geometry::Point;
use profont::layout::layout_text;
use profont::mapping::{repertoire_char, REPERTOIRE_SIZE};
use profont::variant::{glyph_rect, FontSize, SizeVariant};

/// A packed 1-bit sheet in which the cell of glyph `i` shows `i + 1` in
/// binary in each of its rows, most significant bit on the left.
fn numbered_sheet(variant: &SizeVariant) -> Vec<u8> {
    let row_bytes = (variant.sheet_width() / 8) as usize;
    let mut data = vec![0u8; row_bytes * variant.sheet_height() as usize];
    for index in 0..REPERTOIRE_SIZE {
        let rect = glyph_rect(index, variant);
        for y in 0..rect.extent.height {
            for bit in 0..8u32 {
                if (index as u32 + 1) & (0x80 >> bit) != 0 {
                    let x = rect.origin.x as u32 + bit;
                    let row = rect.origin.y as u32 + y;
                    data[row as usize * row_bytes + (x / 8) as usize] |= 0x80 >> (x % 8);
                }
            }
        }
    }
    data
}

/// The number that the eight pixels to the right of `at` show.
fn number_at(display: &MockDisplay<BinaryColor>, at: Point) -> u32 {
    let mut number = 0;
    for bit in 0..8 {
        if display.get_pixel(DrawPoint::new(at.x + bit, at.y)) == Some(BinaryColor::On) {
            number |= 0x80 >> bit;
        }
    }
    number
}

fn draw(variant: &SizeVariant, data: &[u8], text: &str) -> MockDisplay<BinaryColor> {
    let mapping = StrGlyphMapping::new("\0 ~\0\u{00A0}ÿ", '?' as usize - ' ' as usize);
    let cell = variant.character_size();
    let font = MonoFont {
        image: ImageRaw::new(data, variant.sheet_width()),
        glyph_mapping: &mapping,
        character_size: DrawSize::new(cell.width, cell.height),
        character_spacing: variant.character_spacing(),
        baseline: variant.baseline(),
        underline: DrawDecoration::new(variant.underline().offset, variant.underline().height),
        strikethrough: DrawDecoration::new(
            variant.strikethrough().offset,
            variant.strikethrough().height,
        ),
    };
    let mut display = MockDisplay::new();
    display.set_allow_out_of_bounds_drawing(true);
    let style = MonoTextStyle::new(&font, BinaryColor::On);
    Text::with_baseline(text, DrawPoint::zero(), style, Baseline::Top)
        .draw(&mut display)
        .unwrap();
    display
}

#[test]
fn the_renderer_takes_each_glyph_from_the_cell_that_glyph_rect_names() {
    let variant = FontSize::Point12.variant();
    let data = numbered_sheet(&variant);
    for index in 0..REPERTOIRE_SIZE {
        let c = repertoire_char(index);
        let display = draw(&variant, &data, &c.to_string());
        for row in [0, 7, 14] {
            assert_eq!(number_at(&display, Point::new(0, row)), index as u32 + 1, "{:?}", c);
        }
    }
}

#[test]
fn the_renderer_draws_unsupported_characters_as_question_marks() {
    let variant = FontSize::Point12.variant();
    let data = numbered_sheet(&variant);
    for c in ['\u{7F}', '\u{9F}', 'Ā', '€', '\u{FFFF}'] {
        let display = draw(&variant, &data, &c.to_string());
        assert_eq!(number_at(&display, Point::new(0, 0)), 32);
    }
}

#[test]
fn the_renderer_places_characters_where_the_layout_says() {
    let variant = FontSize::Point12.variant();
    let data = numbered_sheet(&variant);
    let text = "Hi ÿ!\n\nab\n~";
    let display = draw(&variant, &data, text);
    let characters: Vec<char> = text.chars().collect();
    let layout = layout_text(&variant, Point::new(0, 0), 0, &characters).unwrap();
    assert_eq!(layout.placements.len(), 8);
    for placement in &layout.placements {
        let number = (placement.glyph.origin.y / 15 * 32 + placement.glyph.origin.x / 8) as u32 + 1;
        assert_eq!(number_at(&display, placement.position), number);
        assert_eq!(
            number_at(&display, Point::new(placement.position.x, placement.position.y + 14)),
            number
        );
    }
    assert_eq!(layout.end, Point::new(8, 45));
}
