use profont::geometry::{Point, Size};
use profont::layout::{layout_text, next_position, Placement};
use profont::variant::{character_rect, DecorationDimensions, FontSize, SizeVariant};

fn chars(text: &str) -> Vec<char> {
    text.chars().collect()
}

fn spaced() -> SizeVariant {
    let line = DecorationDimensions::new(0, 1);
    SizeVariant::new(Size::new(6, 12), 1, 9, line, line).unwrap()
}

#[test]
fn a_character_moves_the_cursor_right() {
    let variant = FontSize::Point12.variant();
    let next = next_position(&variant, 3, 2, Point::new(10, 20), 'x');
    assert_eq!(next, Some(Point::new(18, 20)));
    let next = next_position(&spaced(), 3, 2, Point::new(10, 20), 'x');
    assert_eq!(next, Some(Point::new(17, 20)));
}

#[test]
fn a_line_break_returns_to_the_line_start() {
    let variant = FontSize::Point12.variant();
    let next = next_position(&variant, 3, 2, Point::new(10, 20), '\n');
    assert_eq!(next, Some(Point::new(3, 37)));
    let next = next_position(&variant, -5, 0, Point::new(100, -15), '\n');
    assert_eq!(next, Some(Point::new(-5, 0)));
}

#[test]
fn the_cursor_does_not_leave_the_coordinates() {
    let variant = FontSize::Point12.variant();
    assert_eq!(
        next_position(&variant, 0, 0, Point::new(i32::MAX - 8, 0), 'x'),
        Some(Point::new(i32::MAX, 0))
    );
    assert_eq!(next_position(&variant, 0, 0, Point::new(i32::MAX - 7, 0), 'x'), None);
    assert_eq!(
        next_position(&variant, 0, 0, Point::new(0, i32::MAX - 15), '\n'),
        Some(Point::new(0, i32::MAX))
    );
    assert_eq!(next_position(&variant, 0, 1, Point::new(0, i32::MAX - 15), '\n'), None);
    assert_eq!(next_position(&variant, 0, u32::MAX, Point::new(0, 0), '\n'), None);
}

#[test]
fn lays_out_one_line() {
    let variant = FontSize::Point7.variant();
    let layout = layout_text(&variant, Point::new(2, 3), 0, &chars("Hi!")).unwrap();
    assert_eq!(
        layout.placements,
        vec![
            Placement { glyph: character_rect('H', &variant), position: Point::new(2, 3) },
            Placement { glyph: character_rect('i', &variant), position: Point::new(7, 3) },
            Placement { glyph: character_rect('!', &variant), position: Point::new(12, 3) },
        ]
    );
    assert_eq!(layout.end, Point::new(17, 3));
}

#[test]
fn lays_out_several_lines_with_spacing() {
    let variant = spaced();
    let layout = layout_text(&variant, Point::new(10, 100), 3, &chars("ab\n\ncé\n")).unwrap();
    let positions: Vec<Point> = layout.placements.iter().map(|p| p.position).collect();
    assert_eq!(
        positions,
        vec![Point::new(10, 100), Point::new(17, 100), Point::new(10, 130), Point::new(17, 130)]
    );
    assert_eq!(layout.placements[3].glyph, character_rect('é', &variant));
    assert_eq!(layout.end, Point::new(10, 145));
}

#[test]
fn unsupported_characters_take_a_cell_too() {
    let variant = FontSize::Point9.variant();
    let layout = layout_text(&variant, Point::new(0, 0), 0, &chars("a\u{FFFF}b")).unwrap();
    assert_eq!(layout.placements.len(), 3);
    assert_eq!(layout.placements[1].glyph, character_rect('?', &variant));
    assert_eq!(layout.placements[2].position, Point::new(12, 0));
}

#[test]
fn an_empty_text_leaves_the_cursor_at_the_origin() {
    let variant = FontSize::Point9.variant();
    let layout = layout_text(&variant, Point::new(-4, 9), 5, &[]).unwrap();
    assert!(layout.placements.is_empty());
    assert_eq!(layout.end, Point::new(-4, 9));
}

#[test]
fn a_text_that_runs_out_of_coordinates_has_no_layout() {
    let variant = FontSize::Point24.variant();
    let near_edge = Point::new(i32::MAX - 40, 0);
    assert!(layout_text(&variant, near_edge, 0, &chars("ab")).is_some());
    assert!(layout_text(&variant, near_edge, 0, &chars("abc")).is_none());
    assert!(layout_text(&variant, near_edge, 0, &chars("abc\n")).is_none());
    let low = Point::new(0, i32::MAX - 40);
    assert!(layout_text(&variant, low, 0, &chars("a\nb")).is_some());
    assert!(layout_text(&variant, low, 0, &chars("a\n\nb")).is_none());
}
