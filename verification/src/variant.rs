//! Size variants: the metrics of one packed font, and the cell of each glyph
//! in its sheet.
//!
//! A glyph sheet is a grid of `CHARS_PER_ROW` columns and `SHEET_ROWS` rows
//! of equally sized cells without padding. Glyph `i` occupies the cell in
//! column `i % CHARS_PER_ROW` of row `i / CHARS_PER_ROW`.

use vstd::prelude::*;
use crate::geometry::{Point, Rectangle, Size};
use crate::mapping::{
    distinct_characters_have_distinct_glyphs, glyph_index, in_repertoire, map_character,
    CHARS_PER_ROW, REPERTOIRE_SIZE, SHEET_ROWS,
};

verus! {

/// Largest cell width for which every x coordinate in the sheet fits `i32`.
pub const MAX_CELL_WIDTH: u32 = 0x3FF_FFFF;

/// Largest cell height for which every y coordinate in the sheet fits `i32`.
pub const MAX_CELL_HEIGHT: u32 = 0x1555_5555;

/// Position and thickness of an underline or strikethrough line.
#[derive(Clone, Copy, Debug, PartialEq, Eq, Structural)]
pub struct DecorationDimensions {
    /// Distance from the top of the cell to the top of the line.
    pub offset: u32,
    /// Thickness of the line.
    pub height: u32,
}

impl DecorationDimensions {
    /// A line of thickness `height` that starts `offset` pixels below the
    /// top of the cell.
    pub fn new(offset: u32, height: u32) -> (d: DecorationDimensions)
        ensures
            d == (DecorationDimensions { offset, height }),
    {
        DecorationDimensions { offset, height }
    }

    /// The underline that a cell `glyph_height` pixels high gets where
    /// nothing else is chosen: one pixel thick, leaving one row free below
    /// the cell.
    pub open spec fn default_underline_spec(glyph_height: u32) -> DecorationDimensions {
        DecorationDimensions {
            offset: if glyph_height + 1 > u32::MAX {
                u32::MAX
            } else {
                (glyph_height + 1) as u32
            },
            height: 1,
        }
    }

    /// The strikethrough line that a cell `glyph_height` pixels high gets
    /// where nothing else is chosen: one pixel thick, through the middle
    /// row of the cell.
    pub open spec fn default_strikethrough_spec(glyph_height: u32) -> DecorationDimensions {
        DecorationDimensions {
            offset: if glyph_height == 0 {
                0
            } else {
                ((glyph_height - 1) / 2) as u32
            },
            height: 1,
        }
    }

    /// The underline that a cell `glyph_height` pixels high gets where
    /// nothing else is chosen.
    pub fn default_underline(glyph_height: u32) -> (d: DecorationDimensions)
        ensures
            d == Self::default_underline_spec(glyph_height),
    {
        DecorationDimensions { offset: glyph_height.saturating_add(1), height: 1 }
    }

    /// The strikethrough line that a cell `glyph_height` pixels high gets
    /// where nothing else is chosen.
    pub fn default_strikethrough(glyph_height: u32) -> (d: DecorationDimensions)
        ensures
            d == Self::default_strikethrough_spec(glyph_height),
    {
        DecorationDimensions { offset: glyph_height.saturating_sub(1) / 2, height: 1 }
    }
}

/// The metrics of one packed font.
///
/// Every value of this type is valid: its cell is at least one pixel wide
/// and high, and small enough that the sheet's pixel coordinates fit `i32`.
#[derive(Clone, Copy, Debug, PartialEq, Eq, Structural)]
pub struct SizeVariant {
    character_size: Size,
    character_spacing: u32,
    baseline: u32,
    underline: DecorationDimensions,
    strikethrough: DecorationDimensions,
}

/// Whether a cell of this size can be the cell of a size variant.
pub open spec fn valid_cell(cell: Size) -> bool {
    &&& 1 <= cell.width <= MAX_CELL_WIDTH
    &&& 1 <= cell.height <= MAX_CELL_HEIGHT
}

/// Column of the cell of glyph `index`.
pub open spec fn cell_column(index: int) -> int {
    index % 32
}

/// Row of the cell of glyph `index`.
pub open spec fn cell_row(index: int) -> int {
    index / 32
}

/// The cell of glyph `index` in a sheet whose cells have size `cell`.
pub open spec fn cell_rect(index: int, cell: Size) -> Rectangle {
    Rectangle {
        origin: Point {
            x: (cell_column(index) * cell.width) as i32,
            y: (cell_row(index) * cell.height) as i32,
        },
        extent: cell,
    }
}

impl SizeVariant {
    #[verifier::type_invariant]
    closed spec fn holds_valid_cell(self) -> bool {
        valid_cell(self.character_size)
    }

    /// Whether the value is valid. Every value that executable code holds
    /// is.
    pub closed spec fn wf(self) -> bool {
        valid_cell(self.character_size)
    }

    /// Width and height of a glyph cell.
    pub closed spec fn cell(self) -> Size {
        self.character_size
    }

    /// Extra pixels between two adjacent characters of a line.
    pub closed spec fn spacing(self) -> u32 {
        self.character_spacing
    }

    /// Distance from the top of the cell to the baseline.
    pub closed spec fn baseline_offset(self) -> u32 {
        self.baseline
    }

    /// Geometry of the underline.
    pub closed spec fn underline_geometry(self) -> DecorationDimensions {
        self.underline
    }

    /// Geometry of the strikethrough line.
    pub closed spec fn strikethrough_geometry(self) -> DecorationDimensions {
        self.strikethrough
    }

    /// Width of the glyph sheet in pixels.
    pub open spec fn sheet_width_spec(self) -> int {
        self.cell().width * 32
    }

    /// Height of the glyph sheet in pixels.
    pub open spec fn sheet_height_spec(self) -> int {
        self.cell().height * 6
    }

    /// A variant with the given metrics, or `None` where `character_size` is
    /// no valid cell.
    pub fn new(
        character_size: Size,
        character_spacing: u32,
        baseline: u32,
        underline: DecorationDimensions,
        strikethrough: DecorationDimensions,
    ) -> (variant: Option<SizeVariant>)
        ensures
            variant is Some <==> valid_cell(character_size),
            variant matches Some(v) ==> {
                &&& v.wf()
                &&& v.cell() == character_size
                &&& v.spacing() == character_spacing
                &&& v.baseline_offset() == baseline
                &&& v.underline_geometry() == underline
                &&& v.strikethrough_geometry() == strikethrough
            },
    {
        if 1 <= character_size.width && character_size.width <= MAX_CELL_WIDTH
            && 1 <= character_size.height && character_size.height <= MAX_CELL_HEIGHT {
            Some(
                SizeVariant {
                    character_size,
                    character_spacing,
                    baseline,
                    underline,
                    strikethrough,
                },
            )
        } else {
            None
        }
    }

    fn shipped(
        width: u32,
        height: u32,
        baseline: u32,
        underline: u32,
        strikethrough: u32,
        thickness: u32,
    ) -> (variant: SizeVariant)
        requires
            1 <= width <= MAX_CELL_WIDTH,
            1 <= height <= MAX_CELL_HEIGHT,
        ensures
            variant.wf(),
            variant.cell() == (Size { width, height }),
            variant.spacing() == 0,
            variant.baseline_offset() == baseline,
            variant.underline_geometry() == (DecorationDimensions {
                offset: underline,
                height: thickness,
            }),
            variant.strikethrough_geometry() == (DecorationDimensions {
                offset: strikethrough,
                height: thickness,
            }),
    {
        SizeVariant {
            character_size: Size { width, height },
            character_spacing: 0,
            baseline,
            underline: DecorationDimensions { offset: underline, height: thickness },
            strikethrough: DecorationDimensions { offset: strikethrough, height: thickness },
        }
    }

    /// Width and height of a glyph cell.
    pub fn character_size(&self) -> (size: Size)
        ensures
            size == self.cell(),
            valid_cell(size),
            self.wf(),
    {
        proof {
            use_type_invariant(self);
        }
        self.character_size
    }

    /// Extra pixels between two adjacent characters of a line.
    pub fn character_spacing(&self) -> (spacing: u32)
        ensures
            spacing == self.spacing(),
    {
        self.character_spacing
    }

    /// Distance from the top of the cell to the baseline.
    pub fn baseline(&self) -> (baseline: u32)
        ensures
            baseline == self.baseline_offset(),
    {
        self.baseline
    }

    /// Geometry of the underline.
    pub fn underline(&self) -> (underline: DecorationDimensions)
        ensures
            underline == self.underline_geometry(),
    {
        self.underline
    }

    /// Geometry of the strikethrough line.
    pub fn strikethrough(&self) -> (strikethrough: DecorationDimensions)
        ensures
            strikethrough == self.strikethrough_geometry(),
    {
        self.strikethrough
    }

    /// Width of the glyph sheet in pixels.
    pub fn sheet_width(&self) -> (width: u32)
        ensures
            width == self.sheet_width_spec(),
    {
        proof {
            use_type_invariant(self);
        }
        self.character_size.width * CHARS_PER_ROW
    }

    /// Height of the glyph sheet in pixels.
    pub fn sheet_height(&self) -> (height: u32)
        ensures
            height == self.sheet_height_spec(),
    {
        proof {
            use_type_invariant(self);
        }
        self.character_size.height * SHEET_ROWS
    }

    /// Number of bytes of the glyph sheet where it is packed with one bit
    /// per pixel. A scanline is a whole number of bytes, as the sheet is
    /// 32 cells wide.
    pub open spec fn packed_sheet_len_spec(self) -> int {
        self.cell().width * 4 * (self.cell().height * 6)
    }

    /// Number of bytes of the glyph sheet where it is packed with one bit
    /// per pixel.
    pub fn packed_sheet_len(&self) -> (len: u64)
        ensures
            len == self.packed_sheet_len_spec(),
            len * 8 == self.sheet_width_spec() * self.sheet_height_spec(),
    {
        proof {
            use_type_invariant(self);
        }
        let row_bytes: u64 = self.character_size.width as u64 * 4;
        let rows: u64 = self.character_size.height as u64 * 6;
        assert(row_bytes * rows <= 0xFFFF_FFFC * 0x7FFF_FFFE) by (nonlinear_arith)
            requires
                0 <= row_bytes <= 0xFFFF_FFFC,
                0 <= rows <= 0x7FFF_FFFE,
        ;
        assert(row_bytes * rows * 8 == (row_bytes * 8) * rows) by (nonlinear_arith);
        row_bytes * rows
    }

    /// A valid variant's cell is a valid cell.
    pub proof fn wf_gives_valid_cell(self)
        requires
            self.wf(),
        ensures
            valid_cell(self.cell()),
    {
    }
}

/// The seven sizes in which the font ships.
#[derive(Clone, Copy, Debug, PartialEq, Eq, Structural)]
pub enum FontSize {
    /// 7 point, cells of 5 by 9 pixels.
    Point7,
    /// 9 point, cells of 6 by 11 pixels.
    Point9,
    /// 10 point, cells of 7 by 13 pixels.
    Point10,
    /// 12 point, cells of 8 by 15 pixels.
    Point12,
    /// 14 point, cells of 10 by 18 pixels.
    Point14,
    /// 18 point, cells of 12 by 22 pixels.
    Point18,
    /// 24 point, cells of 16 by 30 pixels.
    Point24,
}

impl FontSize {
    /// The size in typographic points.
    pub open spec fn points_spec(self) -> int {
        match self {
            FontSize::Point7 => 7,
            FontSize::Point9 => 9,
            FontSize::Point10 => 10,
            FontSize::Point12 => 12,
            FontSize::Point14 => 14,
            FontSize::Point18 => 18,
            FontSize::Point24 => 24,
        }
    }

    /// The cell of this size's glyphs.
    pub open spec fn cell(self) -> Size {
        match self {
            FontSize::Point7 => Size { width: 5, height: 9 },
            FontSize::Point9 => Size { width: 6, height: 11 },
            FontSize::Point10 => Size { width: 7, height: 13 },
            FontSize::Point12 => Size { width: 8, height: 15 },
            FontSize::Point14 => Size { width: 10, height: 18 },
            FontSize::Point18 => Size { width: 12, height: 22 },
            FontSize::Point24 => Size { width: 16, height: 30 },
        }
    }

    /// The baseline offset of this size.
    pub open spec fn baseline_offset(self) -> u32 {
        match self {
            FontSize::Point7 => 6,
            FontSize::Point9 => 8,
            FontSize::Point10 => 10,
            FontSize::Point12 => 10,
            FontSize::Point14 => 14,
            FontSize::Point18 => 17,
            FontSize::Point24 => 24,
        }
    }

    /// The underline of this size.
    pub open spec fn underline_geometry(self) -> DecorationDimensions {
        match self {
            FontSize::Point7 => DecorationDimensions { offset: 8, height: 1 },
            FontSize::Point9 => DecorationDimensions { offset: 10, height: 1 },
            FontSize::Point10 => DecorationDimensions { offset: 11, height: 1 },
            FontSize::Point12 => DecorationDimensions { offset: 12, height: 1 },
            FontSize::Point14 => DecorationDimensions { offset: 16, height: 1 },
            FontSize::Point18 => DecorationDimensions { offset: 19, height: 2 },
            FontSize::Point24 => DecorationDimensions { offset: 26, height: 2 },
        }
    }

    /// The strikethrough line of this size.
    pub open spec fn strikethrough_geometry(self) -> DecorationDimensions {
        match self {
            FontSize::Point7 => DecorationDimensions { offset: 4, height: 1 },
            FontSize::Point9 => DecorationDimensions { offset: 6, height: 1 },
            FontSize::Point10 => DecorationDimensions { offset: 7, height: 1 },
            FontSize::Point12 => DecorationDimensions { offset: 7, height: 1 },
            FontSize::Point14 => DecorationDimensions { offset: 9, height: 1 },
            FontSize::Point18 => DecorationDimensions { offset: 10, height: 2 },
            FontSize::Point24 => DecorationDimensions { offset: 16, height: 2 },
        }
    }

    /// The size in typographic points.
    pub fn points(self) -> (points: u32)
        ensures
            points == self.points_spec(),
    {
        match self {
            FontSize::Point7 => 7,
            FontSize::Point9 => 9,
            FontSize::Point10 => 10,
            FontSize::Point12 => 12,
            FontSize::Point14 => 14,
            FontSize::Point18 => 18,
            FontSize::Point24 => 24,
        }
    }

    /// The size of `points` typographic points, if the font ships in it.
    pub fn from_points(points: u32) -> (size: Option<FontSize>)
        ensures
            size is Some <==> (points == 7 || points == 9 || points == 10 || points == 12
                || points == 14 || points == 18 || points == 24),
            size matches Some(s) ==> s.points_spec() == points,
    {
        match points {
            7 => Some(FontSize::Point7),
            9 => Some(FontSize::Point9),
            10 => Some(FontSize::Point10),
            12 => Some(FontSize::Point12),
            14 => Some(FontSize::Point14),
            18 => Some(FontSize::Point18),
            24 => Some(FontSize::Point24),
            _ => None,
        }
    }

    /// The metrics with which this size ships. Characters are set without
    /// extra spacing.
    pub fn variant(self) -> (variant: SizeVariant)
        ensures
            variant.wf(),
            variant.cell() == self.cell(),
            variant.spacing() == 0,
            variant.baseline_offset() == self.baseline_offset(),
            variant.underline_geometry() == self.underline_geometry(),
            variant.strikethrough_geometry() == self.strikethrough_geometry(),
    {
        match self {
            FontSize::Point7 => SizeVariant::shipped(5, 9, 6, 8, 4, 1),
            FontSize::Point9 => SizeVariant::shipped(6, 11, 8, 10, 6, 1),
            FontSize::Point10 => SizeVariant::shipped(7, 13, 10, 11, 7, 1),
            FontSize::Point12 => SizeVariant::shipped(8, 15, 10, 12, 7, 1),
            FontSize::Point14 => SizeVariant::shipped(10, 18, 14, 16, 9, 1),
            FontSize::Point18 => SizeVariant::shipped(12, 22, 17, 19, 10, 2),
            FontSize::Point24 => SizeVariant::shipped(16, 30, 24, 26, 16, 2),
        }
    }
}

/// The cell of glyph `index` in the sheet of `size`.
pub fn glyph_rect(index: usize, size: &SizeVariant) -> (rect: Rectangle)
    requires
        index < REPERTOIRE_SIZE,
    ensures
        rect == cell_rect(index as int, size.cell()),
        rect.origin.x == cell_column(index as int) * size.cell().width,
        rect.origin.y == cell_row(index as int) * size.cell().height,
        rect.extent == size.cell(),
{
    let cell = size.character_size();
    let column: u32 = index as u32 % CHARS_PER_ROW;
    let row: u32 = index as u32 / CHARS_PER_ROW;
    assert(column * cell.width <= 31 * cell.width) by (nonlinear_arith)
        requires
            column <= 31,
    ;
    assert(row * cell.height <= 5 * cell.height) by (nonlinear_arith)
        requires
            row <= 5,
    ;
    let x: u32 = column * cell.width;
    let y: u32 = row * cell.height;
    Rectangle { origin: Point { x: x as i32, y: y as i32 }, extent: cell }
}

/// The cell that holds the glyph with which `c` is drawn.
pub fn character_rect(c: char, size: &SizeVariant) -> (rect: Rectangle)
    ensures
        rect == cell_rect(glyph_index(c), size.cell()),
{
    glyph_rect(map_character(c), size)
}

/// Every cell lies inside the sheet: its top left corner is a pixel of the
/// sheet, and so is every pixel to the right of and below that corner up to
/// the cell's extent.
pub proof fn cell_lies_within_sheet(index: int, size: SizeVariant)
    requires
        size.wf(),
        0 <= index < 191,
    ensures
        0 <= cell_rect(index, size.cell()).origin.x < size.sheet_width_spec(),
        0 <= cell_rect(index, size.cell()).origin.y < size.sheet_height_spec(),
        cell_rect(index, size.cell()).origin.x + size.cell().width <= size.sheet_width_spec(),
        cell_rect(index, size.cell()).origin.y + size.cell().height <= size.sheet_height_spec(),
{
    size.wf_gives_valid_cell();
    let cell = size.cell();
    let column = cell_column(index);
    let row = cell_row(index);
    assert(0 <= column * cell.width <= 31 * cell.width) by (nonlinear_arith)
        requires
            0 <= column <= 31,
    ;
    assert(0 <= row * cell.height <= 5 * cell.height) by (nonlinear_arith)
        requires
            0 <= row <= 5,
    ;
}

/// Two different glyph indices name two different grid positions, and so
/// two cells that share no pixel.
pub proof fn distinct_indices_have_distinct_cells(i: int, j: int, size: SizeVariant)
    requires
        size.wf(),
        0 <= i < 191,
        0 <= j < 191,
        i != j,
    ensures
        (cell_column(i), cell_row(i)) != (cell_column(j), cell_row(j)),
        cell_rect(i, size.cell()).origin != cell_rect(j, size.cell()).origin,
        forall|x: int, y: int|
            !(cell_rect(i, size.cell()).covers(x, y) && cell_rect(j, size.cell()).covers(x, y)),
{
    size.wf_gives_valid_cell();
    let cell = size.cell();
    let w = cell.width as int;
    let h = cell.height as int;
    let (ci, ri) = (cell_column(i), cell_row(i));
    let (cj, rj) = (cell_column(j), cell_row(j));
    assert(0 <= ci * w <= 31 * w && 0 <= cj * w <= 31 * w) by (nonlinear_arith)
        requires
            0 <= ci <= 31,
            0 <= cj <= 31,
            0 <= w,
    ;
    assert(0 <= ri * h <= 5 * h && 0 <= rj * h <= 5 * h) by (nonlinear_arith)
        requires
            0 <= ri <= 5,
            0 <= rj <= 5,
            0 <= h,
    ;
    if ci != cj {
        assert(ci * w + w <= cj * w || cj * w + w <= ci * w) by (nonlinear_arith)
            requires
                ci != cj,
                w >= 1,
        ;
    } else {
        assert(ri != rj);
        assert(ri * h + h <= rj * h || rj * h + h <= ri * h) by (nonlinear_arith)
            requires
                ri != rj,
                h >= 1,
        ;
    }
}

/// Two different characters of the repertoire are drawn from two cells
/// that share no pixel, so a cell tells which character it belongs to.
pub proof fn distinct_characters_have_distinct_cells(a: char, b: char, size: SizeVariant)
    requires
        size.wf(),
        in_repertoire(a),
        in_repertoire(b),
        a != b,
    ensures
        cell_rect(glyph_index(a), size.cell()).origin != cell_rect(
            glyph_index(b),
            size.cell(),
        ).origin,
        forall|x: int, y: int|
            !(cell_rect(glyph_index(a), size.cell()).covers(x, y) && cell_rect(
                glyph_index(b),
                size.cell(),
            ).covers(x, y)),
{
    distinct_characters_have_distinct_glyphs(a, b);
    distinct_indices_have_distinct_cells(glyph_index(a), glyph_index(b), size);
}

} // verus!
