//! ProFont, a monospace bitmap programming font in seven sizes.
//!
//! The crate has two halves. The glyph addressing half maps a character to
//! its cell in the packed glyph sheet of a size variant and lays out runs of
//! text. The sheet generator half rasterizes the strike of a bitmap font
//! file into such a packed sheet.
//!
//! - `mapping`: the character repertoire and `map_character`.
//! - `variant`: the metrics of each size and `glyph_rect`.
//! - `layout`: where the characters of a text go.
//! - `generator`: `generate`, which looks the glyphs up in a font, and
//!   `compose_sheet`, which makes the sheet of what was found.
//! - `bits`, `sheet`, `glyph`: the bitmaps that the generator works on.
//! - `source`, `tables`: what the font reader yields, and the checks that
//!   a font passes before it is handed to the reader.
//! - `style`: options shared by the viewers.

pub mod bits;
pub mod generator;
pub mod geometry;
pub mod glyph;
pub mod layout;
pub mod mapping;
pub mod sheet;
pub mod source;
pub mod style;
pub mod tables;
pub mod variant;
