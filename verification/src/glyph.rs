//! One glyph of a bitmap strike: its pixels and its metrics, as plain
//! values.

use vstd::prelude::*;

verus! {

/// Number of bits that one pixel of a bitmap occupies.
#[derive(Clone, Copy, Debug, PartialEq, Eq, Structural)]
pub enum BitDepth {
    /// Black and white.
    One,
    /// Four gray levels.
    Two,
    /// Sixteen gray levels.
    Four,
    /// 256 gray levels.
    Eight,
    /// Colour with alpha.
    ThirtyTwo,
}

/// Horizontal metrics of a bitmap glyph, in pixels.
#[derive(Clone, Copy, Debug, PartialEq, Eq, Structural)]
pub struct GlyphMetrics {
    /// Distance from the glyph origin to the left edge of the bitmap.
    pub origin_offset_x: i16,
    /// Distance from the glyph origin up to the bottom edge of the bitmap.
    pub origin_offset_y: i16,
    /// Advance width.
    pub advance: u8,
    /// Extent of the line above the baseline.
    pub ascender: i8,
    /// Extent of the line below the baseline, negative downwards.
    pub descender: i8,
}

/// The pixel data of a glyph.
#[derive(Clone, Debug)]
pub enum GlyphBitmap {
    /// Raw pixels, scanline by scanline, each scanline padded to whole
    /// bytes.
    Embedded {
        /// Width in pixels.
        width: u8,
        /// Height in pixels.
        height: u8,
        /// Bits per pixel.
        format: BitDepth,
        /// The packed scanlines.
        data: Vec<u8>,
    },
    /// An image file embedded in the font, such as a PNG.
    Encapsulated,
}

/// Where the metrics of a glyph come from.
#[derive(Clone, Copy, Debug, PartialEq, Eq, Structural)]
pub enum GlyphMetricsSource {
    /// Stored with the bitmap. The horizontal metrics may be absent.
    Embedded {
        /// Metrics for horizontal layout.
        horizontal: Option<GlyphMetrics>,
    },
    /// Only in the font's horizontal and vertical metrics tables.
    HmtxVmtx,
}

/// A rasterized glyph with its metrics.
#[derive(Clone, Debug)]
pub struct GlyphImage {
    /// Where the metrics come from.
    pub metrics: GlyphMetricsSource,
    /// The pixel data.
    pub bitmap: GlyphBitmap,
}

impl GlyphMetrics {
    /// Height of a line: the ascender above the baseline and the descender
    /// below it.
    pub open spec fn line_height(self) -> int {
        self.ascender - self.descender
    }
}

impl GlyphMetricsSource {
    /// The horizontal metrics, where the source has them.
    pub open spec fn horizontal_spec(self) -> Option<GlyphMetrics> {
        match self {
            GlyphMetricsSource::Embedded { horizontal } => horizontal,
            GlyphMetricsSource::HmtxVmtx => None,
        }
    }

    /// The horizontal metrics, where the source has them.
    pub fn horizontal(&self) -> (metrics: Option<GlyphMetrics>)
        ensures
            metrics == self.horizontal_spec(),
    {
        match self {
            GlyphMetricsSource::Embedded { horizontal } => *horizontal,
            GlyphMetricsSource::HmtxVmtx => None,
        }
    }
}

impl GlyphImage {
    /// Whether the glyph has a raw 1-bit bitmap without any pixel.
    pub open spec fn is_blank(self) -> bool {
        match self.bitmap {
            GlyphBitmap::Embedded { width, height, format, data } => format == BitDepth::One && (
            width == 0 || height == 0),
            GlyphBitmap::Encapsulated => false,
        }
    }

    /// Whether the glyph has a raw 1-bit bitmap without any pixel.
    pub fn has_no_pixels(&self) -> (blank: bool)
        ensures
            blank == self.is_blank(),
    {
        match &self.bitmap {
            GlyphBitmap::Embedded { width, height, format, data } => {
                match format {
                    BitDepth::One => *width == 0 || *height == 0,
                    _ => false,
                }
            },
            GlyphBitmap::Encapsulated => false,
        }
    }
}

} // verus!
