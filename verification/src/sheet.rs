//! Grayscale pixel buffers, kept by the `image` crate.
//!
//! A `Sheet` is one 8-bit grayscale image. The generator composes the glyph
//! sheet in one, and hands each rasterized glyph to it as another.

use vstd::prelude::*;

verus! {

/// An 8-bit grayscale image, held as a `GrayImage` of the `image` crate.
///
/// Verus does not take a declaration of the generic `ImageBuffer` behind
/// `GrayImage`, so the buffer is hidden in this struct. What is known of it
/// is what `pixels` and `dimensions` name, and what the private functions
/// below state of the calls they make.
#[verifier::external_body]
#[derive(Debug)]
pub struct Sheet {
    buffer: image::GrayImage,
}

/// Why the `image` crate refused an operation.
#[verifier::external_type_specification]
#[verifier::external_body]
pub struct ExImageError(image::ImageError);

/// The pixels of a sheet, row by row from the top, each row from the left.
pub uninterp spec fn pixels(sheet: Sheet) -> Seq<u8>;

/// Width and height of a sheet, in this order.
pub uninterp spec fn dimensions(sheet: Sheet) -> (nat, nat);

/// The pixel in column `x` of row `y` of an image `width` pixels wide.
pub open spec fn pixel_at(pixels: Seq<u8>, width: nat, x: int, y: int) -> u8 {
    pixels[y * width + x]
}

/// What a sheet of `width` by `height` pixels holds after a glyph of
/// `glyph_width` by `glyph_height` pixels was copied to it with its top left
/// corner at `(x, y)`: inside that rectangle the glyph's pixels, elsewhere
/// what it held before.
pub open spec fn blit(
    before: Seq<u8>,
    width: nat,
    height: nat,
    glyph: Seq<u8>,
    glyph_width: nat,
    glyph_height: nat,
    x: nat,
    y: nat,
) -> Seq<u8> {
    Seq::new(
        width * height,
        |i: int|
            {
                let column = i % (width as int);
                let row = i / (width as int);
                if x <= column < x + glyph_width && y <= row < y + glyph_height {
                    pixel_at(glyph, glyph_width, column - x, row - y)
                } else {
                    before[i]
                }
            },
    )
}

impl Sheet {
    /// The pixels, row by row from the top, each row from the left.
    pub open spec fn view(self) -> Seq<u8> {
        pixels(self)
    }

    /// Width in pixels.
    pub open spec fn spec_width(self) -> nat {
        dimensions(self).0
    }

    /// Height in pixels.
    pub open spec fn spec_height(self) -> nat {
        dimensions(self).1
    }

    /// Whether the sheet holds one pixel for each position. Every sheet
    /// that `new` or `from_raw` makes does, and `copy_from` keeps it so.
    pub open spec fn well_formed(self) -> bool {
        self@.len() == self.spec_width() * self.spec_height()
    }

    /// Calls `ImageBuffer::new`, which allocates `width * height` zero
    /// bytes and panics only where that product does not fit `usize`.
    #[verifier::external_body]
    fn zeroed(width: u32, height: u32) -> (sheet: Sheet)
        requires
            width * height <= usize::MAX,
        ensures
            dimensions(sheet) == (width as nat, height as nat),
            pixels(sheet) == Seq::new((width * height) as nat, |i: int| 0u8),
    {
        Sheet { buffer: image::GrayImage::new(width, height) }
    }

    /// Calls `ImageBuffer::from_raw`, which compares the checked product of
    /// the dimensions with the length of `data` and, where `data` is long
    /// enough, keeps it as the image's buffer. The image's pixels are the
    /// first `width * height` bytes of it.
    #[verifier::external_body]
    fn wrap(width: u32, height: u32, data: Vec<u8>) -> (sheet: Option<Sheet>)
        ensures
            sheet is Some <==> width * height <= data@.len(),
            sheet matches Some(s) ==> {
                &&& dimensions(s) == (width as nat, height as nat)
                &&& pixels(s) == data@.take(width * height)
            },
    {
        match image::GrayImage::from_raw(width, height, data) {
            Some(buffer) => Some(Sheet { buffer }),
            None => None,
        }
    }

    /// Calls `ImageBuffer::width`.
    #[verifier::external_body]
    fn buffer_width(&self) -> (width: u32)
        ensures
            width == dimensions(*self).0,
    {
        self.buffer.width()
    }

    /// Calls `ImageBuffer::height`.
    #[verifier::external_body]
    fn buffer_height(&self) -> (height: u32)
        ensures
            height == dimensions(*self).1,
    {
        self.buffer.height()
    }

    /// Calls `ImageBuffer::get_pixel`, which panics outside the image and
    /// inside it returns the pixel in column `x` of row `y`.
    #[verifier::external_body]
    fn luma(&self, x: u32, y: u32) -> (value: u8)
        requires
            x < dimensions(*self).0,
            y < dimensions(*self).1,
        ensures
            value == pixel_at(pixels(*self), dimensions(*self).0, x as int, y as int),
    {
        self.buffer.get_pixel(x, y).0[0]
    }

    /// Calls `GenericImage::copy_from`. It fails, and changes nothing, where
    /// `glyph` with its top left corner at `(x, y)` does not lie inside the
    /// image. Else it overwrites that rectangle row by row and leaves every
    /// other pixel as it was.
    #[verifier::external_body]
    fn overwrite(&mut self, glyph: &Sheet, x: u32, y: u32) -> (copied: Result<(), image::ImageError>)
        ensures
            dimensions(*final(self)) == dimensions(*old(self)),
            copied is Ok <==> x + dimensions(*glyph).0 <= dimensions(*old(self)).0 && y
                + dimensions(*glyph).1 <= dimensions(*old(self)).1,
            copied is Err ==> pixels(*final(self)) == pixels(*old(self)),
            copied is Ok ==> pixels(*final(self)) == blit(
                pixels(*old(self)),
                dimensions(*old(self)).0,
                dimensions(*old(self)).1,
                pixels(*glyph),
                dimensions(*glyph).0,
                dimensions(*glyph).1,
                x as nat,
                y as nat,
            ),
    {
        image::GenericImage::copy_from(&mut self.buffer, &glyph.buffer, x, y)
    }

    /// Calls `ImageBuffer::into_raw`, which hands out the image's buffer.
    /// Its first `width * height` bytes are the pixels.
    #[verifier::external_body]
    fn unwrap_buffer(self) -> (data: Vec<u8>)
        ensures
            dimensions(self).0 * dimensions(self).1 <= data@.len(),
            data@.take((dimensions(self).0 * dimensions(self).1) as int) == pixels(self),
    {
        self.buffer.into_raw()
    }
    /// A black sheet of `width` by `height` pixels, or `None` where so many
    /// pixels cannot be addressed on this machine.
    pub fn new(width: u32, height: u32) -> (sheet: Option<Sheet>)
        ensures
            sheet is Some <==> width * height <= usize::MAX,
            sheet matches Some(s) ==> {
                &&& s.spec_width() == width
                &&& s.spec_height() == height
                &&& s@ == Seq::new((width * height) as nat, |i: int| 0u8)
                &&& s.well_formed()
            },
    {
        assert(width * height <= u64::MAX) by (nonlinear_arith)
            requires
                width <= u32::MAX,
                height <= u32::MAX,
        ;
        let count: u64 = width as u64 * height as u64;
        if count <= usize::MAX as u64 {
            Some(Sheet::zeroed(width, height))
        } else {
            None
        }
    }

    /// The image of `width` by `height` pixels whose pixels are the first
    /// `width * height` bytes of `data`, row by row, or `None` where `data`
    /// is shorter than that.
    pub fn from_raw(width: u32, height: u32, data: Vec<u8>) -> (sheet: Option<Sheet>)
        ensures
            sheet is Some <==> width * height <= data@.len(),
            sheet matches Some(s) ==> {
                &&& s.spec_width() == width
                &&& s.spec_height() == height
                &&& s@ == data@.take(width * height)
                &&& s.well_formed()
            },
    {
        Sheet::wrap(width, height, data)
    }

    /// Width in pixels.
    pub fn width(&self) -> (width: u32)
        ensures
            width == self.spec_width(),
    {
        self.buffer_width()
    }

    /// Height in pixels.
    pub fn height(&self) -> (height: u32)
        ensures
            height == self.spec_height(),
    {
        self.buffer_height()
    }

    /// The pixel in column `x` of row `y`, or `None` outside the sheet.
    pub fn pixel(&self, x: u32, y: u32) -> (value: Option<u8>)
        ensures
            value is Some <==> x < self.spec_width() && y < self.spec_height(),
            value matches Some(v) ==> v == pixel_at(self@, self.spec_width(), x as int, y as int),
    {
        if x < self.buffer_width() && y < self.buffer_height() {
            Some(self.luma(x, y))
        } else {
            None
        }
    }

    /// Copies `glyph` into the sheet with its top left corner at `(x, y)`.
    ///
    /// Returns whether the glyph placed there lies inside the sheet. Where
    /// it does not, the sheet is left as it was.
    pub fn copy_from(&mut self, glyph: &Sheet, x: u32, y: u32) -> (fits: bool)
        ensures
            final(self).spec_width() == old(self).spec_width(),
            final(self).spec_height() == old(self).spec_height(),
            fits <==> x + glyph.spec_width() <= old(self).spec_width() && y + glyph.spec_height()
                <= old(self).spec_height(),
            old(self).well_formed() ==> final(self).well_formed(),
            !fits ==> final(self)@ == old(self)@,
            fits ==> final(self)@ == blit(
                old(self)@,
                old(self).spec_width(),
                old(self).spec_height(),
                glyph@,
                glyph.spec_width(),
                glyph.spec_height(),
                x as nat,
                y as nat,
            ),
    {
        match self.overwrite(glyph, x, y) {
            Ok(_) => true,
            Err(_) => false,
        }
    }

    /// The pixels, row by row from the top, each row from the left.
    pub fn into_raw(self) -> (data: Vec<u8>)
        ensures
            data@ == self@,
    {
        let width = self.buffer_width();
        let height = self.buffer_height();
        let mut data = self.unwrap_buffer();
        let length = data.len();
        assert(width * height == dimensions(self).0 * dimensions(self).1);
        assert(width * height <= length);
        let count: usize = width as usize * height as usize;
        data.truncate(count);
        data
    }
}

} // verus!
