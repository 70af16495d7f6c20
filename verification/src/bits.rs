//! Unpacking of 1-bit bitmaps into one byte per pixel.
//!
//! A packed bitmap stores each scanline most significant bit first and
//! starts every scanline on a byte boundary, so a scanline of `row_size`
//! pixels occupies `padded_row_len(row_size)` bits, of which the last few
//! are padding.

use vstd::prelude::*;
use vstd::arithmetic::div_mod::lemma_fundamental_div_mod_converse;

verus! {

/// The values `start`, `start + step`, `start + 2 * step`, ... as far as
/// they do not pass `stop`.
pub open spec fn stepped_range(start: int, stop: int, step: int) -> Seq<int>
    decreases
        if step > 0 && start <= stop {
            stop - start + 1
        } else if step < 0 && start >= stop {
            start - stop + 1
        } else {
            0
        },
{
    if (step > 0 && start <= stop) || (step < 0 && start >= stop) {
        seq![start] + stepped_range(start + step, stop, step)
    } else {
        Seq::empty()
    }
}

/// Number of bits that a scanline of `row_size` pixels occupies: `row_size`
/// rounded up to a multiple of eight.
pub open spec fn padded_row_len(row_size: int) -> int {
    (row_size + 7) / 8 * 8
}

/// Bit `k` of `byte`, counted from the most significant bit.
pub open spec fn bit_from_left(byte: u8, k: int) -> bool {
    (byte >> ((7 - k) as u8)) & 1u8 == 1u8
}

/// The gray value of bit `i` of a packed bitmap: white where the bit is
/// set, else black.
pub open spec fn luma_of_bit(buf: Seq<u8>, i: int) -> u8 {
    if bit_from_left(buf[i / 8], i % 8) {
        255
    } else {
        0
    }
}

/// Number of pixels in the first `bits` bits of a packed bitmap with
/// scanlines of `row_size` pixels.
pub open spec fn pixels_within(row_size: int, bits: int) -> int {
    if row_size <= 0 {
        0
    } else {
        let row_len = padded_row_len(row_size);
        let rest = bits % row_len;
        bits / row_len * row_size + if rest < row_size {
            rest
        } else {
            row_size
        }
    }
}

/// The bit of a packed bitmap that holds pixel `k`, the pixels counted
/// scanline by scanline.
pub open spec fn source_bit(row_size: int, k: int) -> int {
    k / row_size * padded_row_len(row_size) + k % row_size
}

/// The pixels of a packed bitmap with scanlines of `row_size` pixels, one
/// byte each, without the padding.
pub open spec fn expanded(row_size: int, buf: Seq<u8>) -> Seq<u8> {
    Seq::new(
        pixels_within(row_size, 8 * (buf.len() as int)) as nat,
        |k: int| luma_of_bit(buf, source_bit(row_size, k)),
    )
}

/// Calls `num_iter::range_step_inclusive` and collects what it yields: the
/// values from `start` in steps of `step` up to and including `stop`, down
/// to it where `step` is negative. It stops where the next value would
/// leave `i8`, and never ends for a step of zero.
#[verifier::external_body]
fn range_step_inclusive(start: i8, stop: i8, step: i8) -> (values: Vec<i8>)
    requires
        step != 0,
    ensures
        values@.map_values(|v: i8| v as int) == stepped_range(
            start as int,
            stop as int,
            step as int,
        ),
{
    num_iter::range_step_inclusive(start, stop, step).collect()
}

proof fn lemma_shifts_count_down()
    ensures
        stepped_range(7, 0, -1) == seq![7int, 6, 5, 4, 3, 2, 1, 0],
{
    reveal_with_fuel(stepped_range, 10);
    assert(stepped_range(7, 0, -1) =~= seq![7int, 6, 5, 4, 3, 2, 1, 0]);
}

proof fn lemma_padded_row_len(row_size: int)
    requires
        row_size >= 1,
    ensures
        row_size <= padded_row_len(row_size) <= row_size + 7,
        padded_row_len(row_size) % 8 == 0,
{
}

/// Pixel `x` of scanline `y` of the unpacked bitmap is white exactly where
/// bit `x` of the bits of scanline `y` is set.
pub proof fn expanded_pixel_is_scanline_bit(row_size: int, buf: Seq<u8>, x: int, y: int)
    requires
        0 <= x < row_size,
        0 <= y,
        y * row_size + x < expanded(row_size, buf).len(),
    ensures
        expanded(row_size, buf)[y * row_size + x] == luma_of_bit(
            buf,
            y * padded_row_len(row_size) + x,
        ),
{
    lemma_fundamental_div_mod_converse(y * row_size + x, row_size, y, x);
    assert(0 <= y * row_size) by (nonlinear_arith)
        requires
            0 <= y,
            0 <= row_size,
    ;
}

/// A bitmap of whole scanlines unpacks to `row_size` pixels for each of
/// them.
pub proof fn expanded_len_of_whole_rows(row_size: int, buf: Seq<u8>, rows: int)
    requires
        row_size >= 1,
        rows >= 0,
        8 * buf.len() == rows * padded_row_len(row_size),
    ensures
        expanded(row_size, buf).len() == rows * row_size,
{
    lemma_padded_row_len(row_size);
    lemma_fundamental_div_mod_converse(8 * (buf.len() as int), padded_row_len(row_size), rows, 0);
    assert(0 <= rows * row_size) by (nonlinear_arith)
        requires
            0 <= rows,
            0 <= row_size,
    ;
}

/// Unpacks a 1-bit bitmap with scanlines of `row_size` pixels into one byte
/// per pixel, 255 for a set bit and 0 for a clear one, and drops the
/// padding at the end of each scanline. A row size of zero yields no pixel.
pub fn expand_bits(row_size: u32, buf: &[u8]) -> (out: Vec<u8>)
    ensures
        out@ == expanded(row_size as int, buf@),
{
    let mut out: Vec<u8> = Vec::new();
    if row_size == 0 {
        assert(out@ =~= expanded(row_size as int, buf@));
        return out;
    }
    let shifts = range_step_inclusive(7, 0, -1);
    let width: u64 = row_size as u64;
    let row_len: u64 = (width + 7) / 8 * 8;
    let ghost row_bits = padded_row_len(row_size as int);
    let ghost w = row_size as int;
    let ghost mut row: int = 0;
    let mut column: u64 = 0;
    let mut byte: usize = 0;
    proof {
        lemma_shifts_count_down();
        lemma_padded_row_len(w);
        assert(shifts@.len() == shifts@.map_values(|v: i8| v as int).len());
    }
    while byte < buf.len()
        invariant
            w == row_size >= 1,
            width == w,
            row_bits == padded_row_len(w),
            row_len == row_bits,
            w <= row_bits <= w + 7,
            shifts@.len() == 8,
            shifts@.map_values(|v: i8| v as int) == seq![7int, 6, 5, 4, 3, 2, 1, 0],
            0 <= byte <= buf@.len(),
            0 <= row,
            0 <= column < row_len,
            8 * byte == row * row_bits + column,
            out@.len() == row * w + if column < w {
                column as int
            } else {
                w
            },
            forall|k: int|
                0 <= k < out@.len() ==> out@[k] == luma_of_bit(buf@, source_bit(w, k)),
        decreases buf@.len() - byte,
    {
        let value = buf[byte];
        let mut bit: usize = 0;
        while bit < 8
            invariant
                w == row_size >= 1,
                width == w,
                row_bits == padded_row_len(w),
                row_len == row_bits,
                w <= row_bits <= w + 7,
                shifts@.len() == 8,
                shifts@.map_values(|v: i8| v as int) == seq![7int, 6, 5, 4, 3, 2, 1, 0],
                0 <= byte < buf@.len(),
                value == buf@[byte as int],
                0 <= bit <= 8,
                0 <= row,
                0 <= column < row_len,
                8 * byte + bit == row * row_bits + column,
                out@.len() == row * w + if column < w {
                    column as int
                } else {
                    w
                },
                forall|k: int|
                    0 <= k < out@.len() ==> out@[k] == luma_of_bit(buf@, source_bit(w, k)),
            decreases 8 - bit,
        {
            let shift_value: i8 = shifts[bit];
            proof {
                let ints = shifts@.map_values(|v: i8| v as int);
                assert(ints[bit as int] == shifts@[bit as int] as int);
                assert(shift_value == 7 - bit);
            }
            let shift: u8 = shift_value as u8;
            if column < width {
                let mask: u8 = 1u8 << shift;
                let pixel: u8 = (value & mask) >> shift;
                assert(pixel == (value >> shift) & 1u8 && pixel <= 1) by (bit_vector)
                    requires
                        shift < 8,
                        mask == 1u8 << shift,
                        pixel == (value & mask) >> shift,
                ;
                let ghost k = out@.len() as int;
                let ghost before = out@;
                out.push(pixel * 255);
                proof {
                    let i = 8 * byte + bit;
                    assert(k == row * w + column);
                    lemma_fundamental_div_mod_converse(k, w, row, column as int);
                    assert(source_bit(w, k) == row * row_bits + column);
                    assert(i / 8 == byte && i % 8 == bit);
                    assert(shift == ((7 - bit) as u8));
                    assert(out@[k] == luma_of_bit(buf@, source_bit(w, k)));
                    assert forall|m: int| 0 <= m < out@.len() implies out@[m] == luma_of_bit(
                        buf@,
                        source_bit(w, m),
                    ) by {
                        if m < k {
                            assert(out@[m] == before[m]);
                        }
                    }
                }
            }
            column = column + 1;
            if column == row_len {
                column = 0;
                proof {
                    assert((row + 1) * row_bits == row * row_bits + row_bits) by (nonlinear_arith);
                    assert((row + 1) * w == row * w + w) by (nonlinear_arith);
                    row = row + 1;
                }
            }
            bit = bit + 1;
        }
        byte = byte + 1;
    }
    proof {
        let bits = 8 * buf@.len();
        lemma_fundamental_div_mod_converse(bits as int, row_bits, row, column as int);
        assert(out@.len() == pixels_within(w, bits as int));
        assert(out@ =~= expanded(w, buf@));
    }
    out
}

} // verus!
