//! Checks on two raw tables of a font file, made before the font is handed
//! to the reader.
//!
//! The reader computes with the numbers that a font's tables hold. A
//! character map whose encoding records point beyond the table, and a
//! bitmap location table whose offsets run backwards or out of range, make
//! it fail at run time. The checks here tell such tables from the others.
//!
//! All numbers in a font file are big-endian.

use vstd::prelude::*;

verus! {

/// Tag of the bitmap location table, `EBLC`.
pub const EBLC: u32 = 0x4542_4C43;

/// Tag of the character map table, `cmap`.
pub const CMAP: u32 = 0x636D_6170;

/// Whether the `n` bytes from position `at` on lie within the table.
pub open spec fn holds(t: Seq<u8>, at: int, n: int) -> bool {
    0 <= at && 0 <= n && at + n <= t.len()
}

/// The 16-bit number at position `at`.
pub open spec fn be16(t: Seq<u8>, at: int) -> int {
    t[at] as int * 256 + t[at + 1] as int
}

/// The 32-bit number at position `at`.
pub open spec fn be32(t: Seq<u8>, at: int) -> int {
    be16(t, at) * 65536 + be16(t, at + 2)
}

/// The number of `width` bytes at position `at`, for a width of 2 or of 4.
pub open spec fn be(t: Seq<u8>, at: int, width: int) -> int {
    if width == 2 {
        be16(t, at)
    } else {
        be32(t, at)
    }
}

/// Whether item `i + 1` of a run of numbers lies within the table and is
/// no less than item `i`. The run starts at `at` and its items are `width`
/// bytes wide and `stride` bytes apart.
pub open spec fn step_in_order(t: Seq<u8>, at: int, stride: int, width: int, i: int) -> bool {
    holds(t, at + stride * (i + 1), width) && be(t, at + stride * i, width) <= be(
        t,
        at + stride * (i + 1),
        width,
    )
}

/// Whether a run of `count` numbers lies within the table and never
/// decreases.
pub open spec fn ascending(t: Seq<u8>, at: int, stride: int, width: int, count: int) -> bool {
    holds(t, at, width) && forall|i: int|
        0 <= i < count - 1 ==> #[trigger] step_in_order(t, at, stride, width, i)
}

/// Whether index sub-table record `r` of the record array at `array` can
/// be read and looked up in without a number running backwards or out of
/// the range of 32 bits. What it asks depends on the index format:
/// - 1 and 3: the glyph range is in order and its offsets never decrease;
/// - 2 and 5: the last image still starts within 32 bits, and for 5 the
///   glyph array lies within the table;
/// - 4: the glyph count can be stepped by one and the offsets never
///   decrease;
/// - any other: nothing, as such a sub-table is refused when read.
pub open spec fn record_in_order(t: Seq<u8>, array: int, r: int) -> bool {
    let rec = array + 8 * r;
    holds(t, rec, 8) && {
        let first = be16(t, rec);
        let last = be16(t, rec + 2);
        let sub = array + be32(t, rec + 4);
        holds(t, sub, 8) && {
            let format = be16(t, sub);
            let image = be32(t, sub + 4);
            if format == 1 {
                first <= last && last - first <= 65533 && ascending(
                    t,
                    sub + 8,
                    4,
                    4,
                    last - first + 2,
                ) && image + be32(t, sub + 8 + 4 * (last - first + 1)) <= 0xFFFF_FFFF
            } else if format == 3 {
                first <= last && last - first <= 65533 && ascending(
                    t,
                    sub + 8,
                    2,
                    2,
                    last - first + 2,
                ) && image + be16(t, sub + 8 + 2 * (last - first + 1)) <= 0xFFFF_FFFF
            } else if format == 2 {
                holds(t, sub + 8, 4) && (last < first || image + (last - first) * be32(t, sub + 8)
                    <= 0xFFFF_FFFF)
            } else if format == 4 {
                holds(t, sub + 8, 4) && be32(t, sub + 8) < 0xFFFF_FFFF && ascending(
                    t,
                    sub + 14,
                    4,
                    2,
                    be32(t, sub + 8) + 1,
                ) && image + be16(t, sub + 14 + 4 * be32(t, sub + 8)) <= 0xFFFF_FFFF
            } else if format == 5 {
                holds(t, sub + 8, 16) && holds(t, sub + 24, 2 * be32(t, sub + 20)) && (be32(
                    t,
                    sub + 20,
                ) == 0 || image + (be32(t, sub + 20) - 1) * be32(t, sub + 8) <= 0xFFFF_FFFF)
            } else {
                true
            }
        }
    }
}

/// Whether strike `s` of a bitmap location table lies within the table and
/// all its index sub-table records are in order.
pub open spec fn strike_in_order(t: Seq<u8>, s: int) -> bool {
    let at = 8 + 48 * s;
    holds(t, at, 48) && forall|r: int|
        0 <= r < be32(t, at + 8) ==> #[trigger] record_in_order(t, be32(t, at), r)
}

/// Whether a bitmap location table has its header and all its strikes in
/// order.
pub open spec fn locations_in_order(t: Seq<u8>) -> bool {
    holds(t, 0, 8) && forall|s: int| 0 <= s < be32(t, 4) ==> #[trigger] strike_in_order(t, s)
}

/// Whether group `g` of the groups at `groups` maps its last character to
/// a glyph index within 32 bits.
pub open spec fn group_in_range(c: Seq<u8>, groups: int, g: int) -> bool {
    let at = groups + 12 * g;
    be32(c, at) > be32(c, at + 4) || be32(c, at + 8) + (be32(c, at + 4) - be32(c, at))
        <= 0xFFFF_FFFF
}

/// Whether the sub-header that key `j` of a high-byte mapping at `at`
/// points to, where it lies within the table, ends its code range within
/// 16 bits.
pub open spec fn key_in_range(c: Seq<u8>, at: int, j: int) -> bool {
    let header = at + 518 + 8 * (be16(c, at + 6 + 2 * j) / 8);
    holds(c, header, 8) ==> be16(c, header) + be16(c, header + 2) <= 0xFFFF
}

/// Whether a lookup in the sub-table at `at` of a character map computes
/// within range. Only two formats compute without a check of their own:
/// the segmented coverage (12), whose groups add an offset to a glyph
/// index, and the high-byte mapping (2), whose sub-headers add a count to
/// a code. A sub-table that does not lie within the table is not read.
pub open spec fn subtable_in_range(c: Seq<u8>, at: int) -> bool {
    if !holds(c, at, 2) {
        true
    } else if be16(c, at) == 12 {
        !holds(c, at, 16) || !holds(c, at + 16, 12 * be32(c, at + 12)) || forall|g: int|
            0 <= g < be32(c, at + 12) ==> #[trigger] group_in_range(c, at + 16, g)
    } else if be16(c, at) == 2 {
        !holds(c, at, 518) || forall|j: int| 0 <= j < 256 ==> #[trigger] key_in_range(c, at, j)
    } else {
        true
    }
}

/// Whether the sub-table of encoding record `i` of a character map starts
/// within the table or at its end, and lookups in it compute within
/// range.
pub open spec fn encoding_in_reach(c: Seq<u8>, i: int) -> bool {
    be32(c, 8 + 8 * i) <= c.len() && subtable_in_range(c, be32(c, 8 + 8 * i))
}

/// Whether a character map holds all its encoding records and each points
/// to a sub-table within the table in which lookups compute within range.
pub open spec fn encodings_in_reach(c: Seq<u8>) -> bool {
    holds(c, 0, 4) && holds(c, 4, 8 * be16(c, 2)) && forall|i: int|
        0 <= i < be16(c, 2) ==> #[trigger] encoding_in_reach(c, i)
}

/// The 16-bit number at position `at`, if the table holds it.
fn read16(t: &[u8], at: u64) -> (v: Option<u64>)
    ensures
        v is Some <==> holds(t@, at as int, 2),
        v matches Some(x) ==> x == be16(t@, at as int) && x <= 0xFFFF,
{
    let length = t.len();
    if at > u64::MAX - 2 || at + 2 > length as u64 {
        assert(length as u64 == length);
        return None;
    }
    let i = at as usize;
    Some(t[i] as u64 * 256 + t[i + 1] as u64)
}

/// The 32-bit number at position `at`, if the table holds it.
fn read32(t: &[u8], at: u64) -> (v: Option<u64>)
    ensures
        v is Some <==> holds(t@, at as int, 4),
        v matches Some(x) ==> x == be32(t@, at as int) && x <= 0xFFFF_FFFF,
{
    let length = t.len();
    if at > u64::MAX - 4 || at + 4 > length as u64 {
        assert(length as u64 == length);
        return None;
    }
    let i = at as usize;
    let high = t[i] as u64 * 256 + t[i + 1] as u64;
    let low = t[i + 2] as u64 * 256 + t[i + 3] as u64;
    Some(high * 65536 + low)
}

/// The number of `width` bytes at position `at`, if the table holds it.
fn read_be(t: &[u8], at: u64, width: u64) -> (v: Option<u64>)
    requires
        width == 2 || width == 4,
    ensures
        v is Some <==> holds(t@, at as int, width as int),
        v matches Some(x) ==> x == be(t@, at as int, width as int) && x <= 0xFFFF_FFFF,
{
    if width == 2 {
        read16(t, at)
    } else {
        read32(t, at)
    }
}

/// The last number of a run of `count` numbers that never decreases, or
/// `None` where the run leaves the table or decreases.
fn last_of_ascending(t: &[u8], at: u64, stride: u64, width: u64, count: u64) -> (last: Option<u64>)
    requires
        width == 2 || width == 4,
        stride == 2 || stride == 4,
        at <= 0x3_0000_0000,
        1 <= count <= 0x1_0000_0000,
    ensures
        last is Some <==> ascending(t@, at as int, stride as int, width as int, count as int),
        last matches Some(x) ==> x == be(
            t@,
            at + stride * (count - 1),
            width as int,
        ) && x <= 0xFFFF_FFFF,
{
    let mut previous = match read_be(t, at, width) {
        Some(value) => value,
        None => {
            return None;
        },
    };
    let mut i: u64 = 0;
    let mut position: u64 = at;
    assert(at + stride * 0 == at) by (nonlinear_arith);
    while i < count - 1
        invariant
            width == 2 || width == 4,
            stride == 2 || stride == 4,
            at <= 0x3_0000_0000,
            1 <= count <= 0x1_0000_0000,
            0 <= i <= count - 1,
            position == at + stride * i,
            holds(t@, at as int, width as int),
            previous == be(t@, position as int, width as int),
            previous <= 0xFFFF_FFFF,
            forall|k: int|
                0 <= k < i ==> #[trigger] step_in_order(
                    t@,
                    at as int,
                    stride as int,
                    width as int,
                    k,
                ),
        decreases count - 1 - i,
    {
        assert(at + stride * (i + 1) == position + stride) by (nonlinear_arith)
            requires
                position == at + stride * i,
        ;
        assert(stride * (i + 1) <= 4 * 0x1_0000_0000) by (nonlinear_arith)
            requires
                0 <= stride <= 4,
                0 <= i + 1 <= 0x1_0000_0000,
        ;
        let next = match read_be(t, position + stride, width) {
            Some(value) => value,
            None => {
                assert(!step_in_order(t@, at as int, stride as int, width as int, i as int));
                return None;
            },
        };
        if next < previous {
            assert(!step_in_order(t@, at as int, stride as int, width as int, i as int));
            return None;
        }
        assert(step_in_order(t@, at as int, stride as int, width as int, i as int));
        previous = next;
        position = position + stride;
        i = i + 1;
    }
    Some(previous)
}

/// Whether index sub-table record `r` of the record array at `array` is in
/// order.
fn record_is_in_order(t: &[u8], array: u64, r: u64) -> (ok: bool)
    requires
        array <= 0xFFFF_FFFF,
        r <= 0xFFFF_FFFF,
    ensures
        ok == record_in_order(t@, array as int, r as int),
{
    let rec = array + 8 * r;
    let (first, last, added) = match (read16(t, rec), read16(t, rec + 2), read32(t, rec + 4)) {
        (Some(first), Some(last), Some(added)) => (first, last, added),
        _ => {
            return false;
        },
    };
    let sub = array + added;
    let (format, image) = match (read16(t, sub), read32(t, sub + 4)) {
        (Some(format), Some(image)) => (format, image),
        _ => {
            return false;
        },
    };
    if format == 1 || format == 3 {
        if first > last || last - first > 65533 {
            return false;
        }
        let width: u64 = if format == 1 {
            4
        } else {
            2
        };
        match last_of_ascending(t, sub + 8, width, width, last - first + 2) {
            Some(end) => image + end <= 0xFFFF_FFFF,
            None => false,
        }
    } else if format == 2 {
        let size = match read32(t, sub + 8) {
            Some(size) => size,
            None => {
                return false;
            },
        };
        if last < first {
            return true;
        }
        assert((last - first) * size <= 0xFFFF * 0xFFFF_FFFF) by (nonlinear_arith)
            requires
                0 <= last - first <= 0xFFFF,
                0 <= size <= 0xFFFF_FFFF,
        ;
        image + (last - first) * size <= 0xFFFF_FFFF
    } else if format == 4 {
        let count = match read32(t, sub + 8) {
            Some(count) => count,
            None => {
                return false;
            },
        };
        if count >= 0xFFFF_FFFF {
            return false;
        }
        match last_of_ascending(t, sub + 14, 4, 2, count + 1) {
            Some(end) => image + end <= 0xFFFF_FFFF,
            None => false,
        }
    } else if format == 5 {
        let (size, count) = match (read32(t, sub + 8), read32(t, sub + 20)) {
            (Some(size), Some(count)) => (size, count),
            _ => {
                return false;
            },
        };
        let length = t.len();
        assert(length as u64 == length);
        if sub + 24 + 2 * count > length as u64 {
            return false;
        }
        if count == 0 {
            return true;
        }
        assert((count - 1) * size <= 0xFFFF_FFFF * 0xFFFF_FFFF) by (nonlinear_arith)
            requires
                0 <= count - 1 <= 0xFFFF_FFFF,
                0 <= size <= 0xFFFF_FFFF,
        ;
        (count - 1) * size <= 0xFFFF_FFFF - image
    } else {
        true
    }
}

/// Whether strike `s` of a bitmap location table is in order.
fn strike_is_in_order(t: &[u8], s: u64) -> (ok: bool)
    requires
        s <= 0xFFFF_FFFF,
    ensures
        ok == strike_in_order(t@, s as int),
{
    let at = 8 + 48 * s;
    let (array, records) = match (read32(t, at), read32(t, at + 8)) {
        (Some(array), Some(records)) => (array, records),
        _ => {
            return false;
        },
    };
    let length = t.len();
    assert(length as u64 == length);
    if at + 48 > length as u64 {
        return false;
    }
    let mut r: u64 = 0;
    while r < records
        invariant
            0 <= r <= records <= 0xFFFF_FFFF,
            array <= 0xFFFF_FFFF,
            at == 8 + 48 * s,
            holds(t@, at as int, 48),
            array == be32(t@, at as int),
            records == be32(t@, at + 8),
            forall|k: int| 0 <= k < r ==> #[trigger] record_in_order(t@, array as int, k),
        decreases records - r,
    {
        if !record_is_in_order(t, array, r) {
            return false;
        }
        r = r + 1;
    }
    true
}

/// Whether a bitmap location table has its header and all its strikes in
/// order, so that its strikes can be listed and its bitmaps looked up.
pub fn locations_are_in_order(table: &[u8]) -> (ok: bool)
    ensures
        ok == locations_in_order(table@),
{
    let strikes = match read32(table, 4) {
        Some(strikes) => strikes,
        None => {
            return false;
        },
    };
    let mut s: u64 = 0;
    while s < strikes
        invariant
            0 <= s <= strikes <= 0xFFFF_FFFF,
            holds(table@, 0, 8),
            strikes == be32(table@, 4),
            forall|k: int| 0 <= k < s ==> #[trigger] strike_in_order(table@, k),
        decreases strikes - s,
    {
        if !strike_is_in_order(table, s) {
            return false;
        }
        s = s + 1;
    }
    true
}

/// Whether a lookup in the sub-table at `at` of a character map computes
/// within range.
fn subtable_is_in_range(c: &[u8], at: u64) -> (ok: bool)
    requires
        at <= 0xFFFF_FFFF,
    ensures
        ok == subtable_in_range(c@, at as int),
{
    let length = c.len();
    assert(length as u64 == length);
    let format = match read16(c, at) {
        Some(format) => format,
        None => {
            return true;
        },
    };
    if format == 12 {
        let count = match read32(c, at + 12) {
            Some(count) => count,
            None => {
                return true;
            },
        };
        if at + 16 + 12 * count > length as u64 {
            return true;
        }
        let mut g: u64 = 0;
        while g < count
            invariant
                0 <= g <= count <= 0xFFFF_FFFF,
                at <= 0xFFFF_FFFF,
                length == c@.len(),
                at + 16 + 12 * count <= length,
                holds(c@, at as int, 16),
                be16(c@, at as int) == 12,
                count == be32(c@, at + 12),
                forall|k: int| 0 <= k < g ==> #[trigger] group_in_range(c@, at + 16, k),
            decreases count - g,
        {
            let group = at + 16 + 12 * g;
            match (read32(c, group), read32(c, group + 4), read32(c, group + 8)) {
                (Some(start), Some(end), Some(glyph)) => {
                    if start <= end && glyph + (end - start) > 0xFFFF_FFFF {
                        assert(!group_in_range(c@, at + 16, g as int));
                        return false;
                    }
                },
                _ => {
                    return false;
                },
            }
            g = g + 1;
        }
        true
    } else if format == 2 {
        if at + 518 > length as u64 {
            return true;
        }
        let mut j: u64 = 0;
        while j < 256
            invariant
                0 <= j <= 256,
                at <= 0xFFFF_FFFF,
                length == c@.len(),
                at + 518 <= length,
                holds(c@, at as int, 2),
                be16(c@, at as int) == 2,
                forall|k: int| 0 <= k < j ==> #[trigger] key_in_range(c@, at as int, k),
            decreases 256 - j,
        {
            let key = match read16(c, at + 6 + 2 * j) {
                Some(key) => key,
                None => {
                    return false;
                },
            };
            let header = at + 518 + 8 * (key / 8);
            match (read16(c, header), read16(c, header + 2)) {
                (Some(first), Some(count)) => {
                    if first + count > 0xFFFF {
                        assert(holds(c@, header as int, 8) ==> !key_in_range(c@, at as int, j as int));
                        if header + 8 <= length as u64 {
                            return false;
                        }
                    }
                },
                _ => {},
            }
            j = j + 1;
        }
        true
    } else {
        true
    }
}

/// Whether a character map holds all its encoding records and each points
/// to a sub-table within the table in which lookups compute within range,
/// so that characters can be looked up in it.
pub fn encodings_are_in_reach(cmap: &[u8]) -> (ok: bool)
    ensures
        ok == encodings_in_reach(cmap@),
{
    let records = match read16(cmap, 2) {
        Some(records) => records,
        None => {
            return false;
        },
    };
    let length = cmap.len();
    assert(length as u64 == length);
    if 4 + 8 * records > length as u64 {
        return false;
    }
    let mut i: u64 = 0;
    while i < records
        invariant
            0 <= i <= records <= 0xFFFF,
            holds(cmap@, 0, 4),
            records == be16(cmap@, 2),
            4 + 8 * records <= cmap@.len(),
            length == cmap@.len(),
            forall|k: int| 0 <= k < i ==> #[trigger] encoding_in_reach(cmap@, k),
        decreases records - i,
    {
        match read32(cmap, 8 + 8 * i) {
            Some(offset) => {
                if offset > length as u64 || !subtable_is_in_range(cmap, offset) {
                    assert(!encoding_in_reach(cmap@, i as int));
                    return false;
                }
            },
            None => {
                return false;
            },
        }
        i = i + 1;
    }
    true
}

} // verus!
