use profont::bits::expand_bits;

#[test]
fn expands_one_byte_most_significant_bit_first() {
    assert_eq!(expand_bits(8, &[0b1010_0000]), vec![255, 0, 255, 0, 0, 0, 0, 0]);
    assert_eq!(expand_bits(8, &[0b0000_0001]), vec![0, 0, 0, 0, 0, 0, 0, 255]);
    assert_eq!(expand_bits(8, &[0xFF]), vec![255; 8]);
}

#[test]
fn drops_the_padding_of_each_scanline() {
    assert_eq!(
        expand_bits(3, &[0b1011_1111, 0b0101_1111]),
        vec![255, 0, 255, 0, 255, 0]
    );
    assert_eq!(expand_bits(1, &[0x80, 0x7F, 0xFF]), vec![255, 0, 255]);
}

#[test]
fn scanlines_wider_than_a_byte_span_bytes() {
    let mut expected = vec![255u8; 10];
    expected.extend_from_slice(&[0, 0, 0, 0, 0, 0, 0, 0, 0, 255]);
    assert_eq!(expand_bits(10, &[0xFF, 0xC0, 0x00, 0x40]), expected);

    let mut wide = vec![0u8; 16];
    wide[0] = 255;
    wide[15] = 255;
    assert_eq!(expand_bits(16, &[0x80, 0x01]), wide);
}

#[test]
fn a_last_scanline_cut_short_yields_what_is_there() {
    assert_eq!(expand_bits(12, &[0xFF]), vec![255; 8]);
    assert_eq!(expand_bits(12, &[0xFF, 0xFF, 0x0F]), {
        let mut pixels = vec![255u8; 12];
        pixels.extend_from_slice(&[0, 0, 0, 0, 255, 255, 255, 255]);
        pixels
    });
}

#[test]
fn nothing_comes_of_no_data_or_no_width() {
    assert_eq!(expand_bits(5, &[]), Vec::<u8>::new());
    assert_eq!(expand_bits(0, &[0xFF, 0xFF]), Vec::<u8>::new());
    assert_eq!(expand_bits(0, &[]), Vec::<u8>::new());
}

#[test]
fn output_length_counts_whole_and_partial_scanlines() {
    for row_size in 1u32..40 {
        let row_bytes = ((row_size + 7) / 8) as usize;
        for rows in 0usize..4 {
            let data = vec![0xA5u8; row_bytes * rows];
            let pixels = expand_bits(row_size, &data);
            assert_eq!(pixels.len(), row_size as usize * rows);
            for (k, pixel) in pixels.iter().enumerate() {
                let (x, y) = (k % row_size as usize, k / row_size as usize);
                let byte = data[y * row_bytes + x / 8];
                let bit = (byte >> (7 - x % 8)) & 1;
                assert_eq!(*pixel, bit * 255);
            }
        }
    }
}

#[test]
fn rows_near_the_largest_width_do_not_overflow() {
    assert_eq!(expand_bits(u32::MAX, &[0x81]), vec![255, 0, 0, 0, 0, 0, 0, 255]);
}
