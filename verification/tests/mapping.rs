use termcam::color::{
    color_index, dequantize, escape_sequence, quantize, ColorLookupTable, COLOR_COUNT,
};
use termcam::glyph::{brightness, glyph_index, pixel_to_ascii, ASCII_CHARS};
use termcam::text::push_decimal;

#[test]
fn glyph_index_is_monotone_and_in_range() {
    for ramp_len in [1usize, 2, 10, 70, 256, 1000] {
        let mut last = 0usize;
        for b in 0..=255u8 {
            let index = glyph_index(b, ramp_len);
            assert!(index < ramp_len);
            assert!(index >= last);
            assert_eq!(index, (b as usize * ramp_len) / 256);
            last = index;
        }
    }
}

#[test]
fn glyph_index_exact_values() {
    assert_eq!(glyph_index(0, 70), 0);
    assert_eq!(glyph_index(3, 70), 0);
    assert_eq!(glyph_index(4, 70), 1);
    assert_eq!(glyph_index(128, 70), 35);
    assert_eq!(glyph_index(255, 70), 69);
    assert_eq!(glyph_index(255, 1), 0);
}

#[test]
fn brightness_is_the_mean_rounded_down() {
    assert_eq!(brightness(0, 0, 0), 0);
    assert_eq!(brightness(255, 255, 255), 255);
    assert_eq!(brightness(1, 1, 0), 0);
    assert_eq!(brightness(10, 20, 40), 23);
    assert_eq!(brightness(255, 0, 0), 85);
}

#[test]
fn ramp_has_seventy_glyphs_dense_first_space_last() {
    assert_eq!(ASCII_CHARS.len(), 70);
    assert_eq!(ASCII_CHARS[0], '$');
    assert_eq!(ASCII_CHARS[69], ' ');
}

#[test]
fn pixel_to_ascii_black_is_densest_white_is_space() {
    assert_eq!(pixel_to_ascii(0, 0, 0), '$');
    assert_eq!(pixel_to_ascii(255, 255, 255), ' ');
    assert_eq!(pixel_to_ascii(128, 128, 128), ASCII_CHARS[35]);
    assert_eq!(pixel_to_ascii(255, 0, 0), ASCII_CHARS[23]);
}

#[test]
fn quantize_takes_the_upper_four_bits() {
    assert_eq!(quantize(0), 0);
    assert_eq!(quantize(15), 0);
    assert_eq!(quantize(16), 1);
    assert_eq!(quantize(200), 12);
    assert_eq!(quantize(255), 15);
}

#[test]
fn representative_values_survive_quantization() {
    for n in 0..16u8 {
        let v = n * 17;
        assert_eq!(dequantize(n), v);
        assert_eq!(quantize(v), n);
        assert_eq!(dequantize(quantize(v)), v);
    }
}

#[test]
fn color_index_packs_three_nibbles() {
    assert_eq!(color_index(0, 0, 0), 0);
    assert_eq!(color_index(255, 255, 255), 4095);
    assert_eq!(color_index(0x12, 0x34, 0x56), 0x135);
    assert_eq!(color_index(255, 0, 0), 0xF00);
    assert_eq!(color_index(0, 255, 0), 0x0F0);
    assert_eq!(color_index(0, 0, 255), 0x00F);
}

#[test]
fn push_decimal_appends_without_leading_zeros() {
    let mut s = String::from("x");
    push_decimal(&mut s, 0);
    push_decimal(&mut s, 7);
    push_decimal(&mut s, 10);
    push_decimal(&mut s, 99);
    push_decimal(&mut s, 100);
    push_decimal(&mut s, 205);
    push_decimal(&mut s, 255);
    assert_eq!(s, "x071099100205255");
}

#[test]
fn escape_sequence_exact_text() {
    assert_eq!(escape_sequence(0, 0, 0), "\x1b[38;2;0;0;0m");
    assert_eq!(escape_sequence(255, 17, 102), "\x1b[38;2;255;17;102m");
    assert_eq!(escape_sequence(9, 10, 100), "\x1b[38;2;9;10;100m");
}

#[test]
fn table_holds_the_sequence_of_each_representative_color() {
    let table = ColorLookupTable::new();
    assert_eq!(table.entries.len(), COLOR_COUNT);
    for i in 0..4096usize {
        let r = ((i >> 8) & 0xF) * 17;
        let g = ((i >> 4) & 0xF) * 17;
        let b = (i & 0xF) * 17;
        assert_eq!(table.lookup(i), &format!("\x1b[38;2;{};{};{}m", r, g, b));
    }
}

#[test]
fn index_zero_is_the_sequence_for_black() {
    let table = ColorLookupTable::new();
    assert_eq!(table.lookup(0), "\x1b[38;2;0;0;0m");
    assert_eq!(table.escape_for(0, 0, 0), "\x1b[38;2;0;0;0m");
    assert_eq!(table.escape_for(15, 15, 15), "\x1b[38;2;0;0;0m");
    assert_eq!(table.escape_for(255, 128, 16), "\x1b[38;2;255;136;17m");
}
