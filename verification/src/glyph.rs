//! Brightness to glyph: the ramp of characters and the index into it.

use vstd::prelude::*;

verus! {

/// The glyph ramp: seventy characters, the densest-looking first, the space last.
pub const ASCII_CHARS: [char; 70] = [
    '$', '@', 'B', '%', '8', '&', 'W', 'M', '#', '*', 'o', 'a', 'h', 'k', 'b', 'd', 'p', 'q', 'w',
    'm', 'Z', 'O', '0', 'Q', 'L', 'C', 'J', 'U', 'Y', 'X', 'z', 'c', 'v', 'u', 'n', 'x', 'r', 'j',
    'f', 't', '/', '\\', '|', '(', ')', '1', '{', '}', '[', ']', '?', '-', '_', '+', '~', '<', '>',
    'i', '!', 'l', 'I', ';', ':', ',', '"', '^', '`', '\'', '.', ' ',
];

/// The mean of the three channels, rounded down.
pub open spec fn brightness_of(r: int, g: int, b: int) -> int {
    (r + g + b) / 3
}

/// The place in a ramp of `ramp_len` glyphs that stands for `brightness`:
/// `floor(brightness * ramp_len / 256)`, kept within the ramp.
pub open spec fn glyph_index_of(brightness: int, ramp_len: int) -> int {
    let raw = brightness * ramp_len / 256;
    if raw < 0 {
        0
    } else if raw > ramp_len - 1 {
        ramp_len - 1
    } else {
        raw
    }
}

/// The glyph that the ramp gives a color by its brightness.
pub open spec fn glyph_of(r: u8, g: u8, b: u8) -> char {
    ASCII_CHARS@[glyph_index_of(brightness_of(r as int, g as int, b as int), 70)]
}

/// The brightness of a color: the mean of its channels, rounded down.
pub fn brightness(r: u8, g: u8, b: u8) -> (v: u8)
    ensures
        v == brightness_of(r as int, g as int, b as int),
{
    ((r as u32 + g as u32 + b as u32) / 3) as u8
}

/// The index of the glyph for `brightness` in a ramp of `ramp_len` glyphs.
pub fn glyph_index(brightness: u8, ramp_len: usize) -> (index: usize)
    requires
        ramp_len >= 1,
    ensures
        index == glyph_index_of(brightness as int, ramp_len as int),
        index == brightness * ramp_len / 256,
        index < ramp_len,
{
    proof {
        lemma_glyph_index_unclamped(brightness as int, ramp_len as int);
    }
    assert(brightness * ramp_len <= 255 * ramp_len) by (nonlinear_arith)
        requires
            0 <= brightness <= 255,
            0 <= ramp_len,
    ;
    let scaled: u128 = (brightness as u128) * (ramp_len as u128);
    (scaled / 256) as usize
}

/// The glyph for a color: the ramp's character at the index of its brightness.
pub fn pixel_to_ascii(r: u8, g: u8, b: u8) -> (c: char)
    ensures
        c == glyph_of(r, g, b),
{
    let index: usize = glyph_index(brightness(r, g, b), 70);
    ASCII_CHARS[index]
}

/// For a brightness of at most 255 the quotient already lies within the ramp,
/// so keeping it within the ramp changes nothing.
pub proof fn lemma_glyph_index_unclamped(brightness: int, ramp_len: int)
    requires
        0 <= brightness <= 255,
        ramp_len >= 1,
    ensures
        glyph_index_of(brightness, ramp_len) == brightness * ramp_len / 256,
        0 <= glyph_index_of(brightness, ramp_len) <= ramp_len - 1,
{
    assert(0 <= brightness * ramp_len <= 255 * ramp_len) by (nonlinear_arith)
        requires
            0 <= brightness <= 255,
            ramp_len >= 1,
    ;
}

/// The glyph index never decreases as the brightness grows, and it always
/// names a place of the ramp.
pub proof fn lemma_glyph_index_monotone(darker: int, brighter: int, ramp_len: int)
    requires
        0 <= darker <= brighter <= 255,
        ramp_len >= 1,
    ensures
        glyph_index_of(darker, ramp_len) <= glyph_index_of(brighter, ramp_len),
        0 <= glyph_index_of(darker, ramp_len) <= ramp_len - 1,
        0 <= glyph_index_of(brighter, ramp_len) <= ramp_len - 1,
{
    lemma_glyph_index_unclamped(darker, ramp_len);
    lemma_glyph_index_unclamped(brighter, ramp_len);
    assert(darker * ramp_len <= brighter * ramp_len) by (nonlinear_arith)
        requires
            darker <= brighter,
            ramp_len >= 1,
    ;
}

} // verus!
