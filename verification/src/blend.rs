//! Temporal blending: smoothing a pixel against the previous frame.

use vstd::prelude::*;
use crate::frame::{pixel_offset, Frame, lemma_pixel_in_buffer};

verus! {

/// Seven parts of the current value and three of the previous one, divided by
/// ten and rounded to the nearest integer (a half rounds up).
pub open spec fn blend_of(current: int, previous: int) -> int {
    (7 * current + 3 * previous + 5) / 10
}

/// Whether a previous buffer can be blended into `frame`: it has a byte for
/// every byte of the frame, and no more.
pub open spec fn blendable(frame: &Frame, prev: Option<Seq<u8>>) -> bool {
    prev matches Some(p) && p.len() == frame.pixels@.len()
}

/// The color shown for pixel `(x, y)`: blended with the previous buffer where
/// there is one of the frame's size, the frame's own color otherwise.
pub open spec fn blended_pixel(frame: &Frame, prev: Option<Seq<u8>>, x: int, y: int) -> (u8, u8, u8) {
    let raw = frame.pixel(x, y);
    if blendable(frame, prev) {
        let base = pixel_offset(frame.width as int, x, y);
        let p = prev->Some_0;
        (
            blend_of(raw.0 as int, p[base] as int) as u8,
            blend_of(raw.1 as int, p[base + 1] as int) as u8,
            blend_of(raw.2 as int, p[base + 2] as int) as u8,
        )
    } else {
        raw
    }
}

/// Blends one channel with its previous value.
pub fn blend_channel(current: u8, previous: u8) -> (out: u8)
    ensures
        out == blend_of(current as int, previous as int),
        10 * out - 5 <= 7 * current + 3 * previous < 10 * out + 5,
        current == previous ==> out == current,
{
    ((current as u16 * 7 + previous as u16 * 3 + 5) / 10) as u8
}

/// The color shown for pixel `(x, y)` of `frame`, given the previous frame's
/// raw buffer, if any.
pub fn blend_pixel(frame: &Frame, prev: &Option<Vec<u8>>, x: usize, y: usize) -> (rgb: (u8, u8, u8))
    requires
        frame.wf(),
        frame.contains(x as int, y as int),
    ensures
        rgb == blended_pixel(frame, prev_view(prev), x as int, y as int),
        prev is None ==> rgb == frame.pixel(x as int, y as int),
{
    let raw = frame.get_pixel(x, y);
    match prev {
        Some(p) => {
            if p.len() == frame.pixels.len() {
                proof {
                    lemma_pixel_in_buffer(frame.width as int, frame.height as int, x as int, y as int);
                }
                let base: usize = (y * frame.width + x) * 3;
                (
                    blend_channel(raw.0, p[base]),
                    blend_channel(raw.1, p[base + 1]),
                    blend_channel(raw.2, p[base + 2]),
                )
            } else {
                raw
            }
        },
        None => raw,
    }
}

/// What a previous buffer holds, if there is one.
pub open spec fn prev_view(prev: &Option<Vec<u8>>) -> Option<Seq<u8>> {
    match prev {
        Some(p) => Some(p@),
        None => None,
    }
}

/// The blend of two channel values is a channel value: it lies between the
/// two, and so within 0..=255, and no integer is nearer to the weighted mean
/// `(7 * current + 3 * previous) / 10`.
pub proof fn lemma_blend_of(current: int, previous: int)
    requires
        0 <= current <= 255,
        0 <= previous <= 255,
    ensures
        0 <= blend_of(current, previous) <= 255,
        current <= previous ==> current <= blend_of(current, previous) <= previous,
        previous <= current ==> previous <= blend_of(current, previous) <= current,
        10 * blend_of(current, previous) - 5 <= 7 * current + 3 * previous,
        7 * current + 3 * previous < 10 * blend_of(current, previous) + 5,
{
}

/// Without a previous buffer the pixel shown is the frame's own pixel.
pub proof fn lemma_blend_without_previous(frame: &Frame, x: int, y: int)
    ensures
        blended_pixel(frame, None, x, y) == frame.pixel(x, y),
{
}

/// A previous buffer of another size than the frame's leaves the pixel as it is.
pub proof fn lemma_blend_size_mismatch(frame: &Frame, prev: Seq<u8>, x: int, y: int)
    requires
        prev.len() != frame.pixels@.len(),
    ensures
        blended_pixel(frame, Some(prev), x, y) == frame.pixel(x, y),
{
}

} // verus!
