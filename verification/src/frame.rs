//! A decoded video frame: pixel dimensions and a row-major RGB8 buffer.

use vstd::prelude::*;

verus! {

/// One decoded image sample. Three bytes per pixel (red, green, blue), rows
/// from top to bottom, pixels from left to right within a row.
pub struct Frame {
    pub width: usize,
    pub height: usize,
    pub pixels: Vec<u8>,
}

/// Where the red byte of pixel `(x, y)` stands in a buffer of the given width.
pub open spec fn pixel_offset(width: int, x: int, y: int) -> int {
    (y * width + x) * 3
}

impl Frame {
    /// The buffer holds exactly `width * height` pixels.
    pub open spec fn wf(&self) -> bool {
        self.pixels@.len() == self.width * self.height * 3
    }

    /// Whether `(x, y)` names a pixel of the frame.
    pub open spec fn contains(&self, x: int, y: int) -> bool {
        0 <= x < self.width && 0 <= y < self.height
    }

    /// The color of pixel `(x, y)`.
    pub open spec fn pixel(&self, x: int, y: int) -> (u8, u8, u8) {
        let base = pixel_offset(self.width as int, x, y);
        (self.pixels@[base], self.pixels@[base + 1], self.pixels@[base + 2])
    }

    /// Makes a frame of the given dimensions, or nothing where the buffer
    /// does not hold exactly `width * height` pixels.
    pub fn new(width: usize, height: usize, pixels: Vec<u8>) -> (frame: Option<Frame>)
        ensures
            frame is Some <==> pixels@.len() == width * height * 3,
            frame matches Some(f) ==> f.wf() && f.width == width && f.height == height
                && f.pixels@ == pixels@,
    {
        assert(width * height <= 0xffff_ffff_ffff_ffff * 0xffff_ffff_ffff_ffff
            && 0xffff_ffff_ffff_ffff * 0xffff_ffff_ffff_ffff
            < 0xffff_ffff_ffff_ffff_ffff_ffff_ffff_ffff) by (nonlinear_arith)
            requires
                0 <= width <= 0xffff_ffff_ffff_ffff,
                0 <= height <= 0xffff_ffff_ffff_ffff,
        ;
        let cells: u128 = (width as u128) * (height as u128);
        let len: u128 = pixels.len() as u128;
        if len % 3 == 0 && len / 3 == cells {
            Some(Frame { width, height, pixels })
        } else {
            None
        }
    }

    /// The color of pixel `(x, y)`.
    pub fn get_pixel(&self, x: usize, y: usize) -> (rgb: (u8, u8, u8))
        requires
            self.wf(),
            self.contains(x as int, y as int),
        ensures
            rgb == self.pixel(x as int, y as int),
    {
        let len: usize = self.pixels.len();
        proof {
            lemma_pixel_in_buffer(self.width as int, self.height as int, x as int, y as int);
        }
        let base: usize = (y * self.width + x) * 3;
        assert(base + 2 < len);
        (self.pixels[base], self.pixels[base + 1], self.pixels[base + 2])
    }
}

/// The three bytes of a pixel inside the frame lie inside the buffer.
pub proof fn lemma_pixel_in_buffer(width: int, height: int, x: int, y: int)
    requires
        0 <= x < width,
        0 <= y < height,
    ensures
        0 <= y * width <= pixel_offset(width, x, y),
        pixel_offset(width, x, y) + 2 < width * height * 3,
{
    assert(0 <= y * width && y * width + width <= width * height) by (nonlinear_arith)
        requires
            0 <= y < height,
            0 <= width,
    ;
}

} // verus!
