//! Edge detection: Sobel gradients on the source image, classified by
//! orientation, and the policy that says at which cells to look for an edge.

use vstd::prelude::*;
use crate::frame::Frame;
use crate::glyph::{brightness, brightness_of};

verus! {

/// The gradient magnitude up to which a cell counts as having no edge.
pub const EDGE_THRESHOLD: u32 = 30;

/// What the detector found at a cell.
#[derive(Clone, Copy, Debug, PartialEq, Eq, Structural)]
pub enum SobelEdge {
    NoEdge,
    Horizontal,
    Vertical,
    DiagonalUp,
    DiagonalDown,
}

/// The brightness of the source pixel `(x, y)`.
pub open spec fn brightness_at(frame: &Frame, x: int, y: int) -> int {
    let p = frame.pixel(x, y);
    brightness_of(p.0 as int, p.1 as int, p.2 as int)
}

/// The horizontal Sobel gradient at `(x, y)`: the kernel
/// `[-1 0 1; -2 0 2; -1 0 1]` on the brightness of the eight neighbors.
pub open spec fn gradient_x(frame: &Frame, x: int, y: int) -> int {
    -brightness_at(frame, x - 1, y - 1) + brightness_at(frame, x + 1, y - 1)
        - 2 * brightness_at(frame, x - 1, y) + 2 * brightness_at(frame, x + 1, y)
        - brightness_at(frame, x - 1, y + 1) + brightness_at(frame, x + 1, y + 1)
}

/// The vertical Sobel gradient at `(x, y)`: the kernel
/// `[-1 -2 -1; 0 0 0; 1 2 1]` on the brightness of the eight neighbors.
pub open spec fn gradient_y(frame: &Frame, x: int, y: int) -> int {
    -brightness_at(frame, x - 1, y - 1) - 2 * brightness_at(frame, x, y - 1)
        - brightness_at(frame, x + 1, y - 1) + brightness_at(frame, x - 1, y + 1)
        + 2 * brightness_at(frame, x, y + 1) + brightness_at(frame, x + 1, y + 1)
}

/// The absolute value.
pub open spec fn magnitude_of(v: int) -> int {
    if v < 0 { -v } else { v }
}

/// The orientation class of a gradient `(gx, gy)` that is not zero, by the
/// angle `atan2(gy, gx)` in eight bands of 45 degrees.
///
/// The angle lies within 22.5 degrees of the x axis exactly when
/// `|gy| < tan(22.5°) * |gx|`. Since `tan(22.5°)` is `sqrt(2) - 1`, that is
/// `(|gx| + |gy|)^2 < 2 * gx^2`: the bands around 0 and 180 degrees, a
/// vertical edge. In the same way the bands around 90 and 270 degrees, a
/// horizontal edge, are `(|gx| + |gy|)^2 < 2 * gy^2`. Of the four bands that
/// are left, the two in which `gx` and `gy` have the same sign run down, the
/// other two up. No gradient of integers lies on the line between two bands,
/// because `sqrt(2)` is no fraction.
pub open spec fn orientation_of(gx: int, gy: int) -> SobelEdge {
    let reach = (magnitude_of(gx) + magnitude_of(gy)) * (magnitude_of(gx) + magnitude_of(gy));
    if reach < 2 * (gx * gx) {
        SobelEdge::Vertical
    } else if reach < 2 * (gy * gy) {
        SobelEdge::Horizontal
    } else if (gx > 0) == (gy > 0) {
        SobelEdge::DiagonalDown
    } else {
        SobelEdge::DiagonalUp
    }
}

/// The class of a gradient: none where its magnitude `sqrt(gx^2 + gy^2)` is at
/// most the threshold, its orientation otherwise.
pub open spec fn classify_gradient(gx: int, gy: int, threshold: int) -> SobelEdge {
    if gx * gx + gy * gy <= threshold * threshold {
        SobelEdge::NoEdge
    } else {
        orientation_of(gx, gy)
    }
}

/// Whether `(x, y)` lacks one of its eight neighbors in the frame.
pub open spec fn on_border(frame: &Frame, x: int, y: int) -> bool {
    x <= 0 || y <= 0 || x >= frame.width - 1 || y >= frame.height - 1
}

/// What the detector finds at `(x, y)` of the source image.
pub open spec fn edge_at(frame: &Frame, x: int, y: int, threshold: int) -> SobelEdge {
    if on_border(frame, x, y) {
        SobelEdge::NoEdge
    } else {
        classify_gradient(gradient_x(frame, x, y), gradient_y(frame, x, y), threshold)
    }
}

/// How coarsely to look for edges on a terminal of `total_cells` cells.
pub open spec fn sample_rate_of(total_cells: int) -> int {
    if total_cells > 200_000 {
        20
    } else if total_cells > 100_000 {
        10
    } else {
        1
    }
}

/// Whether the detector runs at terminal cell `(tx, ty)`.
pub open spec fn sampled(tx: int, ty: int, rate: int) -> bool {
    tx % rate == 0 && ty % rate == 0
}

/// The glyph that replaces the brightness glyph at an edge.
pub open spec fn edge_glyph_of(edge: SobelEdge) -> Option<char> {
    match edge {
        SobelEdge::NoEdge => None,
        SobelEdge::Horizontal => Some('\u{2550}'),
        SobelEdge::Vertical => Some('\u{2551}'),
        SobelEdge::DiagonalUp => Some('/'),
        SobelEdge::DiagonalDown => Some('\\'),
    }
}

fn source_brightness(frame: &Frame, x: usize, y: usize) -> (v: i32)
    requires
        frame.wf(),
        frame.contains(x as int, y as int),
    ensures
        v == brightness_at(frame, x as int, y as int),
        0 <= v <= 255,
{
    let p = frame.get_pixel(x, y);
    let v: u8 = brightness(p.0, p.1, p.2);
    v as i32
}

/// Classifies a gradient against a threshold on its magnitude.
pub fn classify(gx: i32, gy: i32, threshold: u32) -> (edge: SobelEdge)
    ensures
        edge == classify_gradient(gx as int, gy as int, threshold as int),
{
    assert(0 <= gx * gx <= 0x8000_0000 * 0x8000_0000 && 0 <= gy * gy <= 0x8000_0000 * 0x8000_0000
        && 0x8000_0000 * 0x8000_0000 == 0x4000_0000_0000_0000) by (nonlinear_arith)
        requires
            -0x8000_0000 <= gx <= 0x8000_0000,
            -0x8000_0000 <= gy <= 0x8000_0000,
    ;
    assert(0 <= threshold * threshold <= 0x1_0000_0000 * 0x1_0000_0000 && 0x1_0000_0000
        * 0x1_0000_0000 == 0x1_0000_0000_0000_0000) by (nonlinear_arith)
        requires
            0 <= threshold <= 0x1_0000_0000,
    ;
    let sq_x: i128 = (gx as i128) * (gx as i128);
    let sq_y: i128 = (gy as i128) * (gy as i128);
    let limit: i128 = (threshold as i128) * (threshold as i128);
    if sq_x + sq_y <= limit {
        return SobelEdge::NoEdge;
    }
    let ax: i128 = if gx < 0 { -(gx as i128) } else { gx as i128 };
    let ay: i128 = if gy < 0 { -(gy as i128) } else { gy as i128 };
    assert(0 <= (ax + ay) * (ax + ay) <= 0x1_0000_0000 * 0x1_0000_0000) by (nonlinear_arith)
        requires
            0 <= ax <= 0x8000_0000,
            0 <= ay <= 0x8000_0000,
    ;
    let reach: i128 = (ax + ay) * (ax + ay);
    if reach < 2 * sq_x {
        SobelEdge::Vertical
    } else if reach < 2 * sq_y {
        SobelEdge::Horizontal
    } else if (gx > 0) == (gy > 0) {
        SobelEdge::DiagonalDown
    } else {
        SobelEdge::DiagonalUp
    }
}

/// Looks for an edge at `(x, y)` of the source image. Cells on the border of
/// the image, and cells outside it, have none.
pub fn sobel_detect_edge(decoded: &Frame, x: usize, y: usize, threshold: u32) -> (edge: SobelEdge)
    requires
        decoded.wf(),
    ensures
        edge == edge_at(decoded, x as int, y as int, threshold as int),
{
    if x == 0 || y == 0 || decoded.width < 2 || decoded.height < 2 || x >= decoded.width - 1
        || y >= decoded.height - 1 {
        return SobelEdge::NoEdge;
    }
    let nw: i32 = source_brightness(decoded, x - 1, y - 1);
    let n: i32 = source_brightness(decoded, x, y - 1);
    let ne: i32 = source_brightness(decoded, x + 1, y - 1);
    let w: i32 = source_brightness(decoded, x - 1, y);
    let e: i32 = source_brightness(decoded, x + 1, y);
    let sw: i32 = source_brightness(decoded, x - 1, y + 1);
    let s: i32 = source_brightness(decoded, x, y + 1);
    let se: i32 = source_brightness(decoded, x + 1, y + 1);

    let gx: i32 = -nw + ne - 2 * w + 2 * e - sw + se;
    let gy: i32 = -nw - 2 * n - ne + sw + 2 * s + se;
    classify(gx, gy, threshold)
}

/// How coarsely to look for edges on a terminal of the given size: at every
/// twentieth column and row above 200,000 cells, at every tenth above
/// 100,000, everywhere otherwise.
pub fn sobel_sample_rate(term_width: usize, term_height: usize) -> (rate: usize)
    ensures
        rate == sample_rate_of(term_width * term_height),
        rate >= 1,
{
    assert(0 <= term_width * term_height <= 0xffff_ffff_ffff_ffff * 0xffff_ffff_ffff_ffff
        && 0xffff_ffff_ffff_ffff * 0xffff_ffff_ffff_ffff
        < 0xffff_ffff_ffff_ffff_ffff_ffff_ffff_ffff) by (nonlinear_arith)
        requires
            0 <= term_width <= 0xffff_ffff_ffff_ffff,
            0 <= term_height <= 0xffff_ffff_ffff_ffff,
    ;
    let total_cells: u128 = (term_width as u128) * (term_height as u128);
    if total_cells > 200_000 {
        20
    } else if total_cells > 100_000 {
        10
    } else {
        1
    }
}

/// Whether the detector runs at terminal cell `(tx, ty)`.
pub fn should_sample(tx: usize, ty: usize, rate: usize) -> (yes: bool)
    requires
        rate >= 1,
    ensures
        yes == sampled(tx as int, ty as int, rate as int),
{
    tx % rate == 0 && ty % rate == 0
}

/// The glyph that replaces the brightness glyph at an edge, if there is one.
pub fn edge_glyph(edge: SobelEdge) -> (glyph: Option<char>)
    ensures
        glyph == edge_glyph_of(edge),
{
    match edge {
        SobelEdge::NoEdge => None,
        SobelEdge::Horizontal => Some('\u{2550}'),
        SobelEdge::Vertical => Some('\u{2551}'),
        SobelEdge::DiagonalUp => Some('/'),
        SobelEdge::DiagonalDown => Some('\\'),
    }
}

/// In an image of one color both gradients are zero at every cell, so no cell
/// has an edge, whatever the threshold.
pub proof fn lemma_uniform_image_has_no_edge(
    frame: &Frame,
    color: (u8, u8, u8),
    x: int,
    y: int,
    threshold: int,
)
    requires
        forall|i: int, j: int| frame.contains(i, j) ==> #[trigger] frame.pixel(i, j) == color,
        threshold >= 0,
    ensures
        !on_border(frame, x, y) ==> gradient_x(frame, x, y) == 0 && gradient_y(frame, x, y) == 0,
        edge_at(frame, x, y, threshold) == SobelEdge::NoEdge,
{
    if !on_border(frame, x, y) {
        assert(frame.contains(x - 1, y - 1));
        assert(frame.contains(x, y - 1));
        assert(frame.contains(x + 1, y - 1));
        assert(frame.contains(x - 1, y));
        assert(frame.contains(x + 1, y));
        assert(frame.contains(x - 1, y + 1));
        assert(frame.contains(x, y + 1));
        assert(frame.contains(x + 1, y + 1));
        assert(frame.pixel(x - 1, y - 1) == color);
        assert(frame.pixel(x, y - 1) == color);
        assert(frame.pixel(x + 1, y - 1) == color);
        assert(frame.pixel(x - 1, y) == color);
        assert(frame.pixel(x + 1, y) == color);
        assert(frame.pixel(x - 1, y + 1) == color);
        assert(frame.pixel(x, y + 1) == color);
        assert(frame.pixel(x + 1, y + 1) == color);
        let gx = gradient_x(frame, x, y);
        let gy = gradient_y(frame, x, y);
        assert(gx * gx + gy * gy <= threshold * threshold) by (nonlinear_arith)
            requires
                gx == 0,
                gy == 0,
        ;
    }
}

/// The square of a whole number is twice the square of another only where
/// both are zero.
pub proof fn lemma_square_twice_square(s: nat, a: nat)
    requires
        s * s == 2 * (a * a),
    ensures
        s == 0,
        a == 0,
    decreases s,
{
    if s > 0 {
        let k: nat = s / 2;
        if s % 2 == 1 {
            assert(s * s == 4 * (k * k) + 4 * k + 1) by (nonlinear_arith)
                requires
                    s == 2 * k + 1,
            ;
            assert(false);
        }
        assert(s * s == 4 * (k * k)) by (nonlinear_arith)
            requires
                s == 2 * k,
        ;
        assert(a * a == 2 * (k * k));
        if a >= s {
            assert(a * a >= s * s) by (nonlinear_arith)
                requires
                    a >= s,
            ;
            assert(s * s > 0) by (nonlinear_arith)
                requires
                    s > 0,
            ;
            assert(false);
        }
        lemma_square_twice_square(a, k);
        assert(false);
    } else {
        assert(a * a == 0);
        assert(a == 0) by (nonlinear_arith)
            requires
                a * a == 0,
        ;
    }
}

/// A gradient of integers that is not zero never lies on the limit between
/// two orientation bands: the two comparisons of `orientation_of` are never
/// equalities, so it does not matter to which side a limit is counted.
pub proof fn lemma_no_gradient_on_band_limit(gx: int, gy: int)
    requires
        gx != 0 || gy != 0,
    ensures
        (magnitude_of(gx) + magnitude_of(gy)) * (magnitude_of(gx) + magnitude_of(gy)) != 2 * (gx
            * gx),
        (magnitude_of(gx) + magnitude_of(gy)) * (magnitude_of(gx) + magnitude_of(gy)) != 2 * (gy
            * gy),
{
    let ax: nat = magnitude_of(gx) as nat;
    let ay: nat = magnitude_of(gy) as nat;
    let s: nat = ax + ay;
    assert(ax * ax == gx * gx) by (nonlinear_arith)
        requires
            ax == gx || ax == -gx,
    ;
    assert(ay * ay == gy * gy) by (nonlinear_arith)
        requires
            ay == gy || ay == -gy,
    ;
    if s * s == 2 * (ax * ax) {
        lemma_square_twice_square(s, ax);
    }
    if s * s == 2 * (ay * ay) {
        lemma_square_twice_square(s, ay);
    }
}

} // verus!
