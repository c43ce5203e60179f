//! The row renderer: one line of text for each terminal row, each computed
//! from the frame, the previous buffer and the constant tables alone.

use vstd::prelude::*;
use crate::blend::{blend_pixel, blended_pixel, prev_view};
use crate::color::{color_index, color_index_of, table_entry, ColorLookupTable};
use crate::diff::texts;
use crate::edge::{
    edge_at, edge_glyph, edge_glyph_of, sample_rate_of, sampled, should_sample,
    sobel_detect_edge, sobel_sample_rate, SobelEdge, EDGE_THRESHOLD,
};
use crate::frame::Frame;
use crate::glyph::{glyph_of, pixel_to_ascii};

verus! {

/// The source coordinate of a terminal coordinate, by nearest-neighbor
/// integer scaling: `floor(t * source_len / term_len)`.
pub open spec fn scaled(t: int, source_len: int, term_len: int) -> int {
    t * source_len / term_len
}

/// Below the terminal's length the scaled coordinate stays below the source's.
pub proof fn lemma_scaled_in_source(t: int, source_len: int, term_len: int)
    requires
        0 <= t < term_len,
        source_len > 0,
    ensures
        0 <= t * source_len,
        0 <= scaled(t, source_len, term_len) < source_len,
{
    assert(0 <= t * source_len && t * source_len < term_len * source_len) by (nonlinear_arith)
        requires
            0 <= t < term_len,
            source_len > 0,
    ;
    vstd::arithmetic::div_mod::lemma_div_pos_is_pos(t * source_len, term_len);
    vstd::arithmetic::div_mod::lemma_multiply_divide_lt(t * source_len, term_len, source_len);
}

/// The source coordinate of a terminal coordinate.
pub fn scale(t: usize, source_len: usize, term_len: usize) -> (s: usize)
    requires
        t < term_len,
        source_len > 0,
    ensures
        s == scaled(t as int, source_len as int, term_len as int),
        s < source_len,
{
    proof {
        lemma_scaled_in_source(t as int, source_len as int, term_len as int);
    }
    assert(t * source_len <= 0xffff_ffff_ffff_ffff * 0xffff_ffff_ffff_ffff
        && 0xffff_ffff_ffff_ffff * 0xffff_ffff_ffff_ffff
        < 0xffff_ffff_ffff_ffff_ffff_ffff_ffff_ffff) by (nonlinear_arith)
        requires
            0 <= t <= 0xffff_ffff_ffff_ffff,
            0 <= source_len <= 0xffff_ffff_ffff_ffff,
    ;
    let product: u128 = (t as u128) * (source_len as u128);
    (product / (term_len as u128)) as usize
}

/// What a pass renders from: the frame, the previous frame's raw buffer if
/// there is one, the color table, and the terminal's size in cells.
pub struct RowRenderer<'a> {
    pub frame: &'a Frame,
    pub prev: &'a Option<Vec<u8>>,
    pub table: &'a ColorLookupTable,
    pub term_width: usize,
    pub term_height: usize,
}

impl<'a> RowRenderer<'a> {
    /// The frame is whole, the table is built, and where the terminal has a
    /// cell the frame has a pixel.
    pub open spec fn wf(&self) -> bool {
        &&& self.frame.wf()
        &&& self.table.wf()
        &&& self.term_width > 0 && self.term_height > 0 ==> self.frame.width > 0
            && self.frame.height > 0
    }

    /// The text of every terminal row, from the top.
    pub open spec fn frame_text(&self) -> Seq<Seq<char>> {
        Seq::new(self.term_height as nat, |ty: int| self.row_text(ty, self.term_width as nat))
    }

    /// The column of the source pixel behind terminal column `tx`.
    pub open spec fn source_x(&self, tx: int) -> int {
        scaled(tx, self.frame.width as int, self.term_width as int)
    }

    /// The row of the source pixel behind terminal row `ty`.
    pub open spec fn source_y(&self, ty: int) -> int {
        scaled(ty, self.frame.height as int, self.term_height as int)
    }

    /// The color of cell `(tx, ty)`: its source pixel after blending.
    pub open spec fn cell_color(&self, tx: int, ty: int) -> (u8, u8, u8) {
        blended_pixel(self.frame, prev_view(self.prev), self.source_x(tx), self.source_y(ty))
    }

    /// The table index of the color of cell `(tx, ty)`.
    pub open spec fn cell_color_index(&self, tx: int, ty: int) -> int {
        let c = self.cell_color(tx, ty);
        color_index_of(c.0 as int, c.1 as int, c.2 as int)
    }

    /// What the detector reports for cell `(tx, ty)`: nothing where the
    /// sampling policy skips the cell.
    pub open spec fn cell_edge(&self, tx: int, ty: int) -> SobelEdge {
        if sampled(tx, ty, sample_rate_of(self.term_width * self.term_height)) {
            edge_at(self.frame, self.source_x(tx), self.source_y(ty), EDGE_THRESHOLD as int)
        } else {
            SobelEdge::NoEdge
        }
    }

    /// The glyph of cell `(tx, ty)`: the edge glyph at an edge, the ramp's
    /// glyph for the cell's color elsewhere.
    pub open spec fn cell_glyph(&self, tx: int, ty: int) -> char {
        let c = self.cell_color(tx, ty);
        match edge_glyph_of(self.cell_edge(tx, ty)) {
            Some(g) => g,
            None => glyph_of(c.0, c.1, c.2),
        }
    }

    /// Whether cell `(tx, ty)` starts with a color sequence: the first cell of
    /// a row does, and every cell whose color index differs from that of the
    /// cell before it.
    pub open spec fn cell_sets_color(&self, tx: int, ty: int) -> bool {
        tx == 0 || self.cell_color_index(tx - 1, ty) != self.cell_color_index(tx, ty)
    }

    /// The text of cell `(tx, ty)`: its color sequence where it sets the
    /// color, then its glyph.
    pub open spec fn cell_text(&self, tx: int, ty: int) -> Seq<char> {
        if self.cell_sets_color(tx, ty) {
            table_entry(self.cell_color_index(tx, ty)).push(self.cell_glyph(tx, ty))
        } else {
            seq![self.cell_glyph(tx, ty)]
        }
    }

    /// The text of the first `cells` cells of row `ty`.
    pub open spec fn row_text(&self, ty: int, cells: nat) -> Seq<char>
        decreases cells,
    {
        if cells == 0 {
            Seq::empty()
        } else {
            self.row_text(ty, (cells - 1) as nat) + self.cell_text(cells - 1, ty)
        }
    }

    /// The text of terminal row `ty`.
    pub fn render_row(&self, ty: usize) -> (row: String)
        requires
            self.wf(),
            ty < self.term_height,
        ensures
            row@ == self.row_text(ty as int, self.term_width as nat),
    {
        if self.term_width == 0 {
            return String::new();
        }
        let rate: usize = sobel_sample_rate(self.term_width, self.term_height);
        let y: usize = scale(ty, self.frame.height, self.term_height);
        let mut row = String::new();
        let mut last_color_idx: usize = usize::MAX;
        let mut tx: usize = 0;
        while tx < self.term_width
            invariant
                self.wf(),
                ty < self.term_height,
                rate == sample_rate_of(self.term_width * self.term_height),
                y == self.source_y(ty as int),
                y < self.frame.height,
                tx <= self.term_width,
                row@ == self.row_text(ty as int, tx as nat),
                tx == 0 ==> last_color_idx == usize::MAX,
                tx > 0 ==> last_color_idx == self.cell_color_index(tx - 1, ty as int),
            decreases self.term_width - tx,
        {
            let x: usize = scale(tx, self.frame.width, self.term_width);
            let c = blend_pixel(self.frame, self.prev, x, y);
            let edge = if should_sample(tx, ty, rate) {
                sobel_detect_edge(self.frame, x, y, EDGE_THRESHOLD)
            } else {
                SobelEdge::NoEdge
            };
            let ascii_char: char = match edge_glyph(edge) {
                Some(g) => g,
                None => pixel_to_ascii(c.0, c.1, c.2),
            };
            let color_idx: usize = color_index(c.0, c.1, c.2);
            if color_idx != last_color_idx {
                row.push_str(self.table.lookup(color_idx).as_str());
                last_color_idx = color_idx;
            }
            row.push(ascii_char);
            assert(row@ =~= self.row_text(ty as int, tx as nat) + self.cell_text(tx as int, ty as int));
            tx += 1;
        }
        row
    }

    /// The text of every terminal row, from the top.
    pub fn render_rows(&self) -> (rows: Vec<String>)
        requires
            self.wf(),
        ensures
            rows@.len() == self.term_height,
            texts(rows@) == self.frame_text(),
            forall|ty: int| 0 <= ty < self.term_height ==> (#[trigger] rows@[ty])@ == self.row_text(
                ty,
                self.term_width as nat,
            ),
    {
        let mut rows: Vec<String> = Vec::new();
        let mut ty: usize = 0;
        while ty < self.term_height
            invariant
                self.wf(),
                ty <= self.term_height,
                rows@.len() == ty,
                forall|k: int| 0 <= k < ty ==> (#[trigger] rows@[k])@ == self.row_text(
                    k,
                    self.term_width as nat,
                ),
            decreases self.term_height - ty,
        {
            rows.push(self.render_row(ty));
            ty += 1;
        }
        assert(texts(rows@) =~= self.frame_text());
        rows
    }
}

} // verus!
