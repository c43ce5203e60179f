//! The render flow's state and its steps: what happens to the blend buffer,
//! the rows shown and the pacing flag when a frame arrives and when a pass ends.

use vstd::prelude::*;
use crate::blend::prev_view;
use crate::color::ColorLookupTable;
use crate::diff::{
    differing_count, repaints_all, rows_to_write, texts, DiffCompositor, RepaintPlan,
};
use crate::frame::Frame;
use crate::pacing::{PacingState, TARGET_FRAME_TIME_MS};
use crate::render::RowRenderer;

verus! {

/// What to do with a frame that has arrived.
#[derive(Clone, Copy, Debug, PartialEq, Eq, Structural)]
pub enum FrameAction {
    /// The frame only refreshes the blend buffer; nothing is rendered or written.
    BlendOnly,
    /// The frame is rendered and displayed.
    FullPass,
}

/// All that the render flow keeps between frames.
pub struct RenderState {
    /// The raw pixels of the frame processed last, if any.
    pub prev_frame: Option<Vec<u8>>,
    /// The rows displayed last.
    pub compositor: DiffCompositor,
    /// The duration of the last pass and the skip flag.
    pub pacing: PacingState,
}

/// A copy of a frame's raw pixels.
pub fn copy_pixels(frame: &Frame) -> (pixels: Vec<u8>)
    ensures
        pixels@ == frame.pixels@,
{
    let pixels = frame.pixels.clone();
    assert(pixels@ =~= frame.pixels@);
    pixels
}

impl RenderState {
    /// The state at startup: no frame processed, nothing shown, nothing to skip.
    pub fn new() -> (state: RenderState)
        ensures
            state.prev_frame is None,
            state.compositor.prev_rows is None,
            !state.pacing.skip_next,
    {
        RenderState { prev_frame: None, compositor: DiffCompositor::new(), pacing: PacingState::new() }
    }

    /// Decides what happens to a frame that has arrived. After a pass that
    /// ran over its budget the frame only replaces the blend buffer and the
    /// flag is cleared; otherwise nothing changes yet and a full pass is due.
    pub fn begin_frame(&mut self, frame: &Frame) -> (action: FrameAction)
        ensures
            old(self).pacing.skip_next ==> {
                &&& action == FrameAction::BlendOnly
                &&& prev_view(&final(self).prev_frame) == Some(frame.pixels@)
                &&& final(self).compositor == old(self).compositor
                &&& !final(self).pacing.skip_next
                &&& final(self).pacing.last_pass_ms == old(self).pacing.last_pass_ms
            },
            !old(self).pacing.skip_next ==> action == FrameAction::FullPass && *final(self) == *old(self),
    {
        if self.pacing.take_skip() {
            self.prev_frame = Some(copy_pixels(frame));
            FrameAction::BlendOnly
        } else {
            FrameAction::FullPass
        }
    }

    /// Hands the rendered rows of `frame` to the compositor and makes the
    /// frame the previous one. Returns what has to be written.
    pub fn present(&mut self, frame: &Frame, rows: Vec<String>) -> (plan: RepaintPlan)
        ensures
            plan.full == repaints_all(old(self).compositor.shown(), texts(rows@)),
            plan.row_indices() == rows_to_write(old(self).compositor.shown(), texts(rows@)),
            plan.row_count == rows@.len(),
            plan.full ==> plan.rows@.len() == rows@.len(),
            !plan.full ==> plan.rows@.len() == differing_count(
                old(self).compositor.shown()->Some_0,
                texts(rows@),
                rows@.len(),
            ),
            final(self).compositor.prev_rows == Some(rows),
            prev_view(&final(self).prev_frame) == Some(frame.pixels@),
            final(self).pacing == old(self).pacing,
    {
        let plan = self.compositor.display(rows);
        self.prev_frame = Some(copy_pixels(frame));
        plan
    }

    /// Records the duration of a full pass: the next frame is blend-only
    /// exactly when the pass took longer than the budget.
    pub fn finish_pass(&mut self, elapsed_ms: u128)
        ensures
            final(self).pacing.last_pass_ms == elapsed_ms,
            final(self).pacing.skip_next == (elapsed_ms > TARGET_FRAME_TIME_MS),
            final(self).prev_frame == old(self).prev_frame,
            final(self).compositor == old(self).compositor,
    {
        self.pacing.record_pass(elapsed_ms);
    }

    /// Takes one frame through the pipeline on a terminal of the given size:
    /// a blend-only step, with nothing to write, after a slow pass; otherwise
    /// rendering against the previous buffer and the plan of the repaint.
    pub fn on_frame(
        &mut self,
        frame: &Frame,
        table: &ColorLookupTable,
        term_width: usize,
        term_height: usize,
    ) -> (plan: Option<RepaintPlan>)
        requires
            !old(self).pacing.skip_next ==> (RowRenderer {
                frame,
                prev: &old(self).prev_frame,
                table,
                term_width,
                term_height,
            }).wf(),
        ensures
            plan is None <==> old(self).pacing.skip_next,
            prev_view(&final(self).prev_frame) == Some(frame.pixels@),
            !final(self).pacing.skip_next,
            final(self).pacing.last_pass_ms == old(self).pacing.last_pass_ms,
            plan is None ==> final(self).compositor == old(self).compositor,
            plan matches Some(p) ==> {
                let rendered = (RowRenderer {
                    frame,
                    prev: &old(self).prev_frame,
                    table,
                    term_width,
                    term_height,
                }).frame_text();
                &&& p.full == repaints_all(old(self).compositor.shown(), rendered)
                &&& p.row_indices() == rows_to_write(old(self).compositor.shown(), rendered)
                &&& p.row_count == term_height
                &&& final(self).compositor.shown() == Some(rendered)
            },
    {
        match self.begin_frame(frame) {
            FrameAction::BlendOnly => None,
            FrameAction::FullPass => {
                let renderer = RowRenderer {
                    frame,
                    prev: &self.prev_frame,
                    table,
                    term_width,
                    term_height,
                };
                let rows = renderer.render_rows();
                Some(self.present(frame, rows))
            },
        }
    }
}

} // verus!
