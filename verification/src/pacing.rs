//! The pacing controller: a pass that ran over its budget makes the next
//! frame a blend-only frame.

use vstd::prelude::*;

verus! {

/// The time that one pass may take, in milliseconds.
pub const TARGET_FRAME_TIME_MS: u128 = 16;

/// What the controller remembers between passes.
pub struct PacingState {
    pub last_pass_ms: u128,
    pub skip_next: bool,
}

impl PacingState {
    /// The state before the first pass: nothing measured, nothing to skip.
    pub fn new() -> (state: PacingState)
        ensures
            state.last_pass_ms == 0,
            !state.skip_next,
    {
        PacingState { last_pass_ms: 0, skip_next: false }
    }

    /// Records how long a full pass took. The next frame is skipped exactly
    /// when this pass took longer than the budget, whatever came before.
    pub fn record_pass(&mut self, elapsed_ms: u128)
        ensures
            final(self).last_pass_ms == elapsed_ms,
            final(self).skip_next == (elapsed_ms > TARGET_FRAME_TIME_MS),
    {
        self.last_pass_ms = elapsed_ms;
        self.skip_next = elapsed_ms > TARGET_FRAME_TIME_MS;
    }

    /// Says whether the frame that has just arrived is skipped, and clears
    /// the flag: at most one frame is skipped for one slow pass.
    pub fn take_skip(&mut self) -> (skip: bool)
        ensures
            skip == old(self).skip_next,
            !final(self).skip_next,
            final(self).last_pass_ms == old(self).last_pass_ms,
    {
        let skip: bool = self.skip_next;
        self.skip_next = false;
        skip
    }
}

} // verus!
