//! Live video to colored ASCII art: the per-frame image-to-text pipeline and
//! the diff-based repaint planner, with machine-checked contracts.

pub mod text;
pub mod frame;
pub mod glyph;
pub mod blend;
pub mod color;
pub mod edge;
pub mod render;
pub mod diff;
pub mod pacing;
pub mod session;
