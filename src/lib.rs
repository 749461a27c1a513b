//! State and rendering logic of a small terminal showcase: a tick scheduler,
//! an oscillating offset animator, a fixed-point torus rasterizer and the
//! session that routes key events between panels.

pub mod ticker;
pub mod animator;
pub mod fixed;
pub mod torus;
pub mod session;
