//! State model of a small windowed renderer: surface settings that follow the
//! window size, a clear colour driven by the pointer, the fixed pentagon
//! geometry, and the decisions taken for each window event and each frame.

pub mod color;
pub mod surface;
pub mod geometry;
pub mod state;
