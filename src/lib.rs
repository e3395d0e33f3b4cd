//! Geometry and draw planning for a small WebGL renderer: a triangulated
//! height-field grid, the outcome of shader compilation and linking, and the
//! exact command sequence each draw program issues per frame.

pub mod draw;
pub mod grid;
pub mod shader;
