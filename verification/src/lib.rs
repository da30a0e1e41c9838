//! A small utility layer for off-screen frame capture in a real-time
//! rendering application: the logical scene dimensions, a CPU-side holder
//! for the most recently captured frame, and the description of the
//! render-target texture that frames are rendered into.

pub mod frame;
pub mod render_target;
pub mod scene;
