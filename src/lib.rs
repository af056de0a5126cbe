//! Per-frame submission and synchronization protocol for a clear-color
//! render loop, cycling through a fixed set of in-flight frame slots.

pub mod frame;
pub mod renderer;
pub mod render_loop;
pub mod laws;
