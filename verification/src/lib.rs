//! Window bookkeeping of a scrollable-tiling Wayland compositor.

pub mod appearance;
pub mod bits;
pub mod decimal;
pub mod geometry;
pub mod grab;
pub mod introspect;
pub mod ipc;
pub mod serial;
pub mod state;
pub mod text;
pub mod transform;
pub mod window;
pub mod window_rule;
