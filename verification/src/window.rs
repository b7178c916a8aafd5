//! Windows on the screen and what the compositor tells their clients.

pub mod activation;
pub mod configuring;
pub mod id;
pub mod mapped;
pub mod negotiated;
pub mod offscreen;
pub mod resize;
pub mod rules;
pub mod toplevel;
