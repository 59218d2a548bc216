//! Host-side control of a progressive renderer: the frame loop's decisions,
//! the accumulation counter and its two buffers, edge-triggered key input,
//! frame timing and the byte layout of the records sent to the GPU program.
//!
//! Everything here works on plain values. The window system and the GPU are
//! driven by the program around this library, which hands events in and
//! carries the decisions out.

pub mod camera;
pub mod input;
pub mod math;
pub mod render;
pub mod surface;
pub mod system;
pub mod timer;
pub mod uniform;
