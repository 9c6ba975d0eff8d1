//! Presents RGBA pixel buffers in native windows of any size, composited on the CPU.
//!
//! - `layout`: where a buffer stands in a window under each scale mode.
//! - `compose`: pixel packing and the nearest-neighbour copy into a window frame.
//! - `renderer`: the renderer's configuration, buffer checks and frame drawing.
//! - `cache`: the per-window render states and when they are made, kept or evicted.
//! - `platform`: what each operating system offers.
pub mod cache;
pub mod compose;
pub mod layout;
pub mod platform;
pub mod renderer;
