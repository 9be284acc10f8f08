//! Renders one raster image onto a resizable surface, preserving the image's
//! aspect ratio by letterboxing it inside the viewport.
//!
//! The geometry (aspect ratios, letterbox margins, quad vertices) is kept as
//! exact integer rationals, and the render context is a state machine over
//! plain values: surface size, lazily created resources, and the per-frame
//! draw protocol. A host pairs it with a real surface and performs the
//! drawing that the context decides on.

pub mod ratio;
pub mod render;
pub mod types;
pub mod vertex;
pub mod viewport;
