//! A headless compositor for raster images.
//!
//! A caller builds an immutable tree of drawable nodes (containers,
//! rectangles, images), each with a partially specified style.  A render
//! pass resolves every node's style against its parent's, computes absolute
//! pixel positions from the box model (padding, alignment, stacking), and
//! drives a depth-first draw pass onto a shared canvas, stopping at the
//! first failure.
//!
//! All layout runs in logical units on integers; the render context's scale
//! factor multiplies every coordinate handed to a draw step, so one tree
//! renders at any output resolution.

pub mod canvas;
pub mod components;
pub mod context;
pub mod error;
pub mod laws;
pub mod pipeline;
pub mod resources;
pub mod style;
