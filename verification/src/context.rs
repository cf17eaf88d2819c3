//! Pass-wide configuration and the limits the layout math works under.

use vstd::prelude::*;

verus! {

/// Largest logical coordinate or size the layout deals in.  Every
/// computed position stays in `[0, LOGICAL_LIMIT]`, so scaled device
/// coordinates stay exact in the canvas backend.
pub const LOGICAL_LIMIT: u32 = 65536;

/// Largest accepted output scale factor.
pub const MAX_SCALE: u32 = 256;

/// Largest accepted canvas side, in device pixels.
pub const MAX_CANVAS_DIM: u32 = 32768;

/// Immutable, pass-wide configuration: the positive scale factor applied
/// uniformly to every computed pixel coordinate.  Created once per render
/// invocation and discarded at the end.
#[derive(Clone, Copy, PartialEq, Eq, Structural, Debug)]
pub struct RenderContext {
    pub scale_factor: u32,
}

impl RenderContext {
    /// A well-formed context has a positive, bounded scale factor.
    pub open spec fn wf(self) -> bool {
        1 <= self.scale_factor <= MAX_SCALE
    }

    /// A context with the given scale factor; `None` when the factor is
    /// zero or above `MAX_SCALE`.
    pub fn new(scale_factor: u32) -> (r: Option<RenderContext>)
        ensures
            r is Some <==> 1 <= scale_factor <= MAX_SCALE,
            r is Some ==> r->0 == (RenderContext { scale_factor }) && r->0.wf(),
    {
        if 1 <= scale_factor && scale_factor <= MAX_SCALE {
            Some(RenderContext { scale_factor })
        } else {
            None
        }
    }
}

/// A node's computed absolute drawing origin and content box on the
/// canvas, in device pixels (logical units times the scale factor).
/// Produced by the pipeline immediately before a draw step and never
/// stored on the node.
#[derive(Clone, Copy, PartialEq, Eq, Structural, Debug)]
pub struct RenderParams {
    pub x: i64,
    pub y: i64,
    pub width: i64,
    pub height: i64,
}

} // verus!
