//! The closed set of failure causes that abort a pass.
//!
//! Every error is terminal: the pipeline never retries and never recovers
//! locally.  Each variant carries enough identity to locate the failing
//! node.

use vstd::prelude::*;
use crate::components::NodeKind;

verus! {

/// Why a pass stopped.
#[derive(Clone, PartialEq, Debug)]
pub enum RenderError {
    /// Content referenced by a node could not be obtained.
    ResourceAcquisition { path: String },
    /// Obtained content is malformed for its expected kind.
    ResourceDecoding { path: String },
    /// A computed or requested dimension is invalid: a non-positive or
    /// over-limit size, a child that does not fit the space its parent
    /// leaves for it, or content larger than its declared box.
    Geometry { kind: NodeKind },
    /// An open-ended category for node-specific causes.
    Other { kind: NodeKind, message: String },
}

} // verus!
