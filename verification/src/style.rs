//! The style model: raw (partially specified) styles, resolved (fully
//! specified) styles, and the cascading merge between them.
//!
//! The policy table, attribute by attribute:
//!
//! | attribute | inherited from the parent? | fallback                  |
//! |-----------|----------------------------|---------------------------|
//! | `width`   | no (box model)             | per-kind default constant |
//! | `height`  | no (box model)             | per-kind default constant |
//! | `padding` | no (box model)             | zero on all sides         |
//! | `spacing` | no (box model)             | zero                      |
//! | `align`   | yes (presentational)       | parent's resolved value   |
//! | `stack`   | yes (presentational)       | parent's resolved value   |

use vstd::prelude::*;
use crate::components::NodeKind;

verus! {

/// Placement of a node inside the space its parent leaves for it.
#[derive(Clone, Copy, PartialEq, Eq, Structural, Debug)]
pub enum Align {
    Start,
    Center,
    End,
}

/// The axis along which a container stacks its children.
#[derive(Clone, Copy, PartialEq, Eq, Structural, Debug)]
pub enum Axis {
    Horizontal,
    Vertical,
}

/// Four independent non-negative offsets, in logical units.
#[derive(Clone, Copy, PartialEq, Eq, Structural, Debug)]
pub struct Edges {
    pub top: u32,
    pub right: u32,
    pub bottom: u32,
    pub left: u32,
}

impl Edges {
    pub open spec fn spec_zero() -> Edges {
        Edges { top: 0u32, right: 0u32, bottom: 0u32, left: 0u32 }
    }

    /// Zero padding on all sides, the default.
    pub fn zero() -> (e: Edges)
        ensures
            e == Edges::spec_zero(),
    {
        Edges { top: 0, right: 0, bottom: 0, left: 0 }
    }

    /// The same offset on all four sides.
    pub fn uniform(v: u32) -> (e: Edges)
        ensures
            e.top == v && e.right == v && e.bottom == v && e.left == v,
    {
        Edges { top: v, right: v, bottom: v, left: v }
    }
}

/// A caller-declared style: every attribute is either set or left for the
/// cascade to fill in.  Never mutated after construction.
#[derive(Clone, Copy, PartialEq, Debug)]
pub struct RawStyle {
    pub width: Option<u32>,
    pub height: Option<u32>,
    pub padding: Option<Edges>,
    pub spacing: Option<u32>,
    pub align: Option<Align>,
    pub stack: Option<Axis>,
}

impl RawStyle {
    pub open spec fn spec_unset() -> RawStyle {
        RawStyle {
            width: None,
            height: None,
            padding: None,
            spacing: None,
            align: None,
            stack: None,
        }
    }

    /// A style with every attribute left to the cascade.
    pub fn unset() -> (s: RawStyle)
        ensures
            s == RawStyle::spec_unset(),
    {
        RawStyle { width: None, height: None, padding: None, spacing: None, align: None, stack: None }
    }

    /// True when every attribute is explicitly set.
    pub open spec fn fully_specified(self) -> bool {
        &&& self.width is Some
        &&& self.height is Some
        &&& self.padding is Some
        &&& self.spacing is Some
        &&& self.align is Some
        &&& self.stack is Some
    }
}

/// A fully specified style: what every draw step and layout computation
/// works from.  No unset attribute ever reaches a draw step.
#[derive(Clone, Copy, PartialEq, Debug)]
pub struct ResolvedStyle {
    pub width: u32,
    pub height: u32,
    pub padding: Edges,
    pub spacing: u32,
    pub align: Align,
    pub stack: Axis,
}

impl ResolvedStyle {
    /// The resolved style a pass starts from when there is no parent:
    /// start-aligned, vertically stacked, zero box values.
    pub open spec fn spec_root_default() -> ResolvedStyle {
        ResolvedStyle {
            width: 0u32,
            height: 0u32,
            padding: Edges::spec_zero(),
            spacing: 0u32,
            align: Align::Start,
            stack: Axis::Vertical,
        }
    }

    pub fn root_default() -> (s: ResolvedStyle)
        ensures
            s == ResolvedStyle::spec_root_default(),
    {
        ResolvedStyle {
            width: 0,
            height: 0,
            padding: Edges::zero(),
            spacing: 0,
            align: Align::Start,
            stack: Axis::Vertical,
        }
    }
}

pub const DEFAULT_CONTAINER_WIDTH: u32 = 400;

pub const DEFAULT_CONTAINER_HEIGHT: u32 = 300;

pub const DEFAULT_RECT_WIDTH: u32 = 50;

pub const DEFAULT_RECT_HEIGHT: u32 = 50;

pub const DEFAULT_IMAGE_WIDTH: u32 = 100;

pub const DEFAULT_IMAGE_HEIGHT: u32 = 100;

/// The type-level default for a declared content width.
pub open spec fn spec_default_width(kind: NodeKind) -> u32 {
    match kind {
        NodeKind::Container => DEFAULT_CONTAINER_WIDTH,
        NodeKind::Rect => DEFAULT_RECT_WIDTH,
        NodeKind::Image => DEFAULT_IMAGE_WIDTH,
    }
}

/// The type-level default for a declared content height.
pub open spec fn spec_default_height(kind: NodeKind) -> u32 {
    match kind {
        NodeKind::Container => DEFAULT_CONTAINER_HEIGHT,
        NodeKind::Rect => DEFAULT_RECT_HEIGHT,
        NodeKind::Image => DEFAULT_IMAGE_HEIGHT,
    }
}

pub fn default_width(kind: NodeKind) -> (w: u32)
    ensures
        w == spec_default_width(kind),
{
    match kind {
        NodeKind::Container => DEFAULT_CONTAINER_WIDTH,
        NodeKind::Rect => DEFAULT_RECT_WIDTH,
        NodeKind::Image => DEFAULT_IMAGE_WIDTH,
    }
}

pub fn default_height(kind: NodeKind) -> (h: u32)
    ensures
        h == spec_default_height(kind),
{
    match kind {
        NodeKind::Container => DEFAULT_CONTAINER_HEIGHT,
        NodeKind::Rect => DEFAULT_RECT_HEIGHT,
        NodeKind::Image => DEFAULT_IMAGE_HEIGHT,
    }
}

/// The cascading merge, per attribute: the node's own raw value when set;
/// otherwise the parent's resolved value when the attribute inherits;
/// otherwise the fixed default.
pub open spec fn spec_resolve(raw: RawStyle, parent: ResolvedStyle, kind: NodeKind) -> ResolvedStyle {
    ResolvedStyle {
        width: if raw.width is Some { raw.width->0 } else { spec_default_width(kind) },
        height: if raw.height is Some { raw.height->0 } else { spec_default_height(kind) },
        padding: if raw.padding is Some { raw.padding->0 } else { Edges::spec_zero() },
        spacing: if raw.spacing is Some { raw.spacing->0 } else { 0u32 },
        align: if raw.align is Some { raw.align->0 } else { parent.align },
        stack: if raw.stack is Some { raw.stack->0 } else { parent.stack },
    }
}

/// Resolves a raw style against the parent's resolved style and the node
/// kind's defaults.  Computed once per node per pass.
pub fn resolve(raw: &RawStyle, parent: &ResolvedStyle, kind: NodeKind) -> (r: ResolvedStyle)
    ensures
        r == spec_resolve(*raw, *parent, kind),
{
    ResolvedStyle {
        width: match raw.width { Some(v) => v, None => default_width(kind) },
        height: match raw.height { Some(v) => v, None => default_height(kind) },
        padding: match raw.padding { Some(v) => v, None => Edges::zero() },
        spacing: match raw.spacing { Some(v) => v, None => 0 },
        align: match raw.align { Some(v) => v, None => parent.align },
        stack: match raw.stack { Some(v) => v, None => parent.stack },
    }
}

/// A fully specified raw style resolves to exactly its own values, whatever
/// the parent's resolved style is.
pub proof fn lemma_full_style_ignores_parent(
    raw: RawStyle,
    p1: ResolvedStyle,
    p2: ResolvedStyle,
    kind: NodeKind,
)
    requires
        raw.fully_specified(),
    ensures
        spec_resolve(raw, p1, kind) == spec_resolve(raw, p2, kind),
        raw.width == Some(spec_resolve(raw, p1, kind).width),
        raw.height == Some(spec_resolve(raw, p1, kind).height),
        raw.padding == Some(spec_resolve(raw, p1, kind).padding),
        raw.spacing == Some(spec_resolve(raw, p1, kind).spacing),
        raw.align == Some(spec_resolve(raw, p1, kind).align),
        raw.stack == Some(spec_resolve(raw, p1, kind).stack),
{
}

/// An omitted inheritable attribute resolves to the parent's value; an
/// omitted non-inheritable attribute resolves to its fixed default, never
/// to the parent's value.
pub proof fn lemma_omitted_attributes(raw: RawStyle, parent: ResolvedStyle, kind: NodeKind)
    ensures
        raw.align is None ==> spec_resolve(raw, parent, kind).align == parent.align,
        raw.stack is None ==> spec_resolve(raw, parent, kind).stack == parent.stack,
        raw.width is None ==> spec_resolve(raw, parent, kind).width == spec_default_width(kind),
        raw.height is None ==> spec_resolve(raw, parent, kind).height == spec_default_height(kind),
        raw.padding is None ==> spec_resolve(raw, parent, kind).padding == Edges::spec_zero(),
        raw.spacing is None ==> spec_resolve(raw, parent, kind).spacing == 0u32,
{
}

} // verus!
