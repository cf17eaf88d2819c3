//! The component tree: heterogeneous drawable nodes.
//!
//! A node exclusively owns its ordered children (insertion order is
//! rendering order), holds its own raw style, and carries a kind-specific
//! payload.  A node is built complete before being attached as a child, so
//! a tree has no cycles, and a tree is never mutated during a pass.

use vstd::prelude::*;
use crate::style::RawStyle;

verus! {

/// The closed set of node kinds.
#[derive(Clone, Copy, PartialEq, Eq, Structural, Debug)]
pub enum NodeKind {
    Container,
    Rect,
    Image,
}

/// A straight-alpha RGBA color.
#[derive(Clone, Copy, PartialEq, Eq, Structural, Debug)]
pub struct Color {
    pub r: u8,
    pub g: u8,
    pub b: u8,
    pub a: u8,
}

/// The kind-specific content of a node.
///
/// A container contributes no pixels of its own; a rectangle fills its
/// resolved box with a color; an image blits the decoded content that a
/// resource reference names.
#[derive(Clone, PartialEq, Debug)]
pub enum Payload {
    Container,
    Rect { color: Color },
    Image { path: String },
}

pub open spec fn kind_of(p: Payload) -> NodeKind {
    match p {
        Payload::Container => NodeKind::Container,
        Payload::Rect { .. } => NodeKind::Rect,
        Payload::Image { .. } => NodeKind::Image,
    }
}

/// A tree node: payload, declared style, and exclusively owned children.
pub struct Node {
    pub payload: Payload,
    pub style: RawStyle,
    pub children: Vec<Node>,
}

impl Node {
    /// This node's kind.
    pub fn kind(&self) -> (k: NodeKind)
        ensures
            k == kind_of(self.payload),
    {
        match &self.payload {
            Payload::Container => NodeKind::Container,
            Payload::Rect { .. } => NodeKind::Rect,
            Payload::Image { .. } => NodeKind::Image,
        }
    }

    /// Read-only view of the ordered children; empty for leaves.
    pub fn children(&self) -> (c: &Vec<Node>)
        ensures
            c == &self.children,
    {
        &self.children
    }

    /// This node's own, possibly partial, declared style.
    pub fn style(&self) -> (s: RawStyle)
        ensures
            s == self.style,
    {
        self.style
    }

    /// A container node stacking the given children.
    pub fn container(style: RawStyle, children: Vec<Node>) -> (n: Node)
        ensures
            n.payload == Payload::Container,
            n.style == style,
            n.children@ == children@,
    {
        Node { payload: Payload::Container, style, children }
    }

    /// A leaf node that fills its resolved box with a color.
    pub fn rect(color: Color, style: RawStyle) -> (n: Node)
        ensures
            n.payload == (Payload::Rect { color }),
            n.style == style,
            n.children@ == Seq::<Node>::empty(),
    {
        Node { payload: Payload::Rect { color }, style, children: Vec::new() }
    }
}

/// An image leaf: a logical resource reference and a declared content
/// width.
pub struct Image {
    pub path: String,
    pub width: u32,
}

impl Image {
    pub fn new(path: String, width: u32) -> (img: Image)
        ensures
            img.path == path,
            img.width == width,
    {
        Image { path, width }
    }

    /// The image's declared style: its width set, the rest left to the
    /// cascade.
    pub fn style(&self) -> (s: RawStyle)
        ensures
            s == (RawStyle { width: Some(self.width), ..RawStyle::spec_unset() }),
    {
        RawStyle {
            width: Some(self.width),
            height: None,
            padding: None,
            spacing: None,
            align: None,
            stack: None,
        }
    }

    /// The image as a childless tree node.
    pub fn into_node(self) -> (n: Node)
        ensures
            n.payload == (Payload::Image { path: self.path }),
            n.style == (RawStyle { width: Some(self.width), ..RawStyle::spec_unset() }),
            n.children@ == Seq::<Node>::empty(),
    {
        let style = self.style();
        Node { payload: Payload::Image { path: self.path }, style, children: Vec::new() }
    }
}

/// The payloads of a subtree in declared pre-order: the node itself, then
/// each child's subtree in order.
pub open spec fn preorder(node: Node) -> Seq<Payload>
    decreases node,
{
    seq![node.payload] + preorder_all(node.children@)
}

/// The pre-order payloads of a forest, left to right.
pub open spec fn preorder_all(nodes: Seq<Node>) -> Seq<Payload>
    decreases nodes,
{
    if nodes.len() == 0 {
        Seq::empty()
    } else {
        preorder(nodes[0]) + preorder_all(nodes.drop_first())
    }
}

} // verus!
