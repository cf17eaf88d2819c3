use generator::canvas::Canvas;
use generator::components::{Color, Image, Node, NodeKind, Payload};
use generator::context::RenderContext;
use generator::error::RenderError;
use generator::pipeline::render;
use generator::resources::{ImageData, LoadOutcome, ResourceTable};
use generator::style::{Align, Axis, Edges, RawStyle};

const RED: Color = Color { r: 255, g: 0, b: 0, a: 255 };

fn ctx(scale: u32) -> RenderContext {
    RenderContext::new(scale).unwrap()
}

fn canvas(w: u32, h: u32) -> Canvas {
    Canvas::new(w, h).unwrap()
}

fn sized(width: u32, height: u32) -> RawStyle {
    RawStyle { width: Some(width), height: Some(height), ..RawStyle::unset() }
}

fn rect(width: u32, height: u32) -> Node {
    Node::rect(RED, sized(width, height))
}

fn opaque_pixels(w: u32, h: u32) -> Vec<u8> {
    let mut v = Vec::new();
    for _ in 0..(w * h) {
        v.extend_from_slice(&[255, 0, 0, 255]);
    }
    v
}

fn table_with(path: &str, outcome: LoadOutcome) -> ResourceTable {
    let mut t = ResourceTable::new();
    t.insert(path.to_string(), outcome);
    t
}

fn decoded(w: u32, h: u32) -> LoadOutcome {
    LoadOutcome::Decoded(ImageData::new(w, h, opaque_pixels(w, h)).unwrap())
}

fn image_node(path: &str, style: RawStyle) -> Node {
    Node { payload: Payload::Image { path: path.to_string() }, style, children: Vec::new() }
}

#[test]
fn successful_pass_visits_every_node_once_in_preorder() {
    let tree = Node::container(
        sized(800, 600),
        vec![
            rect(50, 50),
            Node::container(sized(200, 200), vec![rect(20, 20)]),
            rect(50, 50),
        ],
    );
    let mut c = canvas(800, 600);
    let (steps, result) = render(&tree, &ctx(1), &ResourceTable::new(), &mut c);
    assert!(result.is_ok());
    let kinds: Vec<NodeKind> = steps.iter().map(|s| s.kind).collect();
    assert_eq!(
        kinds,
        vec![
            NodeKind::Container,
            NodeKind::Rect,
            NodeKind::Container,
            NodeKind::Rect,
            NodeKind::Rect,
        ],
    );
}

#[test]
fn missing_resource_stops_pass_and_skips_later_siblings() {
    let tree = Node::container(
        sized(800, 600),
        vec![rect(50, 50), image_node("gone.png", sized(100, 100)), rect(50, 50)],
    );
    let mut c = canvas(800, 600);
    let (steps, result) = render(&tree, &ctx(1), &ResourceTable::new(), &mut c);
    assert_eq!(result, Err(RenderError::ResourceAcquisition { path: "gone.png".to_string() }));
    // the failing node's draw step began, so exactly three nodes were drawn
    assert_eq!(steps.len(), 3);
    assert_eq!(steps[2].kind, NodeKind::Image);
}

#[test]
fn decode_failure_returns_decoding_error_and_skips_later_siblings() {
    let tree = Node::container(
        sized(800, 600),
        vec![image_node("broken.png", sized(100, 100)), rect(50, 50)],
    );
    let res = table_with("broken.png", LoadOutcome::DecodeFailed);
    let mut c = canvas(800, 600);
    let (steps, result) = render(&tree, &ctx(1), &res, &mut c);
    assert_eq!(result, Err(RenderError::ResourceDecoding { path: "broken.png".to_string() }));
    assert_eq!(steps.len(), 2);
    assert!(steps.iter().all(|s| s.kind != NodeKind::Rect));
}

#[test]
fn recorded_acquire_failure_maps_to_acquisition_error() {
    let tree = image_node("far.png", sized(100, 100));
    let res = table_with("far.png", LoadOutcome::AcquireFailed);
    let mut c = canvas(200, 200);
    let (_, result) = render(&tree, &ctx(1), &res, &mut c);
    assert_eq!(result, Err(RenderError::ResourceAcquisition { path: "far.png".to_string() }));
}

#[test]
fn first_table_entry_for_a_reference_wins() {
    let mut res = ResourceTable::new();
    res.insert("a.png".to_string(), LoadOutcome::DecodeFailed);
    res.insert("a.png".to_string(), LoadOutcome::AcquireFailed);
    let tree = image_node("a.png", sized(100, 100));
    let mut c = canvas(200, 200);
    let (_, result) = render(&tree, &ctx(1), &res, &mut c);
    assert_eq!(result, Err(RenderError::ResourceDecoding { path: "a.png".to_string() }));
}

#[test]
fn centered_image_in_800_by_600_container() {
    // content box 800x600, zero padding, one image child of declared
    // width 100 (height from the image default, 100), centered: origin
    // (350, 250) before scaling.
    for scale in [1u32, 2] {
        let child = Node {
            payload: Payload::Image { path: "logo.png".to_string() },
            style: RawStyle { width: Some(100), align: Some(Align::Center), ..RawStyle::unset() },
            children: Vec::new(),
        };
        let tree = Node::container(sized(800, 600), vec![child]);
        let res = table_with("logo.png", decoded(10, 10));
        let mut c = canvas(800 * scale, 600 * scale);
        let (steps, result) = render(&tree, &ctx(scale), &res, &mut c);
        assert!(result.is_ok());
        assert_eq!(steps.len(), 2);
        let p = steps[1].params;
        assert_eq!(
            (p.x, p.y, p.width, p.height),
            (350 * scale as i64, 250 * scale as i64, 100 * scale as i64, 100 * scale as i64),
        );
    }
}

#[test]
fn zero_padding_and_start_alignment_keep_parent_origin() {
    let child = rect(30, 30);
    let tree = Node::container(sized(100, 100), vec![child]);
    let mut c = canvas(100, 100);
    let (steps, result) = render(&tree, &ctx(1), &ResourceTable::new(), &mut c);
    assert!(result.is_ok());
    assert_eq!((steps[0].params.x, steps[0].params.y), (0, 0));
    assert_eq!((steps[1].params.x, steps[1].params.y), (0, 0));
}

#[test]
fn padding_offsets_child_origin() {
    let style = RawStyle {
        width: Some(100),
        height: Some(100),
        padding: Some(Edges { top: 7, right: 0, bottom: 0, left: 11 }),
        ..RawStyle::unset()
    };
    let tree = Node::container(style, vec![rect(30, 30)]);
    let mut c = canvas(100, 100);
    let (steps, result) = render(&tree, &ctx(1), &ResourceTable::new(), &mut c);
    assert!(result.is_ok());
    assert_eq!((steps[1].params.x, steps[1].params.y), (11, 7));
}

#[test]
fn end_alignment_takes_all_remaining_space() {
    let child = Node::rect(RED, RawStyle { width: Some(20), height: Some(20), align: Some(Align::End), ..RawStyle::unset() });
    let tree = Node::container(sized(100, 100), vec![child]);
    let mut c = canvas(100, 100);
    let (steps, result) = render(&tree, &ctx(1), &ResourceTable::new(), &mut c);
    assert!(result.is_ok());
    assert_eq!((steps[1].params.x, steps[1].params.y), (80, 80));
}

#[test]
fn vertical_stacking_advances_by_extent_plus_spacing() {
    let style = RawStyle { width: Some(100), height: Some(100), spacing: Some(5), ..RawStyle::unset() };
    let tree = Node::container(style, vec![rect(20, 20), rect(20, 20)]);
    let mut c = canvas(100, 100);
    let (steps, result) = render(&tree, &ctx(1), &ResourceTable::new(), &mut c);
    assert!(result.is_ok());
    assert_eq!((steps[1].params.x, steps[1].params.y), (0, 0));
    assert_eq!((steps[2].params.x, steps[2].params.y), (0, 25));
}

#[test]
fn horizontal_stacking_advances_along_x() {
    let style = RawStyle {
        width: Some(100),
        height: Some(100),
        stack: Some(Axis::Horizontal),
        ..RawStyle::unset()
    };
    let tree = Node::container(style, vec![rect(20, 20), rect(20, 20)]);
    let mut c = canvas(100, 100);
    let (steps, result) = render(&tree, &ctx(1), &ResourceTable::new(), &mut c);
    assert!(result.is_ok());
    assert_eq!((steps[1].params.x, steps[1].params.y), (0, 0));
    assert_eq!((steps[2].params.x, steps[2].params.y), (20, 0));
}

#[test]
fn scaling_context_multiplies_every_reported_coordinate() {
    let style = RawStyle {
        width: Some(200),
        height: Some(100),
        padding: Some(Edges { top: 3, right: 0, bottom: 0, left: 9 }),
        ..RawStyle::unset()
    };
    let tree = Node::container(style, vec![rect(20, 20), rect(40, 10)]);
    let mut c1 = canvas(200, 100);
    let (steps1, r1) = render(&tree, &ctx(1), &ResourceTable::new(), &mut c1);
    let mut c3 = canvas(600, 300);
    let (steps3, r3) = render(&tree, &ctx(3), &ResourceTable::new(), &mut c3);
    assert!(r1.is_ok() && r3.is_ok());
    assert_eq!(steps1.len(), steps3.len());
    for (a, b) in steps1.iter().zip(steps3.iter()) {
        assert_eq!(a.kind, b.kind);
        assert_eq!(b.params.x, 3 * a.params.x);
        assert_eq!(b.params.y, 3 * a.params.y);
        assert_eq!(b.params.width, 3 * a.params.width);
        assert_eq!(b.params.height, 3 * a.params.height);
    }
}

#[test]
fn zero_resolved_size_is_a_geometry_error_before_any_draw() {
    let tree = Node::rect(RED, sized(0, 10));
    let mut c = canvas(100, 100);
    let (steps, result) = render(&tree, &ctx(1), &ResourceTable::new(), &mut c);
    assert_eq!(result, Err(RenderError::Geometry { kind: NodeKind::Rect }));
    assert_eq!(steps.len(), 0);
}

#[test]
fn child_that_does_not_fit_is_a_geometry_error_after_parent_drawn() {
    let tree = Node::container(sized(100, 100), vec![rect(200, 20)]);
    let mut c = canvas(100, 100);
    let (steps, result) = render(&tree, &ctx(1), &ResourceTable::new(), &mut c);
    assert_eq!(result, Err(RenderError::Geometry { kind: NodeKind::Rect }));
    assert_eq!(steps.len(), 1);
}

#[test]
fn image_content_larger_than_declared_box_is_a_geometry_error() {
    let tree = image_node("big.png", sized(10, 10));
    let res = table_with("big.png", decoded(32, 32));
    let mut c = canvas(100, 100);
    let (steps, result) = render(&tree, &ctx(1), &res, &mut c);
    assert_eq!(result, Err(RenderError::Geometry { kind: NodeKind::Image }));
    assert_eq!(steps.len(), 1);
}

#[test]
fn image_new_declares_width_in_style() {
    let img = Image::new("logo.png".to_string(), 64);
    assert_eq!(img.path, "logo.png");
    assert_eq!(img.width, 64);
    let style = img.style();
    assert_eq!(style.width, Some(64));
    assert_eq!(style.height, None);
    let node = img.into_node();
    assert!(matches!(node.payload, Payload::Image { .. }));
    assert!(node.children.is_empty());
    assert_eq!(node.style.width, Some(64));
}

#[test]
fn node_accessors_expose_children_and_style() {
    let tree = Node::container(sized(10, 10), vec![rect(1, 1), rect(2, 2)]);
    assert_eq!(tree.children().len(), 2);
    assert_eq!(tree.kind(), NodeKind::Container);
    assert_eq!(tree.style().width, Some(10));
}

#[test]
fn alignment_inherits_down_the_tree() {
    let grandchild = rect(20, 20);
    let child = Node::container(sized(60, 60), vec![grandchild]);
    let root = Node::container(
        RawStyle { width: Some(100), height: Some(100), align: Some(Align::Center), ..RawStyle::unset() },
        vec![child],
    );
    let mut c = canvas(100, 100);
    let (steps, result) = render(&root, &ctx(1), &ResourceTable::new(), &mut c);
    assert!(result.is_ok());
    assert_eq!((steps[1].params.x, steps[1].params.y), (20, 20));
    assert_eq!((steps[2].params.x, steps[2].params.y), (40, 40));
}
