use generator::canvas::Canvas;
use generator::components::{Color, Node, Payload};
use generator::context::RenderContext;
use generator::pipeline::render;
use generator::resources::{ImageData, LoadOutcome, ResourceTable};
use generator::style::RawStyle;

fn sized(width: u32, height: u32) -> RawStyle {
    RawStyle { width: Some(width), height: Some(height), ..RawStyle::unset() }
}

#[test]
fn canvas_rejects_zero_and_oversized_dimensions() {
    assert!(Canvas::new(0, 10).is_none());
    assert!(Canvas::new(10, 0).is_none());
    assert!(Canvas::new(40000, 10).is_none());
    let c = Canvas::new(320, 200).unwrap();
    assert_eq!(c.width(), 320);
    assert_eq!(c.height(), 200);
    assert_eq!(c.pixmap().width(), 320);
    assert_eq!(c.pixmap().height(), 200);
}

#[test]
fn render_context_requires_positive_bounded_scale() {
    assert!(RenderContext::new(0).is_none());
    assert!(RenderContext::new(257).is_none());
    assert_eq!(RenderContext::new(1).unwrap().scale_factor, 1);
    assert_eq!(RenderContext::new(256).unwrap().scale_factor, 256);
}

#[test]
fn image_data_validates_dimensions_and_byte_count() {
    assert!(ImageData::new(0, 4, vec![0; 0]).is_none());
    assert!(ImageData::new(2, 2, vec![0; 15]).is_none());
    assert!(ImageData::new(70000, 1, vec![0; 280000]).is_none());
    let img = ImageData::new(2, 2, vec![7; 16]).unwrap();
    assert_eq!((img.width, img.height), (2, 2));
    assert_eq!(img.pixels.len(), 16);
}

#[test]
fn rect_draw_step_fills_exactly_its_scaled_box() {
    let green = Color { r: 0, g: 255, b: 0, a: 255 };
    let tree = Node::rect(green, sized(10, 10));
    let ctx = RenderContext::new(2).unwrap();
    let mut c = Canvas::new(40, 40).unwrap();
    let (_, result) = render(&tree, &ctx, &ResourceTable::new(), &mut c);
    assert!(result.is_ok());
    let inside = c.pixmap().pixel(0, 0).unwrap();
    assert_eq!((inside.red(), inside.green(), inside.blue(), inside.alpha()), (0, 255, 0, 255));
    let corner = c.pixmap().pixel(19, 19).unwrap();
    assert_eq!(corner.green(), 255);
    let outside = c.pixmap().pixel(20, 20).unwrap();
    assert_eq!(outside.alpha(), 0);
}

#[test]
fn image_draw_step_blits_the_decoded_bytes_at_the_scaled_origin() {
    // a 2x2 opaque blue resource inside a 4x4 image box at the origin
    let mut bytes = Vec::new();
    for _ in 0..4 {
        bytes.extend_from_slice(&[0, 0, 255, 255]);
    }
    let img = ImageData::new(2, 2, bytes).unwrap();
    let mut res = ResourceTable::new();
    res.insert("dot.png".to_string(), LoadOutcome::Decoded(img));
    let tree = Node {
        payload: Payload::Image { path: "dot.png".to_string() },
        style: sized(4, 4),
        children: Vec::new(),
    };
    let ctx = RenderContext::new(1).unwrap();
    let mut c = Canvas::new(16, 16).unwrap();
    let (_, result) = render(&tree, &ctx, &res, &mut c);
    assert!(result.is_ok());
    let p = c.pixmap().pixel(0, 0).unwrap();
    assert_eq!((p.red(), p.green(), p.blue(), p.alpha()), (0, 0, 255, 255));
    let p = c.pixmap().pixel(1, 1).unwrap();
    assert_eq!(p.alpha(), 255);
    let empty = c.pixmap().pixel(3, 3).unwrap();
    assert_eq!(empty.alpha(), 0);
}

#[test]
fn container_draw_step_writes_no_pixels() {
    let tree = Node::container(sized(10, 10), Vec::new());
    let ctx = RenderContext::new(1).unwrap();
    let mut c = Canvas::new(10, 10).unwrap();
    let (_, result) = render(&tree, &ctx, &ResourceTable::new(), &mut c);
    assert!(result.is_ok());
    for x in 0..10 {
        for y in 0..10 {
            assert_eq!(c.pixmap().pixel(x, y).unwrap().alpha(), 0);
        }
    }
}

#[test]
fn resource_table_lookup_finds_first_match() {
    let mut t = ResourceTable::new();
    t.insert("a".to_string(), LoadOutcome::DecodeFailed);
    t.insert("b".to_string(), LoadOutcome::AcquireFailed);
    assert!(matches!(t.lookup(&"a".to_string()), Some(LoadOutcome::DecodeFailed)));
    assert!(matches!(t.lookup(&"b".to_string()), Some(LoadOutcome::AcquireFailed)));
    assert!(t.lookup(&"c".to_string()).is_none());
}
