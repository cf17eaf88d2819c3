//! The shared raster canvas.
//!
//! The output buffer is a `tiny_skia` pixmap.  Exactly one mutable
//! borrower exists at a time: the pipeline threads the canvas through the
//! whole pass, and every draw step takes exclusive write access for its
//! own call.  Alongside the pixels the canvas carries a ghost log of every
//! mutation, so the pipeline's contract pins down the exact sequence of
//! canvas writes a pass performs.

use vstd::prelude::*;
use crate::components::Color;
use crate::context::MAX_CANVAS_DIM;

verus! {

/// The backing store of a canvas is a `tiny_skia` pixmap, opaque to the
/// library's proofs.
#[verifier::external_type_specification]
#[verifier::external_body]
pub struct ExPixmap(tiny_skia::Pixmap);

/// One canvas mutation, as the pass's model records it.  All coordinates
/// are device pixels.
pub ghost enum CanvasOp {
    /// A rectangle filled with a solid color.
    FillRect { x: int, y: int, w: int, h: int, color: Color },
    /// Decoded pixel content blended at a position, at source size
    /// `w` by `h`, with the given row-major premultiplied RGBA bytes.
    Blit { x: int, y: int, w: int, h: int, data: Seq<u8> },
}

/// The mutable raster output surface of one pass.
pub struct Canvas {
    pix: tiny_skia::Pixmap,
    width: u32,
    height: u32,
    ops: Ghost<Seq<CanvasOp>>,
}

impl View for Canvas {
    type V = Seq<CanvasOp>;

    closed spec fn view(&self) -> Seq<CanvasOp> {
        self.ops@
    }
}

/// Relies on `tiny_skia::Pixmap::new`: a pixmap of a positive, bounded
/// size is always allocated, filled with transparent black.
#[verifier::external_body]
fn pixmap_new(width: u32, height: u32) -> tiny_skia::Pixmap
    requires
        1 <= width <= MAX_CANVAS_DIM,
        1 <= height <= MAX_CANVAS_DIM,
{
    tiny_skia::Pixmap::new(width, height).unwrap()
}

impl Canvas {
    pub closed spec fn spec_width(self) -> u32 {
        self.width
    }

    pub closed spec fn spec_height(self) -> u32 {
        self.height
    }

    /// A blank canvas, `width` by `height` device pixels; `None` when a
    /// side is zero or above `MAX_CANVAS_DIM`.
    pub fn new(width: u32, height: u32) -> (r: Option<Canvas>)
        ensures
            r is Some <==> (1 <= width <= MAX_CANVAS_DIM && 1 <= height <= MAX_CANVAS_DIM),
            r is Some ==> r->0@ == Seq::<CanvasOp>::empty(),
            r is Some ==> r->0.spec_width() == width && r->0.spec_height() == height,
    {
        if 1 <= width && width <= MAX_CANVAS_DIM && 1 <= height && height <= MAX_CANVAS_DIM {
            Some(
                Canvas {
                    pix: pixmap_new(width, height),
                    width,
                    height,
                    ops: Ghost(Seq::empty()),
                },
            )
        } else {
            None
        }
    }

    /// The canvas width in device pixels.
    pub fn width(&self) -> (w: u32)
        ensures
            w == self.spec_width(),
    {
        self.width
    }

    /// The canvas height in device pixels.
    pub fn height(&self) -> (h: u32)
        ensures
            h == self.spec_height(),
    {
        self.height
    }

    /// Read access to the finished pixels, for an exporting collaborator.
    pub fn pixmap(&self) -> &tiny_skia::Pixmap {
        &self.pix
    }

    /// Hands the pixels to an exporting collaborator.
    pub fn into_pixmap(self) -> tiny_skia::Pixmap {
        self.pix
    }

    /// Relies on `tiny_skia::Pixmap::fill_rect` with a solid-color paint,
    /// anti-aliasing off and the identity transform: fills the
    /// device-pixel rectangle, clipped to the canvas; the op log records
    /// the call.
    #[verifier::external_body]
    pub(crate) fn fill_rect(&mut self, x: i64, y: i64, w: i64, h: i64, color: Color)
        requires
            0 <= x && 0 <= y,
            1 <= w && 1 <= h,
            x + w <= 0x1000000,
            y + h <= 0x1000000,
        ensures
            final(self)@ == old(self)@.push(
                CanvasOp::FillRect { x: x as int, y: y as int, w: w as int, h: h as int, color },
            ),
            final(self).spec_width() == old(self).spec_width(),
            final(self).spec_height() == old(self).spec_height(),
    {
        let rect = tiny_skia::IntRect::from_xywh(x as i32, y as i32, w as u32, h as u32)
            .unwrap()
            .to_rect();
        let mut paint = tiny_skia::Paint::default();
        paint.set_color_rgba8(color.r, color.g, color.b, color.a);
        paint.anti_alias = false;
        self.pix.fill_rect(rect, &paint, tiny_skia::Transform::identity(), None);
    }

    /// Relies on `tiny_skia::Pixmap::from_vec` and
    /// `tiny_skia::Pixmap::draw_pixmap` with the default paint and the
    /// identity transform: blends the source buffer onto the canvas at
    /// the device position, clipped to the canvas; the op log records the
    /// call.
    #[verifier::external_body]
    pub(crate) fn blit(&mut self, x: i64, y: i64, w: u32, h: u32, data: &Vec<u8>)
        requires
            0 <= x <= 0x1000000,
            0 <= y <= 0x1000000,
            1 <= w <= 0x1000000,
            1 <= h <= 0x1000000,
            data@.len() == 4 * w * h,
        ensures
            final(self)@ == old(self)@.push(
                CanvasOp::Blit { x: x as int, y: y as int, w: w as int, h: h as int, data: data@ },
            ),
            final(self).spec_width() == old(self).spec_width(),
            final(self).spec_height() == old(self).spec_height(),
    {
        let size = tiny_skia::IntSize::from_wh(w, h).unwrap();
        let src = tiny_skia::Pixmap::from_vec(data.clone(), size).unwrap();
        self.pix.draw_pixmap(
            x as i32,
            y as i32,
            src.as_ref(),
            &tiny_skia::PixmapPaint::default(),
            tiny_skia::Transform::identity(),
            None,
        );
    }
}

} // verus!
