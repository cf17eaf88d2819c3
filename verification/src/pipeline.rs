//! The layout/render pipeline.
//!
//! One pass walks the tree depth-first in declared pre-order.  Per node it
//! resolves the style against the parent's resolved style, computes the
//! node's absolute position from the box model (padding, alignment,
//! stacking cursor), invokes the node's draw step against the shared
//! canvas, and then recurses into the children with this node's resolved
//! style and content box.  The first failure aborts the whole pass.
//!
//! The whole pass is modelled by the spec functions below, which compute
//! the exact sequence of draw-step invocations, the exact sequence of
//! canvas mutations, and the error, if any.  The executable pass is proved
//! equal to that model.
//!
//! All layout runs in logical units; every coordinate handed to a draw
//! step is the logical value times the context's scale factor.

use vstd::prelude::*;
use crate::canvas::{Canvas, CanvasOp};
use crate::components::{kind_of, Node, NodeKind, Payload};
use crate::context::{RenderContext, RenderParams, LOGICAL_LIMIT};
use crate::error::RenderError;
use crate::resources::{spec_lookup, LoadOutcome, ResourceTable};
use crate::style::{resolve, spec_resolve, Align, Axis, ResolvedStyle};

verus! {

/// One draw-step invocation, as the pass reports it: the node's kind and
/// the render params handed to the step.
#[derive(Clone, Copy, PartialEq, Eq, Structural, Debug)]
pub struct DrawStep {
    pub kind: NodeKind,
    pub params: RenderParams,
}

/// The model of one draw-step invocation: the node's payload and the
/// device-pixel origin and content box handed to the step.
pub ghost struct Visit {
    pub payload: Payload,
    pub x: int,
    pub y: int,
    pub w: int,
    pub h: int,
}

/// What a visit looks like in the pass's draw report.
pub open spec fn step_of(v: Visit) -> DrawStep {
    DrawStep {
        kind: kind_of(v.payload),
        params: RenderParams {
            x: v.x as i64,
            y: v.y as i64,
            width: v.w as i64,
            height: v.h as i64,
        },
    }
}

/// The draw report a sequence of visits produces.
pub open spec fn steps_of(vs: Seq<Visit>) -> Seq<DrawStep> {
    vs.map_values(|v: Visit| step_of(v))
}

/// The report of a concatenation is the concatenation of the reports.
pub proof fn lemma_steps_of_add(a: Seq<Visit>, b: Seq<Visit>)
    ensures
        steps_of(a + b) == steps_of(a) + steps_of(b),
{
    assert(steps_of(a + b) =~= steps_of(a) + steps_of(b));
}

/// The model of a (partial) pass: the draw steps invoked, the canvas
/// mutations performed, and the first error, if one occurred.
pub ghost struct PassOut {
    pub visits: Seq<Visit>,
    pub ops: Seq<CanvasOp>,
    pub err: Option<RenderError>,
}

/// The model of one node's own draw step.
pub ghost struct DrawOut {
    pub ops: Seq<CanvasOp>,
    pub err: Option<RenderError>,
}

/// Where a node lands: start leaves no offset, center takes half the
/// remaining space, end takes all of it.
pub open spec fn spec_align_offset(a: Align, rem: int) -> int {
    match a {
        Align::Start => 0,
        Align::Center => rem / 2,
        Align::End => rem,
    }
}

/// The model of one node's placement inside its parent's content box
/// `(bx, by, bw, bh)`, after `cursor` of the stacking axis is consumed.
pub ghost struct Placement {
    pub fits: bool,
    pub x: int,
    pub y: int,
}

pub open spec fn spec_place(
    parent: ResolvedStyle,
    bx: int,
    by: int,
    bw: int,
    bh: int,
    cursor: int,
    st: ResolvedStyle,
) -> Placement {
    let horiz = parent.stack == Axis::Horizontal;
    let avail_main = if horiz { bw } else { bh };
    let avail_cross = if horiz { bh } else { bw };
    let size_main = if horiz { st.width as int } else { st.height as int };
    let size_cross = if horiz { st.height as int } else { st.width as int };
    let rem_main = avail_main - cursor - size_main;
    let rem_cross = avail_cross - size_cross;
    let off_main = cursor + spec_align_offset(st.align, rem_main);
    let off_cross = spec_align_offset(st.align, rem_cross);
    Placement {
        fits: rem_main >= 0 && rem_cross >= 0,
        x: if horiz { bx + off_main } else { bx + off_cross },
        y: if horiz { by + off_cross } else { by + off_main },
    }
}

/// The model of one node's own visual contribution, drawn at logical
/// origin `(x0, y0)` with resolved style `st`: a container contributes
/// nothing; a rectangle fills its scaled box; an image blits the decoded
/// content its reference names, or fails as the resource table records.
/// Decoded content keeps its own pixel size; because it must fit the
/// declared box in logical units, it stays inside the node's scaled
/// region at every scale factor.
pub open spec fn spec_draw_ops(
    payload: Payload,
    st: ResolvedStyle,
    x0: int,
    y0: int,
    scale: int,
    res: Seq<(String, LoadOutcome)>,
) -> DrawOut {
    match payload {
        Payload::Container => DrawOut { ops: Seq::empty(), err: None },
        Payload::Rect { color } => DrawOut {
            ops: seq![
                CanvasOp::FillRect {
                    x: x0 * scale,
                    y: y0 * scale,
                    w: st.width * scale,
                    h: st.height * scale,
                    color,
                },
            ],
            err: None,
        },
        Payload::Image { path } => match spec_lookup(res, path@) {
            LoadOutcome::AcquireFailed => DrawOut {
                ops: Seq::empty(),
                err: Some(RenderError::ResourceAcquisition { path }),
            },
            LoadOutcome::DecodeFailed => DrawOut {
                ops: Seq::empty(),
                err: Some(RenderError::ResourceDecoding { path }),
            },
            LoadOutcome::Decoded(img) => {
                if img.width > st.width || img.height > st.height {
                    DrawOut { ops: Seq::empty(), err: Some(RenderError::Geometry { kind: NodeKind::Image }) }
                } else {
                    DrawOut {
                        ops: seq![
                            CanvasOp::Blit {
                                x: x0 * scale,
                                y: y0 * scale,
                                w: img.width as int,
                                h: img.height as int,
                                data: img.pixels@,
                            },
                        ],
                        err: None,
                    }
                }
            },
        },
    }
}

/// The model of the pass over one subtree.
///
/// The node resolves its style; an invalid resolved size or a box that
/// does not fit the remaining space is a geometry failure before any draw
/// step.  Otherwise the node's draw step runs (one visit), and on success
/// the children are passed over inside this node's content box.
pub open spec fn spec_pass_node(
    node: Node,
    parent: ResolvedStyle,
    bx: int,
    by: int,
    bw: int,
    bh: int,
    cursor: int,
    scale: int,
    res: Seq<(String, LoadOutcome)>,
) -> PassOut
    decreases node,
{
    let st = spec_resolve(node.style, parent, kind_of(node.payload));
    let pl = spec_place(parent, bx, by, bw, bh, cursor, st);
    if st.width < 1 || st.width > LOGICAL_LIMIT || st.height < 1 || st.height > LOGICAL_LIMIT
        || !pl.fits {
        PassOut {
            visits: Seq::empty(),
            ops: Seq::empty(),
            err: Some(RenderError::Geometry { kind: kind_of(node.payload) }),
        }
    } else {
        let visit = Visit {
            payload: node.payload,
            x: pl.x * scale,
            y: pl.y * scale,
            w: st.width * scale,
            h: st.height * scale,
        };
        let dr = spec_draw_ops(node.payload, st, pl.x, pl.y, scale, res);
        if dr.err is Some {
            PassOut { visits: seq![visit], ops: dr.ops, err: dr.err }
        } else {
            let sub = spec_pass_children(
                node.children@,
                st,
                pl.x + st.padding.left,
                pl.y + st.padding.top,
                st.width - st.padding.left - st.padding.right,
                st.height - st.padding.top - st.padding.bottom,
                0,
                scale,
                res,
            );
            PassOut {
                visits: seq![visit] + sub.visits,
                ops: dr.ops + sub.ops,
                err: sub.err,
            }
        }
    }
}

/// The model of the pass over a forest of siblings: left to right, the
/// stacking cursor advancing by each sibling's extent plus the parent's
/// spacing, stopping at the first failure.
pub open spec fn spec_pass_children(
    nodes: Seq<Node>,
    parent: ResolvedStyle,
    bx: int,
    by: int,
    bw: int,
    bh: int,
    cursor: int,
    scale: int,
    res: Seq<(String, LoadOutcome)>,
) -> PassOut
    decreases nodes,
{
    if nodes.len() == 0 {
        PassOut { visits: Seq::empty(), ops: Seq::empty(), err: None }
    } else {
        let r0 = spec_pass_node(nodes[0], parent, bx, by, bw, bh, cursor, scale, res);
        if r0.err is Some {
            r0
        } else {
            let st0 = spec_resolve(nodes[0].style, parent, kind_of(nodes[0].payload));
            let ext = if parent.stack == Axis::Horizontal {
                st0.width as int
            } else {
                st0.height as int
            };
            let rr = spec_pass_children(
                nodes.drop_first(),
                parent,
                bx,
                by,
                bw,
                bh,
                cursor + ext + parent.spacing,
                scale,
                res,
            );
            PassOut {
                visits: r0.visits + rr.visits,
                ops: r0.ops + rr.ops,
                err: rr.err,
            }
        }
    }
}

/// The model of a whole pass: the root resolves against the default
/// parent style and is placed at the origin of its own content box.
pub open spec fn spec_render(
    root: Node,
    ctx: RenderContext,
    res: Seq<(String, LoadOutcome)>,
) -> PassOut {
    let rst = spec_resolve(root.style, ResolvedStyle::spec_root_default(), kind_of(root.payload));
    spec_pass_node(
        root,
        ResolvedStyle::spec_root_default(),
        0,
        0,
        rst.width as int,
        rst.height as int,
        0,
        ctx.scale_factor as int,
        res,
    )
}

/// In a well-formed table every recorded outcome is well-formed, so every
/// lookup result is too.
pub proof fn lemma_lookup_wf(entries: Seq<(String, LoadOutcome)>, path: Seq<char>)
    requires
        forall|i: int| 0 <= i < entries.len() ==> (#[trigger] entries[i]).1.wf(),
    ensures
        spec_lookup(entries, path).wf(),
    decreases entries,
{
    if entries.len() == 0 {
    } else if entries[0].0@ == path {
        assert(entries[0].1.wf());
    } else {
        assert(forall|i: int|
            0 <= i < entries.drop_first().len() ==> (#[trigger] entries.drop_first()[i]).1.wf());
        lemma_lookup_wf(entries.drop_first(), path);
    }
}

/// The alignment-dependent offset into a non-negative remaining space.
fn align_offset(a: Align, rem: i64) -> (r: i64)
    requires
        0 <= rem <= 0x400000000,
    ensures
        r == spec_align_offset(a, rem as int),
        0 <= r <= rem,
{
    match a {
        Align::Start => 0,
        Align::Center => ((rem as u64) / 2) as i64,
        Align::End => rem,
    }
}

/// One node's pass step: resolve, place, draw, then the children.
#[verifier::rlimit(100)]
#[verifier::loop_isolation(false)]
fn render_node(
    node: &Node,
    parent: &ResolvedStyle,
    bx: i64,
    by: i64,
    bw: i64,
    bh: i64,
    cursor: i64,
    ctx: &RenderContext,
    res: &ResourceTable,
    canvas: &mut Canvas,
    trace: &mut Vec<DrawStep>,
) -> (r: Result<(), RenderError>)
    requires
        ctx.wf(),
        res.wf(),
        0 <= bx <= 0x400000000,
        0 <= by <= 0x400000000,
        -0x400000000 <= bw <= LOGICAL_LIMIT,
        -0x400000000 <= bh <= LOGICAL_LIMIT,
        bx + bw <= LOGICAL_LIMIT,
        by + bh <= LOGICAL_LIMIT,
        0 <= cursor <= 0x400000000,
    ensures
        ({
            let m = spec_pass_node(
                *node,
                *parent,
                bx as int,
                by as int,
                bw as int,
                bh as int,
                cursor as int,
                ctx.scale_factor as int,
                res.entries@,
            );
            &&& final(trace)@ == old(trace)@ + steps_of(m.visits)
            &&& final(canvas)@ == old(canvas)@ + m.ops
            &&& final(canvas).spec_width() == old(canvas).spec_width()
            &&& final(canvas).spec_height() == old(canvas).spec_height()
            &&& match r {
                Ok(_) => m.err is None,
                Err(e) => m.err == Some(e),
            }
        }),
    decreases *node,
{
    let ghost m = spec_pass_node(
        *node,
        *parent,
        bx as int,
        by as int,
        bw as int,
        bh as int,
        cursor as int,
        ctx.scale_factor as int,
        res.entries@,
    );
    proof {
        assert(steps_of(Seq::<Visit>::empty()) =~= Seq::<DrawStep>::empty());
    }
    let kind = node.kind();
    let st = resolve(&node.style, parent, kind);
    if st.width < 1 || st.width > LOGICAL_LIMIT || st.height < 1 || st.height > LOGICAL_LIMIT {
        proof {
            assert(trace@ =~= old(trace)@ + steps_of(m.visits));
            assert(canvas@ =~= old(canvas)@ + m.ops);
        }
        return Err(RenderError::Geometry { kind });
    }
    let w = st.width as i64;
    let h = st.height as i64;
    let horiz = parent.stack == Axis::Horizontal;
    let avail_main: i64 = if horiz { bw } else { bh };
    let avail_cross: i64 = if horiz { bh } else { bw };
    let size_main: i64 = if horiz { w } else { h };
    let size_cross: i64 = if horiz { h } else { w };
    let rem_main = avail_main - cursor - size_main;
    let rem_cross = avail_cross - size_cross;
    if rem_main < 0 || rem_cross < 0 {
        proof {
            assert(trace@ =~= old(trace)@ + steps_of(m.visits));
            assert(canvas@ =~= old(canvas)@ + m.ops);
        }
        return Err(RenderError::Geometry { kind });
    }
    let off_main = cursor + align_offset(st.align, rem_main);
    let off_cross = align_offset(st.align, rem_cross);
    let x0 = if horiz { bx + off_main } else { bx + off_cross };
    let y0 = if horiz { by + off_cross } else { by + off_main };
    proof {
        assert(0 <= x0 && x0 + w <= LOGICAL_LIMIT);
        assert(0 <= y0 && y0 + h <= LOGICAL_LIMIT);
        assert((x0 + w) * (ctx.scale_factor as int) <= 0x1000000 && (y0 + h) * (
        ctx.scale_factor as int) <= 0x1000000 && x0 * (ctx.scale_factor as int) + w * (
        ctx.scale_factor as int) == (x0 + w) * (ctx.scale_factor as int) && y0 * (
        ctx.scale_factor as int) + h * (ctx.scale_factor as int) == (y0 + h) * (
        ctx.scale_factor as int) && x0 * (ctx.scale_factor as int) >= 0 && y0 * (
        ctx.scale_factor as int) >= 0 && w * (ctx.scale_factor as int) >= 1 && h * (
        ctx.scale_factor as int) >= 1) by (nonlinear_arith)
            requires
                0 <= x0,
                0 <= y0,
                1 <= w,
                1 <= h,
                x0 + w <= 65536,
                y0 + h <= 65536,
                1 <= ctx.scale_factor <= 256,
        ;
    }
    let scale = ctx.scale_factor as i64;
    let params = RenderParams { x: x0 * scale, y: y0 * scale, width: w * scale, height: h * scale };
    trace.push(DrawStep { kind, params });
    let ghost visit = Visit {
        payload: node.payload,
        x: (x0 as int) * (ctx.scale_factor as int),
        y: (y0 as int) * (ctx.scale_factor as int),
        w: (st.width as int) * (ctx.scale_factor as int),
        h: (st.height as int) * (ctx.scale_factor as int),
    };
    proof {
        assert(steps_of(seq![visit]) =~= seq![DrawStep { kind, params }]);
        assert(trace@ =~= old(trace)@ + steps_of(seq![visit]));
    }
    let ghost dr = spec_draw_ops(
        node.payload,
        st,
        x0 as int,
        y0 as int,
        ctx.scale_factor as int,
        res.entries@,
    );
    match &node.payload {
        Payload::Container => {
            proof {
                assert(canvas@ =~= old(canvas)@ + dr.ops);
            }
        },
        Payload::Rect { color } => {
            canvas.fill_rect(params.x, params.y, params.width, params.height, *color);
            proof {
                assert(canvas@ =~= old(canvas)@ + dr.ops);
            }
        },
        Payload::Image { path } => {
            proof {
                lemma_lookup_wf(res.entries@, path@);
            }
            match res.lookup(path) {
                None => {
                    proof {
                        assert(canvas@ =~= old(canvas)@ + m.ops);
                    }
                    return Err(RenderError::ResourceAcquisition { path: path.clone() });
                },
                Some(o) => {
                    match o {
                        LoadOutcome::AcquireFailed => {
                            proof {
                                assert(canvas@ =~= old(canvas)@ + m.ops);
                            }
                            return Err(RenderError::ResourceAcquisition { path: path.clone() });
                        },
                        LoadOutcome::DecodeFailed => {
                            proof {
                                assert(canvas@ =~= old(canvas)@ + m.ops);
                            }
                            return Err(RenderError::ResourceDecoding { path: path.clone() });
                        },
                        LoadOutcome::Decoded(img) => {
                            if img.width > st.width || img.height > st.height {
                                proof {
                                    assert(canvas@ =~= old(canvas)@ + m.ops);
                                }
                                return Err(RenderError::Geometry { kind });
                            }
                            canvas.blit(params.x, params.y, img.width, img.height, &img.pixels);
                            proof {
                                assert(canvas@ =~= old(canvas)@ + dr.ops);
                            }
                        },
                    }
                },
            }
        },
    }
    let cbx = x0 + st.padding.left as i64;
    let cby = y0 + st.padding.top as i64;
    let cbw = w - st.padding.left as i64 - st.padding.right as i64;
    let cbh = h - st.padding.top as i64 - st.padding.bottom as i64;
    let ghost t0 = trace@;
    let ghost c0 = canvas@;
    let ghost full = spec_pass_children(
        node.children@,
        st,
        cbx as int,
        cby as int,
        cbw as int,
        cbh as int,
        0,
        ctx.scale_factor as int,
        res.entries@,
    );
    let ghost mut dv: Seq<Visit> = Seq::empty();
    let ghost mut dops: Seq<CanvasOp> = Seq::empty();
    let n = node.children.len();
    let mut i: usize = 0;
    let mut cur: i64 = 0;
    proof {
        assert(node.children@.skip(0) =~= node.children@);
        assert(trace@ =~= t0 + steps_of(dv));
        assert(canvas@ =~= c0 + dops);
    }
    while i < n
        invariant
            ctx.wf(),
            res.wf(),
            0 <= i <= n,
            n == node.children@.len(),
            0 <= cbx <= 0x400000000,
            0 <= cby <= 0x400000000,
            -0x400000000 <= cbw <= LOGICAL_LIMIT,
            -0x400000000 <= cbh <= LOGICAL_LIMIT,
            cbx + cbw <= LOGICAL_LIMIT,
            cby + cbh <= LOGICAL_LIMIT,
            0 <= cur <= 0x400000000,
            trace@ == t0 + steps_of(dv),
            canvas@ == c0 + dops,
            canvas.spec_width() == old(canvas).spec_width(),
            canvas.spec_height() == old(canvas).spec_height(),
            full == ({
                let rest = spec_pass_children(
                    node.children@.skip(i as int),
                    st,
                    cbx as int,
                    cby as int,
                    cbw as int,
                    cbh as int,
                    cur as int,
                    ctx.scale_factor as int,
                    res.entries@,
                );
                PassOut { visits: dv + rest.visits, ops: dops + rest.ops, err: rest.err }
            }),
        decreases n - i,
    {
        let ghost rest = spec_pass_children(
            node.children@.skip(i as int),
            st,
            cbx as int,
            cby as int,
            cbw as int,
            cbh as int,
            cur as int,
            ctx.scale_factor as int,
            res.entries@,
        );
        proof {
            assert(node.children@.skip(i as int)[0] == node.children@[i as int]);
            assert(decreases_to!(*node => node.children@[i as int]));
        }
        let child = &node.children[i];
        let ghost dv_before = dv;
        let ghost dops_before = dops;
        let cr = render_node(child, &st, cbx, cby, cbw, cbh, cur, ctx, res, canvas, trace);
        let ghost mc = spec_pass_node(
            node.children@[i as int],
            st,
            cbx as int,
            cby as int,
            cbw as int,
            cbh as int,
            cur as int,
            ctx.scale_factor as int,
            res.entries@,
        );
        proof {
            dv = dv_before + mc.visits;
            dops = dops_before + mc.ops;
            lemma_steps_of_add(dv_before, mc.visits);
            assert(trace@ =~= t0 + steps_of(dv));
            assert(canvas@ =~= c0 + dops);
        }
        if let Err(e) = cr {
            proof {
                assert(rest == mc);
                assert(full.err == Some(e));
                assert(full.visits =~= dv);
                assert(full.ops =~= dops);
                assert(m.visits == seq![visit] + full.visits);
                assert(m.ops == dr.ops + full.ops);
                lemma_steps_of_add(seq![visit], full.visits);
                assert(trace@ =~= old(trace)@ + steps_of(m.visits));
                assert(canvas@ =~= old(canvas)@ + m.ops);
            }
            return Err(e);
        }
        let cst = resolve(&child.style, &st, child.kind());
        let ext: i64 = if st.stack == Axis::Horizontal {
            cst.width as i64
        } else {
            cst.height as i64
        };
        proof {
            assert(mc.err is None);
            assert(cur + ext <= (if st.stack == Axis::Horizontal { cbw as int } else { cbh as int }));
            assert(node.children@.skip(i as int).drop_first() =~= node.children@.skip(i as int + 1));
            let rr = spec_pass_children(
                node.children@.skip(i as int + 1),
                st,
                cbx as int,
                cby as int,
                cbw as int,
                cbh as int,
                cur as int + ext as int + st.spacing,
                ctx.scale_factor as int,
                res.entries@,
            );
            assert(rest == PassOut {
                visits: mc.visits + rr.visits,
                ops: mc.ops + rr.ops,
                err: rr.err,
            });
            assert(dv_before + (mc.visits + rr.visits) =~= (dv_before + mc.visits) + rr.visits);
            assert(dops_before + (mc.ops + rr.ops) =~= (dops_before + mc.ops) + rr.ops);
        }
        cur = cur + ext + st.spacing as i64;
        i = i + 1;
    }
    proof {
        assert(node.children@.skip(i as int) =~= Seq::<Node>::empty());
        assert(full.visits =~= dv);
        assert(full.ops =~= dops);
        assert(m.visits == seq![visit] + full.visits);
        assert(m.ops == dr.ops + full.ops);
        lemma_steps_of_add(seq![visit], full.visits);
        assert(trace@ =~= old(trace)@ + steps_of(m.visits));
        assert(canvas@ =~= old(canvas)@ + m.ops);
    }
    Ok(())
}

/// One complete pass: resolves and draws the whole tree onto `canvas`
/// and returns the draw report: one entry per draw step invoked, in
/// order, together with the pass's result.
///
/// The report, the canvas mutations and the result are exactly what the
/// model `spec_render` computes for this tree, context and resource
/// table.  After a failed pass the canvas is not a defined partial
/// result: callers must treat any error as no usable image.
pub fn render(
    root: &Node,
    ctx: &RenderContext,
    res: &ResourceTable,
    canvas: &mut Canvas,
) -> (out: (Vec<DrawStep>, Result<(), RenderError>))
    requires
        ctx.wf(),
        res.wf(),
    ensures
        ({
            let m = spec_render(*root, *ctx, res.entries@);
            &&& out.0@ == steps_of(m.visits)
            &&& final(canvas)@ == old(canvas)@ + m.ops
            &&& final(canvas).spec_width() == old(canvas).spec_width()
            &&& final(canvas).spec_height() == old(canvas).spec_height()
            &&& match out.1 {
                Ok(_) => m.err is None,
                Err(e) => m.err == Some(e),
            }
        }),
{
    let mut trace: Vec<DrawStep> = Vec::new();
    let parent = ResolvedStyle::root_default();
    let rst = resolve(&root.style, &parent, root.kind());
    if rst.width < 1 || rst.width > LOGICAL_LIMIT || rst.height < 1 || rst.height > LOGICAL_LIMIT {
        proof {
            let m = spec_render(*root, *ctx, res.entries@);
            assert(steps_of(m.visits) =~= Seq::<DrawStep>::empty());
            assert(trace@ =~= Seq::<DrawStep>::empty() + steps_of(m.visits));
            assert(canvas@ =~= canvas@ + m.ops);
        }
        return (trace, Err(RenderError::Geometry { kind: root.kind() }));
    }
    let r = render_node(
        root,
        &parent,
        0,
        0,
        rst.width as i64,
        rst.height as i64,
        0,
        ctx,
        res,
        canvas,
        &mut trace,
    );
    proof {
        assert(trace@ =~= Seq::<DrawStep>::empty() + trace@);
    }
    (trace, r)
}

} // verus!
