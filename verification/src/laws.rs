//! The pass's global laws, proved against the pipeline model.

use vstd::prelude::*;
use crate::components::{kind_of, preorder, preorder_all, Node, Payload};
use crate::context::RenderContext;
use crate::pipeline::{
    spec_draw_ops, spec_pass_children, spec_pass_node, spec_place, spec_render, Visit,
};
use crate::resources::LoadOutcome;
use crate::style::{spec_resolve, Align, Axis, Edges, ResolvedStyle};

verus! {

/// Which node each draw step belonged to.
pub open spec fn payloads_of(vs: Seq<Visit>) -> Seq<Payload> {
    vs.map_values(|v: Visit| v.payload)
}

proof fn lemma_payloads_of_add(a: Seq<Visit>, b: Seq<Visit>)
    ensures
        payloads_of(a + b) == payloads_of(a) + payloads_of(b),
{
    assert(payloads_of(a + b) =~= payloads_of(a) + payloads_of(b));
}

proof fn lemma_prefix_prepend(x: Seq<Payload>, a: Seq<Payload>, b: Seq<Payload>)
    requires
        a.is_prefix_of(b),
    ensures
        (x + a).is_prefix_of(x + b),
{
    assert((x + a) =~= (x + b).subrange(0, (x + a).len() as int));
}

proof fn lemma_prefix_extend(a: Seq<Payload>, b: Seq<Payload>, c: Seq<Payload>)
    requires
        a.is_prefix_of(b),
    ensures
        a.is_prefix_of(b + c),
{
    assert(a =~= (b + c).subrange(0, a.len() as int));
}

/// Over one subtree: the drawn nodes are always a prefix of the subtree's
/// pre-order; with no failure they are exactly the pre-order, each node
/// once.
pub proof fn lemma_pass_preorder(
    node: Node,
    parent: ResolvedStyle,
    bx: int,
    by: int,
    bw: int,
    bh: int,
    cursor: int,
    scale: int,
    res: Seq<(String, LoadOutcome)>,
)
    ensures
        ({
            let m = spec_pass_node(node, parent, bx, by, bw, bh, cursor, scale, res);
            &&& payloads_of(m.visits).is_prefix_of(preorder(node))
            &&& (m.err is None ==> payloads_of(m.visits) == preorder(node))
        }),
    decreases node,
{
    let m = spec_pass_node(node, parent, bx, by, bw, bh, cursor, scale, res);
    let st = spec_resolve(node.style, parent, kind_of(node.payload));
    let pl = spec_place(parent, bx, by, bw, bh, cursor, st);
    if st.width < 1 || st.width > crate::context::LOGICAL_LIMIT || st.height < 1 || st.height
        > crate::context::LOGICAL_LIMIT || !pl.fits {
        assert(payloads_of(m.visits) =~= preorder(node).subrange(0, 0));
    } else {
        let dr = spec_draw_ops(node.payload, st, pl.x, pl.y, scale, res);
        if dr.err is Some {
            assert(payloads_of(m.visits) =~= seq![node.payload]);
            assert(seq![node.payload] =~= preorder(node).subrange(0, 1));
        } else {
            let sub = spec_pass_children(
                node.children@,
                st,
                pl.x + st.padding.left,
                pl.y + st.padding.top,
                st.width - st.padding.left - st.padding.right,
                st.height - st.padding.top - st.padding.bottom,
                0,
                scale,
                res,
            );
            lemma_pass_children_preorder(
                node.children@,
                st,
                pl.x + st.padding.left,
                pl.y + st.padding.top,
                st.width - st.padding.left - st.padding.right,
                st.height - st.padding.top - st.padding.bottom,
                0,
                scale,
                res,
            );
            lemma_payloads_of_add(seq![Visit { payload: node.payload, x: pl.x * scale, y: pl.y * scale, w: st.width * scale, h: st.height * scale }], sub.visits);
            assert(payloads_of(m.visits) =~= seq![node.payload] + payloads_of(sub.visits));
            lemma_prefix_prepend(
                seq![node.payload],
                payloads_of(sub.visits),
                preorder_all(node.children@),
            );
            assert(preorder(node) == seq![node.payload] + preorder_all(node.children@));
            if m.err is None {
                assert(payloads_of(m.visits) =~= preorder(node));
            }
        }
    }
}

/// Over a forest of siblings: same prefix and completeness statement,
/// against the forest's pre-order.
pub proof fn lemma_pass_children_preorder(
    nodes: Seq<Node>,
    parent: ResolvedStyle,
    bx: int,
    by: int,
    bw: int,
    bh: int,
    cursor: int,
    scale: int,
    res: Seq<(String, LoadOutcome)>,
)
    ensures
        ({
            let m = spec_pass_children(nodes, parent, bx, by, bw, bh, cursor, scale, res);
            &&& payloads_of(m.visits).is_prefix_of(preorder_all(nodes))
            &&& (m.err is None ==> payloads_of(m.visits) == preorder_all(nodes))
        }),
    decreases nodes,
{
    let m = spec_pass_children(nodes, parent, bx, by, bw, bh, cursor, scale, res);
    if nodes.len() == 0 {
        assert(payloads_of(m.visits) =~= preorder_all(nodes).subrange(0, 0));
    } else {
        let r0 = spec_pass_node(nodes[0], parent, bx, by, bw, bh, cursor, scale, res);
        lemma_pass_preorder(nodes[0], parent, bx, by, bw, bh, cursor, scale, res);
        if r0.err is Some {
            lemma_prefix_extend(
                payloads_of(r0.visits),
                preorder(nodes[0]),
                preorder_all(nodes.drop_first()),
            );
            assert(preorder_all(nodes) == preorder(nodes[0]) + preorder_all(nodes.drop_first()));
        } else {
            let st0 = spec_resolve(nodes[0].style, parent, kind_of(nodes[0].payload));
            let ext = if parent.stack == Axis::Horizontal {
                st0.width as int
            } else {
                st0.height as int
            };
            let rr = spec_pass_children(
                nodes.drop_first(),
                parent,
                bx,
                by,
                bw,
                bh,
                cursor + ext + parent.spacing,
                scale,
                res,
            );
            lemma_pass_children_preorder(
                nodes.drop_first(),
                parent,
                bx,
                by,
                bw,
                bh,
                cursor + ext + parent.spacing,
                scale,
                res,
            );
            lemma_payloads_of_add(r0.visits, rr.visits);
            assert(payloads_of(r0.visits) == preorder(nodes[0]));
            lemma_prefix_prepend(
                preorder(nodes[0]),
                payloads_of(rr.visits),
                preorder_all(nodes.drop_first()),
            );
            assert(preorder_all(nodes) == preorder(nodes[0]) + preorder_all(nodes.drop_first()));
            if m.err is None {
                assert(payloads_of(m.visits) =~= preorder_all(nodes));
            }
        }
    }
}

/// A pass with no failing node draws all nodes of the tree, each exactly
/// once, in declared pre-order; a pass that fails draws exactly a prefix
/// of the pre-order, and nothing after the failure point.
pub proof fn lemma_render_preorder(root: Node, ctx: RenderContext, res: Seq<(String, LoadOutcome)>)
    ensures
        payloads_of(spec_render(root, ctx, res).visits).is_prefix_of(preorder(root)),
        spec_render(root, ctx, res).err is None ==> payloads_of(
            spec_render(root, ctx, res).visits,
        ) == preorder(root),
{
    let rst = spec_resolve(root.style, ResolvedStyle::spec_root_default(), kind_of(root.payload));
    lemma_pass_preorder(
        root,
        ResolvedStyle::spec_root_default(),
        0,
        0,
        rst.width as int,
        rst.height as int,
        0,
        ctx.scale_factor as int,
        res,
    );
}

/// Zero padding and start alignment: a child placed at cursor zero gets
/// its parent's content origin, exactly.
pub proof fn lemma_start_alignment_keeps_origin(
    parent: ResolvedStyle,
    bx: int,
    by: int,
    bw: int,
    bh: int,
    st: ResolvedStyle,
)
    requires
        st.align == Align::Start,
        st.padding == Edges::spec_zero(),
    ensures
        spec_place(parent, bx, by, bw, bh, 0, st).x == bx,
        spec_place(parent, bx, by, bw, bh, 0, st).y == by,
        spec_place(parent, bx, by, bw, bh, 0, st).x + st.padding.left == bx,
        spec_place(parent, bx, by, bw, bh, 0, st).y + st.padding.top == by,
{
}

/// A visit as it would look under a pass whose every coordinate is
/// multiplied by `s`.
pub open spec fn scaled_visit(v: Visit, s: int) -> Visit {
    Visit { payload: v.payload, x: v.x * s, y: v.y * s, w: v.w * s, h: v.h * s }
}

/// Over one subtree: a pass at scale `s` fails exactly where the pass at
/// scale 1 fails, and hands every draw step the same coordinates
/// multiplied by `s`.
pub proof fn lemma_pass_scale(
    node: Node,
    parent: ResolvedStyle,
    bx: int,
    by: int,
    bw: int,
    bh: int,
    cursor: int,
    s: int,
    res: Seq<(String, LoadOutcome)>,
)
    ensures
        ({
            let m1 = spec_pass_node(node, parent, bx, by, bw, bh, cursor, 1, res);
            let ms = spec_pass_node(node, parent, bx, by, bw, bh, cursor, s, res);
            &&& ms.err == m1.err
            &&& ms.visits == m1.visits.map_values(|v: Visit| scaled_visit(v, s))
        }),
    decreases node,
{
    let m1 = spec_pass_node(node, parent, bx, by, bw, bh, cursor, 1, res);
    let ms = spec_pass_node(node, parent, bx, by, bw, bh, cursor, s, res);
    let st = spec_resolve(node.style, parent, kind_of(node.payload));
    let pl = spec_place(parent, bx, by, bw, bh, cursor, st);
    if st.width < 1 || st.width > crate::context::LOGICAL_LIMIT || st.height < 1 || st.height
        > crate::context::LOGICAL_LIMIT || !pl.fits {
        assert(ms.visits =~= m1.visits.map_values(|v: Visit| scaled_visit(v, s)));
    } else {
        let dr1 = spec_draw_ops(node.payload, st, pl.x, pl.y, 1, res);
        let drs = spec_draw_ops(node.payload, st, pl.x, pl.y, s, res);
        assert(drs.err == dr1.err);
        if dr1.err is Some {
            assert(ms.visits =~= m1.visits.map_values(|v: Visit| scaled_visit(v, s)));
        } else {
            lemma_pass_children_scale(
                node.children@,
                st,
                pl.x + st.padding.left,
                pl.y + st.padding.top,
                st.width - st.padding.left - st.padding.right,
                st.height - st.padding.top - st.padding.bottom,
                0,
                s,
                res,
            );
            assert(ms.visits =~= m1.visits.map_values(|v: Visit| scaled_visit(v, s)));
        }
    }
}

/// Over a forest of siblings: the same scaling relation.
pub proof fn lemma_pass_children_scale(
    nodes: Seq<Node>,
    parent: ResolvedStyle,
    bx: int,
    by: int,
    bw: int,
    bh: int,
    cursor: int,
    s: int,
    res: Seq<(String, LoadOutcome)>,
)
    ensures
        ({
            let m1 = spec_pass_children(nodes, parent, bx, by, bw, bh, cursor, 1, res);
            let ms = spec_pass_children(nodes, parent, bx, by, bw, bh, cursor, s, res);
            &&& ms.err == m1.err
            &&& ms.visits == m1.visits.map_values(|v: Visit| scaled_visit(v, s))
        }),
    decreases nodes,
{
    let m1 = spec_pass_children(nodes, parent, bx, by, bw, bh, cursor, 1, res);
    let ms = spec_pass_children(nodes, parent, bx, by, bw, bh, cursor, s, res);
    if nodes.len() == 0 {
        assert(ms.visits =~= m1.visits.map_values(|v: Visit| scaled_visit(v, s)));
    } else {
        lemma_pass_scale(nodes[0], parent, bx, by, bw, bh, cursor, s, res);
        let r01 = spec_pass_node(nodes[0], parent, bx, by, bw, bh, cursor, 1, res);
        if r01.err is Some {
            assert(ms.visits =~= m1.visits.map_values(|v: Visit| scaled_visit(v, s)));
        } else {
            let st0 = spec_resolve(nodes[0].style, parent, kind_of(nodes[0].payload));
            let ext = if parent.stack == Axis::Horizontal {
                st0.width as int
            } else {
                st0.height as int
            };
            lemma_pass_children_scale(
                nodes.drop_first(),
                parent,
                bx,
                by,
                bw,
                bh,
                cursor + ext + parent.spacing,
                s,
                res,
            );
            assert(ms.visits =~= m1.visits.map_values(|v: Visit| scaled_visit(v, s)));
        }
    }
}

/// Rendering a tree with a context of scale factor `s` fails exactly
/// where rendering it with scale factor 1 fails, and hands every draw
/// step the scale-1 coordinates multiplied by `s`, exactly.
pub proof fn lemma_render_scale(root: Node, ctx: RenderContext, res: Seq<(String, LoadOutcome)>)
    ensures
        ({
            let m1 = spec_render(root, RenderContext { scale_factor: 1 }, res);
            let ms = spec_render(root, ctx, res);
            &&& ms.err == m1.err
            &&& ms.visits == m1.visits.map_values(
                |v: Visit| scaled_visit(v, ctx.scale_factor as int),
            )
        }),
{
    let rst = spec_resolve(root.style, ResolvedStyle::spec_root_default(), kind_of(root.payload));
    lemma_pass_scale(
        root,
        ResolvedStyle::spec_root_default(),
        0,
        0,
        rst.width as int,
        rst.height as int,
        0,
        ctx.scale_factor as int,
        res,
    );
}

} // verus!

