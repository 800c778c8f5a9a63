//! The draw adapter: after a layout pass, each element becomes one flat draw
//! primitive, emitted in breadth-first order over the tree. A parent is
//! always emitted before its children and before any node enqueued later,
//! which gives correct visual stacking (children and later siblings draw
//! over earlier ones) without a z-index.

use vstd::prelude::*;

use crate::component::Component;
use crate::layout::ComputedLayout;
use crate::style::StyleSheet;
use crate::tree::{lemma_forest_size_add, lemma_forest_size_first, Node};

verus! {

/// One flat draw primitive: a fixed-layout record a renderer collaborator
/// can batch and submit. Border radii are ordered top-right, bottom-right,
/// bottom-left, top-left.
#[derive(Debug, Clone, Copy, PartialEq)]
pub struct Quad {
    pub position: [i64; 2],
    pub dimensions: [i64; 2],
    pub colour: [u8; 3],
    pub opacity: u8,
    pub border_colour: [u8; 3],
    pub border_radius: [i64; 4],
    pub border_weight: i64,
}

/// `q` is exactly the primitive that renders an element with style `s` whose
/// resolved box is `cl`.
pub open spec fn quad_matches(q: Quad, s: StyleSheet, cl: ComputedLayout) -> bool {
    &&& q.position[0] == cl.position.x
    &&& q.position[1] == cl.position.y
    &&& q.dimensions[0] == cl.width
    &&& q.dimensions[1] == cl.height
    &&& q.colour[0] == s.background_colour.r
    &&& q.colour[1] == s.background_colour.g
    &&& q.colour[2] == s.background_colour.b
    &&& q.opacity == s.opacity
    &&& q.border_colour[0] == s.border_colour.r
    &&& q.border_colour[1] == s.border_colour.g
    &&& q.border_colour[2] == s.border_colour.b
    &&& q.border_radius[0] == s.border_radius.top_right
    &&& q.border_radius[1] == s.border_radius.bottom_right
    &&& q.border_radius[2] == s.border_radius.bottom_left
    &&& q.border_radius[3] == s.border_radius.top_left
    &&& q.border_weight == s.border_weight
}

/// The breadth-first emission order over a queue of pending subtrees: the
/// first tree's root is emitted, and its children join the back of the
/// queue. Seeded with a layer's root, this is the layer's paint order.
pub open spec fn paint_order(queue: Seq<Node<Component>>) -> Seq<Component>
    decreases Node::forest_size(queue),
    via paint_order_decreases
{
    if queue.len() == 0 {
        Seq::empty()
    } else {
        seq![queue[0].data] + paint_order(queue.drop_first() + queue[0].children@)
    }
}

#[via_fn]
proof fn paint_order_decreases(queue: Seq<Node<Component>>) {
    if queue.len() > 0 {
        lemma_forest_size_add(queue.drop_first(), queue[0].children@);
        lemma_forest_size_first(queue);
    }
}

/// The trees a queue of borrowed subtrees stands for.
spec fn nodes_of(q: Seq<&Node<Component>>) -> Seq<Node<Component>> {
    q.map_values(|p: &Node<Component>| *p)
}

/// Combines one element's style and computed box into a draw primitive.
pub fn create_quad(style: &StyleSheet, layout: &ComputedLayout) -> (q: Quad)
    ensures
        quad_matches(q, *style, *layout),
{
    Quad {
        position: [layout.position.x, layout.position.y],
        dimensions: [layout.width, layout.height],
        colour: [style.background_colour.r, style.background_colour.g, style.background_colour.b],
        opacity: style.opacity,
        border_colour: [style.border_colour.r, style.border_colour.g, style.border_colour.b],
        border_radius: [
            style.border_radius.top_right,
            style.border_radius.bottom_right,
            style.border_radius.bottom_left,
            style.border_radius.top_left,
        ],
        border_weight: style.border_weight,
    }
}

/// Walks the finished layer breadth-first (enqueue root; dequeue, emit,
/// enqueue children) and returns one primitive per node, in paint order.
pub fn paint_quads(root: &Node<Component>) -> (r: Vec<Quad>)
    ensures
        r@.len() == paint_order(seq![*root]).len(),
        forall|k: int|
            0 <= k < r@.len() ==> quad_matches(
                #[trigger] r@[k],
                paint_order(seq![*root])[k].style,
                paint_order(seq![*root])[k].computed_layout,
            ),
{
    let ghost target = paint_order(seq![*root]);
    let mut out: Vec<Quad> = Vec::new();
    let mut queue: Vec<&Node<Component>> = Vec::new();
    queue.push(root);
    proof {
        assert(nodes_of(queue@) =~= seq![*root]);
        assert(target.skip(0) =~= target);
    }
    while queue.len() > 0
        invariant
            target == paint_order(seq![*root]),
            out@.len() + paint_order(nodes_of(queue@)).len()
                == target.len(),
            paint_order(nodes_of(queue@)) == target.skip(
                out@.len() as int,
            ),
            forall|k: int|
                0 <= k < out@.len() ==> quad_matches(
                    #[trigger] out@[k],
                    target[k].style,
                    target[k].computed_layout,
                ),
        decreases Node::forest_size(nodes_of(queue@)),
    {
        let ghost qv = nodes_of(queue@);
        let ghost emitted = out@.len() as int;
        let node = queue.remove(0);
        proof {
            assert(nodes_of(queue@) =~= qv.drop_first());
            assert(paint_order(qv) == seq![qv[0].data] + paint_order(
                qv.drop_first() + qv[0].children@,
            ));
            assert(target.skip(emitted)[0] == target[emitted]);
            assert(target[emitted] == node.data);
        }
        out.push(create_quad(&node.data.style, &node.data.computed_layout));
        let ghost rest = nodes_of(queue@);
        proof {
            assert(nodes_of(queue@) =~= rest + node.children@.take(0));
        }
        let mut j: usize = 0;
        while j < node.children.len()
            invariant
                j <= node.children@.len(),
                queue@.len() == rest.len() + j,
                nodes_of(queue@) == rest + node.children@.take(j as int),
            decreases node.children@.len() - j,
        {
            let ghost qb = queue@;
            queue.push(&node.children[j]);
            proof {
                assert(queue@ == qb.push(queue@[queue@.len() - 1]));
                assert(nodes_of(queue@)[qb.len() as int] == node.children@[j as int]);
                assert forall|i: int| 0 <= i < qb.len() implies #[trigger] nodes_of(queue@)[i]
                    == nodes_of(qb)[i] by {
                    assert(queue@[i] == qb[i]);
                }
                assert(nodes_of(queue@) =~= rest + node.children@.take(j as int + 1));
            }
            j = j + 1;
        }
        proof {
            assert(node.children@.take(node.children@.len() as int) =~= node.children@);
            assert(nodes_of(queue@) == rest + node.children@);
            assert(rest + node.children@ == qv.drop_first() + qv[0].children@);
            assert((seq![qv[0].data] + paint_order(qv.drop_first() + qv[0].children@)).drop_first()
                == paint_order(qv.drop_first() + qv[0].children@));
            assert(target.skip(emitted).drop_first() =~= target.skip(emitted + 1));
            lemma_forest_size_add(qv.drop_first(), qv[0].children@);
            lemma_forest_size_first(qv);
        }
    }
    proof {
        assert(target.skip(out@.len() as int).len() == 0);
    }
    out
}

} // verus!
