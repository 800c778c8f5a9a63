//! The element tree and the layout engine: a two-pass constraint solver that
//! walks a tree of authored `Layout` models and writes a concrete screen-space
//! box into every node's `ComputedLayout`, given the screen dimensions.
//!
//! The pass is strictly top-down: a node's box is a pure function of the
//! screen, its own model, its parent's resolved box and orientation, and the
//! models of the non-absolute siblings it shares the flow with — never of its
//! own children. `compute_layout` recomputes every layer from scratch on each
//! call and keeps no state across calls.
//!
//! All arithmetic is exact over `i64`. A layer whose resolution would step
//! outside `i64` at any intermediate value (`layer_fits` fails) is left
//! unchanged rather than clamped; every other layer is fully resolved.

use vstd::prelude::*;

use crate::layout::{
    anchor_x, anchor_x_fits, anchor_y, anchor_y_fits, Anchor, child_height, child_pos_fits, child_width,
    child_x, child_y, const_height_sum, const_height_sum_upto,
    const_width_sum, const_width_sum_upto, fill_height_count,
    fill_height_count_upto, fill_width_count, fill_width_count_upto, flow_offset, in_i64, is_flow,
    lemma_fill_height_count_at_least_one, lemma_fill_width_count_at_least_one,
    node_fits, root_fits, root_height, root_width, root_x, root_y, tdiv, ComputedLayout,
    Dimensions, Layout, Orientation, Point, Position, Size,
};
use crate::style::StyleSheet;
use crate::tree::Node;

verus! {

/// Ambient data handed to element callbacks; carries nothing yet.
pub struct Environment;

/// One independently-rooted element tree; layers are laid out against the
/// same screen but never against each other.
pub struct Layer {
    pub component_tree: Node<Component>,
}

/// Every layer of the user interface.
pub struct Components {
    pub layers: Vec<Layer>,
}

/// The payload of each tree node: authored style and layout, plus the box
/// derived for it by the most recent engine pass.
#[derive(Debug, Clone, Copy, PartialEq)]
pub struct Component {
    pub style: StyleSheet,
    pub layout: Layout,
    pub computed_layout: ComputedLayout,
}

/// The authored layout models of a sequence of sibling nodes.
pub open spec fn child_models(children: Seq<Node<Component>>) -> Seq<Layout> {
    children.map_values(|c: Node<Component>| c.data.layout)
}

/// Whether every intermediate value in laying out the subtree under a node
/// whose own box is `(px, py, pw, ph)` fits in `i64`.
pub open spec fn tree_fits(n: Node<Component>, px: int, py: int, pw: int, ph: int) -> bool
    decreases n,
{
    let o = n.data.layout.orientation;
    let ms = child_models(n.children@);
    &&& node_fits(o, px, py, pw, ph, ms)
    &&& forall|i: int|
        0 <= i < n.children@.len() ==> tree_fits(
            #[trigger] n.children@[i],
            child_x(o, px, py, pw, ph, ms, i),
            child_y(o, px, py, pw, ph, ms, i),
            child_width(o, pw, ms, i),
            child_height(o, ph, ms, i),
        )
}

/// Whether every intermediate value in laying out a whole layer against a
/// screen of extents `(sw, sh)` fits in `i64`.
pub open spec fn layer_fits(t: Node<Component>, sw: int, sh: int) -> bool {
    let m = t.data.layout;
    &&& root_fits(m, sw, sh)
    &&& tree_fits(t, root_x(m, sw, sh), root_y(m, sw, sh), root_width(m, sw), root_height(m, sh))
}

/// The root's stored box equals its resolution against the screen.
pub open spec fn root_resolved(t: Node<Component>, sw: int, sh: int) -> bool {
    let m = t.data.layout;
    &&& t.data.computed_layout.w() == root_width(m, sw)
    &&& t.data.computed_layout.h() == root_height(m, sh)
    &&& t.data.computed_layout.x() == root_x(m, sw, sh)
    &&& t.data.computed_layout.y() == root_y(m, sw, sh)
}

/// Every node below `n` stores exactly the box the sizing and positioning
/// rules derive for it from its parent's stored box. Together with
/// `root_resolved`, this pins the computed layout of every node in a layer.
pub open spec fn children_resolved(n: Node<Component>) -> bool
    decreases n,
{
    let o = n.data.layout.orientation;
    let ms = child_models(n.children@);
    let px = n.data.computed_layout.x();
    let py = n.data.computed_layout.y();
    let pw = n.data.computed_layout.w();
    let ph = n.data.computed_layout.h();
    forall|i: int|
        0 <= i < n.children@.len() ==> {
            let c = #[trigger] n.children@[i];
            &&& c.data.computed_layout.w() == child_width(o, pw, ms, i)
            &&& c.data.computed_layout.h() == child_height(o, ph, ms, i)
            &&& c.data.computed_layout.x() == child_x(o, px, py, pw, ph, ms, i)
            &&& c.data.computed_layout.y() == child_y(o, px, py, pw, ph, ms, i)
            &&& children_resolved(c)
        }
}

/// `a` and `b` have the same structure and the same authored data (style and
/// layout model) at every node; their computed layouts may differ.
pub open spec fn same_model(a: Node<Component>, b: Node<Component>) -> bool
    decreases a,
{
    &&& a.data.layout == b.data.layout
    &&& a.data.style == b.data.style
    &&& a.children@.len() == b.children@.len()
    &&& forall|i: int|
        0 <= i < a.children@.len() ==> same_model(#[trigger] a.children@[i], b.children@[i])
}

/// `a` and `b` agree everywhere: same structure, same authored data, and the
/// same computed layout at every node.
pub open spec fn same_tree(a: Node<Component>, b: Node<Component>) -> bool
    decreases a,
{
    &&& a.data == b.data
    &&& a.children@.len() == b.children@.len()
    &&& forall|i: int|
        0 <= i < a.children@.len() ==> same_tree(#[trigger] a.children@[i], b.children@[i])
}

/// What one engine pass guarantees of a layer: the authored tree is kept, and
/// the layer is fully resolved against the screen when its arithmetic fits in
/// `i64`, or else left exactly as it was.
pub open spec fn layer_outcome(t1: Node<Component>, t0: Node<Component>, sw: int, sh: int) -> bool {
    &&& same_model(t1, t0)
    &&& if layer_fits(t0, sw, sh) {
        root_resolved(t1, sw, sh) && children_resolved(t1)
    } else {
        t1 == t0
    }
}

/// The layout model `Component::new` starts from.
pub open spec fn initial_layout() -> Layout {
    Layout {
        orientation: Orientation::Row,
        position: Position::Static,
        width: Size::Constant(300),
        height: Size::Constant(200),
        padding: crate::layout::Padding { top: 0, right: 0, bottom: 0, left: 0 },
    }
}

/// The stale box every component carries before its first engine pass.
pub open spec fn initial_computed() -> ComputedLayout {
    ComputedLayout { position: Point { x: 0, y: 0 }, width: 0, height: 0 }
}

impl Component {
    pub fn new() -> (r: Self)
        ensures
            r.style == StyleSheet::spec_light(),
            r.layout == initial_layout(),
            r.computed_layout == initial_computed(),
    {
        Self {
            style: StyleSheet::light(),
            layout: Layout {
                orientation: Orientation::Row,
                position: Position::Static,
                width: Size::Constant(300),
                height: Size::Constant(200),
                padding: crate::layout::Padding::none(),
            },
            computed_layout: ComputedLayout::default(),
        }
    }

    pub fn repaint(&self, env: &mut Environment)
        ensures
            *final(env) == *old(env),
    {
    }

    pub fn relayout(&self, env: &mut Environment)
        ensures
            *final(env) == *old(env),
    {
    }
}

impl Components {
    pub fn new() -> (r: Self)
        ensures
            r.layers@.len() == 0,
    {
        Self { layers: Vec::new() }
    }
}

/// Computes `anchor_x` on machine integers, or reports that one of its
/// intermediate values does not fit in `i64`.
fn anchor_x_exec(a: Anchor, px: i64, pw: i64, w: i64) -> (r: Option<i64>)
    ensures
        match r {
            Some(v) => anchor_x_fits(a, px as int, pw as int, w as int) && v as int == anchor_x(
                a,
                px as int,
                pw as int,
                w as int,
            ),
            None => !anchor_x_fits(a, px as int, pw as int, w as int),
        },
{
    match a {
        Anchor::TopLeft | Anchor::Left | Anchor::BottomLeft => Some(px),
        Anchor::Top | Anchor::Bottom => match pw.checked_sub(w) {
            Some(d) => {
                proof {
                    crate::layout::lemma_tdiv_bounds(d as int, 2);
                }
                let half = d / 2;
                px.checked_add(half)
            },
            None => None,
        },
        Anchor::TopRight | Anchor::Right | Anchor::BottomRight => match pw.checked_sub(w) {
            Some(d) => px.checked_add(d),
            None => None,
        },
    }
}

/// See `anchor_x_exec`.
fn anchor_y_exec(a: Anchor, py: i64, ph: i64, h: i64) -> (r: Option<i64>)
    ensures
        match r {
            Some(v) => anchor_y_fits(a, py as int, ph as int, h as int) && v as int == anchor_y(
                a,
                py as int,
                ph as int,
                h as int,
            ),
            None => !anchor_y_fits(a, py as int, ph as int, h as int),
        },
{
    match a {
        Anchor::TopLeft | Anchor::Top | Anchor::TopRight => Some(py),
        Anchor::Left | Anchor::Right => match ph.checked_sub(h) {
            Some(d) => {
                proof {
                    crate::layout::lemma_tdiv_bounds(d as int, 2);
                }
                let half = d / 2;
                py.checked_add(half)
            },
            None => None,
        },
        Anchor::BottomLeft | Anchor::Bottom | Anchor::BottomRight => match ph.checked_sub(h) {
            Some(d) => py.checked_add(d),
            None => None,
        },
    }
}

/// Decides `tree_fits` at run time: a read-only dry run of the layout
/// arithmetic with overflow-checked operations.
fn tree_fits_exec(n: &Node<Component>, px: i64, py: i64, pw: i64, ph: i64) -> (b: bool)
    ensures
        b == tree_fits(*n, px as int, py as int, pw as int, ph as int),
    decreases *n,
{
    let ghost ms = child_models(n.children@);
    let ghost o_s = n.data.layout.orientation;
    let len = n.children.len();
    if len as u64 > i64::MAX as u64 {
        proof {
            assert(ms.len() > i64::MAX);
        }
        return false;
    }
    // constant sums and Fill counts over the flow children
    let mut csw: i64 = 0;
    let mut csh: i64 = 0;
    let mut nfw: usize = 0;
    let mut nfh: usize = 0;
    let mut i: usize = 0;
    while i < len
        invariant
            len == n.children@.len(),
            len <= i64::MAX,
            ms == child_models(n.children@),
            i <= len,
            nfw <= i,
            nfh <= i,
            csw as int == const_width_sum_upto(ms, i as int),
            csh as int == const_height_sum_upto(ms, i as int),
            nfw as int == fill_width_count_upto(ms, i as int),
            nfh as int == fill_height_count_upto(ms, i as int),
            forall|j: int| 0 <= j <= i ==> in_i64(#[trigger] const_width_sum_upto(ms, j)),
            forall|j: int| 0 <= j <= i ==> in_i64(#[trigger] const_height_sum_upto(ms, j)),
        decreases len - i,
    {
        let m = n.children[i].data.layout;
        proof {
            assert(ms[i as int] == n.children@[i as int].data.layout);
        }
        match m.position {
            Position::Absolute(_, _) => {},
            _ => {
                match m.width {
                    Size::Constant(v) => match csw.checked_add(v) {
                        Some(s) => {
                            csw = s;
                        },
                        None => {
                            proof {
                                assert(!in_i64(const_width_sum_upto(ms, i as int + 1)));
                            }
                            return false;
                        },
                    },
                    Size::Fill => {
                        nfw = nfw + 1;
                    },
                }
                match m.height {
                    Size::Constant(v) => match csh.checked_add(v) {
                        Some(s) => {
                            csh = s;
                        },
                        None => {
                            proof {
                                assert(!in_i64(const_height_sum_upto(ms, i as int + 1)));
                            }
                            return false;
                        },
                    },
                    Size::Fill => {
                        nfh = nfh + 1;
                    },
                }
            },
        }
        i = i + 1;
    }
    // main-axis share for Fill flow children; the division is taken only
    // when at least one such child exists
    let mut auto_w: i64 = 0;
    let mut auto_h: i64 = 0;
    match n.data.layout.orientation {
        Orientation::Row => {
            auto_h = ph;
            if nfw > 0 {
                match pw.checked_sub(csw) {
                    Some(d) => {
                        proof {
                            crate::layout::lemma_tdiv_bounds(d as int, nfw as int);
                        }
                        auto_w = d / (nfw as i64);
                    },
                    None => {
                        return false;
                    },
                }
            }
        },
        Orientation::Column => {
            auto_w = pw;
            if nfh > 0 {
                match ph.checked_sub(csh) {
                    Some(d) => {
                        proof {
                            crate::layout::lemma_tdiv_bounds(d as int, nfh as int);
                        }
                        auto_h = d / (nfh as i64);
                    },
                    None => {
                        return false;
                    },
                }
            }
        },
    }
    // per-child positions, flow accumulation, and recursion
    let mut flow_main: i64 = 0;
    let mut i: usize = 0;
    while i < len
        invariant
            len == n.children@.len(),
            len <= i64::MAX,
            ms == child_models(n.children@),
            i <= len,
            o_s == n.data.layout.orientation,
            csw as int == const_width_sum(ms),
            csh as int == const_height_sum(ms),
            nfw as int == fill_width_count(ms),
            nfh as int == fill_height_count(ms),
            o_s is Row ==> auto_h == ph,
            o_s is Column ==> auto_w == pw,
            o_s is Row && nfw > 0 ==> in_i64(pw - const_width_sum(ms)) && auto_w as int == tdiv(
                pw - const_width_sum(ms),
                fill_width_count(ms),
            ),
            o_s is Column && nfh > 0 ==> in_i64(ph - const_height_sum(ms)) && auto_h as int
                == tdiv(ph - const_height_sum(ms), fill_height_count(ms)),
            forall|j: int| 0 <= j <= len ==> in_i64(#[trigger] const_width_sum_upto(ms, j)),
            forall|j: int| 0 <= j <= len ==> in_i64(#[trigger] const_height_sum_upto(ms, j)),
            flow_main as int == flow_offset(o_s, pw as int, ph as int, ms, i as int),
            forall|j: int|
                0 <= j <= i ==> in_i64(#[trigger] flow_offset(o_s, pw as int, ph as int, ms, j)),
            forall|j: int|
                0 <= j < i ==> #[trigger] child_pos_fits(
                    o_s,
                    px as int,
                    py as int,
                    pw as int,
                    ph as int,
                    ms,
                    j,
                ),
            forall|j: int|
                0 <= j < i ==> tree_fits(
                    #[trigger] n.children@[j],
                    child_x(o_s, px as int, py as int, pw as int, ph as int, ms, j),
                    child_y(o_s, px as int, py as int, pw as int, ph as int, ms, j),
                    child_width(o_s, pw as int, ms, j),
                    child_height(o_s, ph as int, ms, j),
                ),
        decreases len - i,
    {
        let c = &n.children[i];
        let m = c.data.layout;
        proof {
            assert(ms[i as int] == n.children@[i as int].data.layout);
        }
        // resolved extents of this child
        let cw: i64 = match m.width {
            Size::Constant(v) => v,
            Size::Fill => match m.position {
                Position::Absolute(_, _) => pw,
                _ => match n.data.layout.orientation {
                    Orientation::Row => auto_w,
                    Orientation::Column => pw,
                },
            },
        };
        let ch: i64 = match m.height {
            Size::Constant(v) => v,
            Size::Fill => match m.position {
                Position::Absolute(_, _) => ph,
                _ => match n.data.layout.orientation {
                    Orientation::Row => ph,
                    Orientation::Column => auto_h,
                },
            },
        };
        proof {
            if is_flow(m.position) && m.width is Fill && o_s is Row {
                lemma_fill_width_count_at_least_one(ms, i as int);
            }
            if is_flow(m.position) && m.height is Fill && o_s is Column {
                lemma_fill_height_count_at_least_one(ms, i as int);
            }
            assert(cw as int == child_width(o_s, pw as int, ms, i as int));
            assert(ch as int == child_height(o_s, ph as int, ms, i as int));
        }
        // this child's position, overflow-checked
        let ghost pos_overflows = !child_pos_fits(o_s, px as int, py as int, pw as int, ph as int, ms, i as int);
        let cx: i64;
        let cy: i64;
        match m.position {
            Position::Static => match n.data.layout.orientation {
                Orientation::Row => {
                    match px.checked_add(flow_main) {
                        Some(v) => {
                            cx = v;
                        },
                        None => {
                            proof {
                                assert(pos_overflows);
                            }
                            return false;
                        },
                    }
                    cy = py;
                },
                Orientation::Column => {
                    cx = px;
                    match py.checked_add(flow_main) {
                        Some(v) => {
                            cy = v;
                        },
                        None => {
                            proof {
                                assert(pos_overflows);
                            }
                            return false;
                        },
                    }
                },
            },
            Position::Relative(off) => {
                let tx: i64;
                let ty: i64;
                match px.checked_add(off.x) {
                    Some(v) => {
                        tx = v;
                    },
                    None => {
                        proof {
                            assert(pos_overflows);
                        }
                        return false;
                    },
                }
                match py.checked_add(off.y) {
                    Some(v) => {
                        ty = v;
                    },
                    None => {
                        proof {
                            assert(pos_overflows);
                        }
                        return false;
                    },
                }
                match n.data.layout.orientation {
                    Orientation::Row => {
                        match tx.checked_add(flow_main) {
                            Some(v) => {
                                cx = v;
                            },
                            None => {
                                proof {
                                    assert(pos_overflows);
                                }
                                return false;
                            },
                        }
                        cy = ty;
                    },
                    Orientation::Column => {
                        cx = tx;
                        match ty.checked_add(flow_main) {
                            Some(v) => {
                                cy = v;
                            },
                            None => {
                                proof {
                                    assert(pos_overflows);
                                }
                                return false;
                            },
                        }
                    },
                }
            },
            Position::Absolute(off, a) => {
                let ax: i64;
                let ay: i64;
                match anchor_x_exec(a, px, pw, cw) {
                    Some(v) => {
                        ax = v;
                    },
                    None => {
                        proof {
                            assert(pos_overflows);
                        }
                        return false;
                    },
                }
                match anchor_y_exec(a, py, ph, ch) {
                    Some(v) => {
                        ay = v;
                    },
                    None => {
                        proof {
                            assert(pos_overflows);
                        }
                        return false;
                    },
                }
                match ax.checked_add(off.x) {
                    Some(v) => {
                        cx = v;
                    },
                    None => {
                        proof {
                            assert(pos_overflows);
                        }
                        return false;
                    },
                }
                match ay.checked_add(off.y) {
                    Some(v) => {
                        cy = v;
                    },
                    None => {
                        proof {
                            assert(pos_overflows);
                        }
                        return false;
                    },
                }
            },
        }
        proof {
            assert(child_pos_fits(o_s, px as int, py as int, pw as int, ph as int, ms, i as int));
            assert(cx as int == child_x(o_s, px as int, py as int, pw as int, ph as int, ms, i as int));
            assert(cy as int == child_y(o_s, px as int, py as int, pw as int, ph as int, ms, i as int));
        }
        // advance the flow offset past this child
        match m.position {
            Position::Absolute(_, _) => {},
            _ => {
                let adv: i64 = match n.data.layout.orientation {
                    Orientation::Row => cw,
                    Orientation::Column => ch,
                };
                match flow_main.checked_add(adv) {
                    Some(v) => {
                        flow_main = v;
                    },
                    None => {
                        proof {
                            assert(!in_i64(
                                flow_offset(o_s, pw as int, ph as int, ms, i as int + 1),
                            ));
                        }
                        return false;
                    },
                }
            },
        }
        if !tree_fits_exec(c, cx, cy, cw, ch) {
            return false;
        }
        i = i + 1;
    }
    true
}

/// Every tree has its own model.
proof fn lemma_same_model_reflexive(n: Node<Component>)
    ensures
        same_model(n, n),
    decreases n,
{
    assert forall|i: int| 0 <= i < n.children@.len() implies same_model(
        #[trigger] n.children@[i],
        n.children@[i],
    ) by {
        lemma_same_model_reflexive(n.children@[i]);
    }
}

/// Writes the box `(px, py, pw, ph)` into this node and resolves every node
/// below it, in pre-order: first the extents of the direct children, then
/// their positions in sibling order, then each child's own subtree against
/// its now-final box.
fn layout_node(node: Node<Component>, px: i64, py: i64, pw: i64, ph: i64) -> (r: Node<Component>)
    requires
        tree_fits(node, px as int, py as int, pw as int, ph as int),
    ensures
        same_model(r, node),
        r.data.layout == node.data.layout,
        r.data.style == node.data.style,
        r.data.computed_layout.x() == px as int,
        r.data.computed_layout.y() == py as int,
        r.data.computed_layout.w() == pw as int,
        r.data.computed_layout.h() == ph as int,
        children_resolved(r),
    decreases node,
{
    let ghost orig = node;
    let ghost ms = child_models(node.children@);
    let ghost o_s = node.data.layout.orientation;
    let Node { mut data, children } = node;
    data.computed_layout = ComputedLayout {
        position: Point { x: px, y: py },
        width: pw,
        height: ph,
    };
    let len = children.len();
    // constant sums and Fill counts over the flow children
    let mut csw: i64 = 0;
    let mut csh: i64 = 0;
    let mut nfw: usize = 0;
    let mut nfh: usize = 0;
    let mut i: usize = 0;
    while i < len
        invariant
            len == children@.len(),
            len == orig.children@.len(),
            children@ == orig.children@,
            ms == child_models(orig.children@),
            node_fits(o_s, px as int, py as int, pw as int, ph as int, ms),
            i <= len,
            nfw <= i,
            nfh <= i,
            csw as int == const_width_sum_upto(ms, i as int),
            csh as int == const_height_sum_upto(ms, i as int),
            nfw as int == fill_width_count_upto(ms, i as int),
            nfh as int == fill_height_count_upto(ms, i as int),
        decreases len - i,
    {
        let m = children[i].data.layout;
        proof {
            assert(ms[i as int] == children@[i as int].data.layout);
            assert(in_i64(const_width_sum_upto(ms, i as int + 1)));
            assert(in_i64(const_height_sum_upto(ms, i as int + 1)));
        }
        match m.position {
            Position::Absolute(_, _) => {},
            _ => {
                match m.width {
                    Size::Constant(v) => {
                        csw = csw + v;
                    },
                    Size::Fill => {
                        nfw = nfw + 1;
                    },
                }
                match m.height {
                    Size::Constant(v) => {
                        csh = csh + v;
                    },
                    Size::Fill => {
                        nfh = nfh + 1;
                    },
                }
            },
        }
        i = i + 1;
    }
    // main-axis share for Fill flow children; no division happens when no
    // such child exists
    let mut auto_w: i64 = 0;
    let mut auto_h: i64 = 0;
    match data.layout.orientation {
        Orientation::Row => {
            auto_h = ph;
            if nfw > 0 {
                proof {
                    crate::layout::lemma_tdiv_bounds(pw - csw, nfw as int);
                }
                auto_w = (pw - csw) / (nfw as i64);
            }
        },
        Orientation::Column => {
            auto_w = pw;
            if nfh > 0 {
                proof {
                    crate::layout::lemma_tdiv_bounds(ph - csh, nfh as int);
                }
                auto_h = (ph - csh) / (nfh as i64);
            }
        },
    }
    // resolve each child's extents and position in sibling order, then its
    // own subtree against the finished box
    let mut rest = children;
    let mut done: Vec<Node<Component>> = Vec::new();
    let mut flow_main: i64 = 0;
    while rest.len() > 0
        invariant
            orig == node,
            len == orig.children@.len(),
            len <= i64::MAX,
            done@.len() + rest@.len() == len,
            rest@ == orig.children@.skip(done@.len() as int),
            ms == child_models(orig.children@),
            o_s == orig.data.layout.orientation,
            o_s == data.layout.orientation,
            node_fits(o_s, px as int, py as int, pw as int, ph as int, ms),
            csw as int == const_width_sum(ms),
            csh as int == const_height_sum(ms),
            nfw as int == fill_width_count(ms),
            nfh as int == fill_height_count(ms),
            o_s is Row ==> auto_h == ph,
            o_s is Column ==> auto_w == pw,
            o_s is Row && nfw > 0 ==> auto_w as int == tdiv(
                pw - const_width_sum(ms),
                fill_width_count(ms),
            ),
            o_s is Column && nfh > 0 ==> auto_h as int == tdiv(
                ph - const_height_sum(ms),
                fill_height_count(ms),
            ),
            flow_main as int == flow_offset(o_s, pw as int, ph as int, ms, done@.len() as int),
            forall|j: int|
                0 <= j < len ==> tree_fits(
                    #[trigger] orig.children@[j],
                    child_x(o_s, px as int, py as int, pw as int, ph as int, ms, j),
                    child_y(o_s, px as int, py as int, pw as int, ph as int, ms, j),
                    child_width(o_s, pw as int, ms, j),
                    child_height(o_s, ph as int, ms, j),
                ),
            forall|j: int|
                0 <= j < done@.len() ==> {
                    let d = #[trigger] done@[j];
                    &&& same_model(d, orig.children@[j])
                    &&& d.data.layout == orig.children@[j].data.layout
                    &&& d.data.style == orig.children@[j].data.style
                    &&& d.data.computed_layout.w() == child_width(o_s, pw as int, ms, j)
                    &&& d.data.computed_layout.h() == child_height(o_s, ph as int, ms, j)
                    &&& d.data.computed_layout.x() == child_x(
                        o_s,
                        px as int,
                        py as int,
                        pw as int,
                        ph as int,
                        ms,
                        j,
                    )
                    &&& d.data.computed_layout.y() == child_y(
                        o_s,
                        px as int,
                        py as int,
                        pw as int,
                        ph as int,
                        ms,
                        j,
                    )
                    &&& children_resolved(d)
                },
        decreases rest@.len(),
    {
        let idx = done.len();
        let c = rest.remove(0);
        proof {
            assert(c == orig.children@[idx as int]);
            assert(ms[idx as int] == orig.children@[idx as int].data.layout);
            assert(rest@ == orig.children@.skip(idx as int + 1));
        }
        let m = c.data.layout;
        // extents
        let cw: i64 = match m.width {
            Size::Constant(v) => v,
            Size::Fill => match m.position {
                Position::Absolute(_, _) => pw,
                _ => match data.layout.orientation {
                    Orientation::Row => auto_w,
                    Orientation::Column => pw,
                },
            },
        };
        let ch: i64 = match m.height {
            Size::Constant(v) => v,
            Size::Fill => match m.position {
                Position::Absolute(_, _) => ph,
                _ => match data.layout.orientation {
                    Orientation::Row => ph,
                    Orientation::Column => auto_h,
                },
            },
        };
        proof {
            if is_flow(m.position) && m.width is Fill && o_s is Row {
                lemma_fill_width_count_at_least_one(ms, idx as int);
            }
            if is_flow(m.position) && m.height is Fill && o_s is Column {
                lemma_fill_height_count_at_least_one(ms, idx as int);
            }
            assert(cw as int == child_width(o_s, pw as int, ms, idx as int));
            assert(ch as int == child_height(o_s, ph as int, ms, idx as int));
            assert(child_pos_fits(o_s, px as int, py as int, pw as int, ph as int, ms, idx as int));
            assert(in_i64(flow_offset(o_s, pw as int, ph as int, ms, idx as int + 1)));
        }
        // position
        let cx: i64;
        let cy: i64;
        match m.position {
            Position::Static => match data.layout.orientation {
                Orientation::Row => {
                    cx = px + flow_main;
                    cy = py;
                },
                Orientation::Column => {
                    cx = px;
                    cy = py + flow_main;
                },
            },
            Position::Relative(off) => match data.layout.orientation {
                Orientation::Row => {
                    cx = px + off.x + flow_main;
                    cy = py + off.y;
                },
                Orientation::Column => {
                    cx = px + off.x;
                    cy = py + off.y + flow_main;
                },
            },
            Position::Absolute(off, a) => {
                let ax: i64 = match anchor_x_exec(a, px, pw, cw) {
                    Some(v) => v,
                    None => vstd::pervasive::unreached(),
                };
                let ay: i64 = match anchor_y_exec(a, py, ph, ch) {
                    Some(v) => v,
                    None => vstd::pervasive::unreached(),
                };
                cx = ax + off.x;
                cy = ay + off.y;
            },
        }
        proof {
            assert(cx as int == child_x(o_s, px as int, py as int, pw as int, ph as int, ms, idx as int));
            assert(cy as int == child_y(o_s, px as int, py as int, pw as int, ph as int, ms, idx as int));
        }
        // advance the flow offset past this child
        match m.position {
            Position::Absolute(_, _) => {},
            _ => {
                match data.layout.orientation {
                    Orientation::Row => {
                        flow_main = flow_main + cw;
                    },
                    Orientation::Column => {
                        flow_main = flow_main + ch;
                    },
                }
            },
        }
        let finished = layout_node(c, cx, cy, cw, ch);
        done.push(finished);
    }
    let r = Node { data, children: done };
    proof {
        assert(child_models(r.children@) =~= ms);
        assert(same_model(r, orig));
        assert(children_resolved(r));
    }
    r
}

/// Resolves one layer against the screen: the root directly (`Constant`
/// keeps its value, `Fill` takes the screen extent; the position resolves
/// against the screen box), then every descendant top-down. A layer whose
/// arithmetic would overflow `i64` comes back unchanged.
fn layout_layer(tree: Node<Component>, sw: i64, sh: i64) -> (r: Node<Component>)
    ensures
        layer_outcome(r, tree, sw as int, sh as int),
{
    proof {
        lemma_same_model_reflexive(tree);
    }
    let m = tree.data.layout;
    let rw: i64 = match m.width {
        Size::Constant(v) => v,
        Size::Fill => sw,
    };
    let rh: i64 = match m.height {
        Size::Constant(v) => v,
        Size::Fill => sh,
    };
    let rx: i64;
    let ry: i64;
    match m.position {
        Position::Static => {
            rx = 0;
            ry = 0;
        },
        Position::Relative(off) => {
            rx = off.x;
            ry = off.y;
        },
        Position::Absolute(off, a) => {
            let ax: i64 = match anchor_x_exec(a, 0, sw, rw) {
                Some(v) => v,
                None => {
                    return tree;
                },
            };
            let ay: i64 = match anchor_y_exec(a, 0, sh, rh) {
                Some(v) => v,
                None => {
                    return tree;
                },
            };
            match ax.checked_add(off.x) {
                Some(v) => {
                    rx = v;
                },
                None => {
                    return tree;
                },
            }
            match ay.checked_add(off.y) {
                Some(v) => {
                    ry = v;
                },
                None => {
                    return tree;
                },
            }
        },
    }
    proof {
        assert(rw as int == root_width(m, sw as int));
        assert(rh as int == root_height(m, sh as int));
        assert(rx as int == root_x(m, sw as int, sh as int));
        assert(ry as int == root_y(m, sw as int, sh as int));
    }
    if !tree_fits_exec(&tree, rx, ry, rw, rh) {
        return tree;
    }
    layout_node(tree, rx, ry, rw, rh)
}

impl Components {
    /// One full layout pass: derives every layer's computed boxes from the
    /// authored models and the current screen dimensions, from scratch.
    /// Nothing is carried over from earlier passes; the authored models and
    /// styles are never touched. A layer whose resolution would leave `i64`
    /// (`layer_fits` fails) is left exactly as it was.
    pub fn compute_layout(&mut self, screen: Dimensions)
        ensures
            final(self).layers@.len() == old(self).layers@.len(),
            forall|k: int|
                0 <= k < old(self).layers@.len() ==> layer_outcome(
                    (#[trigger] final(self).layers@[k]).component_tree,
                    old(self).layers@[k].component_tree,
                    screen.width as int,
                    screen.height as int,
                ),
    {
        let mut k: usize = 0;
        while k < self.layers.len()
            invariant
                self.layers@.len() == old(self).layers@.len(),
                k <= self.layers@.len(),
                forall|j: int|
                    0 <= j < k ==> layer_outcome(
                        (#[trigger] self.layers@[j]).component_tree,
                        old(self).layers@[j].component_tree,
                        screen.width as int,
                        screen.height as int,
                    ),
                forall|j: int|
                    k <= j < self.layers@.len() ==> (#[trigger] self.layers@[j])
                        == old(self).layers@[j],
            decreases self.layers@.len() - k,
        {
            let ghost before = self.layers@;
            let layer = self.layers.remove(k);
            let tree = layout_layer(layer.component_tree, screen.width, screen.height);
            self.layers.insert(k, Layer { component_tree: tree });
            proof {
                assert(self.layers@ =~= before.update(k as int, self.layers@[k as int]));
            }
            k = k + 1;
        }
    }
}

} // verus!
