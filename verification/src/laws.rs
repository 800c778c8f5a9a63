//! Engine-wide laws, stated and proved over the same specification functions
//! the engine's contracts use: how main-axis space is distributed, that
//! absolute children are invisible to the flow, and that resolution is
//! deterministic (so repeating a pass with unchanged inputs changes nothing).

use vstd::prelude::*;

use crate::component::{
    child_models, children_resolved, layer_fits, layer_outcome, root_resolved, same_model,
    same_tree, tree_fits,
};
use crate::component::Component;
use crate::layout::{
    child_height, child_width, child_x, child_y, const_height_sum, const_height_sum_upto,
    const_width_sum, const_width_sum_upto, fill_height_count, fill_height_count_upto,
    fill_width_count, fill_width_count_upto, flow_offset, is_flow,
    lemma_fill_height_count_at_least_one, lemma_fill_width_count_at_least_one, lemma_tdiv_tmod,
    root_height, root_width, root_x, root_y, tdiv, tmod, Layout, Orientation,
};
use crate::tree::Node;

verus! {

/// Row distribution: in a row, every `Fill`-width flow child receives the
/// same share — the parent width minus the flow children's constant widths,
/// divided toward zero by the number of `Fill`-width flow children — and
/// constants plus shares recompose the parent width exactly, up to the
/// division remainder, whose magnitude stays below the number of shares.
pub proof fn lemma_row_distribution(pw: int, ms: Seq<Layout>, i: int)
    requires
        0 <= i < ms.len(),
        is_flow(ms[i].position),
        ms[i].width is Fill,
    ensures
        fill_width_count(ms) >= 1,
        child_width(Orientation::Row, pw, ms, i) == tdiv(
            pw - const_width_sum(ms),
            fill_width_count(ms),
        ),
        const_width_sum(ms) + fill_width_count(ms) * child_width(Orientation::Row, pw, ms, i)
            + tmod(pw - const_width_sum(ms), fill_width_count(ms)) == pw,
        -fill_width_count(ms) < tmod(pw - const_width_sum(ms), fill_width_count(ms))
            < fill_width_count(ms),
{
    lemma_fill_width_count_at_least_one(ms, i);
    lemma_tdiv_tmod(pw - const_width_sum(ms), fill_width_count(ms));
}

/// Column distribution: symmetric to `lemma_row_distribution` with the axes
/// swapped.
pub proof fn lemma_column_distribution(ph: int, ms: Seq<Layout>, i: int)
    requires
        0 <= i < ms.len(),
        is_flow(ms[i].position),
        ms[i].height is Fill,
    ensures
        fill_height_count(ms) >= 1,
        child_height(Orientation::Column, ph, ms, i) == tdiv(
            ph - const_height_sum(ms),
            fill_height_count(ms),
        ),
        const_height_sum(ms) + fill_height_count(ms) * child_height(Orientation::Column, ph, ms, i)
            + tmod(ph - const_height_sum(ms), fill_height_count(ms)) == ph,
        -fill_height_count(ms) < tmod(ph - const_height_sum(ms), fill_height_count(ms))
            < fill_height_count(ms),
{
    lemma_fill_height_count_at_least_one(ms, i);
    lemma_tdiv_tmod(ph - const_height_sum(ms), fill_height_count(ms));
}

/// Prefixes that stop before the insertion point see the same sums and
/// counts.
proof fn lemma_insert_sums_prefix(ms: Seq<Layout>, a: Layout, j: int, k: int)
    requires
        0 <= k <= j <= ms.len(),
    ensures
        const_width_sum_upto(ms.insert(j, a), k) == const_width_sum_upto(ms, k),
        const_height_sum_upto(ms.insert(j, a), k) == const_height_sum_upto(ms, k),
        fill_width_count_upto(ms.insert(j, a), k) == fill_width_count_upto(ms, k),
        fill_height_count_upto(ms.insert(j, a), k) == fill_height_count_upto(ms, k),
    decreases k,
{
    ms.insert_ensures(j, a);
    if k > 0 {
        lemma_insert_sums_prefix(ms, a, j, k - 1);
    }
}

/// Past an inserted `Absolute` layout, sums and counts are those of the
/// original prefix: the inserted sibling contributes nothing.
proof fn lemma_insert_sums_suffix(ms: Seq<Layout>, a: Layout, j: int, k: int)
    requires
        0 <= j <= k <= ms.len(),
        !is_flow(a.position),
    ensures
        const_width_sum_upto(ms.insert(j, a), k + 1) == const_width_sum_upto(ms, k),
        const_height_sum_upto(ms.insert(j, a), k + 1) == const_height_sum_upto(ms, k),
        fill_width_count_upto(ms.insert(j, a), k + 1) == fill_width_count_upto(ms, k),
        fill_height_count_upto(ms.insert(j, a), k + 1) == fill_height_count_upto(ms, k),
    decreases k - j,
{
    ms.insert_ensures(j, a);
    if k == j {
        lemma_insert_sums_prefix(ms, a, j, j);
    } else {
        lemma_insert_sums_suffix(ms, a, j, k - 1);
    }
}

/// The whole-sequence sums and counts ignore an inserted `Absolute` layout.
proof fn lemma_insert_sums(ms: Seq<Layout>, a: Layout, j: int)
    requires
        0 <= j <= ms.len(),
        !is_flow(a.position),
    ensures
        const_width_sum(ms.insert(j, a)) == const_width_sum(ms),
        const_height_sum(ms.insert(j, a)) == const_height_sum(ms),
        fill_width_count(ms.insert(j, a)) == fill_width_count(ms),
        fill_height_count(ms.insert(j, a)) == fill_height_count(ms),
{
    ms.insert_ensures(j, a);
    lemma_insert_sums_suffix(ms, a, j, ms.len() as int);
}

/// Each original child resolves to the same extents after the insertion.
proof fn lemma_insert_extents(o: Orientation, pw: int, ph: int, ms: Seq<Layout>, a: Layout, j: int, i: int)
    requires
        0 <= j <= ms.len(),
        !is_flow(a.position),
        0 <= i < ms.len(),
    ensures
        child_width(o, pw, ms.insert(j, a), if i < j { i } else { i + 1 }) == child_width(
            o,
            pw,
            ms,
            i,
        ),
        child_height(o, ph, ms.insert(j, a), if i < j { i } else { i + 1 }) == child_height(
            o,
            ph,
            ms,
            i,
        ),
{
    ms.insert_ensures(j, a);
    lemma_insert_sums(ms, a, j);
}

/// The running flow offset at each original child is unchanged by the
/// insertion: the `Absolute` sibling neither consumes nor advances it.
proof fn lemma_insert_flow_offset(o: Orientation, pw: int, ph: int, ms: Seq<Layout>, a: Layout, j: int, k: int)
    requires
        0 <= j <= ms.len(),
        !is_flow(a.position),
        0 <= k <= ms.len(),
    ensures
        k <= j ==> flow_offset(o, pw, ph, ms.insert(j, a), k) == flow_offset(o, pw, ph, ms, k),
        k >= j ==> flow_offset(o, pw, ph, ms.insert(j, a), k + 1) == flow_offset(o, pw, ph, ms, k),
    decreases k,
{
    ms.insert_ensures(j, a);
    let ns = ms.insert(j, a);
    if k == 0 {
        if j == 0 {
            // the inserted element is absolute: crossing it advances nothing
            assert(ns[0] == a);
            assert(flow_offset(o, pw, ph, ns, 1) == flow_offset(o, pw, ph, ns, 0));
        }
    } else {
        lemma_insert_flow_offset(o, pw, ph, ms, a, j, k - 1);
        if k <= j {
            lemma_insert_extents(o, pw, ph, ms, a, j, k - 1);
            assert(ns[k - 1] == ms[k - 1]);
            assert(flow_offset(o, pw, ph, ns, k) == flow_offset(o, pw, ph, ms, k));
        }
        if k == j {
            assert(ns[j] == a);
            assert(flow_offset(o, pw, ph, ns, k + 1) == flow_offset(o, pw, ph, ns, k));
        }
        if k > j {
            lemma_insert_extents(o, pw, ph, ms, a, j, k - 1);
            assert(ns[k] == ms[k - 1]);
            assert(child_width(o, pw, ns, k) == child_width(o, pw, ms, k - 1));
            assert(child_height(o, ph, ns, k) == child_height(o, ph, ms, k - 1));
            assert(flow_offset(o, pw, ph, ns, k) == flow_offset(o, pw, ph, ms, k - 1));
            assert(flow_offset(o, pw, ph, ns, k + 1) == flow_offset(o, pw, ph, ms, k));
        }
    }
}

/// Absolute independence: inserting an `Absolute`-positioned sibling at any
/// index among a node's children contributes nothing to the constant totals
/// or `Fill` counts on either axis, and leaves every original child's
/// resolved extents, running flow offset, and resolved position unchanged.
pub proof fn lemma_absolute_sibling_independent(
    o: Orientation,
    px: int,
    py: int,
    pw: int,
    ph: int,
    ms: Seq<Layout>,
    a: Layout,
    j: int,
    i: int,
)
    requires
        0 <= j <= ms.len(),
        !is_flow(a.position),
        0 <= i < ms.len(),
    ensures
        const_width_sum(ms.insert(j, a)) == const_width_sum(ms),
        const_height_sum(ms.insert(j, a)) == const_height_sum(ms),
        fill_width_count(ms.insert(j, a)) == fill_width_count(ms),
        fill_height_count(ms.insert(j, a)) == fill_height_count(ms),
        ({
            let k = if i < j { i } else { i + 1 };
            &&& child_width(o, pw, ms.insert(j, a), k) == child_width(o, pw, ms, i)
            &&& child_height(o, ph, ms.insert(j, a), k) == child_height(o, ph, ms, i)
            &&& flow_offset(o, pw, ph, ms.insert(j, a), k) == flow_offset(o, pw, ph, ms, i)
            &&& child_x(o, px, py, pw, ph, ms.insert(j, a), k) == child_x(o, px, py, pw, ph, ms, i)
            &&& child_y(o, px, py, pw, ph, ms.insert(j, a), k) == child_y(o, px, py, pw, ph, ms, i)
        }),
{
    ms.insert_ensures(j, a);
    lemma_insert_sums(ms, a, j);
    lemma_insert_extents(o, pw, ph, ms, a, j, i);
    lemma_insert_flow_offset(o, pw, ph, ms, a, j, i);
}

/// Every tree agrees with itself.
proof fn lemma_same_tree_reflexive(n: Node<Component>)
    ensures
        same_tree(n, n),
    decreases n,
{
    assert forall|i: int| 0 <= i < n.children@.len() implies same_tree(
        #[trigger] n.children@[i],
        n.children@[i],
    ) by {
        lemma_same_tree_reflexive(n.children@[i]);
    }
}

/// `tree_fits` reads only the authored model, never a stored computed box:
/// trees with the same model fit or fail together.
proof fn lemma_tree_fits_model(a: Node<Component>, b: Node<Component>, px: int, py: int, pw: int, ph: int)
    requires
        same_model(a, b),
    ensures
        tree_fits(a, px, py, pw, ph) == tree_fits(b, px, py, pw, ph),
    decreases a,
{
    let msa = child_models(a.children@);
    let msb = child_models(b.children@);
    assert forall|i: int| 0 <= i < a.children@.len() implies #[trigger] msa[i] == msb[i] by {
        assert(same_model(a.children@[i], b.children@[i]));
    }
    assert(msa =~= msb);
    assert forall|i: int| 0 <= i < a.children@.len() implies tree_fits(
        #[trigger] a.children@[i],
        child_x(a.data.layout.orientation, px, py, pw, ph, msa, i),
        child_y(a.data.layout.orientation, px, py, pw, ph, msa, i),
        child_width(a.data.layout.orientation, pw, msa, i),
        child_height(a.data.layout.orientation, ph, msa, i),
    ) == tree_fits(
        b.children@[i],
        child_x(a.data.layout.orientation, px, py, pw, ph, msa, i),
        child_y(a.data.layout.orientation, px, py, pw, ph, msa, i),
        child_width(a.data.layout.orientation, pw, msa, i),
        child_height(a.data.layout.orientation, ph, msa, i),
    ) by {
        lemma_tree_fits_model(
            a.children@[i],
            b.children@[i],
            child_x(a.data.layout.orientation, px, py, pw, ph, msa, i),
            child_y(a.data.layout.orientation, px, py, pw, ph, msa, i),
            child_width(a.data.layout.orientation, pw, msa, i),
            child_height(a.data.layout.orientation, ph, msa, i),
        );
    }
}

/// Determinism of resolution: two trees with the same authored model and the
/// same stored box at the root, both of which satisfy the resolution rules
/// below the root, agree at every node.
pub proof fn lemma_resolution_unique(a: Node<Component>, b: Node<Component>)
    requires
        same_model(a, b),
        a.data.computed_layout == b.data.computed_layout,
        children_resolved(a),
        children_resolved(b),
    ensures
        same_tree(a, b),
    decreases a,
{
    let msa = child_models(a.children@);
    let msb = child_models(b.children@);
    assert forall|i: int| 0 <= i < a.children@.len() implies #[trigger] msa[i] == msb[i] by {
        assert(same_model(a.children@[i], b.children@[i]));
    }
    assert(msa =~= msb);
    assert forall|i: int| 0 <= i < a.children@.len() implies same_tree(
        #[trigger] a.children@[i],
        b.children@[i],
    ) by {
        let ca = a.children@[i];
        let cb = b.children@[i];
        assert(same_model(ca, cb));
        assert(ca.data.computed_layout.position.x == cb.data.computed_layout.position.x);
        assert(ca.data.computed_layout.position.y == cb.data.computed_layout.position.y);
        assert(ca.data.computed_layout.width == cb.data.computed_layout.width);
        assert(ca.data.computed_layout.height == cb.data.computed_layout.height);
        assert(ca.data.computed_layout == cb.data.computed_layout);
        lemma_resolution_unique(ca, cb);
    }
    assert(a.data == b.data);
}

/// Idempotence: a second engine pass with unchanged inputs reproduces the
/// first pass's computed layout at every node, bit for bit. `t1` is the tree
/// one pass derives from `t0`, and `t2` the tree a further pass derives from
/// `t1`; the screen is the same both times.
pub proof fn lemma_layout_idempotent(
    t0: Node<Component>,
    t1: Node<Component>,
    t2: Node<Component>,
    sw: int,
    sh: int,
)
    requires
        layer_outcome(t1, t0, sw, sh),
        layer_outcome(t2, t1, sw, sh),
    ensures
        same_tree(t2, t1),
{
    if layer_fits(t0, sw, sh) {
        // fitting depends only on the model, which the first pass kept
        assert(t1.data.layout == t0.data.layout);
        lemma_tree_fits_model(
            t1,
            t0,
            root_x(t0.data.layout, sw, sh),
            root_y(t0.data.layout, sw, sh),
            root_width(t0.data.layout, sw),
            root_height(t0.data.layout, sh),
        );
        assert(layer_fits(t1, sw, sh));
        assert(root_resolved(t1, sw, sh));
        assert(root_resolved(t2, sw, sh));
        assert(t2.data.layout == t1.data.layout);
        assert(t2.data.computed_layout.position.x == t1.data.computed_layout.position.x);
        assert(t2.data.computed_layout.position.y == t1.data.computed_layout.position.y);
        assert(t2.data.computed_layout.width == t1.data.computed_layout.width);
        assert(t2.data.computed_layout.height == t1.data.computed_layout.height);
        assert(t2.data.computed_layout == t1.data.computed_layout);
        lemma_resolution_unique(t2, t1);
    } else {
        assert(t1 == t0);
        assert(!layer_fits(t1, sw, sh));
        assert(t2 == t1);
        lemma_same_tree_reflexive(t1);
    }
}

} // verus!
