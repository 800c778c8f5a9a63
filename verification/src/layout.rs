//! The declarative layout model authored per element, the derived
//! screen-space box per element, and the pure arithmetic that turns one into
//! the other.
//!
//! All coordinates are whole pixels (`i64`), with a top-left origin and `y`
//! growing downward. The specification functions in this module state the
//! sizing and positioning rules over unbounded integers (`int`); the layout
//! engine in `component` is proved to compute exactly these functions
//! whenever every intermediate value fits in `i64`.

use vstd::prelude::*;

verus! {

/// The authored layout configuration of one element; immutable during a pass.
#[derive(Debug, Clone, Copy, PartialEq)]
pub struct Layout {
    /// Main-axis direction used to flow this node's own children.
    pub orientation: Orientation,
    /// How this node is placed relative to its parent.
    pub position: Position,
    /// Per-axis sizing rule for this node, resolved by its parent.
    pub width: Size,
    /// Per-axis sizing rule for this node, resolved by its parent.
    pub height: Size,
    /// Reserved; not consumed by the sizing math.
    pub padding: Padding,
}

/// The derived screen-space box of one element, overwritten every pass.
/// Valid only after a full engine pass.
#[derive(Debug, Clone, Copy, PartialEq)]
pub struct ComputedLayout {
    /// The top-left corner of this element's box.
    pub position: Point,
    pub width: i64,
    pub height: i64,
}

/// A per-axis sizing rule.
#[derive(Debug, Clone, Copy, PartialEq)]
pub enum Size {
    /// A fixed extent in pixels.
    Constant(i64),
    /// Share the parent extent left over after constant-sized siblings.
    Fill,
}

/// Determines how children of an element are flowed.
#[derive(Debug, Clone, Copy, PartialEq)]
pub enum Orientation {
    /// Children are placed side-by-side, left to right, in insertion order.
    Row,
    /// Children are placed vertically, top to bottom, in insertion order.
    Column,
}

/// Determines the rule by which an element's screen position is computed.
#[derive(Debug, Clone, Copy, PartialEq)]
pub enum Position {
    /// The default flow: siblings are placed next to each other inside the
    /// parent, in insertion order.
    Static,
    /// The default flow, but rendered with an explicit offset; siblings are
    /// not perturbed by the offset.
    Relative(Offset),
    /// Ignores the flow entirely: placed against an anchor point of the
    /// parent's box, plus an explicit offset.
    Absolute(Offset, Anchor),
}

/// A reference point on the parent's box: the four corners and the four
/// edge midpoints.
#[derive(Debug, Clone, Copy, PartialEq)]
pub enum Anchor {
    Top,
    TopRight,
    Right,
    BottomRight,
    Bottom,
    BottomLeft,
    Left,
    TopLeft,
}

#[derive(Debug, Clone, Copy, PartialEq)]
pub struct Offset {
    pub x: i64,
    pub y: i64,
}

impl Offset {
    pub fn new(x: i64, y: i64) -> (r: Self)
        ensures
            r.x == x,
            r.y == y,
    {
        Self { x, y }
    }

    pub fn none() -> (r: Self)
        ensures
            r.x == 0,
            r.y == 0,
    {
        Self { x: 0, y: 0 }
    }
}

#[derive(Debug, Clone, Copy, PartialEq)]
pub struct Point {
    pub x: i64,
    pub y: i64,
}

impl Default for Point {
    fn default() -> (r: Self)
        ensures
            r.x == 0,
            r.y == 0,
    {
        Self { x: 0, y: 0 }
    }
}

/// The extents of a drawing surface.
#[derive(Debug, Clone, Copy, PartialEq)]
pub struct Dimensions {
    pub width: i64,
    pub height: i64,
}

#[derive(Debug, Clone, Copy, PartialEq)]
pub struct Padding {
    pub top: i64,
    pub right: i64,
    pub bottom: i64,
    pub left: i64,
}

impl Padding {
    pub fn none() -> (r: Self)
        ensures
            r.top == 0,
            r.right == 0,
            r.bottom == 0,
            r.left == 0,
    {
        Self { top: 0, right: 0, bottom: 0, left: 0 }
    }
}

impl Default for ComputedLayout {
    fn default() -> (r: Self)
        ensures
            r.position.x == 0,
            r.position.y == 0,
            r.width == 0,
            r.height == 0,
    {
        Self { position: Point { x: 0, y: 0 }, width: 0, height: 0 }
    }
}

impl ComputedLayout {
    /// The stored x coordinate, as a mathematical integer.
    pub open spec fn x(self) -> int {
        self.position.x as int
    }

    /// The stored y coordinate, as a mathematical integer.
    pub open spec fn y(self) -> int {
        self.position.y as int
    }

    /// The stored width, as a mathematical integer.
    pub open spec fn w(self) -> int {
        self.width as int
    }

    /// The stored height, as a mathematical integer.
    pub open spec fn h(self) -> int {
        self.height as int
    }
}

/// Whether `v` is representable as an `i64`.
pub open spec fn in_i64(v: int) -> bool {
    i64::MIN <= v <= i64::MAX
}

/// Division truncating toward zero: the meaning of `/` on `i64` operands.
pub open spec fn tdiv(a: int, b: int) -> int
    recommends
        b >= 1,
{
    if a >= 0 {
        a / b
    } else {
        -((-a) / b)
    }
}

/// The remainder matching `tdiv`: `a == b * tdiv(a, b) + tmod(a, b)`.
pub open spec fn tmod(a: int, b: int) -> int
    recommends
        b >= 1,
{
    a - b * tdiv(a, b)
}

/// A flow child participates in main-axis space distribution and offset
/// accumulation; an `Absolute` child does not.
pub open spec fn is_flow(p: Position) -> bool {
    !(p is Absolute)
}

/// What layout `m` adds to its siblings' constant-width total: its constant
/// width if it is a flow child with a constant width, otherwise nothing.
pub open spec fn const_width_contrib(m: Layout) -> int {
    if is_flow(m.position) {
        match m.width {
            Size::Constant(v) => v as int,
            Size::Fill => 0,
        }
    } else {
        0
    }
}

/// See `const_width_contrib`.
pub open spec fn const_height_contrib(m: Layout) -> int {
    if is_flow(m.position) {
        match m.height {
            Size::Constant(v) => v as int,
            Size::Fill => 0,
        }
    } else {
        0
    }
}

/// The sum of constant widths over the flow children among the first `i`
/// of the sibling layouts `ms`.
pub open spec fn const_width_sum_upto(ms: Seq<Layout>, i: int) -> int
    decreases i,
{
    if i <= 0 {
        0
    } else {
        const_width_sum_upto(ms, i - 1) + const_width_contrib(ms[i - 1])
    }
}

/// See `const_width_sum_upto`.
pub open spec fn const_height_sum_upto(ms: Seq<Layout>, i: int) -> int
    decreases i,
{
    if i <= 0 {
        0
    } else {
        const_height_sum_upto(ms, i - 1) + const_height_contrib(ms[i - 1])
    }
}

/// The sum of constant widths over all flow children of `ms`.
pub open spec fn const_width_sum(ms: Seq<Layout>) -> int {
    const_width_sum_upto(ms, ms.len() as int)
}

/// The sum of constant heights over all flow children of `ms`.
pub open spec fn const_height_sum(ms: Seq<Layout>) -> int {
    const_height_sum_upto(ms, ms.len() as int)
}

/// The number of flow children with `Fill` width among the first `i` of `ms`.
pub open spec fn fill_width_count_upto(ms: Seq<Layout>, i: int) -> int
    decreases i,
{
    if i <= 0 {
        0
    } else {
        fill_width_count_upto(ms, i - 1) + if is_flow(ms[i - 1].position) && ms[i - 1].width is Fill {
            1int
        } else {
            0
        }
    }
}

/// See `fill_width_count_upto`.
pub open spec fn fill_height_count_upto(ms: Seq<Layout>, i: int) -> int
    decreases i,
{
    if i <= 0 {
        0
    } else {
        fill_height_count_upto(ms, i - 1) + if is_flow(ms[i - 1].position) && ms[i - 1].height is Fill {
            1int
        } else {
            0
        }
    }
}

/// The number of flow children of `ms` with `Fill` width.
pub open spec fn fill_width_count(ms: Seq<Layout>) -> int {
    fill_width_count_upto(ms, ms.len() as int)
}

/// The number of flow children of `ms` with `Fill` height.
pub open spec fn fill_height_count(ms: Seq<Layout>) -> int {
    fill_height_count_upto(ms, ms.len() as int)
}

/// The resolved width of the child with sibling layouts `ms` at index `i`,
/// under a parent of width `pw` whose children flow in orientation `o`:
/// a constant width keeps its literal value; a `Fill` width resolves to the
/// parent width for an absolute child and for a flow child on the cross
/// axis, and to an equal share of the parent width left over after the
/// constant-width flow siblings when width is the main axis.
pub open spec fn child_width(o: Orientation, pw: int, ms: Seq<Layout>, i: int) -> int
    recommends
        0 <= i < ms.len(),
{
    match ms[i].width {
        Size::Constant(v) => v as int,
        Size::Fill => if !is_flow(ms[i].position) {
            pw
        } else {
            match o {
                Orientation::Row => tdiv(pw - const_width_sum(ms), fill_width_count(ms)),
                Orientation::Column => pw,
            }
        },
    }
}

/// See `child_width`; heights are the main axis when `o` is `Column`.
pub open spec fn child_height(o: Orientation, ph: int, ms: Seq<Layout>, i: int) -> int
    recommends
        0 <= i < ms.len(),
{
    match ms[i].height {
        Size::Constant(v) => v as int,
        Size::Fill => if !is_flow(ms[i].position) {
            ph
        } else {
            match o {
                Orientation::Row => ph,
                Orientation::Column => tdiv(ph - const_height_sum(ms), fill_height_count(ms)),
            }
        },
    }
}

/// The running main-axis flow offset before the child at index `i` is
/// placed: the sum of the resolved main-axis extents of the flow children
/// before it. Absolute children neither consume nor advance it.
pub open spec fn flow_offset(o: Orientation, pw: int, ph: int, ms: Seq<Layout>, i: int) -> int
    decreases i,
{
    if i <= 0 {
        0
    } else {
        flow_offset(o, pw, ph, ms, i - 1) + if is_flow(ms[i - 1].position) {
            match o {
                Orientation::Row => child_width(o, pw, ms, i - 1),
                Orientation::Column => child_height(o, ph, ms, i - 1),
            }
        } else {
            0
        }
    }
}

/// The x coordinate of the anchor point for a child of extent `w` against a
/// parent box starting at `px` with extent `pw`.
pub open spec fn anchor_x(a: Anchor, px: int, pw: int, w: int) -> int {
    match a {
        Anchor::TopLeft | Anchor::Left | Anchor::BottomLeft => px,
        Anchor::Top | Anchor::Bottom => px + tdiv(pw - w, 2),
        Anchor::TopRight | Anchor::Right | Anchor::BottomRight => px + (pw - w),
    }
}

/// The y coordinate of the anchor point for a child of extent `h` against a
/// parent box starting at `py` with extent `ph`.
pub open spec fn anchor_y(a: Anchor, py: int, ph: int, h: int) -> int {
    match a {
        Anchor::TopLeft | Anchor::Top | Anchor::TopRight => py,
        Anchor::Left | Anchor::Right => py + tdiv(ph - h, 2),
        Anchor::BottomLeft | Anchor::Bottom | Anchor::BottomRight => py + (ph - h),
    }
}

/// The resolved x position of the child at index `i` under a parent box
/// at `(px, py)` with extents `(pw, ph)` flowing its children in `o`.
pub open spec fn child_x(o: Orientation, px: int, py: int, pw: int, ph: int, ms: Seq<Layout>, i: int) -> int
    recommends
        0 <= i < ms.len(),
{
    match ms[i].position {
        Position::Static => match o {
            Orientation::Row => px + flow_offset(o, pw, ph, ms, i),
            Orientation::Column => px,
        },
        Position::Relative(off) => match o {
            Orientation::Row => px + off.x + flow_offset(o, pw, ph, ms, i),
            Orientation::Column => px + off.x,
        },
        Position::Absolute(off, a) => anchor_x(a, px, pw, child_width(o, pw, ms, i)) + off.x,
    }
}

/// See `child_x`.
pub open spec fn child_y(o: Orientation, px: int, py: int, pw: int, ph: int, ms: Seq<Layout>, i: int) -> int
    recommends
        0 <= i < ms.len(),
{
    match ms[i].position {
        Position::Static => match o {
            Orientation::Row => py,
            Orientation::Column => py + flow_offset(o, pw, ph, ms, i),
        },
        Position::Relative(off) => match o {
            Orientation::Row => py + off.y,
            Orientation::Column => py + off.y + flow_offset(o, pw, ph, ms, i),
        },
        Position::Absolute(off, a) => anchor_y(a, py, ph, child_height(o, ph, ms, i)) + off.y,
    }
}

/// The resolved width of a layer's root against screen width `sw`.
pub open spec fn root_width(m: Layout, sw: int) -> int {
    match m.width {
        Size::Constant(v) => v as int,
        Size::Fill => sw,
    }
}

/// The resolved height of a layer's root against screen height `sh`.
pub open spec fn root_height(m: Layout, sh: int) -> int {
    match m.height {
        Size::Constant(v) => v as int,
        Size::Fill => sh,
    }
}

/// The resolved x position of a layer's root: the screen acts as the parent
/// box, with the root's own resolved extents as the child box.
pub open spec fn root_x(m: Layout, sw: int, sh: int) -> int {
    match m.position {
        Position::Static => 0,
        Position::Relative(off) => off.x as int,
        Position::Absolute(off, a) => anchor_x(a, 0, sw, root_width(m, sw)) + off.x,
    }
}

/// See `root_x`.
pub open spec fn root_y(m: Layout, sw: int, sh: int) -> int {
    match m.position {
        Position::Static => 0,
        Position::Relative(off) => off.y as int,
        Position::Absolute(off, a) => anchor_y(a, 0, sh, root_height(m, sh)) + off.y,
    }
}

/// Truncation never grows magnitude: `tdiv(a, b)` lies between 0 and `a`.
pub proof fn lemma_tdiv_bounds(a: int, b: int)
    requires
        b >= 1,
    ensures
        a >= 0 ==> 0 <= tdiv(a, b) <= a,
        a < 0 ==> a <= tdiv(a, b) <= 0,
{
    if a >= 0 {
        vstd::arithmetic::div_mod::lemma_div_pos_is_pos(a, b);
        vstd::arithmetic::div_mod::lemma_div_nonincreasing(a, b);
    } else {
        vstd::arithmetic::div_mod::lemma_div_pos_is_pos(-a, b);
        vstd::arithmetic::div_mod::lemma_div_nonincreasing(-a, b);
    }
}

/// `tdiv` and `tmod` recompose the dividend, and the remainder's magnitude
/// stays below the divisor, with the sign of the dividend.
pub proof fn lemma_tdiv_tmod(a: int, b: int)
    requires
        b >= 1,
    ensures
        a == b * tdiv(a, b) + tmod(a, b),
        a >= 0 ==> 0 <= tmod(a, b) < b,
        a < 0 ==> -b < tmod(a, b) <= 0,
{
    if a >= 0 {
        vstd::arithmetic::div_mod::lemma_fundamental_div_mod(a, b);
        vstd::arithmetic::div_mod::lemma_mod_division_less_than_divisor(a, b);
    } else {
        let q = (-a) / b;
        vstd::arithmetic::div_mod::lemma_fundamental_div_mod(-a, b);
        vstd::arithmetic::div_mod::lemma_mod_division_less_than_divisor(-a, b);
        assert(b * -q == -(b * q)) by (nonlinear_arith);
    }
}

/// The running count of `Fill` widths never decreases as the prefix grows.
pub proof fn lemma_fill_width_count_monotonic(ms: Seq<Layout>, j1: int, j2: int)
    requires
        0 <= j1 <= j2,
    ensures
        fill_width_count_upto(ms, j1) <= fill_width_count_upto(ms, j2),
    decreases j2 - j1,
{
    if j1 < j2 {
        lemma_fill_width_count_monotonic(ms, j1, j2 - 1);
    }
}

/// See `lemma_fill_width_count_monotonic`.
pub proof fn lemma_fill_height_count_monotonic(ms: Seq<Layout>, j1: int, j2: int)
    requires
        0 <= j1 <= j2,
    ensures
        fill_height_count_upto(ms, j1) <= fill_height_count_upto(ms, j2),
    decreases j2 - j1,
{
    if j1 < j2 {
        lemma_fill_height_count_monotonic(ms, j1, j2 - 1);
    }
}

/// A flow child with `Fill` width witnesses that the whole count is positive.
pub proof fn lemma_fill_width_count_at_least_one(ms: Seq<Layout>, i: int)
    requires
        0 <= i < ms.len(),
        is_flow(ms[i].position),
        ms[i].width is Fill,
    ensures
        fill_width_count(ms) >= 1,
{
    lemma_fill_width_count_monotonic(ms, 0, i);
    lemma_fill_width_count_monotonic(ms, i + 1, ms.len() as int);
}

/// See `lemma_fill_width_count_at_least_one`.
pub proof fn lemma_fill_height_count_at_least_one(ms: Seq<Layout>, i: int)
    requires
        0 <= i < ms.len(),
        is_flow(ms[i].position),
        ms[i].height is Fill,
    ensures
        fill_height_count(ms) >= 1,
{
    lemma_fill_height_count_monotonic(ms, 0, i);
    lemma_fill_height_count_monotonic(ms, i + 1, ms.len() as int);
}

/// Whether the intermediate values of `anchor_x` fit in `i64`.
pub open spec fn anchor_x_fits(a: Anchor, px: int, pw: int, w: int) -> bool {
    match a {
        Anchor::TopLeft | Anchor::Left | Anchor::BottomLeft => true,
        _ => in_i64(pw - w) && in_i64(anchor_x(a, px, pw, w)),
    }
}

/// Whether the intermediate values of `anchor_y` fit in `i64`.
pub open spec fn anchor_y_fits(a: Anchor, py: int, ph: int, h: int) -> bool {
    match a {
        Anchor::TopLeft | Anchor::Top | Anchor::TopRight => true,
        _ => in_i64(ph - h) && in_i64(anchor_y(a, py, ph, h)),
    }
}

/// Whether every intermediate value in computing the position of child `i`
/// fits in `i64`.
pub open spec fn child_pos_fits(o: Orientation, px: int, py: int, pw: int, ph: int, ms: Seq<Layout>, i: int) -> bool
    recommends
        0 <= i < ms.len(),
{
    match ms[i].position {
        Position::Static => match o {
            Orientation::Row => in_i64(px + flow_offset(o, pw, ph, ms, i)),
            Orientation::Column => in_i64(py + flow_offset(o, pw, ph, ms, i)),
        },
        Position::Relative(off) => in_i64(px + off.x) && in_i64(py + off.y) && match o {
            Orientation::Row => in_i64(px + off.x + flow_offset(o, pw, ph, ms, i)),
            Orientation::Column => in_i64(py + off.y + flow_offset(o, pw, ph, ms, i)),
        },
        Position::Absolute(off, a) => {
            let w = child_width(o, pw, ms, i);
            let h = child_height(o, ph, ms, i);
            anchor_x_fits(a, px, pw, w) && anchor_y_fits(a, py, ph, h) && in_i64(
                anchor_x(a, px, pw, w) + off.x,
            ) && in_i64(anchor_y(a, py, ph, h) + off.y)
        },
    }
}

/// Whether every intermediate value in resolving the direct children of a
/// node with box `(px, py, pw, ph)`, orientation `o` and child layouts `ms`
/// fits in `i64`.
pub open spec fn node_fits(o: Orientation, px: int, py: int, pw: int, ph: int, ms: Seq<Layout>) -> bool {
    &&& ms.len() <= i64::MAX
    &&& forall|i: int| 0 <= i <= ms.len() ==> in_i64(#[trigger] const_width_sum_upto(ms, i))
    &&& forall|i: int| 0 <= i <= ms.len() ==> in_i64(#[trigger] const_height_sum_upto(ms, i))
    &&& forall|i: int| 0 <= i <= ms.len() ==> in_i64(#[trigger] flow_offset(o, pw, ph, ms, i))
    &&& (o is Row && fill_width_count(ms) >= 1 ==> in_i64(pw - const_width_sum(ms)))
    &&& (o is Column && fill_height_count(ms) >= 1 ==> in_i64(ph - const_height_sum(ms)))
    &&& forall|i: int| 0 <= i < ms.len() ==> #[trigger] child_pos_fits(o, px, py, pw, ph, ms, i)
}

/// Whether every intermediate value in resolving a layer's root against a
/// screen of extents `(sw, sh)` fits in `i64`.
pub open spec fn root_fits(m: Layout, sw: int, sh: int) -> bool {
    match m.position {
        Position::Static => true,
        Position::Relative(_) => true,
        Position::Absolute(off, a) => {
            let w = root_width(m, sw);
            let h = root_height(m, sh);
            anchor_x_fits(a, 0, sw, w) && anchor_y_fits(a, 0, sh, h) && in_i64(
                anchor_x(a, 0, sw, w) + off.x,
            ) && in_i64(anchor_y(a, 0, sh, h) + off.y)
        },
    }
}

} // verus!
