use mocha_core::component::{Component, Components, Layer};
use mocha_core::layout::{Anchor, Dimensions, Offset, Orientation, Position, Size};
use mocha_core::Node;

fn element(width: Size, height: Size) -> Node<Component> {
    let mut n = Node::new(Component::new());
    n.data.layout.width = width;
    n.data.layout.height = height;
    n
}

fn single_layer(root: Node<Component>) -> Components {
    let mut c = Components::new();
    c.layers.push(Layer { component_tree: root });
    c
}

fn screen(width: i64, height: i64) -> Dimensions {
    Dimensions { width, height }
}

#[test]
fn root_fill() {
    let root = element(Size::Fill, Size::Fill);
    let mut c = single_layer(root);
    c.compute_layout(screen(800, 600));

    let cl = &c.layers[0].component_tree.data.computed_layout;
    assert_eq!(cl.width, 800);
    assert_eq!(cl.height, 600);
    assert_eq!(cl.position.x, 0);
    assert_eq!(cl.position.y, 0);
}

#[test]
fn root_constant_and_relative() {
    let mut root = element(Size::Constant(320), Size::Constant(240));
    root.data.layout.position = Position::Relative(Offset { x: 7, y: -3 });
    let mut c = single_layer(root);
    c.compute_layout(screen(800, 600));

    let cl = &c.layers[0].component_tree.data.computed_layout;
    assert_eq!(cl.width, 320);
    assert_eq!(cl.height, 240);
    assert_eq!(cl.position.x, 7);
    assert_eq!(cl.position.y, -3);
}

#[test]
fn root_absolute_anchors_against_screen() {
    let mut root = element(Size::Constant(100), Size::Constant(50));
    root.data.layout.position = Position::Absolute(Offset { x: 0, y: 0 }, Anchor::BottomRight);
    let mut c = single_layer(root);
    c.compute_layout(screen(800, 600));

    let cl = &c.layers[0].component_tree.data.computed_layout;
    assert_eq!(cl.position.x, 700);
    assert_eq!(cl.position.y, 550);
}

#[test]
fn row_distribution() {
    let mut root = element(Size::Fill, Size::Fill);
    root.data.layout.orientation = Orientation::Row;
    root.push_child(element(Size::Constant(100), Size::Fill));
    root.push_child(element(Size::Fill, Size::Fill));
    let mut c = single_layer(root);
    c.compute_layout(screen(800, 600));

    let t = &c.layers[0].component_tree;
    let a = &t.children[0].data.computed_layout;
    let b = &t.children[1].data.computed_layout;
    assert_eq!(a.width, 100);
    assert_eq!(a.height, 600);
    assert_eq!((a.position.x, a.position.y), (0, 0));
    assert_eq!(b.width, 700);
    assert_eq!(b.height, 600);
    assert_eq!((b.position.x, b.position.y), (100, 0));
}

#[test]
fn row_distribution_shares_remaining_space_equally() {
    // parent extent 850, constant sum 100, three Fill children:
    // each receives (850 - 100) / 3 = 250, and 100 + 3 * 250 == 850 exactly
    let mut root = element(Size::Fill, Size::Fill);
    root.data.layout.orientation = Orientation::Row;
    root.push_child(element(Size::Constant(100), Size::Fill));
    for _ in 0..3 {
        root.push_child(element(Size::Fill, Size::Fill));
    }
    let mut c = single_layer(root);
    c.compute_layout(screen(850, 600));

    let t = &c.layers[0].component_tree;
    let mut consumed = t.children[0].data.computed_layout.width;
    for k in 1..4 {
        assert_eq!(t.children[k].data.computed_layout.width, 250);
        assert_eq!(t.children[k].data.computed_layout.position.x, consumed);
        consumed += 250;
    }
    assert_eq!(consumed, 850);
}

#[test]
fn row_distribution_truncates_toward_zero() {
    // (800 - 99) / 2 truncates to 350; the remainder of 1 is not distributed
    let mut root = element(Size::Fill, Size::Fill);
    root.data.layout.orientation = Orientation::Row;
    root.push_child(element(Size::Constant(99), Size::Fill));
    root.push_child(element(Size::Fill, Size::Fill));
    root.push_child(element(Size::Fill, Size::Fill));
    let mut c = single_layer(root);
    c.compute_layout(screen(800, 600));

    let t = &c.layers[0].component_tree;
    assert_eq!(t.children[1].data.computed_layout.width, 350);
    assert_eq!(t.children[2].data.computed_layout.width, 350);
    assert_eq!(t.children[2].data.computed_layout.position.x, 449);
}

#[test]
fn column_distribution() {
    let mut root = element(Size::Fill, Size::Fill);
    root.data.layout.orientation = Orientation::Column;
    root.push_child(element(Size::Fill, Size::Constant(100)));
    root.push_child(element(Size::Fill, Size::Fill));
    let mut c = single_layer(root);
    c.compute_layout(screen(600, 800));

    let t = &c.layers[0].component_tree;
    let a = &t.children[0].data.computed_layout;
    let b = &t.children[1].data.computed_layout;
    assert_eq!(a.height, 100);
    assert_eq!(a.width, 600);
    assert_eq!((a.position.x, a.position.y), (0, 0));
    assert_eq!(b.height, 700);
    assert_eq!(b.width, 600);
    assert_eq!((b.position.x, b.position.y), (0, 100));
}

#[test]
fn absolute_sibling_does_not_disturb_flow() {
    let build = |with_absolute: bool| -> Components {
        let mut root = element(Size::Fill, Size::Fill);
        root.data.layout.orientation = Orientation::Row;
        root.push_child(element(Size::Constant(100), Size::Fill));
        if with_absolute {
            let mut mid = element(Size::Constant(40), Size::Constant(40));
            mid.data.layout.position =
                Position::Absolute(Offset { x: 5, y: 5 }, Anchor::TopRight);
            root.push_child(mid);
        }
        root.push_child(element(Size::Fill, Size::Fill));
        single_layer(root)
    };

    let mut plain = build(false);
    let mut with_abs = build(true);
    plain.compute_layout(screen(800, 600));
    with_abs.compute_layout(screen(800, 600));

    let p = &plain.layers[0].component_tree;
    let w = &with_abs.layers[0].component_tree;
    // first flow child unchanged
    assert_eq!(p.children[0].data.computed_layout, w.children[0].data.computed_layout);
    // second flow child sits at index 2 after the insertion, same box
    assert_eq!(p.children[1].data.computed_layout, w.children[2].data.computed_layout);
    // the absolute sibling was sized independently and anchored, not flowed
    let mid = &w.children[1].data.computed_layout;
    assert_eq!(mid.width, 40);
    assert_eq!(mid.height, 40);
    assert_eq!(mid.position.x, 0 + (800 - 40) + 5);
    assert_eq!(mid.position.y, 0 + 5);
}

#[test]
fn absolute_fill_takes_whole_parent_extent() {
    // an absolute child's Fill is the parent extent, never a divided share
    let mut root = element(Size::Fill, Size::Fill);
    root.data.layout.orientation = Orientation::Row;
    root.push_child(element(Size::Fill, Size::Fill));
    let mut abs = element(Size::Fill, Size::Constant(10));
    abs.data.layout.position = Position::Absolute(Offset { x: 0, y: 0 }, Anchor::TopLeft);
    root.push_child(abs);
    let mut c = single_layer(root);
    c.compute_layout(screen(800, 600));

    let t = &c.layers[0].component_tree;
    assert_eq!(t.children[0].data.computed_layout.width, 800);
    assert_eq!(t.children[1].data.computed_layout.width, 800);
}

#[test]
fn anchor_points() {
    let case = |anchor: Anchor, offset: Offset| -> (i64, i64) {
        let mut root = element(Size::Fill, Size::Fill);
        let mut child = element(Size::Constant(50), Size::Constant(50));
        child.data.layout.position = Position::Absolute(offset, anchor);
        root.push_child(child);
        let mut c = single_layer(root);
        c.compute_layout(screen(800, 600));
        let cl = &c.layers[0].component_tree.children[0].data.computed_layout;
        (cl.position.x, cl.position.y)
    };

    assert_eq!(case(Anchor::TopLeft, Offset { x: 0, y: 0 }), (0, 0));
    assert_eq!(case(Anchor::Top, Offset { x: 0, y: 10 }), (375, 10));
    assert_eq!(case(Anchor::BottomRight, Offset { x: 0, y: 0 }), (750, 550));
    assert_eq!(case(Anchor::TopRight, Offset { x: 0, y: 0 }), (750, 0));
    assert_eq!(case(Anchor::Right, Offset { x: 0, y: 0 }), (750, 275));
    assert_eq!(case(Anchor::Bottom, Offset { x: 0, y: 0 }), (375, 550));
    assert_eq!(case(Anchor::BottomLeft, Offset { x: 0, y: 0 }), (0, 550));
    assert_eq!(case(Anchor::Left, Offset { x: 0, y: 0 }), (0, 275));
}

#[test]
fn relative_offset_moves_child_without_perturbing_siblings() {
    let mut root = element(Size::Fill, Size::Fill);
    root.data.layout.orientation = Orientation::Row;
    let mut a = element(Size::Constant(100), Size::Fill);
    a.data.layout.position = Position::Relative(Offset { x: 11, y: 13 });
    root.push_child(a);
    root.push_child(element(Size::Constant(50), Size::Fill));
    let mut c = single_layer(root);
    c.compute_layout(screen(800, 600));

    let t = &c.layers[0].component_tree;
    let a = &t.children[0].data.computed_layout;
    let b = &t.children[1].data.computed_layout;
    assert_eq!((a.position.x, a.position.y), (11, 13));
    // the offset does not advance the flow: the sibling starts after 100
    assert_eq!((b.position.x, b.position.y), (100, 0));
}

#[test]
fn nested_flow_uses_child_box_as_parent() {
    let mut root = element(Size::Fill, Size::Fill);
    root.data.layout.orientation = Orientation::Row;
    let mut panel = element(Size::Constant(400), Size::Fill);
    panel.data.layout.orientation = Orientation::Column;
    panel.push_child(element(Size::Fill, Size::Constant(100)));
    panel.push_child(element(Size::Fill, Size::Fill));
    root.push_child(element(Size::Constant(100), Size::Fill));
    root.push_child(panel);
    let mut c = single_layer(root);
    c.compute_layout(screen(800, 600));

    let t = &c.layers[0].component_tree;
    let panel = &t.children[1];
    assert_eq!(panel.data.computed_layout.position.x, 100);
    let first = &panel.children[0].data.computed_layout;
    let second = &panel.children[1].data.computed_layout;
    assert_eq!((first.position.x, first.position.y), (100, 0));
    assert_eq!((first.width, first.height), (400, 100));
    assert_eq!((second.position.x, second.position.y), (100, 100));
    assert_eq!((second.width, second.height), (400, 500));
}

#[test]
fn no_fill_children_means_no_division() {
    // all flow children constant on the main axis: nothing is distributed,
    // and the pass completes without touching the leftover space
    let mut root = element(Size::Fill, Size::Fill);
    root.data.layout.orientation = Orientation::Row;
    root.push_child(element(Size::Constant(100), Size::Fill));
    root.push_child(element(Size::Constant(200), Size::Fill));
    let mut c = single_layer(root);
    c.compute_layout(screen(800, 600));

    let t = &c.layers[0].component_tree;
    assert_eq!(t.children[0].data.computed_layout.width, 100);
    assert_eq!(t.children[1].data.computed_layout.width, 200);
    assert_eq!(t.children[1].data.computed_layout.position.x, 100);
}

#[test]
fn negative_extents_pass_through() {
    // constants exceed the parent: the Fill child's share is negative and is
    // handed through unclamped
    let mut root = element(Size::Fill, Size::Fill);
    root.data.layout.orientation = Orientation::Row;
    root.push_child(element(Size::Constant(1000), Size::Fill));
    root.push_child(element(Size::Fill, Size::Fill));
    let mut c = single_layer(root);
    c.compute_layout(screen(800, 600));

    let t = &c.layers[0].component_tree;
    assert_eq!(t.children[1].data.computed_layout.width, -200);
    assert_eq!(t.children[1].data.computed_layout.position.x, 1000);
}

#[test]
fn idempotence() {
    let mut root = element(Size::Fill, Size::Fill);
    root.data.layout.orientation = Orientation::Row;
    root.push_child(element(Size::Constant(99), Size::Fill));
    let mut abs = element(Size::Constant(40), Size::Constant(40));
    abs.data.layout.position = Position::Absolute(Offset { x: -3, y: 7 }, Anchor::Bottom);
    root.push_child(abs);
    root.push_child(element(Size::Fill, Size::Fill));
    let mut c = single_layer(root);

    c.compute_layout(screen(799, 601));
    let first: Vec<_> = collect_boxes(&c.layers[0].component_tree);
    c.compute_layout(screen(799, 601));
    let second: Vec<_> = collect_boxes(&c.layers[0].component_tree);
    assert_eq!(first, second);
}

fn collect_boxes(n: &Node<Component>) -> Vec<(i64, i64, i64, i64)> {
    let cl = &n.data.computed_layout;
    let mut v = vec![(cl.position.x, cl.position.y, cl.width, cl.height)];
    for child in &n.children {
        v.extend(collect_boxes(child));
    }
    v
}

#[test]
fn overflowing_layer_is_left_unchanged() {
    let mut root = element(Size::Fill, Size::Fill);
    root.data.layout.orientation = Orientation::Row;
    root.push_child(element(Size::Constant(i64::MAX), Size::Fill));
    root.push_child(element(Size::Constant(i64::MAX), Size::Fill));
    let mut c = single_layer(root);
    c.compute_layout(screen(800, 600));

    // the constant sums leave i64, so the whole layer keeps its stale boxes
    let t = &c.layers[0].component_tree;
    assert_eq!(t.data.computed_layout.width, 0);
    assert_eq!(t.children[0].data.computed_layout.width, 0);
    assert_eq!(t.children[1].data.computed_layout.position.x, 0);
}

#[test]
fn layers_are_laid_out_independently() {
    let mut c = Components::new();
    c.layers.push(Layer { component_tree: element(Size::Fill, Size::Constant(50)) });
    c.layers.push(Layer { component_tree: element(Size::Constant(10), Size::Fill) });
    c.compute_layout(screen(800, 600));

    assert_eq!(c.layers[0].component_tree.data.computed_layout.width, 800);
    assert_eq!(c.layers[0].component_tree.data.computed_layout.height, 50);
    assert_eq!(c.layers[1].component_tree.data.computed_layout.width, 10);
    assert_eq!(c.layers[1].component_tree.data.computed_layout.height, 600);
}

#[test]
fn column_distribution_truncates_toward_zero() {
    // (601 - 0) / 2 truncates to 300 on the column's main axis
    let mut root = element(Size::Fill, Size::Fill);
    root.data.layout.orientation = Orientation::Column;
    root.push_child(element(Size::Fill, Size::Fill));
    root.push_child(element(Size::Fill, Size::Fill));
    let mut c = single_layer(root);
    c.compute_layout(screen(800, 601));

    let t = &c.layers[0].component_tree;
    assert_eq!(t.children[0].data.computed_layout.height, 300);
    assert_eq!(t.children[1].data.computed_layout.height, 300);
    assert_eq!(t.children[1].data.computed_layout.position.y, 300);
}

#[test]
fn overflowing_layer_leaves_other_layers_resolved() {
    let mut c = Components::new();
    c.layers.push(Layer { component_tree: element(Size::Fill, Size::Fill) });
    let mut big = element(Size::Fill, Size::Fill);
    big.push_child(element(Size::Constant(i64::MAX), Size::Fill));
    big.push_child(element(Size::Constant(i64::MAX), Size::Fill));
    c.layers.push(Layer { component_tree: big });
    c.compute_layout(screen(800, 600));

    assert_eq!(c.layers[0].component_tree.data.computed_layout.width, 800);
    assert_eq!(c.layers[1].component_tree.data.computed_layout.width, 0);
}

#[test]
fn recompute_follows_screen_resize() {
    // each pass is stateless: new screen dimensions, new boxes
    let mut root = element(Size::Fill, Size::Fill);
    root.push_child(element(Size::Fill, Size::Constant(50)));
    let mut c = single_layer(root);
    c.compute_layout(screen(800, 600));
    assert_eq!(c.layers[0].component_tree.children[0].data.computed_layout.width, 800);
    c.compute_layout(screen(1024, 768));
    assert_eq!(c.layers[0].component_tree.data.computed_layout.width, 1024);
    assert_eq!(c.layers[0].component_tree.children[0].data.computed_layout.width, 1024);
}
