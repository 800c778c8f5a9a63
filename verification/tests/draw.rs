use mocha_core::component::{Component, Components, Layer};
use mocha_core::layout::{Dimensions, Size};
use mocha_core::renderer::{create_quad, paint_quads};
use mocha_core::style::Colour;
use mocha_core::Node;

fn coloured(r: u8, g: u8, b: u8) -> Node<Component> {
    let mut n = Node::new(Component::new());
    n.data.layout.width = Size::Fill;
    n.data.layout.height = Size::Fill;
    n.data.style.background_colour = Colour::new(r, g, b);
    n
}

#[test]
fn paint_order_is_breadth_first() {
    // root -> [a, b], a -> [c]: emission order is root, a, b, c
    let mut root = coloured(1, 0, 0);
    let mut a = coloured(2, 0, 0);
    let b = coloured(3, 0, 0);
    let c = coloured(4, 0, 0);
    a.push_child(c);
    root.push_child(a);
    root.push_child(b);

    let quads = paint_quads(&root);
    let order: Vec<u8> = quads.iter().map(|q| q.colour[0]).collect();
    assert_eq!(order, vec![1, 2, 3, 4]);
}

#[test]
fn one_quad_per_node_in_paint_order() {
    let mut root = coloured(9, 9, 9);
    for k in 0..3 {
        let mut child = coloured(10 + k, 0, 0);
        child.push_child(coloured(20 + k, 0, 0));
        root.push_child(child);
    }
    let quads = paint_quads(&root);
    assert_eq!(quads.len(), 7);
    let order: Vec<u8> = quads.iter().map(|q| q.colour[0]).collect();
    assert_eq!(order, vec![9, 10, 11, 12, 20, 21, 22]);
}

#[test]
fn quads_carry_style_and_computed_layout() {
    let mut root = coloured(10, 20, 30);
    root.data.style.opacity = 128;
    root.data.style.border_weight = 2;
    root.data.style.border_colour = Colour::new(1, 2, 3);
    root.data.style.border_radius = mocha_core::style::BorderRadius::new(5, 20, 5, 20);
    let mut c = Components::new();
    c.layers.push(Layer { component_tree: root });
    c.compute_layout(Dimensions { width: 800, height: 600 });

    let tree = &c.layers[0].component_tree;
    let quad = create_quad(&tree.data.style, &tree.data.computed_layout);
    assert_eq!(quad.position, [0, 0]);
    assert_eq!(quad.dimensions, [800, 600]);
    assert_eq!(quad.colour, [10, 20, 30]);
    assert_eq!(quad.opacity, 128);
    assert_eq!(quad.border_colour, [1, 2, 3]);
    // radii are ordered top-right, bottom-right, bottom-left, top-left
    assert_eq!(quad.border_radius, [5, 20, 5, 20]);
    assert_eq!(quad.border_weight, 2);
}
