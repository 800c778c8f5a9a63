use mocha_core::Node;

#[test]
fn main() {
    let mut root = Node::new(0);

    let one = Node::new(1);
    let mut two = Node::new(2);

    let three = Node::new(3);
    let four = Node::new(4);
    let five = Node::new(5);

    two.push_child(three);
    two.push_child(four);
    two.push_child(five);

    root.push_child(one);
    root.push_child(two);

    print_data(&mut root);
}

fn print_data(node: &mut Node<i32>) {
    if node.has_no_children() {
        return;
    }

    for child in &mut node.children {
        println!("{}", child.data);
        print_data(child);
    }
}

#[test]
fn tree_construction() {
    let mut root = Node::new("root");
    assert!(root.has_no_children());

    root.push_child(Node::new("a"));
    root.push_child(Node::new("b"));
    assert!(!root.has_no_children());
    assert_eq!(root.children.len(), 2);
    assert_eq!(root.children[0].data, "a");
    assert_eq!(root.children[1].data, "b");
    assert_eq!(root.data, "root");
}
