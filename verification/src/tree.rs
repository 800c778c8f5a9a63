//! An exclusively-owned n-ary tree: each node owns one payload value and an
//! ordered list of child subtrees. Insertion order of children is preserved
//! and is semantically meaningful (it is sibling/flow order and paint order).

use vstd::prelude::*;

verus! {

pub struct Node<T> {
    pub data: T,
    pub children: Vec<Node<T>>,
}

impl<T> Node<T> {
    /// Creates a singleton node holding `data`, with no children.
    pub fn new(data: T) -> (r: Self)
        ensures
            r.data == data,
            r.children@.len() == 0,
    {
        Self { data, children: Vec::new() }
    }

    /// Appends `node` as the last child; ownership of the subtree transfers.
    pub fn push_child(&mut self, node: Node<T>)
        ensures
            final(self).data == old(self).data,
            final(self).children@ == old(self).children@.push(node),
    {
        self.children.push(node);
    }

    /// Reports whether this node is a leaf.
    pub fn has_no_children(&self) -> (r: bool)
        ensures
            r <==> self.children@.len() == 0,
    {
        self.children.len() == 0
    }

    /// The number of nodes in this subtree, this node included.
    pub open spec fn size(self) -> nat
        decreases self,
    {
        1 + Self::forest_size(self.children@)
    }

    /// The total number of nodes over a sequence of subtrees.
    pub open spec fn forest_size(forest: Seq<Node<T>>) -> nat
        decreases forest,
    {
        if forest.len() == 0 {
            0
        } else {
            forest.last().size() + Self::forest_size(forest.drop_last())
        }
    }
}

/// `forest_size` adds up over concatenation.
pub proof fn lemma_forest_size_add<T>(a: Seq<Node<T>>, b: Seq<Node<T>>)
    ensures
        Node::forest_size(a + b) == Node::forest_size(a) + Node::forest_size(b),
    decreases b.len(),
{
    if b.len() == 0 {
        assert(a + b =~= a);
    } else {
        lemma_forest_size_add(a, b.drop_last());
        assert((a + b).drop_last() =~= a + b.drop_last());
    }
}

/// A nonempty forest splits at its first tree.
pub proof fn lemma_forest_size_first<T>(s: Seq<Node<T>>)
    requires
        s.len() > 0,
    ensures
        Node::forest_size(s) == s[0].size() + Node::forest_size(s.drop_first()),
    decreases s.len(),
{
    if s.len() == 1 {
        assert(s.drop_last() =~= Seq::<Node<T>>::empty());
        assert(s.drop_first() =~= Seq::<Node<T>>::empty());
    } else {
        lemma_forest_size_first(s.drop_last());
        assert(s.drop_last().drop_first() =~= s.drop_first().drop_last());
        assert(s.drop_first().last() == s.last());
        assert(s.drop_last()[0] == s[0]);
    }
}

} // verus!
