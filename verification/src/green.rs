//! The green tree: an immutable, owned syntax tree that stores, for every
//! node, its kind and its children, and for every leaf the exact bytes it
//! covers. Concatenating the leaves of the root in order reproduces the
//! parsed text byte for byte.

use crate::kinds::SyntaxKind;
use vstd::prelude::*;

verus! {

broadcast use vstd::seq::axiom_seq_index_decreases, vstd::std_specs::vec::axiom_vec_index_decreases;

/// One leaf: a token kind and its bytes.
#[derive(Debug, PartialEq, Eq)]
pub struct GreenToken {
    pub kind: SyntaxKind,
    pub text: Vec<u8>,
}

/// One interior node: a kind and its children in document order.
#[derive(Debug, PartialEq, Eq)]
pub struct GreenNode {
    pub kind: SyntaxKind,
    pub children: Vec<GreenElement>,
}

/// A child of a node: either a node or a leaf.
#[derive(Debug, PartialEq, Eq)]
pub enum GreenElement {
    Node(GreenNode),
    Leaf(GreenToken),
}

/// The mathematical image of one leaf: its kind and its bytes.
pub open spec fn leaf_model(t: GreenToken) -> (SyntaxKind, Seq<u8>) {
    (t.kind, t.text@)
}

/// The leaves under one element, in document order.
pub open spec fn elem_leaves(e: GreenElement) -> Seq<(SyntaxKind, Seq<u8>)>
    decreases e, 0int,
{
    match e {
        GreenElement::Leaf(t) => seq![leaf_model(t)],
        GreenElement::Node(n) => node_leaves_upto(n, n.children@.len() as int),
    }
}

/// The leaves under the first `i` children of a node.
pub open spec fn node_leaves_upto(n: GreenNode, i: int) -> Seq<(SyntaxKind, Seq<u8>)>
    decreases n, i,
{
    if 0 < i <= n.children@.len() {
        node_leaves_upto(n, i - 1) + elem_leaves(n.children@[i - 1])
    } else {
        Seq::empty()
    }
}

/// All leaves under a node, in document order.
pub open spec fn node_leaves(n: GreenNode) -> Seq<(SyntaxKind, Seq<u8>)> {
    node_leaves_upto(n, n.children@.len() as int)
}

/// The leaves under the first `i` elements of a free-standing element list.
pub open spec fn elems_leaves_upto(es: Seq<GreenElement>, i: int) -> Seq<(SyntaxKind, Seq<u8>)>
    decreases i,
{
    if 0 < i <= es.len() {
        elems_leaves_upto(es, i - 1) + elem_leaves(es[i - 1])
    } else {
        Seq::empty()
    }
}

/// All leaves under an element list.
pub open spec fn elems_leaves(es: Seq<GreenElement>) -> Seq<(SyntaxKind, Seq<u8>)> {
    elems_leaves_upto(es, es.len() as int)
}

/// A node's leaves are the leaves of its child list.
pub proof fn lemma_node_leaves_elems(n: GreenNode, i: int)
    ensures
        node_leaves_upto(n, i) == elems_leaves_upto(n.children@, i),
    decreases i,
{
    if 0 < i <= n.children@.len() {
        lemma_node_leaves_elems(n, i - 1);
    }
}

/// Leaf lists agree on equal prefixes of equal element lists.
pub proof fn lemma_elems_leaves_prefix(a: Seq<GreenElement>, b: Seq<GreenElement>, i: int)
    requires
        i <= a.len(),
        i <= b.len(),
        forall|j: int| 0 <= j < i ==> a[j] == b[j],
    ensures
        elems_leaves_upto(a, i) == elems_leaves_upto(b, i),
    decreases i,
{
    if 0 < i {
        lemma_elems_leaves_prefix(a, b, i - 1);
    }
}

/// Appending one element appends its leaves.
pub proof fn lemma_elems_leaves_push(es: Seq<GreenElement>, e: GreenElement)
    ensures
        elems_leaves(es.push(e)) == elems_leaves(es) + elem_leaves(e),
{
    let p = es.push(e);
    lemma_elems_leaves_prefix(p, es, es.len() as int);
}

/// The bytes of a leaf list, concatenated in order.
pub open spec fn leaves_text(ls: Seq<(SyntaxKind, Seq<u8>)>) -> Seq<u8>
    decreases ls.len(),
{
    if ls.len() == 0 {
        Seq::empty()
    } else {
        leaves_text(ls.drop_last()) + ls.last().1
    }
}

/// The text a whole subtree covers: its leaves' bytes in order.
pub open spec fn node_text(n: GreenNode) -> Seq<u8> {
    leaves_text(node_leaves(n))
}

/// Structural equality of two elements: same kinds, same shape, same bytes.
pub open spec fn elem_like(a: GreenElement, b: GreenElement) -> bool
    decreases a, 0int,
{
    match (a, b) {
        (GreenElement::Leaf(x), GreenElement::Leaf(y)) => x.kind == y.kind && x.text@ == y.text@,
        (GreenElement::Node(x), GreenElement::Node(y)) => node_like_upto(
            x,
            y,
            x.children@.len() as int,
        ) && x.children@.len() == y.children@.len() && x.kind == y.kind,
        _ => false,
    }
}

/// Pairwise structural equality of the first `i` children.
pub open spec fn node_like_upto(a: GreenNode, b: GreenNode, i: int) -> bool
    decreases a, i,
{
    if 0 < i <= a.children@.len() {
        &&& i <= b.children@.len()
        &&& node_like_upto(a, b, i - 1)
        &&& elem_like(a.children@[i - 1], b.children@[i - 1])
    } else {
        true
    }
}

/// Structural equality of two nodes.
pub open spec fn node_like(a: GreenNode, b: GreenNode) -> bool {
    &&& a.kind == b.kind
    &&& a.children@.len() == b.children@.len()
    &&& node_like_upto(a, b, a.children@.len() as int)
}

impl GreenNode {
    /// The node's kind.
    pub fn kind(&self) -> (r: SyntaxKind)
        ensures
            r == self.kind,
    {
        self.kind
    }

    /// Structural equality: same kinds, same shape, same bytes everywhere.
    pub fn tree_eq(&self, other: &GreenNode) -> (r: bool)
        ensures
            r == node_like(*self, *other),
        decreases *self, 1int,
    {
        let ka = self.kind;
        let kb = other.kind;
        if !crate::parser::kind_eq(ka, kb) {
            return false;
        }
        if self.children.len() != other.children.len() {
            return false;
        }
        let mut i: usize = 0;
        while i < self.children.len()
            invariant
                i <= self.children@.len(),
                self.children@.len() == other.children@.len(),
                self.kind == other.kind,
                node_like_upto(*self, *other, i as int),
            decreases self.children@.len() - i,
        {
            if !elem_eq(&self.children[i], &other.children[i]) {
                proof {
                    lemma_node_like_upto_bound(*self, *other, i + 1);
                }
                return false;
            }
            i = i + 1;
        }
        true
    }
}

/// If the first `i` children match but child `i - 1` does not, the whole
/// prefix check fails.
proof fn lemma_node_like_upto_bound(a: GreenNode, b: GreenNode, i: int)
    requires
        0 < i <= a.children@.len(),
        i <= b.children@.len(),
        !elem_like(a.children@[i - 1], b.children@[i - 1]),
    ensures
        !node_like_upto(a, b, a.children@.len() as int),
    decreases a.children@.len() - i,
{
    if i < a.children@.len() {
        lemma_node_like_upto_bound_step(a, b, i);
    }
}

proof fn lemma_node_like_upto_bound_step(a: GreenNode, b: GreenNode, i: int)
    requires
        0 < i <= a.children@.len(),
        !node_like_upto(a, b, i),
    ensures
        !node_like_upto(a, b, a.children@.len() as int),
    decreases a.children@.len() - i,
{
    if i < a.children@.len() {
        lemma_node_like_upto_bound_step(a, b, i + 1);
    }
}

/// Pointwise structurally equal children make structurally equal prefixes.
proof fn lemma_pointwise_like(a: GreenNode, b: GreenNode, i: int)
    requires
        0 <= i <= a.children@.len(),
        i <= b.children@.len(),
        forall|j: int| 0 <= j < i ==> elem_like(#[trigger] a.children@[j], b.children@[j]),
    ensures
        node_like_upto(a, b, i),
    decreases i,
{
    if 0 < i {
        lemma_pointwise_like(a, b, i - 1);
    }
}

impl GreenNode {
    /// A structurally equal copy of the whole subtree: same kinds, same
    /// shape, same bytes. The original stays untouched; the tree itself is
    /// never mutated in place.
    pub fn clone_subtree(&self) -> (r: GreenNode)
        ensures
            node_like(r, *self),
        decreases *self, 1int,
    {
        let mut children: Vec<GreenElement> = Vec::new();
        let mut i: usize = 0;
        while i < self.children.len()
            invariant
                i <= self.children@.len(),
                children@.len() == i,
                forall|j: int|
                    0 <= j < i ==> elem_like(#[trigger] children@[j], self.children@[j]),
            decreases self.children@.len() - i,
        {
            children.push(clone_green_element(&self.children[i]));
            i = i + 1;
        }
        let r = GreenNode { kind: self.kind, children };
        proof {
            lemma_pointwise_like(r, *self, r.children@.len() as int);
        }
        r
    }
}

/// A structurally equal copy of one element.
pub fn clone_green_element(e: &GreenElement) -> (r: GreenElement)
    ensures
        elem_like(r, *e),
    decreases *e, 0int,
{
    match e {
        GreenElement::Leaf(t) => {
            let copy = GreenToken {
                kind: t.kind,
                text: crate::lexer::copy_byte_range(t.text.as_slice(), 0, t.text.len()),
            };
            proof {
                assert(copy.text@ =~= t.text@);
            }
            GreenElement::Leaf(copy)
        },
        GreenElement::Node(n) => GreenElement::Node(n.clone_subtree()),
    }
}

/// Structural equality of two elements.
pub fn elem_eq(a: &GreenElement, b: &GreenElement) -> (r: bool)
    ensures
        r == elem_like(*a, *b),
    decreases *a, 0int,
{
    match (a, b) {
        (GreenElement::Leaf(x), GreenElement::Leaf(y)) => {
            crate::parser::kind_eq(x.kind, y.kind) && crate::kinds::slice_eq_bytes(
                x.text.as_slice(),
                y.text.as_slice(),
            )
        },
        (GreenElement::Node(x), GreenElement::Node(y)) => x.tree_eq(y),
        _ => false,
    }
}

} // verus!
