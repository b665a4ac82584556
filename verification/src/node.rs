//! The red tree: a lightweight cursor over a green tree that adds absolute
//! byte positions. A `SyntaxNode` borrows the immutable green tree; walking
//! it never copies or mutates anything.

use crate::green::{
    elem_leaves, elems_leaves_upto, leaves_text, node_leaves, node_text, GreenElement, GreenNode,
    GreenToken,
};
use crate::kinds::SyntaxKind;
use crate::lexer::Span;
use vstd::prelude::*;

verus! {

/// Concatenation splits under `leaves_text`.
pub proof fn lemma_leaves_text_concat(a: Seq<(SyntaxKind, Seq<u8>)>, b: Seq<(SyntaxKind, Seq<u8>)>)
    ensures
        leaves_text(a + b) == leaves_text(a) + leaves_text(b),
    decreases b.len(),
{
    if b.len() == 0 {
        assert(a + b =~= a);
        assert(leaves_text(a) + leaves_text(b) =~= leaves_text(a));
    } else {
        lemma_leaves_text_concat(a, b.drop_last());
        assert((a + b).drop_last() =~= a + b.drop_last());
        assert((a + b).last() == b.last());
        assert(leaves_text(a) + leaves_text(b.drop_last()) + b.last().1 =~= leaves_text(a) + (
        leaves_text(b.drop_last()) + b.last().1));
    }
}

/// The text under one element.
pub open spec fn elem_text(e: GreenElement) -> Seq<u8> {
    leaves_text(elem_leaves(e))
}

/// The text under the first `i` elements of a child list.
pub open spec fn elems_text_upto(es: Seq<GreenElement>, i: int) -> Seq<u8> {
    leaves_text(elems_leaves_upto(es, i))
}

/// Text lengths grow monotonically along a child list.
pub proof fn lemma_elems_text_step(es: Seq<GreenElement>, i: int)
    requires
        0 <= i < es.len(),
    ensures
        elems_text_upto(es, i + 1) == elems_text_upto(es, i) + elem_text(es[i]),
{
    lemma_leaves_text_concat(elems_leaves_upto(es, i), elem_leaves(es[i]));
}

/// The node children of a child list, in order.
pub open spec fn nodes_upto(es: Seq<GreenElement>, i: int) -> Seq<GreenNode>
    decreases i,
{
    if 0 < i <= es.len() {
        nodes_upto(es, i - 1) + (match es[i - 1] {
            GreenElement::Node(n) => seq![n],
            GreenElement::Leaf(_) => Seq::empty(),
        })
    } else {
        Seq::empty()
    }
}

/// A red node: one green node plus the absolute byte offset where its text
/// starts.
#[derive(Clone, Copy)]
pub struct SyntaxNode<'a> {
    pub green: &'a GreenNode,
    pub offset: usize,
}

/// A red token: one green leaf plus the absolute byte offset of its text.
#[derive(Clone, Copy)]
pub struct SyntaxToken<'a> {
    pub green: &'a GreenToken,
    pub offset: usize,
}

/// A red element: a node or a token.
#[derive(Clone, Copy)]
pub enum SyntaxElement<'a> {
    Node(SyntaxNode<'a>),
    Token(SyntaxToken<'a>),
}

impl<'a> SyntaxToken<'a> {
    /// The token's kind.
    pub fn kind(&self) -> (r: SyntaxKind)
        ensures
            r == self.green.kind,
    {
        self.green.kind
    }

    /// The token's bytes, copied out of the tree.
    pub fn text(&self) -> (r: Vec<u8>)
        ensures
            r@ == self.green.text@,
    {
        crate::lexer::copy_byte_range(self.green.text.as_slice(), 0, self.green.text.len())
    }
}

/// A red node's positions stay inside the address space.
pub open spec fn node_in_range(s: SyntaxNode) -> bool {
    s.offset + node_text(*s.green).len() <= usize::MAX
}

impl<'a> SyntaxNode<'a> {
    /// The root cursor over a finished tree.
    pub fn new_root(green: &'a GreenNode) -> (r: SyntaxNode<'a>)
        ensures
            r.green == green,
            r.offset == 0,
    {
        SyntaxNode { green, offset: 0 }
    }

    /// The node's kind.
    pub fn kind(&self) -> (r: SyntaxKind)
        ensures
            r == self.green.kind,
    {
        self.green.kind
    }

    /// The absolute byte range the node's text covers.
    pub fn text_range(&self) -> (r: Span)
        requires
            node_in_range(*self),
        ensures
            r.start == self.offset,
            r.end == self.offset + node_text(*self.green).len(),
    {
        let len = node_text_len(self.green);
        Span { start: self.offset, end: self.offset + len }
    }

    /// The node's text, copied out of the tree.
    pub fn text(&self) -> (r: Vec<u8>)
        ensures
            r@ == node_text(*self.green),
    {
        let mut out: Vec<u8> = Vec::new();
        let ghost es = self.green.children@;
        proof {
            crate::green::lemma_node_leaves_elems(*self.green, es.len() as int);
            assert(elems_text_upto(es, 0) =~= Seq::<u8>::empty());
        }
        let mut i: usize = 0;
        while i < self.green.children.len()
            invariant
                i <= self.green.children@.len(),
                es == self.green.children@,
                out@ == elems_text_upto(es, i as int),
            decreases self.green.children@.len() - i,
        {
            proof {
                lemma_elems_text_step(es, i as int);
            }
            let mut piece = elem_text_vec(&self.green.children[i]);
            out.append(&mut piece);
            i = i + 1;
        }
        proof {
            crate::green::lemma_node_leaves_elems(*self.green, es.len() as int);
        }
        out
    }

    /// The node's child nodes, in order, each with its absolute offset; the
    /// leaves in between contribute to the offsets but are not returned.
    pub fn children(&self) -> (r: Vec<SyntaxNode<'a>>)
        requires
            node_in_range(*self),
        ensures
            r@.len() == nodes_upto(self.green.children@, self.green.children@.len() as int).len(),
            forall|j: int|
                0 <= j < r@.len() ==> *(#[trigger] r@[j]).green == nodes_upto(
                    self.green.children@,
                    self.green.children@.len() as int,
                )[j] && node_in_range(r@[j]),
    {
        let ghost es = self.green.children@;
        let mut r: Vec<SyntaxNode<'a>> = Vec::new();
        let mut off: usize = self.offset;
        let mut i: usize = 0;
        proof {
            crate::green::lemma_node_leaves_elems(*self.green, es.len() as int);
            assert(elems_text_upto(es, 0) =~= Seq::<u8>::empty());
        }
        while i < self.green.children.len()
            invariant
                i <= self.green.children@.len(),
                es == self.green.children@,
                node_in_range(*self),
                off == self.offset + elems_text_upto(es, i as int).len(),
                leaves_text(node_leaves(*self.green)).len() == elems_text_upto(
                    es,
                    es.len() as int,
                ).len(),
                r@.len() == nodes_upto(es, i as int).len(),
                forall|j: int|
                    0 <= j < r@.len() ==> *(#[trigger] r@[j]).green == nodes_upto(
                        es,
                        i as int,
                    )[j] && node_in_range(r@[j]),
            decreases self.green.children@.len() - i,
        {
            proof {
                lemma_elems_text_step(es, i as int);
                lemma_elems_text_prefix_le(es, i + 1, es.len() as int);
            }
            let child = &self.green.children[i];
            let clen = elem_text_len(child);
            match child {
                GreenElement::Node(n) => {
                    r.push(SyntaxNode { green: n, offset: off });
                    proof {
                        assert(nodes_upto(es, i + 1) =~= nodes_upto(es, i as int) + seq![*n]);
                        assert(elem_text(es[i as int]) == node_text(*n)) by {
                            crate::green::lemma_node_leaves_elems(*n, n.children@.len() as int);
                        }
                    }
                },
                GreenElement::Leaf(_) => {
                    proof {
                        assert(nodes_upto(es, i + 1) =~= nodes_upto(es, i as int));
                    }
                },
            }
            off = off + clen;
            i = i + 1;
        }
        r
    }
}

/// The node's children, nodes and tokens alike, in order, each with its
/// absolute offset.
pub fn children_with_tokens<'b>(node: &SyntaxNode<'b>) -> (r: Vec<SyntaxElement<'b>>)
    requires
        node_in_range(*node),
    ensures
        r@.len() == node.green.children@.len(),
        forall|j: int|
            0 <= j < r@.len() ==> match node.green.children@[j] {
                GreenElement::Node(n) => (#[trigger] r@[j]) is Node && *r@[j]->Node_0.green == n
                    && node_in_range(r@[j]->Node_0),
                GreenElement::Leaf(t) => r@[j] is Token && *r@[j]->Token_0.green == t,
            },
{
    let ghost es = node.green.children@;
    let mut r: Vec<SyntaxElement<'b>> = Vec::new();
    let mut off: usize = node.offset;
    let mut i: usize = 0;
    proof {
        crate::green::lemma_node_leaves_elems(*node.green, es.len() as int);
        assert(elems_text_upto(es, 0) =~= Seq::<u8>::empty());
    }
    while i < node.green.children.len()
        invariant
            i <= node.green.children@.len(),
            es == node.green.children@,
            node_in_range(*node),
            off == node.offset + elems_text_upto(es, i as int).len(),
            leaves_text(node_leaves(*node.green)).len() == elems_text_upto(
                es,
                es.len() as int,
            ).len(),
            r@.len() == i,
            forall|j: int|
                0 <= j < r@.len() ==> match es[j] {
                    GreenElement::Node(n) => (#[trigger] r@[j]) is Node && *r@[j]->Node_0.green
                        == n && node_in_range(r@[j]->Node_0),
                    GreenElement::Leaf(t) => r@[j] is Token && *r@[j]->Token_0.green == t,
                },
        decreases node.green.children@.len() - i,
    {
        proof {
            lemma_elems_text_step(es, i as int);
            lemma_elems_text_prefix_le(es, i + 1, es.len() as int);
        }
        let child = &node.green.children[i];
        let clen = elem_text_len(child);
        match child {
            GreenElement::Node(n) => {
                proof {
                    assert(elem_text(es[i as int]) == node_text(*n)) by {
                        crate::green::lemma_node_leaves_elems(*n, n.children@.len() as int);
                    }
                }
                r.push(SyntaxElement::Node(SyntaxNode { green: n, offset: off }));
            },
            GreenElement::Leaf(t) => {
                r.push(SyntaxElement::Token(SyntaxToken { green: t, offset: off }));
            },
        }
        off = off + clen;
        i = i + 1;
    }
    r
}

/// A prefix of the children never covers more text than a longer prefix.
proof fn lemma_elems_text_prefix_le(es: Seq<GreenElement>, i: int, j: int)
    requires
        0 <= i <= j <= es.len(),
    ensures
        elems_text_upto(es, i).len() <= elems_text_upto(es, j).len(),
    decreases j - i,
{
    if i < j {
        lemma_elems_text_prefix_le(es, i + 1, j);
        lemma_elems_text_step(es, i);
    }
}

/// The byte length of the text under one element.
pub fn elem_text_len(e: &GreenElement) -> (r: usize)
    requires
        elem_text(*e).len() <= usize::MAX,
    ensures
        r == elem_text(*e).len(),
    decreases *e, 1int,
{
    match e {
        GreenElement::Leaf(t) => {
            proof {
                assert(elem_leaves(*e).drop_last() =~= Seq::<(SyntaxKind, Seq<u8>)>::empty());
                assert(leaves_text(Seq::<(SyntaxKind, Seq<u8>)>::empty()) =~= Seq::<u8>::empty());
                assert(elem_text(*e) =~= t.text@);
            }
            t.text.len()
        },
        GreenElement::Node(n) => {
            proof {
                crate::green::lemma_node_leaves_elems(*n, n.children@.len() as int);
            }
            node_text_len(n)
        },
    }
}

/// The byte length of the text under one node.
pub fn node_text_len(n: &GreenNode) -> (r: usize)
    requires
        node_text(*n).len() <= usize::MAX,
    ensures
        r == node_text(*n).len(),
    decreases *n, 0int,
{
    let ghost es = n.children@;
    proof {
        crate::green::lemma_node_leaves_elems(*n, es.len() as int);
        assert(elems_text_upto(es, 0) =~= Seq::<u8>::empty());
    }
    let mut total: usize = 0;
    let mut i: usize = 0;
    while i < n.children.len()
        invariant
            i <= n.children@.len(),
            es == n.children@,
            node_text(*n).len() <= usize::MAX,
            node_text(*n).len() == elems_text_upto(es, es.len() as int).len(),
            total == elems_text_upto(es, i as int).len(),
        decreases n.children@.len() - i,
    {
        proof {
            lemma_elems_text_step(es, i as int);
            lemma_elems_text_prefix_le(es, i + 1, es.len() as int);
        }
        let l = elem_text_len(&n.children[i]);
        total = total + l;
        i = i + 1;
    }
    total
}

/// The text under one element, copied out.
pub fn elem_text_vec(e: &GreenElement) -> (r: Vec<u8>)
    ensures
        r@ == elem_text(*e),
    decreases *e, 1int,
{
    match e {
        GreenElement::Leaf(t) => {
            proof {
                assert(elem_leaves(*e).drop_last() =~= Seq::<(SyntaxKind, Seq<u8>)>::empty());
                assert(leaves_text(Seq::<(SyntaxKind, Seq<u8>)>::empty()) =~= Seq::<u8>::empty());
                assert(elem_text(*e) =~= t.text@);
            }
            crate::lexer::copy_byte_range(t.text.as_slice(), 0, t.text.len())
        },
        GreenElement::Node(n) => {
            let ghost es = n.children@;
            proof {
                crate::green::lemma_node_leaves_elems(*n, es.len() as int);
                assert(elems_text_upto(es, 0) =~= Seq::<u8>::empty());
            }
            let mut out: Vec<u8> = Vec::new();
            let mut i: usize = 0;
            while i < n.children.len()
                invariant
                    i <= n.children@.len(),
                    es == n.children@,
                    *e is Node && (*e)->Node_0 == *n,
                    out@ == elems_text_upto(es, i as int),
                decreases n.children@.len() - i,
            {
                proof {
                    lemma_elems_text_step(es, i as int);
                }
                let mut piece = elem_text_vec(&n.children[i]);
                out.append(&mut piece);
                i = i + 1;
            }
            proof {
                crate::green::lemma_node_leaves_elems(*n, es.len() as int);
                assert(elem_text(*e) == elems_text_upto(es, es.len() as int));
            }
            out
        },
    }
}

} // verus!
