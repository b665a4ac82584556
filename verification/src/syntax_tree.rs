//! The tree builder: turns a well-nested series of `start_node`, `token` and
//! `finish_node` calls into one green tree, and collects the syntax errors
//! reported along the way. Every operation is total: closing more nodes than
//! were opened does nothing, and leaves are never lost.

use crate::green::{
    elem_leaves, elems_leaves, elems_leaves_upto, lemma_elems_leaves_push,
    lemma_node_leaves_elems, node_leaves, GreenElement, GreenNode, GreenToken,
};
use crate::kinds::SyntaxKind;
use crate::lexer::Span;
use crate::parser::ParseError;
use crate::syntax_error::{SyntaxError, SyntaxErrorCause};
use vstd::prelude::*;

verus! {

/// A node that has been opened but not yet closed.
pub struct PendingNode {
    pub kind: SyntaxKind,
    pub children: Vec<GreenElement>,
}

/// The concrete tree builder.
pub struct SyntaxTreeBuilder {
    pub stack: Vec<PendingNode>,
    pub base: Vec<GreenElement>,
    pub errors: Vec<SyntaxError>,
}

/// The leaves held by the open nodes of the stack, outermost first.
pub open spec fn stack_leaves(st: Seq<PendingNode>) -> Seq<(SyntaxKind, Seq<u8>)>
    decreases st.len(),
{
    if st.len() == 0 {
        Seq::empty()
    } else {
        stack_leaves(st.drop_last()) + elems_leaves(st.last().children@)
    }
}

impl SyntaxTreeBuilder {
    /// Every leaf handed to the builder so far, in order: first those already
    /// sealed into finished elements, then those still inside open nodes.
    pub open spec fn all_leaves(&self) -> Seq<(SyntaxKind, Seq<u8>)> {
        elems_leaves(self.base@) + stack_leaves(self.stack@)
    }

    /// How many nodes are open.
    pub open spec fn spec_depth(&self) -> int {
        self.stack@.len() as int
    }

    /// The kind of the outermost open node.
    pub open spec fn root_kind(&self) -> SyntaxKind {
        self.stack@[0].kind
    }

    /// Number of finished elements at the base level.
    pub open spec fn base_len(&self) -> int {
        self.base@.len() as int
    }

    /// The errors recorded so far.
    pub open spec fn spec_errors(&self) -> Seq<SyntaxError> {
        self.errors@
    }

    /// A fresh builder: nothing open, nothing built, no errors.
    pub fn new() -> (r: SyntaxTreeBuilder)
        ensures
            r.all_leaves() == Seq::<(SyntaxKind, Seq<u8>)>::empty(),
            r.spec_depth() == 0,
            r.base_len() == 0,
            r.spec_errors() == Seq::<SyntaxError>::empty(),
    {
        let r = SyntaxTreeBuilder { stack: Vec::new(), base: Vec::new(), errors: Vec::new() };
        proof {
            assert(r.all_leaves() =~= Seq::<(SyntaxKind, Seq<u8>)>::empty());
        }
        r
    }

    /// How many nodes are open, as a machine integer.
    pub fn depth(&self) -> (r: usize)
        ensures
            r == self.spec_depth(),
    {
        self.stack.len()
    }

    /// Opens a node of the given kind.
    pub fn start_node(&mut self, kind: SyntaxKind)
        ensures
            final(self).all_leaves() == old(self).all_leaves(),
            final(self).spec_depth() == old(self).spec_depth() + 1,
            final(self).base@ == old(self).base@,
            final(self).spec_errors() == old(self).spec_errors(),
            final(self).stack@.last().kind == kind,
            forall|j: int|
                0 <= j < old(self).stack@.len() ==> final(self).stack@[j].kind == old(
                    self,
                ).stack@[j].kind,
            old(self).spec_depth() > 0 ==> final(self).root_kind() == old(self).root_kind(),
            old(self).spec_depth() == 0 ==> final(self).root_kind() == kind,
    {
        let ghost pre = self.stack@;
        self.stack.push(PendingNode { kind, children: Vec::new() });
        proof {
            assert(self.stack@.drop_last() =~= pre);
            assert(elems_leaves(self.stack@.last().children@) =~= Seq::<(
                SyntaxKind,
                Seq<u8>,
            )>::empty());
            assert(self.all_leaves() =~= old(self).all_leaves());
        }
    }

    /// Adds one leaf to the innermost open node, or to the base level when
    /// nothing is open.
    pub fn token(&mut self, kind: SyntaxKind, text: Vec<u8>)
        ensures
            final(self).all_leaves() == old(self).all_leaves().push((kind, text@)),
            final(self).spec_depth() == old(self).spec_depth(),
            final(self).spec_errors() == old(self).spec_errors(),
            forall|j: int|
                0 <= j < old(self).stack@.len() ==> final(self).stack@[j].kind == old(
                    self,
                ).stack@[j].kind,
            old(self).spec_depth() > 0 ==> final(self).base@ == old(self).base@,
            old(self).spec_depth() > 0 ==> final(self).root_kind() == old(self).root_kind(),
    {
        let leaf = GreenElement::Leaf(GreenToken { kind, text });
        proof {
            assert(elem_leaves(leaf) =~= seq![(kind, leaf->Leaf_0.text@)]);
        }
        if self.stack.len() > 0 {
            let ghost pre_stack = self.stack@;
            let mut top = self.stack.pop().unwrap();
            let ghost pre_children = top.children@;
            top.children.push(leaf);
            self.stack.push(top);
            proof {
                assert(self.stack@.drop_last() =~= pre_stack.drop_last());
                lemma_elems_leaves_push(pre_children, self.stack@.last().children@.last());
                assert(self.stack@.last().children@ =~= pre_children.push(
                    self.stack@.last().children@.last(),
                ));
                assert(self.all_leaves() =~= old(self).all_leaves().push((kind, text@)));
            }
        } else {
            let ghost pre_base = self.base@;
            self.base.push(leaf);
            proof {
                lemma_elems_leaves_push(pre_base, self.base@.last());
                assert(self.base@ =~= pre_base.push(self.base@.last()));
                assert(stack_leaves(self.stack@) =~= Seq::<(SyntaxKind, Seq<u8>)>::empty());
                assert(self.all_leaves() =~= old(self).all_leaves().push((kind, text@)));
            }
        }
    }

    /// Closes the innermost open node, attaching it to its parent or, for
    /// the outermost node, to the base level. With nothing open it does
    /// nothing.
    pub fn finish_node(&mut self)
        ensures
            final(self).all_leaves() == old(self).all_leaves(),
            final(self).spec_errors() == old(self).spec_errors(),
            old(self).spec_depth() == 0 ==> *final(self) == *old(self),
            old(self).spec_depth() > 0 ==> final(self).spec_depth() == old(self).spec_depth() - 1,
            forall|j: int|
                0 <= j < final(self).stack@.len() ==> final(self).stack@[j].kind == old(
                    self,
                ).stack@[j].kind,
            old(self).spec_depth() > 1 ==> final(self).base@ == old(self).base@,
            old(self).spec_depth() == 1 ==> final(self).base@.len() == old(self).base@.len() + 1
                && final(self).base@.last() is Node
                && final(self).base@.last()->Node_0.kind == old(self).root_kind()
                && node_leaves(final(self).base@.last()->Node_0) == elems_leaves(
                old(self).stack@[0].children@,
            ),
    {
        if self.stack.len() == 0 {
            return ;
        }
        let ghost pre_stack = self.stack@;
        let top = self.stack.pop().unwrap();
        let ghost top_children = top.children@;
        let node = GreenNode { kind: top.kind, children: top.children };
        proof {
            lemma_node_leaves_elems(node, node.children@.len() as int);
        }
        let elem = GreenElement::Node(node);
        if self.stack.len() > 0 {
            let ghost mid_stack = self.stack@;
            let mut parent = self.stack.pop().unwrap();
            let ghost parent_children = parent.children@;
            parent.children.push(elem);
            self.stack.push(parent);
            proof {
                assert(self.stack@.drop_last() =~= mid_stack.drop_last());
                assert(self.stack@.drop_last() =~= pre_stack.drop_last().drop_last());
                lemma_elems_leaves_push(parent_children, self.stack@.last().children@.last());
                assert(self.stack@.last().children@ =~= parent_children.push(
                    self.stack@.last().children@.last(),
                ));
                assert(elem_leaves(self.stack@.last().children@.last()) =~= elems_leaves(
                    top_children,
                ));
                assert(stack_leaves(pre_stack) == stack_leaves(pre_stack.drop_last())
                    + elems_leaves(top_children));
                assert(stack_leaves(pre_stack.drop_last()) == stack_leaves(
                    pre_stack.drop_last().drop_last(),
                ) + elems_leaves(parent_children));
                assert(stack_leaves(self.stack@) == stack_leaves(self.stack@.drop_last())
                    + elems_leaves(self.stack@.last().children@));
                assert(elems_leaves(self.stack@.last().children@) =~= elems_leaves(parent_children)
                    + elems_leaves(top_children)) by {
                    assert(elems_leaves(parent_children.push(self.stack@.last().children@.last()))
                        == elems_leaves(parent_children) + elem_leaves(
                        self.stack@.last().children@.last(),
                    ));
                }
                assert(self.all_leaves() =~= old(self).all_leaves());
            }
        } else {
            let ghost pre_base = self.base@;
            self.base.push(elem);
            proof {
                lemma_elems_leaves_push(pre_base, self.base@.last());
                assert(self.base@ =~= pre_base.push(self.base@.last()));
                assert(elem_leaves(self.base@.last()) =~= elems_leaves(top_children));
                assert(stack_leaves(self.stack@) =~= Seq::<(SyntaxKind, Seq<u8>)>::empty());
                assert(stack_leaves(pre_stack) =~= elems_leaves(top_children));
                assert(self.all_leaves() =~= old(self).all_leaves());
            }
        }
    }

    /// Records one syntax error.
    pub fn error(&mut self, e: ParseError, range: Span)
        ensures
            final(self).spec_errors().len() == old(self).spec_errors().len() + 1,
            final(self).spec_errors().last().cause == SyntaxErrorCause::Parse(e),
            final(self).spec_errors().last().range == range,
            final(self).spec_errors().drop_last() == old(self).spec_errors(),
            final(self).all_leaves() == old(self).all_leaves(),
            final(self).spec_depth() == old(self).spec_depth(),
            final(self).base@ == old(self).base@,
            forall|j: int|
                0 <= j < old(self).stack@.len() ==> final(self).stack@[j].kind == old(
                    self,
                ).stack@[j].kind,
            old(self).spec_depth() > 0 ==> final(self).root_kind() == old(self).root_kind(),
    {
        let err = SyntaxError {
            message: syntax_error_message(),
            range,
            cause: SyntaxErrorCause::Parse(e),
        };
        self.errors.push(err);
        proof {
            assert(self.errors@.drop_last() =~= old(self).errors@);
            assert(self.all_leaves() =~= old(self).all_leaves());
        }
    }

    /// Closes whatever is still open and hands out the finished tree and the
    /// errors. A build that opened exactly one root yields that root; any
    /// other shape is wrapped defensively in a `FILE` node, losing no leaf
    /// either way.
    pub fn finish(self) -> (r: (GreenNode, Vec<SyntaxError>))
        ensures
            node_leaves(r.0) == self.all_leaves(),
            r.1@ == self.spec_errors(),
            (self.spec_depth() == 0 && self.base_len() == 1 && self.base@[0] is Node) ==> r.0
                == self.base@[0]->Node_0,
    {
        let mut b = self;
        while b.stack.len() > 0
            invariant
                b.all_leaves() == self.all_leaves(),
                b.errors@ == self.errors@,
                self.spec_depth() == 0 ==> b == self,
            decreases b.stack@.len(),
        {
            b.finish_node();
        }
        let SyntaxTreeBuilder { stack: _, mut base, errors } = b;
        if base.len() == 1 {
            let only = base.pop().unwrap();
            match only {
                GreenElement::Node(n) => {
                    proof {
                        lemma_node_leaves_elems(n, n.children@.len() as int);
                        assert(elems_leaves_upto(b.base@, 0) =~= Seq::<(
                            SyntaxKind,
                            Seq<u8>,
                        )>::empty());
                        assert(elems_leaves(b.base@) == elems_leaves_upto(b.base@, 0)
                            + elem_leaves(b.base@[0]));
                        assert(b.base@[0] is Node && b.base@[0]->Node_0 == n);
                        assert(elem_leaves(b.base@[0]) == node_leaves(n));
                        assert(stack_leaves(b.stack@) =~= Seq::<(SyntaxKind, Seq<u8>)>::empty());
                        assert(b.all_leaves() =~= node_leaves(n));
                    }
                    return (n, errors);
                },
                GreenElement::Leaf(t) => {
                    base.push(GreenElement::Leaf(t));
                },
            }
        }
        let root = GreenNode { kind: SyntaxKind::FILE, children: base };
        proof {
            lemma_node_leaves_elems(root, root.children@.len() as int);
            assert(root.children@ =~= b.base@);
            assert(node_leaves(root) =~= b.all_leaves());
        }
        (root, errors)
    }
}

/// The message every grammar diagnostic carries; the structured cause rides
/// beside it.
fn syntax_error_message() -> String {
    "syntax error".to_owned()
}

} // verus!
