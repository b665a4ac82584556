//! The grammar: one mutually recursive procedure per production. Each
//! procedure opens a marker, drives the parser, and completes the marker
//! with the production's kind; every one of them emits a balanced event
//! segment and, except at the end of input, consumes at least one token, so
//! parsing always terminates and never panics, whatever the input.

pub mod comprehension;
pub mod decl;
pub mod expr;
pub mod statements;

use crate::event::{balanced, rooted, Event};
use crate::kinds::SyntaxKind;
use crate::parser::{emits, emits_trans, lemma_node_finish, Parser};
use vstd::prelude::*;

verus! {

/// A file-level event segment: a sequence of blank-line `NEWLINE` tokens and
/// completed `STATEMENT` nodes, one after the other. This is the whole
/// interior of a `FILE` node: nothing else ever stands at its top level.
pub open spec fn file_seg(es: Seq<Event>) -> bool
    decreases es.len(),
{
    if es.len() == 0 {
        true
    } else if es[0] == (Event::Token { kind: SyntaxKind::NEWLINE, n_raw_tokens: 1 }) {
        file_seg(es.skip(1))
    } else {
        exists|m: int|
            2 <= m <= es.len() && (#[trigger] es.subrange(0, m))[0] == (Event::Start {
                kind: SyntaxKind::STATEMENT,
                forward_parent: None,
            }) && es[m - 1] == Event::Finish && balanced(es.subrange(1, m - 1)) && file_seg(
                es.skip(m),
            )
    }
}

/// Appending one more blank-line token or one more completed `STATEMENT`
/// node to a file-level segment keeps it one.
pub proof fn lemma_file_seg_append(a: Seq<Event>, b: Seq<Event>)
    requires
        file_seg(a),
        (b =~= seq![Event::Token { kind: SyntaxKind::NEWLINE, n_raw_tokens: 1 }]) || (b.len() >= 2
            && b[0] == (Event::Start { kind: SyntaxKind::STATEMENT, forward_parent: None })
            && b.last() == Event::Finish && balanced(b.subrange(1, b.len() - 1))),
    ensures
        file_seg(a + b),
    decreases a.len(),
{
    assert(file_seg(Seq::<Event>::empty()));
    if a.len() == 0 {
        assert(a + b =~= b);
        if b.len() == 1 {
            assert(b[0] == (Event::Token { kind: SyntaxKind::NEWLINE, n_raw_tokens: 1 }));
            assert(b.skip(1) =~= Seq::<Event>::empty());
            assert(file_seg(b));
        } else {
            let m = b.len() as int;
            assert(b.subrange(0, m) =~= b);
            assert(b.skip(m) =~= Seq::<Event>::empty());
            assert(2 <= m <= b.len() && b.subrange(0, m)[0] == (Event::Start {
                kind: SyntaxKind::STATEMENT,
                forward_parent: None,
            }) && b[m - 1] == Event::Finish && balanced(b.subrange(1, m - 1)) && file_seg(
                b.skip(m),
            ));
            assert(file_seg(b));
        }
    } else if a[0] == (Event::Token { kind: SyntaxKind::NEWLINE, n_raw_tokens: 1 }) {
        lemma_file_seg_append(a.skip(1), b);
        assert((a + b).skip(1) =~= a.skip(1) + b);
        assert((a + b)[0] == a[0]);
        assert(file_seg(a + b));
    } else {
        let m = choose|m: int|
            2 <= m <= a.len() && (#[trigger] a.subrange(0, m))[0] == (Event::Start {
                kind: SyntaxKind::STATEMENT,
                forward_parent: None,
            }) && a[m - 1] == Event::Finish && balanced(a.subrange(1, m - 1)) && file_seg(
                a.skip(m),
            );
        lemma_file_seg_append(a.skip(m), b);
        assert((a + b).skip(m) =~= a.skip(m) + b);
        assert((a + b).subrange(0, m) =~= a.subrange(0, m));
        assert((a + b).subrange(1, m - 1) =~= a.subrange(1, m - 1));
        assert((a + b)[m - 1] == a[m - 1]);
        assert(2 <= m <= (a + b).len() && (a + b).subrange(0, m)[0] == (Event::Start {
            kind: SyntaxKind::STATEMENT,
            forward_parent: None,
        }) && (a + b)[m - 1] == Event::Finish && balanced((a + b).subrange(1, m - 1)) && file_seg(
            (a + b).skip(m),
        ));
        assert((a + b)[0] == a[0]);
        assert(file_seg(a + b));
    }
}

/// The root production: the whole input as one `FILE` node.
pub fn root(p: &mut Parser)
    requires
        old(p).src.wf(),
        old(p).events@.len() == 0,
    ensures
        emits(*old(p), *final(p)),
        rooted(final(p).events@, SyntaxKind::FILE),
        file_seg(final(p).events@.subrange(1, final(p).events@.len() - 1)),
        final(p).src.spec_nth(0) is EOF,
        final(p).src.pos == final(p).src.tokens@.len() - 1,
    decreases old(p).src.tokens@.len() - old(p).src.pos, 310int,
{
    let ghost p0 = *p;
    let m = p.start();
    let ghost p1 = *p;
    file(p);
    let ghost p2 = *p;
    m.complete(p, SyntaxKind::FILE);
    proof {
        lemma_node_finish(p0, p1, p2, *p, SyntaxKind::FILE);
        let es = p.events@;
        let mid = p2.events@.skip(p1.events@.len() as int);
        assert(es[0] == (Event::Start { kind: SyntaxKind::FILE, forward_parent: None }));
        assert(es.last() == Event::Finish);
        assert(es.subrange(1, es.len() - 1) =~= mid) by {
            assert forall|j: int| 0 <= j < mid.len() implies es.subrange(1, es.len() - 1)[j]
                == mid[j] by {
                assert(es[j + 1] == p2.events@[j + 1]);
            }
        }
    }
}

/// A file: statements and blank lines, up to the end of the input. Its
/// whole output is a file-level segment: `STATEMENT` nodes and blank-line
/// tokens, nothing else.
pub fn file(p: &mut Parser)
    requires
        old(p).src.wf(),
    ensures
        emits(*old(p), *final(p)),
        file_seg(final(p).events@.skip(old(p).events@.len() as int)),
        final(p).src.spec_nth(0) is EOF,
        final(p).src.pos == final(p).src.tokens@.len() - 1,
    decreases old(p).src.tokens@.len() - old(p).src.pos, 300int,
{
    let ghost p1 = *p;
    proof {
        crate::parser::emits_refl(p1);
        assert(p.events@.skip(p1.events@.len() as int) =~= Seq::<Event>::empty());
        assert(file_seg(Seq::<Event>::empty()));
    }
    while !p.at(SyntaxKind::EOF)
        invariant
            emits(p1, *p),
            p1.src == old(p).src,
            p1.events == old(p).events,
            file_seg(p.events@.skip(p1.events@.len() as int)),
        decreases p.src.tokens@.len() - p.src.pos,
    {
        let ghost q = *p;
        let ghost anchor = p1.events@.len() as int;
        if p.at(SyntaxKind::NEWLINE) {
            p.bump(SyntaxKind::NEWLINE);
            proof {
                let a = q.events@.skip(anchor);
                let b = seq![Event::Token { kind: SyntaxKind::NEWLINE, n_raw_tokens: 1 }];
                lemma_file_seg_append(a, b);
                assert(p.events@.skip(anchor) =~= a + b);
            }
        } else {
            statements::statement(p);
            proof {
                let a = q.events@.skip(anchor);
                let b = p.events@.skip(q.events@.len() as int);
                assert(b[0] == p.events@[q.events@.len() as int]);
                assert(b.last() == p.events@.last());
                assert(b.subrange(1, b.len() - 1) =~= p.events@.subrange(
                    q.events@.len() as int + 1,
                    p.events@.len() - 1,
                ));
                lemma_file_seg_append(a, b);
                assert(p.events@.skip(anchor) =~= a + b);
            }
        }
        proof {
            emits_trans(p1, q, *p);
        }
    }
    proof {
        if p.src.pos < p.src.tokens@.len() - 1 {
            assert(!(p.src.tokens@[p.src.pos as int].kind is EOF));
        }
    }
}

} // verus!
