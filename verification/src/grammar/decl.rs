//! Loop-variable lists and statement suites.

use crate::grammar::{expr, statements};
use crate::kinds::SyntaxKind;
use crate::parser::{emits, emits_trans, lemma_node_finish, Parser};
use vstd::prelude::*;

verus! {

/// One or more loop variables, comma separated.
pub fn loop_variables(p: &mut Parser)
    requires
        old(p).src.wf(),
    ensures
        emits(*old(p), *final(p)),
        crate::event::node_seg(final(p).events@, old(p).events@.len() as int, SyntaxKind::LOOP_VARIABLES),
    decreases old(p).src.tokens@.len() - old(p).src.pos, 225int,
{
    let ghost p0 = *p;
    let m = p.start();
    let ghost p1 = *p;
    expr::primary_expr(p);
    while p.at(SyntaxKind::COMMA)
        invariant
            emits(p1, *p),
            p1.src == old(p).src,
        decreases p.src.tokens@.len() - p.src.pos,
    {
        let ghost q = *p;
        p.bump(SyntaxKind::COMMA);
        proof {
            emits_trans(p1, q, *p);
        }
        let ghost q = *p;
        expr::primary_expr(p);
        proof {
            emits_trans(p1, q, *p);
        }
    }
    let ghost p2 = *p;
    m.complete(p, SyntaxKind::LOOP_VARIABLES);
    proof {
        lemma_node_finish(p0, p1, p2, *p, SyntaxKind::LOOP_VARIABLES);
    }
}

/// A suite: an indented block of statements after a newline, or a simple
/// statement on the same line. The block form ends at an `OUTDENT` or at the
/// end of the input.
pub fn suite(p: &mut Parser)
    requires
        old(p).src.wf(),
    ensures
        emits(*old(p), *final(p)),
        crate::event::node_seg(final(p).events@, old(p).events@.len() as int, SyntaxKind::SUITE),
    decreases old(p).src.tokens@.len() - old(p).src.pos, 281int,
{
    let ghost p0 = *p;
    let m = p.start();
    let ghost p1 = *p;
    if p.at(SyntaxKind::NEWLINE) {
        p.bump(SyntaxKind::NEWLINE);
        let ghost q = *p;
        let _ = p.expect(SyntaxKind::INDENT);
        proof {
            emits_trans(p1, q, *p);
        }
        while !p.at(SyntaxKind::OUTDENT) && !p.at(SyntaxKind::EOF)
            invariant
                emits(p1, *p),
                p1.src == old(p).src,
                old(p).src.pos < p.src.pos,
            decreases p.src.tokens@.len() - p.src.pos,
        {
            let ghost q = *p;
            if p.at(SyntaxKind::NEWLINE) {
                p.bump(SyntaxKind::NEWLINE);
            } else {
                statements::statement(p);
            }
            proof {
                emits_trans(p1, q, *p);
            }
        }
        let ghost q = *p;
        let _ = p.eat(SyntaxKind::OUTDENT);
        proof {
            emits_trans(p1, q, *p);
        }
    } else {
        statements::simple_stmt(p);
    }
    let ghost p2 = *p;
    m.complete(p, SyntaxKind::SUITE);
    proof {
        lemma_node_finish(p0, p1, p2, *p, SyntaxKind::SUITE);
    }
}

} // verus!
