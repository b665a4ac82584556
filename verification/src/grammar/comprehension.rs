//! List and dict displays and comprehensions.

use crate::grammar::{decl, expr};
use crate::kinds::SyntaxKind;
use crate::parser::{emits, emits_trans, lemma_node_finish, Parser};
use vstd::prelude::*;

verus! {

/// A list comprehension: `[value clauses...]`, entered at its `[`.
pub fn list_comp(p: &mut Parser)
    requires
        old(p).src.wf(),
        old(p).src.spec_nth(0) == SyntaxKind::LBRACKET,
    ensures
        emits(*old(p), *final(p)),
        crate::event::node_seg(final(p).events@, old(p).events@.len() as int, SyntaxKind::LIST_COMP),
        final(p).src.pos > old(p).src.pos,
    decreases old(p).src.tokens@.len() - old(p).src.pos, 205int,
{
    let ghost p0 = *p;
    let m = p.start();
    let ghost p1 = *p;
    p.bump(SyntaxKind::LBRACKET);
    let ghost q = *p;
    expr::test(p);
    proof {
        emits_trans(p1, q, *p);
    }
    while p.at(SyntaxKind::FOR_KW) || p.at(SyntaxKind::IF_KW)
        invariant
            emits(p1, *p),
            p1.src == old(p).src,
            old(p).src.pos < p.src.pos,
        decreases p.src.tokens@.len() - p.src.pos,
    {
        let ghost q = *p;
        comp_clause(p);
        proof {
            emits_trans(p1, q, *p);
        }
    }
    let ghost q = *p;
    let _ = p.expect(SyntaxKind::RBRACKET);
    proof {
        emits_trans(p1, q, *p);
    }
    let ghost p2 = *p;
    m.complete(p, SyntaxKind::LIST_COMP);
    proof {
        lemma_node_finish(p0, p1, p2, *p, SyntaxKind::LIST_COMP);
    }
}

/// A list display: `[a, b, c]`, entered at its `[`.
pub fn list_expr(p: &mut Parser)
    requires
        old(p).src.wf(),
        old(p).src.spec_nth(0) == SyntaxKind::LBRACKET,
    ensures
        emits(*old(p), *final(p)),
        crate::event::node_seg(final(p).events@, old(p).events@.len() as int, SyntaxKind::LIST_EXPR),
        final(p).src.pos > old(p).src.pos,
    decreases old(p).src.tokens@.len() - old(p).src.pos, 205int,
{
    let ghost p0 = *p;
    let m = p.start();
    let ghost p1 = *p;
    p.bump(SyntaxKind::LBRACKET);
    if !p.at(SyntaxKind::RBRACKET) {
        let ghost q = *p;
        expr::expression(p);
        proof {
            emits_trans(p1, q, *p);
        }
        while p.at(SyntaxKind::COMMA)
            invariant
                emits(p1, *p),
                p1.src == old(p).src,
                old(p).src.pos < p.src.pos,
            decreases p.src.tokens@.len() - p.src.pos,
        {
            let ghost q = *p;
            p.bump(SyntaxKind::COMMA);
            proof {
                emits_trans(p1, q, *p);
            }
            if p.at(SyntaxKind::RBRACKET) {
                break ;
            }
            let ghost q = *p;
            expr::expression(p);
            proof {
                emits_trans(p1, q, *p);
            }
        }
    }
    let ghost q = *p;
    let _ = p.expect(SyntaxKind::RBRACKET);
    proof {
        emits_trans(p1, q, *p);
    }
    let ghost p2 = *p;
    m.complete(p, SyntaxKind::LIST_EXPR);
    proof {
        lemma_node_finish(p0, p1, p2, *p, SyntaxKind::LIST_EXPR);
    }
}

/// A dict display: `{key: value, ...}`, entered at its `{`.
pub fn dict_expr(p: &mut Parser)
    requires
        old(p).src.wf(),
        old(p).src.spec_nth(0) == SyntaxKind::LBRACE,
    ensures
        emits(*old(p), *final(p)),
        crate::event::node_seg(final(p).events@, old(p).events@.len() as int, SyntaxKind::DICT_EXPR),
        final(p).src.pos > old(p).src.pos,
    decreases old(p).src.tokens@.len() - old(p).src.pos, 205int,
{
    let ghost p0 = *p;
    let m = p.start();
    let ghost p1 = *p;
    p.bump(SyntaxKind::LBRACE);
    if !p.at(SyntaxKind::RBRACE) {
        let ghost q = *p;
        entries(p);
        proof {
            emits_trans(p1, q, *p);
        }
        while p.at(SyntaxKind::COMMA)
            invariant
                emits(p1, *p),
                p1.src == old(p).src,
                old(p).src.pos < p.src.pos,
            decreases p.src.tokens@.len() - p.src.pos,
        {
            let ghost q = *p;
            p.bump(SyntaxKind::COMMA);
            proof {
                emits_trans(p1, q, *p);
            }
            if p.at(SyntaxKind::RBRACE) {
                break ;
            }
            let ghost q = *p;
            entries(p);
            proof {
                emits_trans(p1, q, *p);
            }
        }
    }
    let ghost q = *p;
    let _ = p.expect(SyntaxKind::RBRACE);
    proof {
        emits_trans(p1, q, *p);
    }
    let ghost p2 = *p;
    m.complete(p, SyntaxKind::DICT_EXPR);
    proof {
        lemma_node_finish(p0, p1, p2, *p, SyntaxKind::DICT_EXPR);
    }
}

/// A dict comprehension: `{entry clauses...}`, entered at its `{`.
pub fn dict_comp(p: &mut Parser)
    requires
        old(p).src.wf(),
        old(p).src.spec_nth(0) == SyntaxKind::LBRACE,
    ensures
        emits(*old(p), *final(p)),
        crate::event::node_seg(final(p).events@, old(p).events@.len() as int, SyntaxKind::DICT_COMP),
        final(p).src.pos > old(p).src.pos,
    decreases old(p).src.tokens@.len() - old(p).src.pos, 205int,
{
    let ghost p0 = *p;
    let m = p.start();
    let ghost p1 = *p;
    p.bump(SyntaxKind::LBRACE);
    let ghost q = *p;
    entry(p);
    proof {
        emits_trans(p1, q, *p);
    }
    while p.at(SyntaxKind::FOR_KW) || p.at(SyntaxKind::IF_KW)
        invariant
            emits(p1, *p),
            p1.src == old(p).src,
            old(p).src.pos < p.src.pos,
        decreases p.src.tokens@.len() - p.src.pos,
    {
        let ghost q = *p;
        comp_clause(p);
        proof {
            emits_trans(p1, q, *p);
        }
    }
    let ghost q = *p;
    let _ = p.expect(SyntaxKind::RBRACE);
    proof {
        emits_trans(p1, q, *p);
    }
    let ghost p2 = *p;
    m.complete(p, SyntaxKind::DICT_COMP);
    proof {
        lemma_node_finish(p0, p1, p2, *p, SyntaxKind::DICT_COMP);
    }
}

/// One or more dict entries, comma separated.
pub fn entries(p: &mut Parser)
    requires
        old(p).src.wf(),
    ensures
        emits(*old(p), *final(p)),
        crate::event::node_seg(final(p).events@, old(p).events@.len() as int, SyntaxKind::ENTRIES),
    decreases old(p).src.tokens@.len() - old(p).src.pos, 248int,
{
    let ghost p0 = *p;
    let m = p.start();
    let ghost p1 = *p;
    entry(p);
    while p.at(SyntaxKind::COMMA)
        invariant
            emits(p1, *p),
            p1.src == old(p).src,
        decreases p.src.tokens@.len() - p.src.pos,
    {
        let ghost q = *p;
        p.bump(SyntaxKind::COMMA);
        proof {
            emits_trans(p1, q, *p);
        }
        let ghost q = *p;
        entry(p);
        proof {
            emits_trans(p1, q, *p);
        }
    }
    let ghost p2 = *p;
    m.complete(p, SyntaxKind::ENTRIES);
    proof {
        lemma_node_finish(p0, p1, p2, *p, SyntaxKind::ENTRIES);
    }
}

/// One dict entry: `key: value`.
pub fn entry(p: &mut Parser)
    requires
        old(p).src.wf(),
    ensures
        emits(*old(p), *final(p)),
        crate::event::node_seg(final(p).events@, old(p).events@.len() as int, SyntaxKind::ENTRY),
    decreases old(p).src.tokens@.len() - old(p).src.pos, 247int,
{
    let ghost p0 = *p;
    let m = p.start();
    let ghost p1 = *p;
    expr::test(p);
    let ghost q = *p;
    let _ = p.expect(SyntaxKind::COLON);
    proof {
        emits_trans(p1, q, *p);
    }
    let ghost q = *p;
    expr::test(p);
    proof {
        emits_trans(p1, q, *p);
    }
    let ghost p2 = *p;
    m.complete(p, SyntaxKind::ENTRY);
    proof {
        lemma_node_finish(p0, p1, p2, *p, SyntaxKind::ENTRY);
    }
}

/// One comprehension clause: `for variables in test` or `if test`. Anywhere
/// else the open marker is abandoned and nothing is emitted.
pub fn comp_clause(p: &mut Parser)
    requires
        old(p).src.wf(),
    ensures
        emits(*old(p), *final(p)),
        old(p).src.spec_nth(0) == SyntaxKind::FOR_KW || old(p).src.spec_nth(0)
            == SyntaxKind::IF_KW ==> final(p).src.pos > old(p).src.pos
            && crate::event::node_seg(
            final(p).events@,
            old(p).events@.len() as int,
            SyntaxKind::COMP_CLAUSE,
        ),
    decreases old(p).src.tokens@.len() - old(p).src.pos, 200int,
{
    let ghost p0 = *p;
    let m = p.start();
    let ghost p1 = *p;
    if p.at(SyntaxKind::FOR_KW) {
        p.bump(SyntaxKind::FOR_KW);
        let ghost q = *p;
        decl::loop_variables(p);
        proof {
            emits_trans(p1, q, *p);
        }
        let ghost q = *p;
        let _ = p.expect(SyntaxKind::IN_KW);
        proof {
            emits_trans(p1, q, *p);
        }
        let ghost q = *p;
        expr::test(p);
        proof {
            emits_trans(p1, q, *p);
        }
        let ghost p2 = *p;
        m.complete(p, SyntaxKind::COMP_CLAUSE);
        proof {
            lemma_node_finish(p0, p1, p2, *p, SyntaxKind::COMP_CLAUSE);
        }
    } else if p.at(SyntaxKind::IF_KW) {
        p.bump(SyntaxKind::IF_KW);
        let ghost q = *p;
        expr::test(p);
        proof {
            emits_trans(p1, q, *p);
        }
        let ghost p2 = *p;
        m.complete(p, SyntaxKind::COMP_CLAUSE);
        proof {
            lemma_node_finish(p0, p1, p2, *p, SyntaxKind::COMP_CLAUSE);
        }
    } else {
        m.abandon(p);
        proof {
            crate::parser::emits_refl(p0);
            assert(p.events@ =~= p0.events@);
        }
    }
}

} // verus!
