//! Statement productions: statement dispatch, function definitions,
//! conditionals, loops, and the one-line simple statements.

use crate::event::Event;
use crate::grammar::{decl, expr};
use crate::kinds::SyntaxKind;
use crate::parser::{emits, emits_trans, lemma_node_finish, ParseError, Parser};
use crate::token_set::TokenSet;
use vstd::prelude::*;

verus! {

/// The statement kinds that error recovery may resynchronize on.
pub fn statement_recovery_set() -> TokenSet {
    TokenSet::new(
        &[
            SyntaxKind::DEF_KW,
            SyntaxKind::LOAD_KW,
            SyntaxKind::IF_KW,
            SyntaxKind::FOR_KW,
            SyntaxKind::IN_KW,
            SyntaxKind::RETURN_KW,
        ],
    )
}

/// The tokens that may stand between the two sides of an assignment.
pub fn assignment_operator_set() -> TokenSet {
    TokenSet::new(
        &[
            SyntaxKind::EQ,
            SyntaxKind::PLUSEQ,
            SyntaxKind::MINUSEQ,
            SyntaxKind::STAREQ,
            SyntaxKind::SLASHEQ,
            SyntaxKind::PERCENTEQ,
            SyntaxKind::AMPEQ,
            SyntaxKind::PIPEEQ,
            SyntaxKind::CARETEQ,
            SyntaxKind::LSHIFTEQ,
            SyntaxKind::RSHIFTEQ,
        ],
    )
}

/// The tokens that can open a function parameter.
pub fn param_start_set() -> TokenSet {
    TokenSet::new(&[SyntaxKind::IDENTIFIER, SyntaxKind::STAR, SyntaxKind::DSTAR])
}

/// Which node a statement wraps, by the token it starts at.
pub open spec fn statement_child_kind(k: SyntaxKind) -> SyntaxKind {
    match k {
        SyntaxKind::DEF_KW => SyntaxKind::DEF_STMT,
        SyntaxKind::IF_KW => SyntaxKind::IF_STMT,
        SyntaxKind::FOR_KW => SyntaxKind::FOR_STMT,
        _ => SyntaxKind::SIMPLE_STMT,
    }
}

/// Which node a small statement wraps, by the token it starts at.
pub open spec fn small_stmt_child_kind(k: SyntaxKind, assign: bool) -> SyntaxKind {
    match k {
        SyntaxKind::RETURN_KW => SyntaxKind::RETURN_STMT,
        SyntaxKind::BREAK_KW => SyntaxKind::BREAK_STMT,
        SyntaxKind::CONTINUE_KW => SyntaxKind::CONTINUE_STMT,
        SyntaxKind::PASS_KW => SyntaxKind::PASS_STMT,
        SyntaxKind::LOAD_KW => SyntaxKind::LOAD_STMT,
        _ => if assign {
            SyntaxKind::ASSIGN_STMT
        } else {
            SyntaxKind::EXPR_STMT
        },
    }
}

/// One statement: a `def`, `if` or `for` construct, or a simple statement,
/// wrapped in a `STATEMENT` node whose one child node answers to the
/// dispatching keyword.
pub fn statement(p: &mut Parser)
    requires
        old(p).src.wf(),
    ensures
        emits(*old(p), *final(p)),
        crate::event::node_seg(final(p).events@, old(p).events@.len() as int, SyntaxKind::STATEMENT),
        !(old(p).src.spec_nth(0) is EOF) ==> final(p).src.pos > old(p).src.pos,
        final(p).events@[old(p).events@.len() as int + 1] == (Event::Start {
            kind: statement_child_kind(old(p).src.spec_nth(0)),
            forward_parent: None,
        }),
    decreases old(p).src.tokens@.len() - old(p).src.pos, 290int,
{
    let ghost p0 = *p;
    let m = p.start();
    let ghost p1 = *p;
    match p.current() {
        SyntaxKind::DEF_KW => def_stmt(p),
        SyntaxKind::IF_KW => if_stmt(p),
        SyntaxKind::FOR_KW => for_stmt(p),
        _ => simple_stmt(p),
    }
    let ghost p2 = *p;
    m.complete(p, SyntaxKind::STATEMENT);
    proof {
        lemma_node_finish(p0, p1, p2, *p, SyntaxKind::STATEMENT);
    }
}

/// A function definition: `def name(parameters): suite`.
pub fn def_stmt(p: &mut Parser)
    requires
        old(p).src.wf(),
        old(p).src.spec_nth(0) == SyntaxKind::DEF_KW,
    ensures
        emits(*old(p), *final(p)),
        crate::event::node_seg(final(p).events@, old(p).events@.len() as int, SyntaxKind::DEF_STMT),
        final(p).src.pos > old(p).src.pos,
    decreases old(p).src.tokens@.len() - old(p).src.pos, 285int,
{
    let ghost p0 = *p;
    let m = p.start();
    let ghost p1 = *p;
    p.bump(SyntaxKind::DEF_KW);
    let ghost q = *p;
    let _ = p.expect(SyntaxKind::IDENTIFIER);
    proof {
        emits_trans(p1, q, *p);
    }
    let ghost q = *p;
    let _ = p.expect(SyntaxKind::LPAREN);
    proof {
        emits_trans(p1, q, *p);
    }
    if !p.at(SyntaxKind::RPAREN) {
        let ghost q = *p;
        parameters(p);
        proof {
            emits_trans(p1, q, *p);
        }
        let ghost q = *p;
        let _ = p.eat(SyntaxKind::COMMA);
        proof {
            emits_trans(p1, q, *p);
        }
    }
    let ghost q = *p;
    let _ = p.expect(SyntaxKind::RPAREN);
    proof {
        emits_trans(p1, q, *p);
    }
    let ghost q = *p;
    let _ = p.expect(SyntaxKind::COLON);
    proof {
        emits_trans(p1, q, *p);
    }
    let ghost q = *p;
    decl::suite(p);
    proof {
        emits_trans(p1, q, *p);
    }
    let ghost p2 = *p;
    m.complete(p, SyntaxKind::DEF_STMT);
    proof {
        lemma_node_finish(p0, p1, p2, *p, SyntaxKind::DEF_STMT);
    }
}

/// A comma-separated parameter list.
pub fn parameters(p: &mut Parser)
    requires
        old(p).src.wf(),
    ensures
        emits(*old(p), *final(p)),
        crate::event::node_seg(final(p).events@, old(p).events@.len() as int, SyntaxKind::PARAMETERS),
    decreases old(p).src.tokens@.len() - old(p).src.pos, 222int,
{
    let ghost p0 = *p;
    let m = p.start();
    let ghost p1 = *p;
    parameter(p);
    while p.at(SyntaxKind::COMMA)
        invariant
            emits(p1, *p),
            p1.src == old(p).src,
        decreases p.src.tokens@.len() - p.src.pos,
    {
        let ghost q = *p;
        p.bump(SyntaxKind::COMMA);
        proof {
            emits_trans(p1, q, *p);
        }
        let ghost q = *p;
        parameter(p);
        proof {
            emits_trans(p1, q, *p);
        }
    }
    let ghost p2 = *p;
    m.complete(p, SyntaxKind::PARAMETERS);
    proof {
        lemma_node_finish(p0, p1, p2, *p, SyntaxKind::PARAMETERS);
    }
}

/// One parameter: a name, a name with a default, `*`, `*name` or `**name`.
/// Anything else records an error naming the identifier kind and consumes
/// nothing, so the caller decides how to recover.
pub fn parameter(p: &mut Parser)
    requires
        old(p).src.wf(),
    ensures
        emits(*old(p), *final(p)),
        crate::event::node_seg(final(p).events@, old(p).events@.len() as int, SyntaxKind::PARAMETER),
    decreases old(p).src.tokens@.len() - old(p).src.pos, 221int,
{
    let ghost p0 = *p;
    let m = p.start();
    let ghost p1 = *p;
    match p.current() {
        SyntaxKind::IDENTIFIER => {
            p.bump(SyntaxKind::IDENTIFIER);
            if p.at(SyntaxKind::EQ) {
                let ghost q = *p;
                p.bump(SyntaxKind::EQ);
                proof {
                    emits_trans(p1, q, *p);
                }
                let ghost q = *p;
                expr::test(p);
                proof {
                    emits_trans(p1, q, *p);
                }
            }
        },
        SyntaxKind::STAR => {
            p.bump(SyntaxKind::STAR);
            if p.at(SyntaxKind::IDENTIFIER) {
                let ghost q = *p;
                p.bump(SyntaxKind::IDENTIFIER);
                proof {
                    emits_trans(p1, q, *p);
                }
            }
        },
        SyntaxKind::DSTAR => {
            p.bump(SyntaxKind::DSTAR);
            let ghost q = *p;
            let _ = p.expect(SyntaxKind::IDENTIFIER);
            proof {
                emits_trans(p1, q, *p);
            }
        },
        _ => {
            let found = p.current_token();
            p.error(
                ParseError::UnexpectedToken {
                    expected: TokenSet::singleton(SyntaxKind::IDENTIFIER),
                    found,
                },
            );
        },
    }
    let ghost p2 = *p;
    m.complete(p, SyntaxKind::PARAMETER);
    proof {
        lemma_node_finish(p0, p1, p2, *p, SyntaxKind::PARAMETER);
    }
}

/// One `elif` clause of an `if` statement.
pub fn elif_clauses(p: &mut Parser)
    requires
        old(p).src.wf(),
        old(p).src.spec_nth(0) == SyntaxKind::ELIF_KW,
    ensures
        emits(*old(p), *final(p)),
        crate::event::node_seg(final(p).events@, old(p).events@.len() as int, SyntaxKind::ELIF_CLAUSES),
        final(p).src.pos > old(p).src.pos,
    decreases old(p).src.tokens@.len() - old(p).src.pos, 285int,
{
    let ghost p0 = *p;
    let m = p.start();
    let ghost p1 = *p;
    p.bump(SyntaxKind::ELIF_KW);
    let ghost q = *p;
    expr::test(p);
    proof {
        emits_trans(p1, q, *p);
    }
    let ghost q = *p;
    let _ = p.expect(SyntaxKind::COLON);
    proof {
        emits_trans(p1, q, *p);
    }
    let ghost q = *p;
    decl::suite(p);
    proof {
        emits_trans(p1, q, *p);
    }
    let ghost p2 = *p;
    m.complete(p, SyntaxKind::ELIF_CLAUSES);
    proof {
        lemma_node_finish(p0, p1, p2, *p, SyntaxKind::ELIF_CLAUSES);
    }
}

/// The `else` clause of an `if` statement.
pub fn else_clause(p: &mut Parser)
    requires
        old(p).src.wf(),
        old(p).src.spec_nth(0) == SyntaxKind::ELSE_KW,
    ensures
        emits(*old(p), *final(p)),
        crate::event::node_seg(final(p).events@, old(p).events@.len() as int, SyntaxKind::ELSE_CLAUSE),
        final(p).src.pos > old(p).src.pos,
    decreases old(p).src.tokens@.len() - old(p).src.pos, 285int,
{
    let ghost p0 = *p;
    let m = p.start();
    let ghost p1 = *p;
    p.bump(SyntaxKind::ELSE_KW);
    let ghost q = *p;
    let _ = p.expect(SyntaxKind::COLON);
    proof {
        emits_trans(p1, q, *p);
    }
    let ghost q = *p;
    decl::suite(p);
    proof {
        emits_trans(p1, q, *p);
    }
    let ghost p2 = *p;
    m.complete(p, SyntaxKind::ELSE_CLAUSE);
    proof {
        lemma_node_finish(p0, p1, p2, *p, SyntaxKind::ELSE_CLAUSE);
    }
}

/// A `for` statement: `for variables in expression: suite`.
pub fn for_stmt(p: &mut Parser)
    requires
        old(p).src.wf(),
        old(p).src.spec_nth(0) == SyntaxKind::FOR_KW,
    ensures
        emits(*old(p), *final(p)),
        crate::event::node_seg(final(p).events@, old(p).events@.len() as int, SyntaxKind::FOR_STMT),
        final(p).src.pos > old(p).src.pos,
    decreases old(p).src.tokens@.len() - old(p).src.pos, 285int,
{
    let ghost p0 = *p;
    let m = p.start();
    let ghost p1 = *p;
    p.bump(SyntaxKind::FOR_KW);
    let ghost q = *p;
    decl::loop_variables(p);
    proof {
        emits_trans(p1, q, *p);
    }
    let ghost q = *p;
    let _ = p.expect(SyntaxKind::IN_KW);
    proof {
        emits_trans(p1, q, *p);
    }
    let ghost q = *p;
    expr::expression(p);
    proof {
        emits_trans(p1, q, *p);
    }
    let ghost q = *p;
    let _ = p.expect(SyntaxKind::COLON);
    proof {
        emits_trans(p1, q, *p);
    }
    let ghost q = *p;
    decl::suite(p);
    proof {
        emits_trans(p1, q, *p);
    }
    let ghost p2 = *p;
    m.complete(p, SyntaxKind::FOR_STMT);
    proof {
        lemma_node_finish(p0, p1, p2, *p, SyntaxKind::FOR_STMT);
    }
}

/// A one-line statement: small statements separated by semicolons.
pub fn simple_stmt(p: &mut Parser)
    requires
        old(p).src.wf(),
    ensures
        emits(*old(p), *final(p)),
        crate::event::node_seg(final(p).events@, old(p).events@.len() as int, SyntaxKind::SIMPLE_STMT),
        !(old(p).src.spec_nth(0) is EOF) ==> final(p).src.pos > old(p).src.pos,
    decreases old(p).src.tokens@.len() - old(p).src.pos, 280int,
{
    let ghost p0 = *p;
    let m = p.start();
    let ghost p1 = *p;
    small_stmt(p);
    while p.at(SyntaxKind::SEMICOLON)
        invariant
            emits(p1, *p),
            p1.src == old(p).src,
            !(old(p).src.spec_nth(0) is EOF) ==> old(p).src.pos < p.src.pos,
        decreases p.src.tokens@.len() - p.src.pos,
    {
        let ghost q = *p;
        p.bump(SyntaxKind::SEMICOLON);
        proof {
            emits_trans(p1, q, *p);
        }
        if p.at(SyntaxKind::NEWLINE) || p.at(SyntaxKind::EOF) {
            break ;
        }
        let ghost q = *p;
        small_stmt(p);
        proof {
            emits_trans(p1, q, *p);
        }
    }
    let ghost p2 = *p;
    m.complete(p, SyntaxKind::SIMPLE_STMT);
    proof {
        lemma_node_finish(p0, p1, p2, *p, SyntaxKind::SIMPLE_STMT);
    }
}

/// One small statement: `return`, `break`, `continue`, `pass`, a `load`, an
/// assignment, or a bare expression, wrapped in a `SMALL_STMT` node whose
/// one child node answers to the dispatching tokens.
pub fn small_stmt(p: &mut Parser)
    requires
        old(p).src.wf(),
    ensures
        emits(*old(p), *final(p)),
        crate::event::node_seg(final(p).events@, old(p).events@.len() as int, SyntaxKind::SMALL_STMT),
        !(old(p).src.spec_nth(0) is EOF) ==> final(p).src.pos > old(p).src.pos,
        final(p).events@[old(p).events@.len() as int + 1] == (Event::Start {
            kind: small_stmt_child_kind(
                old(p).src.spec_nth(0),
                old(p).src.spec_nth(0) == SyntaxKind::IDENTIFIER && old(p).src.spec_nth(1)
                    == SyntaxKind::EQ,
            ),
            forward_parent: None,
        }),
    decreases old(p).src.tokens@.len() - old(p).src.pos, 270int,
{
    let ghost p0 = *p;
    let m = p.start();
    let ghost p1 = *p;
    match p.current() {
        SyntaxKind::RETURN_KW => return_stmt(p),
        SyntaxKind::BREAK_KW => break_stmt(p),
        SyntaxKind::CONTINUE_KW => continue_stmt(p),
        SyntaxKind::PASS_KW => pass_stmt(p),
        SyntaxKind::LOAD_KW => load_stmt(p),
        _ => {
            if p.at(SyntaxKind::IDENTIFIER) && p.nth_at(1, SyntaxKind::EQ) {
                assign_stmt(p);
            } else {
                expr_stmt(p);
            }
        },
    }
    let ghost p2 = *p;
    m.complete(p, SyntaxKind::SMALL_STMT);
    proof {
        lemma_node_finish(p0, p1, p2, *p, SyntaxKind::SMALL_STMT);
    }
}

/// A `return`, with an optional value.
pub fn return_stmt(p: &mut Parser)
    requires
        old(p).src.wf(),
        old(p).src.spec_nth(0) == SyntaxKind::RETURN_KW,
    ensures
        emits(*old(p), *final(p)),
        crate::event::node_seg(final(p).events@, old(p).events@.len() as int, SyntaxKind::RETURN_STMT),
        final(p).src.pos > old(p).src.pos,
    decreases old(p).src.tokens@.len() - old(p).src.pos, 260int,
{
    let ghost p0 = *p;
    let m = p.start();
    let ghost p1 = *p;
    p.bump(SyntaxKind::RETURN_KW);
    if !p.at(SyntaxKind::NEWLINE) && !p.at(SyntaxKind::EOF) {
        let ghost q = *p;
        expr::expression(p);
        proof {
            emits_trans(p1, q, *p);
        }
    }
    let ghost p2 = *p;
    m.complete(p, SyntaxKind::RETURN_STMT);
    proof {
        lemma_node_finish(p0, p1, p2, *p, SyntaxKind::RETURN_STMT);
    }
}

/// A bare `break`.
pub fn break_stmt(p: &mut Parser)
    requires
        old(p).src.wf(),
        old(p).src.spec_nth(0) == SyntaxKind::BREAK_KW,
    ensures
        emits(*old(p), *final(p)),
        crate::event::node_seg(final(p).events@, old(p).events@.len() as int, SyntaxKind::BREAK_STMT),
        final(p).src.pos == old(p).src.pos + 1,
        final(p).events@ == old(p).events@ + seq![
            Event::Start { kind: SyntaxKind::BREAK_STMT, forward_parent: None },
            Event::Token { kind: SyntaxKind::BREAK_KW, n_raw_tokens: 1 },
            Event::Finish,
        ],
    decreases old(p).src.tokens@.len() - old(p).src.pos, 260int,
{
    let ghost p0 = *p;
    let m = p.start();
    let ghost p1 = *p;
    p.bump(SyntaxKind::BREAK_KW);
    let ghost p2 = *p;
    m.complete(p, SyntaxKind::BREAK_STMT);
    proof {
        lemma_node_finish(p0, p1, p2, *p, SyntaxKind::BREAK_STMT);
        assert(p.events@ =~= p0.events@ + seq![
            Event::Start { kind: SyntaxKind::BREAK_STMT, forward_parent: None },
            Event::Token { kind: SyntaxKind::BREAK_KW, n_raw_tokens: 1 },
            Event::Finish,
        ]);
    }
}

/// A bare `continue`.
pub fn continue_stmt(p: &mut Parser)
    requires
        old(p).src.wf(),
        old(p).src.spec_nth(0) == SyntaxKind::CONTINUE_KW,
    ensures
        emits(*old(p), *final(p)),
        crate::event::node_seg(final(p).events@, old(p).events@.len() as int, SyntaxKind::CONTINUE_STMT),
        final(p).src.pos == old(p).src.pos + 1,
        final(p).events@ == old(p).events@ + seq![
            Event::Start { kind: SyntaxKind::CONTINUE_STMT, forward_parent: None },
            Event::Token { kind: SyntaxKind::CONTINUE_KW, n_raw_tokens: 1 },
            Event::Finish,
        ],
    decreases old(p).src.tokens@.len() - old(p).src.pos, 260int,
{
    let ghost p0 = *p;
    let m = p.start();
    let ghost p1 = *p;
    p.bump(SyntaxKind::CONTINUE_KW);
    let ghost p2 = *p;
    m.complete(p, SyntaxKind::CONTINUE_STMT);
    proof {
        lemma_node_finish(p0, p1, p2, *p, SyntaxKind::CONTINUE_STMT);
        assert(p.events@ =~= p0.events@ + seq![
            Event::Start { kind: SyntaxKind::CONTINUE_STMT, forward_parent: None },
            Event::Token { kind: SyntaxKind::CONTINUE_KW, n_raw_tokens: 1 },
            Event::Finish,
        ]);
    }
}

/// A bare `pass`.
pub fn pass_stmt(p: &mut Parser)
    requires
        old(p).src.wf(),
        old(p).src.spec_nth(0) == SyntaxKind::PASS_KW,
    ensures
        emits(*old(p), *final(p)),
        crate::event::node_seg(final(p).events@, old(p).events@.len() as int, SyntaxKind::PASS_STMT),
        final(p).src.pos == old(p).src.pos + 1,
        final(p).events@ == old(p).events@ + seq![
            Event::Start { kind: SyntaxKind::PASS_STMT, forward_parent: None },
            Event::Token { kind: SyntaxKind::PASS_KW, n_raw_tokens: 1 },
            Event::Finish,
        ],
    decreases old(p).src.tokens@.len() - old(p).src.pos, 260int,
{
    let ghost p0 = *p;
    let m = p.start();
    let ghost p1 = *p;
    p.bump(SyntaxKind::PASS_KW);
    let ghost p2 = *p;
    m.complete(p, SyntaxKind::PASS_STMT);
    proof {
        lemma_node_finish(p0, p1, p2, *p, SyntaxKind::PASS_STMT);
        assert(p.events@ =~= p0.events@ + seq![
            Event::Start { kind: SyntaxKind::PASS_STMT, forward_parent: None },
            Event::Token { kind: SyntaxKind::PASS_KW, n_raw_tokens: 1 },
            Event::Finish,
        ]);
    }
}

/// An assignment: a target expression, an assignment operator, a value.
pub fn assign_stmt(p: &mut Parser)
    requires
        old(p).src.wf(),
    ensures
        emits(*old(p), *final(p)),
        crate::event::node_seg(final(p).events@, old(p).events@.len() as int, SyntaxKind::ASSIGN_STMT),
        !(old(p).src.spec_nth(0) is EOF) ==> final(p).src.pos > old(p).src.pos,
    decreases old(p).src.tokens@.len() - old(p).src.pos, 260int,
{
    let ghost p0 = *p;
    let m = p.start();
    let ghost p1 = *p;
    expr::expression(p);
    let ops = assignment_operator_set();
    if !p.at_ts(ops) {
        let found = p.current_token();
        let ghost q = *p;
        p.error(ParseError::UnexpectedToken { expected: ops, found });
        proof {
            emits_trans(p1, q, *p);
        }
    } else {
        let ghost q = *p;
        p.bump_any();
        proof {
            emits_trans(p1, q, *p);
        }
    }
    let ghost q = *p;
    expr::expression(p);
    proof {
        emits_trans(p1, q, *p);
    }
    let ghost p2 = *p;
    m.complete(p, SyntaxKind::ASSIGN_STMT);
    proof {
        lemma_node_finish(p0, p1, p2, *p, SyntaxKind::ASSIGN_STMT);
    }
}

/// A bare expression in statement position.
pub fn expr_stmt(p: &mut Parser)
    requires
        old(p).src.wf(),
    ensures
        emits(*old(p), *final(p)),
        crate::event::node_seg(final(p).events@, old(p).events@.len() as int, SyntaxKind::EXPR_STMT),
        !(old(p).src.spec_nth(0) is EOF) ==> final(p).src.pos > old(p).src.pos,
    decreases old(p).src.tokens@.len() - old(p).src.pos, 260int,
{
    let ghost p0 = *p;
    let m = p.start();
    let ghost p1 = *p;
    expr::expression(p);
    let ghost p2 = *p;
    m.complete(p, SyntaxKind::EXPR_STMT);
    proof {
        lemma_node_finish(p0, p1, p2, *p, SyntaxKind::EXPR_STMT);
    }
}

/// A `load` statement: `load("module", ...bindings...)`.
pub fn load_stmt(p: &mut Parser)
    requires
        old(p).src.wf(),
        old(p).src.spec_nth(0) == SyntaxKind::LOAD_KW,
    ensures
        emits(*old(p), *final(p)),
        crate::event::node_seg(final(p).events@, old(p).events@.len() as int, SyntaxKind::LOAD_STMT),
        final(p).src.pos > old(p).src.pos,
    decreases old(p).src.tokens@.len() - old(p).src.pos, 260int,
{
    let ghost p0 = *p;
    let m = p.start();
    let ghost p1 = *p;
    p.bump(SyntaxKind::LOAD_KW);
    let ghost q = *p;
    let _ = p.expect(SyntaxKind::LPAREN);
    proof {
        emits_trans(p1, q, *p);
    }
    let ghost q = *p;
    let _ = p.expect(SyntaxKind::STRING);
    proof {
        emits_trans(p1, q, *p);
    }
    while p.at(SyntaxKind::COMMA)
        invariant
            emits(p1, *p),
            p1.src == old(p).src,
            old(p).src.pos < p.src.pos,
        decreases p.src.tokens@.len() - p.src.pos,
    {
        let ghost q = *p;
        p.bump(SyntaxKind::COMMA);
        proof {
            emits_trans(p1, q, *p);
        }
        if p.at(SyntaxKind::RPAREN) {
            break ;
        }
        if p.at(SyntaxKind::IDENTIFIER) {
            let ghost q = *p;
            p.bump(SyntaxKind::IDENTIFIER);
            proof {
                emits_trans(p1, q, *p);
            }
            let ghost q = *p;
            let _ = p.expect(SyntaxKind::EQ);
            proof {
                emits_trans(p1, q, *p);
            }
        }
        let ghost q = *p;
        let _ = p.expect(SyntaxKind::STRING);
        proof {
            emits_trans(p1, q, *p);
        }
    }
    let ghost q = *p;
    let _ = p.expect(SyntaxKind::RPAREN);
    proof {
        emits_trans(p1, q, *p);
    }
    let ghost p2 = *p;
    m.complete(p, SyntaxKind::LOAD_STMT);
    proof {
        lemma_node_finish(p0, p1, p2, *p, SyntaxKind::LOAD_STMT);
    }
}

/// An `if` statement, with any number of `elif` clauses and an optional
/// `else`.
pub fn if_stmt(p: &mut Parser)
    requires
        old(p).src.wf(),
        old(p).src.spec_nth(0) == SyntaxKind::IF_KW,
    ensures
        emits(*old(p), *final(p)),
        crate::event::node_seg(final(p).events@, old(p).events@.len() as int, SyntaxKind::IF_STMT),
        final(p).src.pos > old(p).src.pos,
    decreases old(p).src.tokens@.len() - old(p).src.pos, 285int,
{
    let ghost p0 = *p;
    let m = p.start();
    let ghost p1 = *p;
    p.bump(SyntaxKind::IF_KW);
    let ghost q = *p;
    expr::test(p);
    proof {
        emits_trans(p1, q, *p);
    }
    let ghost q = *p;
    let _ = p.expect(SyntaxKind::COLON);
    proof {
        emits_trans(p1, q, *p);
    }
    let ghost q = *p;
    decl::suite(p);
    proof {
        emits_trans(p1, q, *p);
    }
    while p.at(SyntaxKind::ELIF_KW)
        invariant
            emits(p1, *p),
            p1.src == old(p).src,
            old(p).src.pos < p.src.pos,
        decreases p.src.tokens@.len() - p.src.pos,
    {
        let ghost q = *p;
        p.bump(SyntaxKind::ELIF_KW);
        proof {
            emits_trans(p1, q, *p);
        }
        let ghost q = *p;
        expr::test(p);
        proof {
            emits_trans(p1, q, *p);
        }
        let ghost q = *p;
        let _ = p.expect(SyntaxKind::COLON);
        proof {
            emits_trans(p1, q, *p);
        }
        let ghost q = *p;
        decl::suite(p);
        proof {
            emits_trans(p1, q, *p);
        }
    }
    if p.at(SyntaxKind::ELSE_KW) {
        let ghost q = *p;
        p.bump(SyntaxKind::ELSE_KW);
        proof {
            emits_trans(p1, q, *p);
        }
        let ghost q = *p;
        let _ = p.expect(SyntaxKind::COLON);
        proof {
            emits_trans(p1, q, *p);
        }
        let ghost q = *p;
        decl::suite(p);
        proof {
            emits_trans(p1, q, *p);
        }
    }
    let ghost p2 = *p;
    m.complete(p, SyntaxKind::IF_STMT);
    proof {
        lemma_node_finish(p0, p1, p2, *p, SyntaxKind::IF_STMT);
    }
}

} // verus!
