//! Expression productions: expressions, tests, primaries with their suffix
//! chains, operands, unary and binary forms, lambdas and inline
//! conditionals.

use crate::event::Event;
use crate::grammar::comprehension::{dict_comp, dict_expr, list_comp, list_expr};
use crate::grammar::statements;
use crate::kinds::SyntaxKind;
use crate::parser::{emits, emits_trans, lemma_node_finish, ParseError, Parser};
use crate::token_set::TokenSet;
use vstd::prelude::*;

verus! {

/// The tokens that can open a unary expression.
pub fn unary_op_set() -> TokenSet {
    TokenSet::new(
        &[SyntaxKind::NOT_KW, SyntaxKind::MINUS, SyntaxKind::PLUS, SyntaxKind::TILDE],
    )
}

/// The tokens accepted between two operands of a binary expression. This is
/// a flat membership set, not a precedence table: operators are taken in one
/// left-to-right pass, so precedence and associativity are not enforced
/// here.
pub fn bin_op_set() -> TokenSet {
    TokenSet::new(
        &[
            SyntaxKind::PLUS,
            SyntaxKind::MINUS,
            SyntaxKind::STAR,
            SyntaxKind::SLASH,
            SyntaxKind::DSLASH,
            SyntaxKind::PERCENT,
            SyntaxKind::DSTAR,
            SyntaxKind::LSHIFT,
            SyntaxKind::RSHIFT,
            SyntaxKind::AMP,
            SyntaxKind::PIPE,
            SyntaxKind::CARET,
            SyntaxKind::LT,
            SyntaxKind::GT,
            SyntaxKind::LE,
            SyntaxKind::GE,
            SyntaxKind::EQEQ,
            SyntaxKind::NE,
            SyntaxKind::IN_KW,
            SyntaxKind::NOT_KW,
        ],
    )
}

/// An expression: one or more tests, comma separated.
pub fn expression(p: &mut Parser)
    requires
        old(p).src.wf(),
    ensures
        emits(*old(p), *final(p)),
        crate::event::node_seg(final(p).events@, old(p).events@.len() as int, SyntaxKind::EXPRESSION),
        !(old(p).src.spec_nth(0) is EOF) ==> final(p).src.pos > old(p).src.pos,
    decreases old(p).src.tokens@.len() - old(p).src.pos, 250int,
{
    let ghost p0 = *p;
    let m = p.start();
    let ghost p1 = *p;
    test(p);
    while p.at(SyntaxKind::COMMA)
        invariant
            emits(p1, *p),
            p1.src == old(p).src,
            !(old(p).src.spec_nth(0) is EOF) ==> old(p).src.pos < p.src.pos,
        decreases p.src.tokens@.len() - p.src.pos,
    {
        let ghost q = *p;
        p.bump(SyntaxKind::COMMA);
        proof {
            emits_trans(p1, q, *p);
        }
        let ghost q = *p;
        test(p);
        proof {
            emits_trans(p1, q, *p);
        }
    }
    let ghost p2 = *p;
    m.complete(p, SyntaxKind::EXPRESSION);
    proof {
        lemma_node_finish(p0, p1, p2, *p, SyntaxKind::EXPRESSION);
    }
}

/// A test: an inline conditional, a lambda, a unary expression, or a
/// primary expression.
pub fn test(p: &mut Parser)
    requires
        old(p).src.wf(),
    ensures
        emits(*old(p), *final(p)),
        crate::event::node_seg(final(p).events@, old(p).events@.len() as int, SyntaxKind::TEST),
        !(old(p).src.spec_nth(0) is EOF) ==> final(p).src.pos > old(p).src.pos,
    decreases old(p).src.tokens@.len() - old(p).src.pos, 240int,
{
    let ghost p0 = *p;
    let m = p.start();
    let ghost p1 = *p;
    let ops = unary_op_set();
    if p.at(SyntaxKind::IF_KW) {
        if_expr(p);
    } else if p.at(SyntaxKind::LAMBDA_KW) {
        lambda_expr(p);
    } else if !p.at(SyntaxKind::EOF) && p.at_ts(ops) {
        unary_expr(p);
    } else {
        primary_expr(p);
    }
    let ghost p2 = *p;
    m.complete(p, SyntaxKind::TEST);
    proof {
        lemma_node_finish(p0, p1, p2, *p, SyntaxKind::TEST);
    }
}

/// A primary expression: an operand followed by any chain of attribute,
/// call and slice suffixes.
pub fn primary_expr(p: &mut Parser)
    requires
        old(p).src.wf(),
    ensures
        emits(*old(p), *final(p)),
        crate::event::node_seg(final(p).events@, old(p).events@.len() as int, SyntaxKind::PRIMARY_EXPR),
        !(old(p).src.spec_nth(0) is EOF) ==> final(p).src.pos > old(p).src.pos,
    decreases old(p).src.tokens@.len() - old(p).src.pos, 220int,
{
    let ghost p0 = *p;
    let m = p.start();
    let ghost p1 = *p;
    operand(p);
    while p.at(SyntaxKind::DOT) || p.at(SyntaxKind::LPAREN) || p.at(SyntaxKind::LBRACKET)
        invariant
            emits(p1, *p),
            p1.src == old(p).src,
            old(p).src.pos < p.src.pos || p.src.spec_nth(0) is EOF,
            !(old(p).src.spec_nth(0) is EOF) ==> old(p).src.pos < p.src.pos,
        decreases p.src.tokens@.len() - p.src.pos,
    {
        let ghost q = *p;
        if p.at(SyntaxKind::DOT) {
            dot_suffix(p);
        } else if p.at(SyntaxKind::LPAREN) {
            call_suffix(p);
        } else {
            slice_suffix(p);
        }
        proof {
            emits_trans(p1, q, *p);
        }
    }
    let ghost p2 = *p;
    m.complete(p, SyntaxKind::PRIMARY_EXPR);
    proof {
        lemma_node_finish(p0, p1, p2, *p, SyntaxKind::PRIMARY_EXPR);
    }
}

/// An operand: a literal or identifier, a parenthesized expression, a list
/// display or comprehension, or a dict display or comprehension. On any
/// other token an error is recorded and that one token is consumed into the
/// operand, so parsing always makes progress; at the end of input only the
/// error is recorded.
pub fn operand(p: &mut Parser)
    requires
        old(p).src.wf(),
    ensures
        emits(*old(p), *final(p)),
        crate::event::node_seg(final(p).events@, old(p).events@.len() as int, SyntaxKind::OPERAND),
        !(old(p).src.spec_nth(0) is EOF) ==> final(p).src.pos > old(p).src.pos,
        old(p).src.spec_nth(0) is EOF ==> final(p).src.pos == old(p).src.pos,
    decreases old(p).src.tokens@.len() - old(p).src.pos, 210int,
{
    let ghost p0 = *p;
    let m = p.start();
    let ghost p1 = *p;
    match p.current() {
        SyntaxKind::IDENTIFIER | SyntaxKind::INT | SyntaxKind::FLOAT | SyntaxKind::STRING
            | SyntaxKind::BYTES => {
            p.bump_any();
        },
        SyntaxKind::LPAREN => {
            p.bump(SyntaxKind::LPAREN);
            if !p.at(SyntaxKind::RPAREN) {
                let ghost q = *p;
                expression(p);
                proof {
                    emits_trans(p1, q, *p);
                }
                let ghost q = *p;
                let _ = p.eat(SyntaxKind::COMMA);
                proof {
                    emits_trans(p1, q, *p);
                }
            }
            let ghost q = *p;
            let _ = p.expect(SyntaxKind::RPAREN);
            proof {
                emits_trans(p1, q, *p);
            }
        },
        SyntaxKind::LBRACKET => {
            if p.nth_at(1, SyntaxKind::FOR_KW) {
                list_comp(p);
            } else {
                list_expr(p);
            }
        },
        SyntaxKind::LBRACE => {
            if p.nth_at(1, SyntaxKind::FOR_KW) {
                dict_comp(p);
            } else {
                dict_expr(p);
            }
        },
        SyntaxKind::EOF => {
            p.error(ParseError::UnexpectedEof);
        },
        _ => {
            let found = p.current_token();
            p.error(
                ParseError::UnexpectedToken {
                    expected: TokenSet::new(
                        &[
                            SyntaxKind::IDENTIFIER,
                            SyntaxKind::INT,
                            SyntaxKind::FLOAT,
                            SyntaxKind::STRING,
                            SyntaxKind::BYTES,
                            SyntaxKind::LPAREN,
                            SyntaxKind::LBRACKET,
                            SyntaxKind::LBRACE,
                        ],
                    ),
                    found,
                },
            );
            let ghost q = *p;
            p.bump_any();
            proof {
                emits_trans(p1, q, *p);
            }
        },
    }
    let ghost p2 = *p;
    m.complete(p, SyntaxKind::OPERAND);
    proof {
        lemma_node_finish(p0, p1, p2, *p, SyntaxKind::OPERAND);
    }
}

/// An attribute access: `.` and a name.
pub fn dot_suffix(p: &mut Parser)
    requires
        old(p).src.wf(),
        old(p).src.spec_nth(0) == SyntaxKind::DOT,
    ensures
        emits(*old(p), *final(p)),
        crate::event::node_seg(final(p).events@, old(p).events@.len() as int, SyntaxKind::DOT_SUFFIX),
        final(p).src.pos > old(p).src.pos,
    decreases old(p).src.tokens@.len() - old(p).src.pos, 230int,
{
    let ghost p0 = *p;
    let m = p.start();
    let ghost p1 = *p;
    p.bump(SyntaxKind::DOT);
    let ghost q = *p;
    let _ = p.expect(SyntaxKind::IDENTIFIER);
    proof {
        emits_trans(p1, q, *p);
    }
    let ghost p2 = *p;
    m.complete(p, SyntaxKind::DOT_SUFFIX);
    proof {
        lemma_node_finish(p0, p1, p2, *p, SyntaxKind::DOT_SUFFIX);
    }
}

/// A slice or index suffix: `[expression]`, `[a:b]` or `[a:b:c]`.
pub fn slice_suffix(p: &mut Parser)
    requires
        old(p).src.wf(),
        old(p).src.spec_nth(0) == SyntaxKind::LBRACKET,
    ensures
        emits(*old(p), *final(p)),
        crate::event::node_seg(final(p).events@, old(p).events@.len() as int, SyntaxKind::SLICE_SUFFIX),
        final(p).src.pos > old(p).src.pos,
    decreases old(p).src.tokens@.len() - old(p).src.pos, 230int,
{
    let ghost p0 = *p;
    let m = p.start();
    let ghost p1 = *p;
    p.bump(SyntaxKind::LBRACKET);
    if p.at(SyntaxKind::COLON) {
        let ghost q = *p;
        p.bump(SyntaxKind::COLON);
        proof {
            emits_trans(p1, q, *p);
        }
        let ghost q = *p;
        test(p);
        proof {
            emits_trans(p1, q, *p);
        }
        if p.at(SyntaxKind::COLON) {
            let ghost q = *p;
            p.bump(SyntaxKind::COLON);
            proof {
                emits_trans(p1, q, *p);
            }
            let ghost q = *p;
            test(p);
            proof {
                emits_trans(p1, q, *p);
            }
        }
    } else {
        let ghost q = *p;
        expression(p);
        proof {
            emits_trans(p1, q, *p);
        }
        if p.at(SyntaxKind::COLON) {
            let ghost q = *p;
            p.bump(SyntaxKind::COLON);
            proof {
                emits_trans(p1, q, *p);
            }
            let ghost q = *p;
            test(p);
            proof {
                emits_trans(p1, q, *p);
            }
            if p.at(SyntaxKind::COLON) {
                let ghost q = *p;
                p.bump(SyntaxKind::COLON);
                proof {
                    emits_trans(p1, q, *p);
                }
                let ghost q = *p;
                test(p);
                proof {
                    emits_trans(p1, q, *p);
                }
            }
        }
    }
    let ghost q = *p;
    let _ = p.expect(SyntaxKind::RBRACKET);
    proof {
        emits_trans(p1, q, *p);
    }
    let ghost p2 = *p;
    m.complete(p, SyntaxKind::SLICE_SUFFIX);
    proof {
        lemma_node_finish(p0, p1, p2, *p, SyntaxKind::SLICE_SUFFIX);
    }
}

/// A call suffix: a parenthesized, possibly empty argument list.
pub fn call_suffix(p: &mut Parser)
    requires
        old(p).src.wf(),
        old(p).src.spec_nth(0) == SyntaxKind::LPAREN,
    ensures
        emits(*old(p), *final(p)),
        crate::event::node_seg(final(p).events@, old(p).events@.len() as int, SyntaxKind::CALL_SUFFIX),
        final(p).src.pos > old(p).src.pos,
    decreases old(p).src.tokens@.len() - old(p).src.pos, 230int,
{
    let ghost p0 = *p;
    let m = p.start();
    let ghost p1 = *p;
    p.bump(SyntaxKind::LPAREN);
    if !p.at(SyntaxKind::RPAREN) {
        let ghost q = *p;
        arguments(p);
        proof {
            emits_trans(p1, q, *p);
        }
        let ghost q = *p;
        let _ = p.eat(SyntaxKind::COMMA);
        proof {
            emits_trans(p1, q, *p);
        }
    }
    let ghost q = *p;
    let _ = p.expect(SyntaxKind::RPAREN);
    proof {
        emits_trans(p1, q, *p);
    }
    let ghost p2 = *p;
    m.complete(p, SyntaxKind::CALL_SUFFIX);
    proof {
        lemma_node_finish(p0, p1, p2, *p, SyntaxKind::CALL_SUFFIX);
    }
}

/// A comma-separated argument list.
pub fn arguments(p: &mut Parser)
    requires
        old(p).src.wf(),
    ensures
        emits(*old(p), *final(p)),
        crate::event::node_seg(final(p).events@, old(p).events@.len() as int, SyntaxKind::ARGUMENTS),
    decreases old(p).src.tokens@.len() - old(p).src.pos, 246int,
{
    let ghost p0 = *p;
    let m = p.start();
    let ghost p1 = *p;
    argument(p);
    while p.at(SyntaxKind::COMMA)
        invariant
            emits(p1, *p),
            p1.src == old(p).src,
        decreases p.src.tokens@.len() - p.src.pos,
    {
        let ghost q = *p;
        p.bump(SyntaxKind::COMMA);
        proof {
            emits_trans(p1, q, *p);
        }
        let ghost q = *p;
        argument(p);
        proof {
            emits_trans(p1, q, *p);
        }
    }
    let ghost p2 = *p;
    m.complete(p, SyntaxKind::ARGUMENTS);
    proof {
        lemma_node_finish(p0, p1, p2, *p, SyntaxKind::ARGUMENTS);
    }
}

/// One argument: positional, keyword, `*value` or `**value`.
pub fn argument(p: &mut Parser)
    requires
        old(p).src.wf(),
    ensures
        emits(*old(p), *final(p)),
        crate::event::node_seg(final(p).events@, old(p).events@.len() as int, SyntaxKind::ARGUMENT),
    decreases old(p).src.tokens@.len() - old(p).src.pos, 245int,
{
    let ghost p0 = *p;
    let m = p.start();
    let ghost p1 = *p;
    if p.at(SyntaxKind::IDENTIFIER) && p.nth_at(1, SyntaxKind::EQ) {
        p.bump(SyntaxKind::IDENTIFIER);
        let ghost q = *p;
        let _ = p.expect(SyntaxKind::EQ);
        proof {
            emits_trans(p1, q, *p);
        }
        let ghost q = *p;
        test(p);
        proof {
            emits_trans(p1, q, *p);
        }
    } else if p.at(SyntaxKind::STAR) {
        p.bump(SyntaxKind::STAR);
        let ghost q = *p;
        test(p);
        proof {
            emits_trans(p1, q, *p);
        }
    } else if p.at(SyntaxKind::DSTAR) {
        p.bump(SyntaxKind::DSTAR);
        let ghost q = *p;
        test(p);
        proof {
            emits_trans(p1, q, *p);
        }
    } else {
        test(p);
    }
    let ghost p2 = *p;
    m.complete(p, SyntaxKind::ARGUMENT);
    proof {
        lemma_node_finish(p0, p1, p2, *p, SyntaxKind::ARGUMENT);
    }
}

/// A unary expression: `+`, `-`, `~` or `not` applied to a test.
pub fn unary_expr(p: &mut Parser)
    requires
        old(p).src.wf(),
        !(old(p).src.spec_nth(0) is EOF),
    ensures
        emits(*old(p), *final(p)),
        crate::event::node_seg(final(p).events@, old(p).events@.len() as int, SyntaxKind::UNARY_EXPR),
        final(p).src.pos > old(p).src.pos,
    decreases old(p).src.tokens@.len() - old(p).src.pos, 235int,
{
    let ghost p0 = *p;
    let m = p.start();
    let ghost p1 = *p;
    p.bump_any();
    let ghost q = *p;
    test(p);
    proof {
        emits_trans(p1, q, *p);
    }
    let ghost p2 = *p;
    m.complete(p, SyntaxKind::UNARY_EXPR);
    proof {
        lemma_node_finish(p0, p1, p2, *p, SyntaxKind::UNARY_EXPR);
    }
}

/// A binary expression: tests joined by operators from the flat operator
/// set, taken left to right.
pub fn binary_expr(p: &mut Parser)
    requires
        old(p).src.wf(),
    ensures
        emits(*old(p), *final(p)),
        crate::event::node_seg(final(p).events@, old(p).events@.len() as int, SyntaxKind::BINARY_EXPR),
        !(old(p).src.spec_nth(0) is EOF) ==> final(p).src.pos > old(p).src.pos,
    decreases old(p).src.tokens@.len() - old(p).src.pos, 256int,
{
    let ghost p0 = *p;
    let m = p.start();
    let ghost p1 = *p;
    test(p);
    let ops = bin_op_set();
    while !p.at(SyntaxKind::EOF) && (p.at_ts(ops) || (p.at(SyntaxKind::NOT_KW) && p.nth_at(
        1,
        SyntaxKind::IN_KW,
    )))
        invariant
            emits(p1, *p),
            p1.src == old(p).src,
            !(old(p).src.spec_nth(0) is EOF) ==> old(p).src.pos < p.src.pos,
        decreases p.src.tokens@.len() - p.src.pos,
    {
        let ghost q = *p;
        bin_op(p);
        proof {
            emits_trans(p1, q, *p);
        }
        let ghost q = *p;
        test(p);
        proof {
            emits_trans(p1, q, *p);
        }
    }
    let ghost p2 = *p;
    m.complete(p, SyntaxKind::BINARY_EXPR);
    proof {
        lemma_node_finish(p0, p1, p2, *p, SyntaxKind::BINARY_EXPR);
    }
}

/// One binary operator: any single operator token, or the two-token
/// `not in`.
pub fn bin_op(p: &mut Parser)
    requires
        old(p).src.wf(),
        !(old(p).src.spec_nth(0) is EOF),
    ensures
        emits(*old(p), *final(p)),
        old(p).src.spec_nth(0) == SyntaxKind::NOT_KW && old(p).src.spec_nth(1)
            == SyntaxKind::IN_KW ==> final(p).src.pos == old(p).src.pos + 2 && final(p).events@
            == old(p).events@ + seq![
            Event::Token { kind: SyntaxKind::NOT_KW, n_raw_tokens: 1 },
            Event::Token { kind: SyntaxKind::IN_KW, n_raw_tokens: 1 },
        ],
        !(old(p).src.spec_nth(0) == SyntaxKind::NOT_KW && old(p).src.spec_nth(1)
            == SyntaxKind::IN_KW) ==> final(p).src.pos == old(p).src.pos + 1 && final(p).events@
            == old(p).events@.push(
            Event::Token { kind: old(p).src.spec_nth(0), n_raw_tokens: 1 },
        ),
    decreases old(p).src.tokens@.len() - old(p).src.pos, 230int,
{
    let ghost p1 = *p;
    if p.at(SyntaxKind::NOT_KW) && p.nth_at(1, SyntaxKind::IN_KW) {
        p.bump(SyntaxKind::NOT_KW);
        let ghost q = *p;
        let _ = p.eat(SyntaxKind::IN_KW);
        proof {
            emits_trans(p1, q, *p);
            assert(p.events@ =~= p1.events@ + seq![
                Event::Token { kind: SyntaxKind::NOT_KW, n_raw_tokens: 1 },
                Event::Token { kind: SyntaxKind::IN_KW, n_raw_tokens: 1 },
            ]);
        }
    } else {
        p.bump_any();
    }
}

/// A lambda expression: `lambda parameters: test`.
pub fn lambda_expr(p: &mut Parser)
    requires
        old(p).src.wf(),
        old(p).src.spec_nth(0) == SyntaxKind::LAMBDA_KW,
    ensures
        emits(*old(p), *final(p)),
        crate::event::node_seg(final(p).events@, old(p).events@.len() as int, SyntaxKind::LAMBDA_EXPR),
        final(p).src.pos > old(p).src.pos,
    decreases old(p).src.tokens@.len() - old(p).src.pos, 235int,
{
    let ghost p0 = *p;
    let m = p.start();
    let ghost p1 = *p;
    p.bump(SyntaxKind::LAMBDA_KW);
    let starts = statements::param_start_set();
    if p.at_ts(starts) {
        let ghost q = *p;
        statements::parameters(p);
        proof {
            emits_trans(p1, q, *p);
        }
    }
    let ghost q = *p;
    let _ = p.expect(SyntaxKind::COLON);
    proof {
        emits_trans(p1, q, *p);
    }
    let ghost q = *p;
    test(p);
    proof {
        emits_trans(p1, q, *p);
    }
    let ghost p2 = *p;
    m.complete(p, SyntaxKind::LAMBDA_EXPR);
    proof {
        lemma_node_finish(p0, p1, p2, *p, SyntaxKind::LAMBDA_EXPR);
    }
}

/// An inline conditional: `if condition: value else alternative`, entered at
/// its `if` keyword.
pub fn if_expr(p: &mut Parser)
    requires
        old(p).src.wf(),
        old(p).src.spec_nth(0) == SyntaxKind::IF_KW,
    ensures
        emits(*old(p), *final(p)),
        crate::event::node_seg(final(p).events@, old(p).events@.len() as int, SyntaxKind::IF_EXPR),
        final(p).src.pos > old(p).src.pos,
    decreases old(p).src.tokens@.len() - old(p).src.pos, 235int,
{
    let ghost p0 = *p;
    let m = p.start();
    let ghost p1 = *p;
    p.bump(SyntaxKind::IF_KW);
    let ghost q = *p;
    test(p);
    proof {
        emits_trans(p1, q, *p);
    }
    let ghost q = *p;
    let _ = p.expect(SyntaxKind::COLON);
    proof {
        emits_trans(p1, q, *p);
    }
    let ghost q = *p;
    test(p);
    proof {
        emits_trans(p1, q, *p);
    }
    if p.at(SyntaxKind::ELSE_KW) {
        let ghost q = *p;
        p.bump(SyntaxKind::ELSE_KW);
        proof {
            emits_trans(p1, q, *p);
        }
        let ghost q = *p;
        test(p);
        proof {
            emits_trans(p1, q, *p);
        }
    }
    let ghost p2 = *p;
    m.complete(p, SyntaxKind::IF_EXPR);
    proof {
        lemma_node_finish(p0, p1, p2, *p, SyntaxKind::IF_EXPR);
    }
}

} // verus!
