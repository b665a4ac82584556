//! The whole pipeline: text to tokens, tokens to events, events to one green
//! tree plus the diagnostics, for every input.

use crate::event::{process, Event};
use crate::grammar;
use crate::green::{leaves_text, node_text, GreenNode};
use crate::kinds::SyntaxKind;
use crate::lexer::{lexed, tokenize, Token};
use crate::parser::{Parser, TextTokenSource};
use crate::syntax_error::SyntaxError;
use crate::text_tree_sink::{tokens_model, TextTreeSink};
use vstd::prelude::*;

verus! {

/// Token lists that agree up to `n` have the same model up to `n`.
proof fn lemma_model_prefix(a: Seq<Token>, b: Seq<Token>, text: Seq<u8>, n: int)
    requires
        n <= a.len(),
        n <= b.len(),
        forall|j: int| 0 <= j < n ==> a[j] == b[j],
    ensures
        tokens_model(a, text, n) == tokens_model(b, text, n),
    decreases n,
{
    if 0 < n {
        lemma_model_prefix(a, b, text, n - 1);
    }
}

/// The heart of losslessness: the bytes of the leaves that stand for a lexed
/// token list are exactly the text those tokens tile.
proof fn lemma_lexed_model(toks: Seq<Token>, text: Seq<u8>, end: int)
    requires
        lexed(toks, text, end),
        0 <= end <= text.len(),
    ensures
        leaves_text(tokens_model(toks, text, toks.len() as int)) == text.subrange(0, end),
    decreases toks.len(),
{
    let n = toks.len() as int;
    if n == 0 {
        assert(tokens_model(toks, text, 0) =~= Seq::<(SyntaxKind, Seq<u8>)>::empty());
        assert(leaves_text(Seq::<(SyntaxKind, Seq<u8>)>::empty()) =~= text.subrange(0, 0));
    } else {
        let last = toks.last();
        lemma_lexed_model(toks.drop_last(), text, last.span.start as int);
        lemma_model_prefix(toks, toks.drop_last(), text, n - 1);
        let m = tokens_model(toks, text, n);
        assert(m.drop_last() =~= tokens_model(toks, text, n - 1));
        assert(m.last() == (
            last.kind.spec_to_syntax(),
            text.subrange(last.span.start as int, last.span.end as int),
        ));
        assert(leaves_text(m) == leaves_text(tokens_model(toks, text, n - 1)) + text.subrange(
            last.span.start as int,
            last.span.end as int,
        ));
        assert(text.subrange(0, last.span.start as int) + text.subrange(
            last.span.start as int,
            end,
        ) =~= text.subrange(0, end));
    }
}

/// Parses `text` into a green tree and the diagnostics found on the way.
/// Total and lossless for every input: the tree is always rooted in a `FILE`
/// node, and concatenating its leaves reproduces the input byte for byte.
pub fn parse_text(text: &[u8]) -> (r: (GreenNode, Vec<SyntaxError>))
    ensures
        r.0.kind == SyntaxKind::FILE,
        node_text(r.0) == text@,
{
    let (stream, mut errors) = tokenize(text);
    let src = TextTokenSource::new(&stream);
    let mut parser = Parser::new(src);
    grammar::root(&mut parser);
    let events = parser.finish();
    proof {
        assert(events@.skip(0int) =~= events@);
        assert(crate::event::wf_fp(events@)) by {
            assert forall|j: int|
                0 <= j < events@.len() implies match #[trigger] events@[j] {
                Event::Start { forward_parent: Some(d), .. } => 1 <= d && j + d < events@.len()
                    && events@[j + d] is Start,
                _ => true,
            } by {
                assert(match events@[j] {
                    Event::Start { forward_parent, .. } => forward_parent is None,
                    _ => true,
                });
            }
        }
    }
    let mut sink = TextTreeSink::new(stream);
    process(&mut sink, events);
    proof {
        assert(sink.builder.base@[0]->Node_0.kind == SyntaxKind::FILE);
    }
    let ghost sink_final = sink;
    let (green, mut parse_errors) = sink.finish();
    proof {
        let toks = sink_final.tokens@;
        let t = sink_final.text@;
        lemma_model_prefix(toks, toks.drop_last(), t, toks.len() - 1);
        lemma_lexed_model(toks.drop_last(), t, t.len() as int);
        assert(t.subrange(0, t.len() as int) =~= t);
        assert(node_text(green) == text@);
    }
    errors.append(&mut parse_errors);
    (green, errors)
}

} // verus!
