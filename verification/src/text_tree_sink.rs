//! The text-aware tree sink: receives the parser's structural calls, weaves
//! the trivia tokens back in between them, and feeds everything to the tree
//! builder, so that the finished tree carries every byte of the source.

use crate::green::{node_leaves, GreenNode};
use crate::kinds::SyntaxKind;
use crate::lexer::{lemma_lexed_token_wf, lexed, Token, TokenStream};
use crate::parser::{nt_from, ParseError};
use crate::syntax_error::SyntaxError;
use crate::syntax_tree::SyntaxTreeBuilder;
use vstd::prelude::*;

verus! {

/// The image of the first `n` raw tokens as tree leaves: each token's syntax
/// kind paired with its bytes.
pub open spec fn tokens_model(toks: Seq<Token>, text: Seq<u8>, n: int) -> Seq<(
    SyntaxKind,
    Seq<u8>,
)>
    decreases n,
{
    if n <= 0 {
        Seq::empty()
    } else {
        tokens_model(toks, text, n - 1).push(
            (
                toks[n - 1].kind.spec_to_syntax(),
                text.subrange(toks[n - 1].span.start as int, toks[n - 1].span.end as int),
            ),
        )
    }
}

/// The concrete sink: the raw token stream with a cursor, and the builder.
pub struct TextTreeSink {
    pub tokens: Vec<Token>,
    pub text: Vec<u8>,
    pub pos: usize,
    pub builder: SyntaxTreeBuilder,
}

impl TextTreeSink {
    /// What every sink operation preserves: the stream is a well-formed
    /// lexer output, the cursor is inside it, and the leaves handed to the
    /// builder so far are exactly the image of the tokens behind the cursor.
    pub open spec fn ok(&self) -> bool {
        &&& self.tokens@.len() >= 1
        &&& self.tokens@.last().kind is EOF
        &&& self.tokens@.last().span.start == self.text@.len()
        &&& self.tokens@.last().span.end == self.text@.len()
        &&& lexed(self.tokens@.drop_last(), self.text@, self.text@.len() as int)
        &&& self.pos <= self.tokens@.len() - 1
        &&& self.builder.all_leaves() == tokens_model(self.tokens@, self.text@, self.pos as int)
    }

    /// Builds a sink over a finished token stream, with nothing consumed and
    /// nothing built.
    pub fn new(stream: TokenStream) -> (r: TextTreeSink)
        requires
            stream.wf(),
        ensures
            r.ok(),
            r.pos == 0,
            r.tokens@ == stream.tokens@,
            r.text@ == stream.text@,
            r.builder.spec_depth() == 0,
            r.builder.base_len() == 0,
            r.builder.spec_errors() == Seq::<SyntaxError>::empty(),
    {
        let TokenStream { text, tokens, cursor: _ } = stream;
        let r = TextTreeSink { tokens, text, pos: 0, builder: SyntaxTreeBuilder::new() };
        r
    }

    /// Appends the token under the cursor to the builder and moves past it.
    fn push_cursor_token(&mut self)
        requires
            old(self).ok(),
            old(self).pos < old(self).tokens@.len() - 1,
        ensures
            final(self).ok(),
            final(self).tokens == old(self).tokens,
            final(self).text == old(self).text,
            final(self).pos == old(self).pos + 1,
            final(self).builder.spec_depth() == old(self).builder.spec_depth(),
            final(self).builder.spec_errors() == old(self).builder.spec_errors(),
            forall|j: int|
                0 <= j < old(self).builder.stack@.len() ==> final(self).builder.stack@[j].kind
                    == old(self).builder.stack@[j].kind,
            old(self).builder.spec_depth() > 0 ==> final(self).builder.base@ == old(self).builder.base@,
    {
        proof {
            lemma_lexed_token_wf(
                self.tokens@.drop_last(),
                self.text@,
                self.text@.len() as int,
                self.pos as int,
            );
        }
        let n = self.tokens.len();
        proof {
            assert(self.pos < n - 1);
        }
        let t = self.tokens[self.pos];
        let lexeme = t.lexeme(self.text.as_slice());
        self.builder.token(t.kind.to_syntax(), lexeme);
        self.pos = self.pos + 1;
    }

    /// Consumes trivia tokens into the builder until a grammar-visible token
    /// or the closing `EOF` stands under the cursor.
    fn eat_trivias(&mut self)
        requires
            old(self).ok(),
        ensures
            final(self).ok(),
            final(self).tokens == old(self).tokens,
            final(self).text == old(self).text,
            old(self).pos <= final(self).pos,
            nt_from(final(self).tokens@, final(self).pos as int) == nt_from(
                old(self).tokens@,
                old(self).pos as int,
            ),
            final(self).pos < final(self).tokens@.len() - 1 ==> !final(self).tokens@[final(self).pos as int].spec_is_trivia(),
            final(self).pos == old(self).pos ==> final(self).builder == old(self).builder,
            final(self).builder.spec_depth() == old(self).builder.spec_depth(),
            final(self).builder.spec_errors() == old(self).builder.spec_errors(),
            forall|j: int|
                0 <= j < old(self).builder.stack@.len() ==> final(self).builder.stack@[j].kind
                    == old(self).builder.stack@[j].kind,
            old(self).builder.spec_depth() > 0 ==> final(self).builder.base@ == old(self).builder.base@,
    {
        let n = self.tokens.len();
        while self.pos < n - 1 && self.tokens[self.pos].is_trivia()
            invariant
                self.ok(),
                n == self.tokens@.len(),
                self.tokens == old(self).tokens,
                self.text == old(self).text,
                old(self).pos <= self.pos,
                self.pos == old(self).pos ==> self.builder == old(self).builder,
                nt_from(self.tokens@, self.pos as int) == nt_from(
                    old(self).tokens@,
                    old(self).pos as int,
                ),
                self.builder.spec_depth() == old(self).builder.spec_depth(),
                self.builder.spec_errors() == old(self).builder.spec_errors(),
                forall|j: int|
                    0 <= j < old(self).builder.stack@.len() ==> self.builder.stack@[j].kind == old(self).builder.stack@[j].kind,
                old(self).builder.spec_depth() > 0 ==> self.builder.base@ == old(self).builder.base@,
            decreases n - self.pos,
        {
            proof {
                assert(nt_from(self.tokens@, self.pos as int) == nt_from(
                    self.tokens@,
                    self.pos as int + 1,
                ));
            }
            self.push_cursor_token();
        }
    }

    /// One grammar token: the trivia before it and then the token itself go
    /// into the builder as leaves.
    pub fn token(&mut self, kind: SyntaxKind, n_tokens: u8)
        requires
            old(self).ok(),
            nt_from(old(self).tokens@, old(self).pos as int) >= 1,
        ensures
            final(self).ok(),
            final(self).tokens == old(self).tokens,
            final(self).text == old(self).text,
            old(self).pos < final(self).pos,
            nt_from(final(self).tokens@, final(self).pos as int) == nt_from(
                old(self).tokens@,
                old(self).pos as int,
            ) - 1,
            final(self).builder.spec_depth() == old(self).builder.spec_depth(),
            final(self).builder.spec_errors() == old(self).builder.spec_errors(),
            forall|j: int|
                0 <= j < old(self).builder.stack@.len() ==> final(self).builder.stack@[j].kind
                    == old(self).builder.stack@[j].kind,
            old(self).builder.spec_depth() > 0 ==> final(self).builder.base@ == old(self).builder.base@,
    {
        let _ = kind;
        let _ = n_tokens;
        self.eat_trivias();
        proof {
            lemma_nt_pos_bound(self.tokens@, self.pos as int);
            lemma_lexed_token_wf(
                self.tokens@.drop_last(),
                self.text@,
                self.text@.len() as int,
                self.pos as int,
            );
            assert(self.tokens@.drop_last()[self.pos as int] == self.tokens@[self.pos as int]);
            assert(nt_from(self.tokens@, self.pos as int) == 1 + nt_from(
                self.tokens@,
                self.pos as int + 1,
            ));
        }
        self.push_cursor_token();
    }

    /// Opens one node.
    pub fn start_node(&mut self, kind: SyntaxKind)
        requires
            old(self).ok(),
        ensures
            final(self).ok(),
            final(self).tokens == old(self).tokens,
            final(self).text == old(self).text,
            final(self).pos == old(self).pos,
            nt_from(final(self).tokens@, final(self).pos as int) == nt_from(
                old(self).tokens@,
                old(self).pos as int,
            ),
            final(self).builder.spec_depth() == old(self).builder.spec_depth() + 1,
            final(self).builder.spec_errors() == old(self).builder.spec_errors(),
            final(self).builder.base@ == old(self).builder.base@,
            old(self).builder.spec_depth() > 0 ==> final(self).builder.root_kind() == old(self).builder.root_kind(),
            old(self).builder.spec_depth() == 0 ==> final(self).builder.root_kind() == kind,
    {
        self.builder.start_node(kind);
    }

    /// Closes one node. Closing the outermost node first takes in any trivia
    /// still pending, so a file's trailing comments and blank lines belong
    /// to the root.
    pub fn finish_node(&mut self)
        requires
            old(self).ok(),
        ensures
            final(self).ok(),
            final(self).tokens == old(self).tokens,
            final(self).text == old(self).text,
            old(self).pos <= final(self).pos,
            nt_from(final(self).tokens@, final(self).pos as int) == nt_from(
                old(self).tokens@,
                old(self).pos as int,
            ),
            final(self).builder.spec_errors() == old(self).builder.spec_errors(),
            old(self).builder.spec_depth() == 0 ==> final(self).builder.spec_depth() == 0 && final(self).builder.base@ == old(self).builder.base@,
            old(self).builder.spec_depth() > 0 ==> final(self).builder.spec_depth() == old(self).builder.spec_depth() - 1,
            forall|j: int|
                0 <= j < final(self).builder.stack@.len() ==> final(self).builder.stack@[j].kind
                    == old(self).builder.stack@[j].kind,
            old(self).builder.spec_depth() > 1 ==> final(self).builder.base@ == old(self).builder.base@,
            old(self).builder.spec_depth() == 1 ==> final(self).builder.base@.len() == old(self).builder.base@.len() + 1 && final(self).builder.base@.last() is Node && final(self).builder.base@.last()->Node_0.kind == old(self).builder.root_kind(),
            old(self).builder.spec_depth() == 1 && final(self).pos < final(self).tokens@.len() - 1
                ==> !final(self).tokens@[final(self).pos as int].spec_is_trivia(),
    {
        if self.builder.depth() == 1 {
            self.eat_trivias();
        }
        self.builder.finish_node();
    }

    /// Records one parse error, pointed at the token under the cursor (or at
    /// the very end of the text when everything has been consumed).
    pub fn error(&mut self, e: ParseError)
        requires
            old(self).ok(),
        ensures
            final(self).ok(),
            final(self).tokens == old(self).tokens,
            final(self).text == old(self).text,
            final(self).pos == old(self).pos,
            final(self).builder.spec_depth() == old(self).builder.spec_depth(),
            final(self).builder.base@ == old(self).builder.base@,
            forall|j: int|
                0 <= j < old(self).builder.stack@.len() ==> final(self).builder.stack@[j].kind
                    == old(self).builder.stack@[j].kind,
            old(self).builder.spec_depth() > 0 ==> final(self).builder.root_kind() == old(self).builder.root_kind(),
            final(self).builder.spec_errors().len() == old(self).builder.spec_errors().len() + 1,
            final(self).builder.spec_errors().drop_last() == old(self).builder.spec_errors(),
            final(self).builder.spec_errors().last().cause
                == crate::syntax_error::SyntaxErrorCause::Parse(e),
            final(self).builder.spec_errors().last().range
                == old(self).tokens@[old(self).pos as int].span,
    {
        proof {
            if (self.pos as int) < self.tokens@.len() - 1 {
                lemma_lexed_token_wf(
                    self.tokens@.drop_last(),
                    self.text@,
                    self.text@.len() as int,
                    self.pos as int,
                );
            }
        }
        let range = self.tokens[self.pos].span;
        self.builder.error(e, range);
    }

    /// Takes in whatever trivia remains, closes anything still open, and
    /// hands out the tree and the errors. Once every grammar token has been
    /// consumed, the tree's leaves are the image of every token of the
    /// stream, so its text is the source text.
    pub fn finish(self) -> (r: (GreenNode, Vec<SyntaxError>))
        requires
            self.ok(),
            nt_from(self.tokens@, self.pos as int) == 0,
        ensures
            node_leaves(r.0) == tokens_model(
                self.tokens@,
                self.text@,
                self.tokens@.len() - 1,
            ),
            r.1@ == self.builder.spec_errors(),
            (self.builder.spec_depth() == 0 && self.builder.base_len() == 1
                && self.builder.base@[0] is Node && self.pos == self.tokens@.len() - 1) ==> r.0
                == self.builder.base@[0]->Node_0,
    {
        let mut s = self;
        s.eat_trivias();
        proof {
            assert forall|j: int| 0 <= j < s.tokens@.len() - 1 implies !((#[trigger] s.tokens@[j]).kind
                is EOF) by {
                lemma_lexed_token_wf(s.tokens@.drop_last(), s.text@, s.text@.len() as int, j);
                assert(s.tokens@.drop_last()[j] == s.tokens@[j]);
            }
            lemma_nt_zero_at_end(s.tokens@, s.pos as int);
        }
        let (root, errors) = s.builder.finish();
        (root, errors)
    }
}

/// A cursor with grammar tokens still ahead stands strictly before the
/// closing `EOF`.
proof fn lemma_nt_pos_bound(toks: Seq<Token>, i: int)
    requires
        nt_from(toks, i) >= 1,
        toks.len() >= 1,
        toks.last().kind is EOF,
    ensures
        0 <= i < toks.len() - 1,
{
    if i == toks.len() - 1 {
        assert(nt_from(toks, i) == nt_from(toks, i + 1));
    }
}

/// With no grammar token ahead and only the final `EOF` allowed to be an
/// `EOF`, a cursor standing on a non-trivia token stands on the `EOF`.
proof fn lemma_nt_zero_at_end(toks: Seq<Token>, i: int)
    requires
        toks.len() >= 1,
        toks.last().kind is EOF,
        nt_from(toks, i) == 0,
        0 <= i <= toks.len() - 1,
        i < toks.len() - 1 ==> !toks[i].spec_is_trivia(),
        forall|j: int| 0 <= j < toks.len() - 1 ==> !((#[trigger] toks[j]).kind is EOF),
    ensures
        i == toks.len() - 1,
{
    if i < toks.len() - 1 {
        assert(!toks[i].spec_is_trivia() && !(toks[i].kind is EOF));
        assert(nt_from(toks, i) == 1 + nt_from(toks, i + 1));
    }
}

} // verus!
