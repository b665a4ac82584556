//! The lexer: source text in, a flat token stream out. Scanning is total:
//! every byte of the input lands in exactly one token, consecutive
//! unrecognizable bytes merge into a single `UNKNOWN` token with one
//! diagnostic for the whole run, and a synthetic `EOF` token closes the
//! stream.

use crate::kinds::SyntaxKind;
use crate::syntax_error::SyntaxError;
use vstd::prelude::*;

verus! {

/// A half-open byte range `[start, end)` within the source text.
#[derive(Debug, Clone, Copy, PartialEq, Eq, Hash, Structural)]
pub struct Span {
    pub start: usize,
    pub end: usize,
}

impl Span {
    /// Creates the span `[start, end)`.
    pub fn new(start: usize, end: usize) -> (r: Span)
        ensures
            r.start == start,
            r.end == end,
    {
        Span { start, end }
    }

    /// True when the two spans share at least one point, endpoints included.
    pub fn overlaps(&self, other: Span) -> (r: bool)
        ensures
            r == (self.start <= other.end && other.start <= self.end),
    {
        self.start <= other.end && other.start <= self.end
    }

    /// The smallest span covering both `self` and `other`.
    pub fn merge(&self, other: Span) -> (r: Span)
        ensures
            r.start == if self.start <= other.start { self.start } else { other.start },
            r.end == if self.end >= other.end { self.end } else { other.end },
    {
        Span {
            start: if self.start <= other.start { self.start } else { other.start },
            end: if self.end >= other.end { self.end } else { other.end },
        }
    }

    /// Number of bytes the span covers.
    pub fn len(&self) -> (r: usize)
        requires
            self.start <= self.end,
        ensures
            r == self.end - self.start,
    {
        self.end - self.start
    }
}

/// The lexer's own token categories. `NumericLiteral` covers the hex and
/// octal integer forms; `OUTDENT` exists for symmetry with `INDENT` and is
/// never produced by the scanner.
#[allow(non_camel_case_types)]
#[derive(Debug, Clone, Copy, PartialEq, Eq, Hash, Structural)]
pub enum TokenKind {
    PLUS,
    MINUS,
    STAR,
    SLASH,
    DSLASH,
    PERCENT,
    DSTAR,
    TILDE,
    AMP,
    PIPE,
    CARET,
    LSHIFT,
    RSHIFT,
    EQ,
    LT,
    GT,
    GE,
    LE,
    EQEQ,
    NE,
    PLUSEQ,
    MINUSEQ,
    STAREQ,
    SLASHEQ,
    DSLASHEQ,
    PERCENTEQ,
    AMPEQ,
    PIPEEQ,
    CARETEQ,
    LSHIFTEQ,
    RSHIFTEQ,
    DOT,
    COMMA,
    SEMICOLON,
    COLON,
    LPAREN,
    RPAREN,
    LBRACKET,
    RBRACKET,
    LBRACE,
    RBRACE,
    AND_KW,
    ELSE_KW,
    LOAD_KW,
    BREAK_KW,
    FOR_KW,
    NOT_KW,
    CONTINUE_KW,
    IF_KW,
    OR_KW,
    DEF_KW,
    IN_KW,
    PASS_KW,
    ELIF_KW,
    LAMBDA_KW,
    RETURN_KW,
    IDENTIFIER,
    INT,
    NumericLiteral,
    FLOAT,
    STRING,
    BYTES,
    COMMENT,
    WHITESPACE,
    NEWLINE,
    INDENT,
    OUTDENT,
    UNKNOWN,
    EOF,
}

impl TokenKind {
    /// The syntax-kind this token kind stands for in the tree. The lexer's
    /// two extra integer spellings fold into `INT`, and `DSLASHEQ` is
    /// carried as `SLASHEQ`, which has no spelling of its own in the tree.
    pub open spec fn spec_to_syntax(self) -> SyntaxKind {
        match self {
            TokenKind::PLUS => SyntaxKind::PLUS,
            TokenKind::MINUS => SyntaxKind::MINUS,
            TokenKind::STAR => SyntaxKind::STAR,
            TokenKind::SLASH => SyntaxKind::SLASH,
            TokenKind::DSLASH => SyntaxKind::DSLASH,
            TokenKind::PERCENT => SyntaxKind::PERCENT,
            TokenKind::DSTAR => SyntaxKind::DSTAR,
            TokenKind::TILDE => SyntaxKind::TILDE,
            TokenKind::AMP => SyntaxKind::AMP,
            TokenKind::PIPE => SyntaxKind::PIPE,
            TokenKind::CARET => SyntaxKind::CARET,
            TokenKind::LSHIFT => SyntaxKind::LSHIFT,
            TokenKind::RSHIFT => SyntaxKind::RSHIFT,
            TokenKind::EQ => SyntaxKind::EQ,
            TokenKind::LT => SyntaxKind::LT,
            TokenKind::GT => SyntaxKind::GT,
            TokenKind::GE => SyntaxKind::GE,
            TokenKind::LE => SyntaxKind::LE,
            TokenKind::EQEQ => SyntaxKind::EQEQ,
            TokenKind::NE => SyntaxKind::NE,
            TokenKind::PLUSEQ => SyntaxKind::PLUSEQ,
            TokenKind::MINUSEQ => SyntaxKind::MINUSEQ,
            TokenKind::STAREQ => SyntaxKind::STAREQ,
            TokenKind::SLASHEQ => SyntaxKind::SLASHEQ,
            TokenKind::DSLASHEQ => SyntaxKind::SLASHEQ,
            TokenKind::PERCENTEQ => SyntaxKind::PERCENTEQ,
            TokenKind::AMPEQ => SyntaxKind::AMPEQ,
            TokenKind::PIPEEQ => SyntaxKind::PIPEEQ,
            TokenKind::CARETEQ => SyntaxKind::CARETEQ,
            TokenKind::LSHIFTEQ => SyntaxKind::LSHIFTEQ,
            TokenKind::RSHIFTEQ => SyntaxKind::RSHIFTEQ,
            TokenKind::DOT => SyntaxKind::DOT,
            TokenKind::COMMA => SyntaxKind::COMMA,
            TokenKind::SEMICOLON => SyntaxKind::SEMICOLON,
            TokenKind::COLON => SyntaxKind::COLON,
            TokenKind::LPAREN => SyntaxKind::LPAREN,
            TokenKind::RPAREN => SyntaxKind::RPAREN,
            TokenKind::LBRACKET => SyntaxKind::LBRACKET,
            TokenKind::RBRACKET => SyntaxKind::RBRACKET,
            TokenKind::LBRACE => SyntaxKind::LBRACE,
            TokenKind::RBRACE => SyntaxKind::RBRACE,
            TokenKind::AND_KW => SyntaxKind::AND_KW,
            TokenKind::ELSE_KW => SyntaxKind::ELSE_KW,
            TokenKind::LOAD_KW => SyntaxKind::LOAD_KW,
            TokenKind::BREAK_KW => SyntaxKind::BREAK_KW,
            TokenKind::FOR_KW => SyntaxKind::FOR_KW,
            TokenKind::NOT_KW => SyntaxKind::NOT_KW,
            TokenKind::CONTINUE_KW => SyntaxKind::CONTINUE_KW,
            TokenKind::IF_KW => SyntaxKind::IF_KW,
            TokenKind::OR_KW => SyntaxKind::OR_KW,
            TokenKind::DEF_KW => SyntaxKind::DEF_KW,
            TokenKind::IN_KW => SyntaxKind::IN_KW,
            TokenKind::PASS_KW => SyntaxKind::PASS_KW,
            TokenKind::ELIF_KW => SyntaxKind::ELIF_KW,
            TokenKind::LAMBDA_KW => SyntaxKind::LAMBDA_KW,
            TokenKind::RETURN_KW => SyntaxKind::RETURN_KW,
            TokenKind::IDENTIFIER => SyntaxKind::IDENTIFIER,
            TokenKind::INT => SyntaxKind::INT,
            TokenKind::NumericLiteral => SyntaxKind::INT,
            TokenKind::FLOAT => SyntaxKind::FLOAT,
            TokenKind::STRING => SyntaxKind::STRING,
            TokenKind::BYTES => SyntaxKind::BYTES,
            TokenKind::COMMENT => SyntaxKind::COMMENT,
            TokenKind::WHITESPACE => SyntaxKind::WHITESPACE,
            TokenKind::NEWLINE => SyntaxKind::NEWLINE,
            TokenKind::INDENT => SyntaxKind::INDENT,
            TokenKind::OUTDENT => SyntaxKind::OUTDENT,
            TokenKind::UNKNOWN => SyntaxKind::UNKNOWN,
            TokenKind::EOF => SyntaxKind::EOF,
        }
    }

    #[verifier::when_used_as_spec(spec_to_syntax)]
    pub fn to_syntax(self) -> (r: SyntaxKind)
        ensures
            r == self.spec_to_syntax(),
    {
        match self {
            TokenKind::PLUS => SyntaxKind::PLUS,
            TokenKind::MINUS => SyntaxKind::MINUS,
            TokenKind::STAR => SyntaxKind::STAR,
            TokenKind::SLASH => SyntaxKind::SLASH,
            TokenKind::DSLASH => SyntaxKind::DSLASH,
            TokenKind::PERCENT => SyntaxKind::PERCENT,
            TokenKind::DSTAR => SyntaxKind::DSTAR,
            TokenKind::TILDE => SyntaxKind::TILDE,
            TokenKind::AMP => SyntaxKind::AMP,
            TokenKind::PIPE => SyntaxKind::PIPE,
            TokenKind::CARET => SyntaxKind::CARET,
            TokenKind::LSHIFT => SyntaxKind::LSHIFT,
            TokenKind::RSHIFT => SyntaxKind::RSHIFT,
            TokenKind::EQ => SyntaxKind::EQ,
            TokenKind::LT => SyntaxKind::LT,
            TokenKind::GT => SyntaxKind::GT,
            TokenKind::GE => SyntaxKind::GE,
            TokenKind::LE => SyntaxKind::LE,
            TokenKind::EQEQ => SyntaxKind::EQEQ,
            TokenKind::NE => SyntaxKind::NE,
            TokenKind::PLUSEQ => SyntaxKind::PLUSEQ,
            TokenKind::MINUSEQ => SyntaxKind::MINUSEQ,
            TokenKind::STAREQ => SyntaxKind::STAREQ,
            TokenKind::SLASHEQ => SyntaxKind::SLASHEQ,
            TokenKind::DSLASHEQ => SyntaxKind::SLASHEQ,
            TokenKind::PERCENTEQ => SyntaxKind::PERCENTEQ,
            TokenKind::AMPEQ => SyntaxKind::AMPEQ,
            TokenKind::PIPEEQ => SyntaxKind::PIPEEQ,
            TokenKind::CARETEQ => SyntaxKind::CARETEQ,
            TokenKind::LSHIFTEQ => SyntaxKind::LSHIFTEQ,
            TokenKind::RSHIFTEQ => SyntaxKind::RSHIFTEQ,
            TokenKind::DOT => SyntaxKind::DOT,
            TokenKind::COMMA => SyntaxKind::COMMA,
            TokenKind::SEMICOLON => SyntaxKind::SEMICOLON,
            TokenKind::COLON => SyntaxKind::COLON,
            TokenKind::LPAREN => SyntaxKind::LPAREN,
            TokenKind::RPAREN => SyntaxKind::RPAREN,
            TokenKind::LBRACKET => SyntaxKind::LBRACKET,
            TokenKind::RBRACKET => SyntaxKind::RBRACKET,
            TokenKind::LBRACE => SyntaxKind::LBRACE,
            TokenKind::RBRACE => SyntaxKind::RBRACE,
            TokenKind::AND_KW => SyntaxKind::AND_KW,
            TokenKind::ELSE_KW => SyntaxKind::ELSE_KW,
            TokenKind::LOAD_KW => SyntaxKind::LOAD_KW,
            TokenKind::BREAK_KW => SyntaxKind::BREAK_KW,
            TokenKind::FOR_KW => SyntaxKind::FOR_KW,
            TokenKind::NOT_KW => SyntaxKind::NOT_KW,
            TokenKind::CONTINUE_KW => SyntaxKind::CONTINUE_KW,
            TokenKind::IF_KW => SyntaxKind::IF_KW,
            TokenKind::OR_KW => SyntaxKind::OR_KW,
            TokenKind::DEF_KW => SyntaxKind::DEF_KW,
            TokenKind::IN_KW => SyntaxKind::IN_KW,
            TokenKind::PASS_KW => SyntaxKind::PASS_KW,
            TokenKind::ELIF_KW => SyntaxKind::ELIF_KW,
            TokenKind::LAMBDA_KW => SyntaxKind::LAMBDA_KW,
            TokenKind::RETURN_KW => SyntaxKind::RETURN_KW,
            TokenKind::IDENTIFIER => SyntaxKind::IDENTIFIER,
            TokenKind::INT => SyntaxKind::INT,
            TokenKind::NumericLiteral => SyntaxKind::INT,
            TokenKind::FLOAT => SyntaxKind::FLOAT,
            TokenKind::STRING => SyntaxKind::STRING,
            TokenKind::BYTES => SyntaxKind::BYTES,
            TokenKind::COMMENT => SyntaxKind::COMMENT,
            TokenKind::WHITESPACE => SyntaxKind::WHITESPACE,
            TokenKind::NEWLINE => SyntaxKind::NEWLINE,
            TokenKind::INDENT => SyntaxKind::INDENT,
            TokenKind::OUTDENT => SyntaxKind::OUTDENT,
            TokenKind::UNKNOWN => SyntaxKind::UNKNOWN,
            TokenKind::EOF => SyntaxKind::EOF,
        }
    }

    /// True only of the whitespace token.
    pub open spec fn spec_is_whitespace(self) -> bool {
        self is WHITESPACE
    }

    #[verifier::when_used_as_spec(spec_is_whitespace)]
    pub fn is_whitespace(self) -> (r: bool)
        ensures
            r == self.spec_is_whitespace(),
    {
        matches!(self, TokenKind::WHITESPACE)
    }

    /// Trivia is preserved in the tree but skipped by the grammar:
    /// whitespace and comments.
    pub open spec fn spec_is_trivia(self) -> bool {
        self is WHITESPACE || self is COMMENT
    }

    #[verifier::when_used_as_spec(spec_is_trivia)]
    pub fn is_trivia(self) -> (r: bool)
        ensures
            r == self.spec_is_trivia(),
    {
        matches!(self, TokenKind::WHITESPACE | TokenKind::COMMENT)
    }
}

/// One token: its kind and where its bytes sit in the source. The stream
/// owns the full text, so a token's bytes can always be re-sliced from its
/// span.
#[derive(Debug, Clone, Copy, PartialEq, Eq, Hash, Structural)]
pub struct Token {
    pub kind: TokenKind,
    pub span: Span,
}

/// Copies the byte range `[a, b)` out of `text`.
pub fn copy_byte_range(text: &[u8], a: usize, b: usize) -> (r: Vec<u8>)
    requires
        a <= b <= text@.len(),
    ensures
        r@ == text@.subrange(a as int, b as int),
{
    let mut r: Vec<u8> = Vec::new();
    let mut j: usize = a;
    while j < b
        invariant
            a <= j <= b <= text@.len(),
            r@ == text@.subrange(a as int, j as int),
        decreases b - j,
    {
        r.push(text[j]);
        proof {
            assert(r@ =~= text@.subrange(a as int, j + 1));
        }
        j = j + 1;
    }
    r
}

impl Token {
    /// Creates a token from its parts.
    pub fn new(kind: TokenKind, span: Span) -> (r: Token)
        ensures
            r.kind == kind,
            r.span == span,
    {
        Token { kind, span }
    }

    /// The empty token that closes a stream over `len` bytes of text.
    pub fn new_eof(len: usize) -> (r: Token)
        ensures
            r.kind == TokenKind::EOF,
            r.span.start == len && r.span.end == len,
    {
        Token { kind: TokenKind::EOF, span: Span { start: len, end: len } }
    }

    /// The token's bytes, sliced back out of the text it was scanned from.
    pub fn lexeme(&self, text: &[u8]) -> (r: Vec<u8>)
        requires
            self.span.start <= self.span.end <= text@.len(),
        ensures
            r@ == text@.subrange(self.span.start as int, self.span.end as int),
    {
        copy_byte_range(text, self.span.start, self.span.end)
    }

    /// True when the token's bytes in `text` are exactly `kw`.
    pub fn is_keyword(&self, text: &[u8], kw: &[u8]) -> (r: bool)
        requires
            self.span.start <= self.span.end <= text@.len(),
        ensures
            r == (text@.subrange(self.span.start as int, self.span.end as int) == kw@),
    {
        let lex = self.lexeme(text);
        crate::kinds::slice_eq_bytes(lex.as_slice(), kw)
    }

    /// Trivia tokens are kept for the tree but hidden from the grammar.
    pub open spec fn spec_is_trivia(&self) -> bool {
        self.kind.spec_is_trivia()
    }

    #[verifier::when_used_as_spec(spec_is_trivia)]
    pub fn is_trivia(&self) -> (r: bool)
        ensures
            r == self.spec_is_trivia(),
    {
        self.kind.is_trivia()
    }
}

/// A token is well formed for `text` when its span is a range inside the
/// text.
pub open spec fn token_wf(t: Token, text: Seq<u8>) -> bool {
    t.span.start <= t.span.end <= text.len()
}

/// Every position in `[a, b)` is one no token can start at.
pub open spec fn all_unknown(text: Seq<u8>, a: int, b: int) -> bool {
    forall|p: int| a <= p < b ==> unknown_start(text, p)
}

/// What scanning guarantees of a finished token list over `[0, end)` of
/// `text`: the tokens tile that range without gap or overlap; none is `EOF`
/// or empty; an `UNKNOWN` token covers only bytes no token can start at and
/// never follows another `UNKNOWN` token; and every other token is exactly
/// what [`spec_scan_token`] yields at its start position, so outside merged
/// `UNKNOWN` runs the stream is a function of the text alone.
pub open spec fn lexed(toks: Seq<Token>, text: Seq<u8>, end: int) -> bool
    decreases toks.len(),
{
    if toks.len() == 0 {
        end == 0
    } else {
        let t = toks.last();
        &&& t.span.end == end
        &&& t.span.start <= t.span.end <= text.len()
        &&& !(t.kind is EOF)
        &&& t.span.start < t.span.end
        &&& (t.kind is UNKNOWN ==> all_unknown(text, t.span.start as int, t.span.end as int) && (
        toks.len() >= 2 ==> !(toks[toks.len() - 2].kind is UNKNOWN)))
        &&& (!(t.kind is UNKNOWN) ==> !unknown_start(text, t.span.start as int)
            && spec_scan_token(text, t.span.start as int) == (
        t.kind,
        t.span.end - t.span.start,
        ))
        &&& lexed(toks.drop_last(), text, t.span.start as int)
    }
}

/// Number of `UNKNOWN` tokens in the sequence.
pub open spec fn count_unknown(toks: Seq<Token>) -> nat
    decreases toks.len(),
{
    if toks.len() == 0 {
        0
    } else {
        count_unknown(toks.drop_last()) + if toks.last().kind is UNKNOWN {
            1nat
        } else {
            0nat
        }
    }
}

/// In a lexed token list, no two `UNKNOWN` tokens stand side by side:
/// maximal runs of garbage have been merged into single tokens.
pub proof fn lemma_lexed_no_adjacent_unknown(toks: Seq<Token>, text: Seq<u8>, end: int, j: int)
    requires
        lexed(toks, text, end),
        0 <= j < toks.len() - 1,
    ensures
        !(toks[j].kind is UNKNOWN && toks[j + 1].kind is UNKNOWN),
    decreases toks.len(),
{
    if j + 1 == toks.len() - 1 {
        assert(toks.drop_last()[j] == toks[j]);
    } else {
        lemma_lexed_no_adjacent_unknown(toks.drop_last(), text, toks.last().span.start as int, j);
        assert(toks.drop_last()[j] == toks[j]);
        assert(toks.drop_last()[j + 1] == toks[j + 1]);
    }
}

/// In a lexed token list, every token's span sits inside the text.
pub proof fn lemma_lexed_token_wf(toks: Seq<Token>, text: Seq<u8>, end: int, j: int)
    requires
        lexed(toks, text, end),
        0 <= j < toks.len(),
    ensures
        token_wf(toks[j], text),
        toks[j].span.start < toks[j].span.end,
        !(toks[j].kind is EOF),
    decreases toks.len(),
{
    if j < toks.len() - 1 {
        lemma_lexed_token_wf(toks.drop_last(), text, toks.last().span.start as int, j);
        assert(toks.drop_last()[j] == toks[j]);
    }
}

/// The whole token stream of one source text: the text itself, the tokens,
/// and a movable cursor.
#[derive(Debug, Clone, PartialEq, Eq, Hash)]
pub struct TokenStream {
    pub text: Vec<u8>,
    pub tokens: Vec<Token>,
    pub cursor: usize,
}

impl TokenStream {
    /// A finished stream: the tokens before the closing `EOF` tile the whole
    /// text, and exactly the last token is `EOF`.
    pub open spec fn wf(&self) -> bool {
        &&& self.tokens@.len() >= 1
        &&& self.tokens@.last().kind is EOF
        &&& self.tokens@.last().span.start == self.text@.len()
        &&& self.tokens@.last().span.end == self.text@.len()
        &&& lexed(self.tokens@.drop_last(), self.text@, self.text@.len() as int)
    }

    /// An empty stream over empty text: a single `EOF` token.
    pub fn empty_stream() -> (r: TokenStream)
        ensures
            r.wf(),
            r.text@.len() == 0,
            r.cursor == 0,
    {
        let mut tokens: Vec<Token> = Vec::new();
        tokens.push(Token::new_eof(0));
        let r = TokenStream { text: Vec::new(), tokens, cursor: 0 };
        proof {
            assert(r.tokens@.drop_last() =~= Seq::<Token>::empty());
        }
        r
    }

    /// Number of tokens, the final `EOF` included.
    pub fn len(&self) -> (r: usize)
        ensures
            r == self.tokens@.len(),
    {
        self.tokens.len()
    }

    /// True when the stream holds no token at all.
    pub fn is_empty(&self) -> (r: bool)
        ensures
            r == (self.tokens@.len() == 0),
    {
        self.tokens.len() == 0
    }

    /// The source text the tokens were scanned from.
    pub fn source(&self) -> (r: &Vec<u8>)
        ensures
            r == &self.text,
    {
        &self.text
    }

    /// The token under the cursor, if the cursor is in range.
    pub fn peek(&self) -> (r: Option<&Token>)
        ensures
            self.cursor < self.tokens@.len() ==> r == Some(&self.tokens@[self.cursor as int]),
            self.cursor >= self.tokens@.len() ==> r is None,
    {
        if self.cursor < self.tokens.len() {
            Some(&self.tokens[self.cursor])
        } else {
            None
        }
    }

    /// Same as [`TokenStream::peek`].
    pub fn current(&self) -> (r: Option<&Token>)
        ensures
            self.cursor < self.tokens@.len() ==> r == Some(&self.tokens@[self.cursor as int]),
            self.cursor >= self.tokens@.len() ==> r is None,
    {
        self.peek()
    }

    /// The token `n` places past the cursor, if any.
    pub fn lookahead_nth(&self, n: usize) -> (r: Option<&Token>)
        requires
            self.cursor + n <= usize::MAX,
        ensures
            self.cursor + n < self.tokens@.len() ==> r == Some(
                &self.tokens@[self.cursor + n],
            ),
            self.cursor + n >= self.tokens@.len() ==> r is None,
    {
        if self.cursor + n < self.tokens.len() {
            Some(&self.tokens[self.cursor + n])
        } else {
            None
        }
    }

    /// Moves the cursor one token forward and hands back the new current
    /// token; at the end of the stream the cursor stays put.
    pub fn bump(&mut self) -> (r: Option<&Token>)
        ensures
            final(self).text == old(self).text,
            final(self).tokens == old(self).tokens,
            old(self).cursor < old(self).tokens@.len() ==> final(self).cursor == old(
                self,
            ).cursor + 1,
            old(self).cursor >= old(self).tokens@.len() ==> final(self).cursor == old(
                self,
            ).cursor,
            final(self).cursor < final(self).tokens@.len() ==> r == Some(
                &final(self).tokens@[final(self).cursor as int],
            ),
            final(self).cursor >= final(self).tokens@.len() ==> r is None,
    {
        if self.cursor < self.tokens.len() {
            self.cursor = self.cursor + 1;
        }
        if self.cursor < self.tokens.len() {
            Some(&self.tokens[self.cursor])
        } else {
            None
        }
    }

    /// Moves the cursor `n` tokens forward, stopping at the end of the
    /// stream.
    pub fn advance_n(&mut self, n: usize)
        ensures
            final(self).text == old(self).text,
            final(self).tokens == old(self).tokens,
            final(self).cursor == if old(self).cursor + n <= old(self).tokens@.len() {
                old(self).cursor + n
            } else {
                old(self).tokens@.len() as int
            },
    {
        if n <= self.tokens.len() && self.cursor <= self.tokens.len() - n {
            self.cursor = self.cursor + n;
        } else {
            self.cursor = self.tokens.len();
        }
    }

    /// The trivia-free copy of the tokens: what the grammar actually sees.
    pub fn without_trivia(&self) -> (r: Vec<Token>)
        ensures
            r@ == self.tokens@.filter(|t: Token| !t.spec_is_trivia()),
    {
        let mut r: Vec<Token> = Vec::new();
        let mut j: usize = 0;
        while j < self.tokens.len()
            invariant
                j <= self.tokens@.len(),
                r@ == self.tokens@.take(j as int).filter(|t: Token| !t.spec_is_trivia()),
            decreases self.tokens@.len() - j,
        {
            proof {
                assert(self.tokens@.take(j + 1).drop_last() =~= self.tokens@.take(j as int));
                reveal_with_fuel(Seq::filter, 2);
            }
            if !self.tokens[j].is_trivia() {
                r.push(self.tokens[j]);
            }
            j = j + 1;
        }
        proof {
            assert(self.tokens@.take(self.tokens@.len() as int) =~= self.tokens@);
        }
        r
    }
}

/// Classifying single bytes.
pub open spec fn is_space_byte(b: u8) -> bool {
    b == 32 || b == 9
}

pub open spec fn is_digit_byte(b: u8) -> bool {
    48 <= b <= 57
}

pub open spec fn is_ident_start_byte(b: u8) -> bool {
    (65 <= b <= 90) || (97 <= b <= 122) || b == 95
}

pub open spec fn is_ident_byte(b: u8) -> bool {
    is_ident_start_byte(b) || is_digit_byte(b)
}

pub open spec fn is_quote_byte(b: u8) -> bool {
    b == 34 || b == 39
}

/// The bytes that open a punctuation token on their own.
pub open spec fn is_simple_punct_byte(b: u8) -> bool {
    b == 43 || b == 45 || b == 42 || b == 47 || b == 37 || b == 126 || b == 38 || b == 124 || b
        == 94 || b == 60 || b == 62 || b == 61 || b == 46 || b == 44 || b == 59 || b == 58 || b
        == 40 || b == 41 || b == 91 || b == 93 || b == 123 || b == 125
}

/// True when no token of the language can start at position `i` of `s`: such
/// a byte can only land in an `UNKNOWN` token. A carriage return counts only
/// together with a following line feed, and `!` only together with `=`.
pub open spec fn unknown_start(s: Seq<u8>, i: int) -> bool {
    let b = s[i];
    !(is_space_byte(b) || b == 10 || b == 35 || is_digit_byte(b) || is_quote_byte(b)
        || is_ident_start_byte(b) || is_simple_punct_byte(b) || (b == 13 && i + 1 < s.len() && s[i
        + 1] == 10) || (b == 33 && i + 1 < s.len() && s[i + 1] == 61))
}



/// The end of the maximal run of space and tab bytes from `j` on.
pub open spec fn space_run_end(s: Seq<u8>, j: int) -> int
    decreases s.len() - j,
{
    if 0 <= j < s.len() && is_space_byte(s[j]) {
        space_run_end(s, j + 1)
    } else {
        j
    }
}

/// The end of the maximal run of decimal digits from `j` on.
pub open spec fn digit_run_end(s: Seq<u8>, j: int) -> int
    decreases s.len() - j,
{
    if 0 <= j < s.len() && is_digit_byte(s[j]) {
        digit_run_end(s, j + 1)
    } else {
        j
    }
}

/// The end of the maximal run of hexadecimal digits from `j` on.
pub open spec fn hex_run_end(s: Seq<u8>, j: int) -> int
    decreases s.len() - j,
{
    if 0 <= j < s.len() && (is_digit_byte(s[j]) || (97 <= s[j] <= 102) || (65 <= s[j] <= 70)) {
        hex_run_end(s, j + 1)
    } else {
        j
    }
}

/// The end of the maximal run of octal digits from `j` on.
pub open spec fn octal_run_end(s: Seq<u8>, j: int) -> int
    decreases s.len() - j,
{
    if 0 <= j < s.len() && (48 <= s[j] <= 55) {
        octal_run_end(s, j + 1)
    } else {
        j
    }
}

/// The end of a comment scanned from `j` on: everything up to the next line
/// feed or the end of the text.
pub open spec fn comment_run_end(s: Seq<u8>, j: int) -> int
    decreases s.len() - j,
{
    if 0 <= j < s.len() && s[j] != 10 {
        comment_run_end(s, j + 1)
    } else {
        j
    }
}

/// The end of the maximal run of identifier bytes from `j` on.
pub open spec fn ident_run_end(s: Seq<u8>, j: int) -> int
    decreases s.len() - j,
{
    if 0 <= j < s.len() && is_ident_byte(s[j]) {
        ident_run_end(s, j + 1)
    } else {
        j
    }
}

/// Where a quoted literal opened with quote `q` ends, scanning from `j`:
/// past the matching quote, or — unterminated — at the end of the line or of
/// the text. A backslash escapes the byte after it.
pub open spec fn string_end(s: Seq<u8>, q: u8, j: int) -> int
    decreases s.len() - j,
{
    if j < 0 || j >= s.len() {
        s.len() as int
    } else if s[j] == q {
        j + 1
    } else if s[j] == 10 {
        j
    } else if s[j] == 92 && j + 1 < s.len() && s[j + 1] != 10 {
        string_end(s, q, j + 2)
    } else {
        string_end(s, q, j + 1)
    }
}

/// The end of the optional exponent part at `j`.
pub open spec fn exponent_end(s: Seq<u8>, j: int) -> int {
    if 0 <= j < s.len() && (s[j] == 101 || s[j] == 69) {
        let k = if j + 1 < s.len() && (s[j + 1] == 43 || s[j + 1] == 45) {
            j + 2
        } else {
            j + 1
        };
        if k < s.len() && is_digit_byte(s[k]) {
            digit_run_end(s, k)
        } else {
            j
        }
    } else {
        j
    }
}

/// What scanning one numeric literal at `i` yields: its kind and length.
pub open spec fn spec_scan_number(s: Seq<u8>, i: int) -> (TokenKind, int) {
    if s[i] == 48 && i + 1 < s.len() && s[i + 1] == 120 && i + 2 < s.len() && (is_digit_byte(
        s[i + 2],
    ) || (97 <= s[i + 2] <= 102) || (65 <= s[i + 2] <= 70)) {
        (TokenKind::NumericLiteral, hex_run_end(s, i + 3) - i)
    } else if s[i] == 48 && i + 1 < s.len() && s[i + 1] == 111 && i + 2 < s.len() && (48 <= s[i
        + 2] <= 55) {
        (TokenKind::NumericLiteral, octal_run_end(s, i + 3) - i)
    } else {
        let d = digit_run_end(s, i);
        let frac = d < s.len() && s[d] == 46 && d + 1 < s.len() && is_digit_byte(s[d + 1]);
        let e1 = if frac {
            digit_run_end(s, d + 1)
        } else {
            d
        };
        let e2 = exponent_end(s, e1);
        (
            if frac || e2 > e1 {
                TokenKind::FLOAT
            } else {
                TokenKind::INT
            },
            e2 - i,
        )
    }
}

/// What scanning one punctuation token at `i` yields: the longest spelling
/// that fits.
pub open spec fn spec_scan_punct(s: Seq<u8>, i: int) -> (TokenKind, int) {
    let b = s[i];
    let two = |c: u8| i + 1 < s.len() && s[i + 1] == c;
    let three = |c: u8| i + 2 < s.len() && s[i + 2] == c;
    if b == 43 {
        if two(61) {
            (TokenKind::PLUSEQ, 2)
        } else {
            (TokenKind::PLUS, 1)
        }
    } else if b == 45 {
        if two(61) {
            (TokenKind::MINUSEQ, 2)
        } else {
            (TokenKind::MINUS, 1)
        }
    } else if b == 42 {
        if two(61) {
            (TokenKind::STAREQ, 2)
        } else if two(42) {
            (TokenKind::DSTAR, 2)
        } else {
            (TokenKind::STAR, 1)
        }
    } else if b == 47 {
        if two(47) {
            if three(61) {
                (TokenKind::DSLASHEQ, 3)
            } else {
                (TokenKind::DSLASH, 2)
            }
        } else if two(61) {
            (TokenKind::SLASHEQ, 2)
        } else {
            (TokenKind::SLASH, 1)
        }
    } else if b == 37 {
        if two(61) {
            (TokenKind::PERCENTEQ, 2)
        } else {
            (TokenKind::PERCENT, 1)
        }
    } else if b == 126 {
        (TokenKind::TILDE, 1)
    } else if b == 38 {
        if two(61) {
            (TokenKind::AMPEQ, 2)
        } else {
            (TokenKind::AMP, 1)
        }
    } else if b == 124 {
        if two(61) {
            (TokenKind::PIPEEQ, 2)
        } else {
            (TokenKind::PIPE, 1)
        }
    } else if b == 94 {
        if two(61) {
            (TokenKind::CARETEQ, 2)
        } else {
            (TokenKind::CARET, 1)
        }
    } else if b == 60 {
        if two(60) {
            if three(61) {
                (TokenKind::LSHIFTEQ, 3)
            } else {
                (TokenKind::LSHIFT, 2)
            }
        } else if two(61) {
            (TokenKind::LE, 2)
        } else {
            (TokenKind::LT, 1)
        }
    } else if b == 62 {
        if two(62) {
            if three(61) {
                (TokenKind::RSHIFTEQ, 3)
            } else {
                (TokenKind::RSHIFT, 2)
            }
        } else if two(61) {
            (TokenKind::GE, 2)
        } else {
            (TokenKind::GT, 1)
        }
    } else if b == 61 {
        if two(61) {
            (TokenKind::EQEQ, 2)
        } else {
            (TokenKind::EQ, 1)
        }
    } else if b == 46 {
        if i + 1 < s.len() && is_digit_byte(s[i + 1]) {
            let e1 = digit_run_end(s, i + 1);
            let e2 = exponent_end(s, e1);
            (TokenKind::FLOAT, e2 - i)
        } else {
            (TokenKind::DOT, 1)
        }
    } else if b == 44 {
        (TokenKind::COMMA, 1)
    } else if b == 59 {
        (TokenKind::SEMICOLON, 1)
    } else if b == 58 {
        (TokenKind::COLON, 1)
    } else if b == 40 {
        (TokenKind::LPAREN, 1)
    } else if b == 41 {
        (TokenKind::RPAREN, 1)
    } else if b == 91 {
        (TokenKind::LBRACKET, 1)
    } else if b == 93 {
        (TokenKind::RBRACKET, 1)
    } else if b == 123 {
        (TokenKind::LBRACE, 1)
    } else {
        (TokenKind::RBRACE, 1)
    }
}

/// The lexer token for a keyword spelling, if the bytes spell one.
pub open spec fn spec_keyword_token(s: Seq<u8>) -> Option<TokenKind> {
    match crate::kinds::spec_from_keyword(s) {
        Some(k) => Some(TokenKind::spec_from_syntax(k)),
        None => None,
    }
}

/// What the scanner yields at position `i`: the kind and length of the one
/// token that starts there. This is the function of the text alone that the
/// token stream follows everywhere outside merged `UNKNOWN` runs.
pub open spec fn spec_scan_token(s: Seq<u8>, i: int) -> (TokenKind, int) {
    let b = s[i];
    if is_space_byte(b) {
        let e = space_run_end(s, i);
        if e - i == 4 && s[i] == 32 && s[i + 1] == 32 && s[i + 2] == 32 && s[i + 3] == 32 {
            (TokenKind::INDENT, 4)
        } else {
            (TokenKind::WHITESPACE, e - i)
        }
    } else if b == 10 {
        (TokenKind::NEWLINE, 1)
    } else if b == 13 {
        if i + 1 < s.len() && s[i + 1] == 10 {
            (TokenKind::NEWLINE, 2)
        } else {
            (TokenKind::UNKNOWN, 1)
        }
    } else if b == 35 {
        (TokenKind::COMMENT, comment_run_end(s, i + 1) - i)
    } else if is_digit_byte(b) {
        spec_scan_number(s, i)
    } else if is_quote_byte(b) {
        (TokenKind::STRING, string_end(s, s[i], i + 1) - i)
    } else if is_ident_start_byte(b) {
        if b == 98 && i + 1 < s.len() && is_quote_byte(s[i + 1]) {
            (TokenKind::BYTES, string_end(s, s[i + 1], i + 2) - i)
        } else {
            let e = ident_run_end(s, i + 1);
            match spec_keyword_token(s.subrange(i, e)) {
                Some(k) => (k, e - i),
                None => (TokenKind::IDENTIFIER, e - i),
            }
        }
    } else if is_simple_punct_byte(b) {
        spec_scan_punct(s, i)
    } else if b == 33 && i + 1 < s.len() && s[i + 1] == 61 {
        (TokenKind::NE, 2)
    } else {
        (TokenKind::UNKNOWN, 1)
    }
}

/// True when position `j` exists and holds byte `c`.
fn at_byte(text: &[u8], j: usize, c: u8) -> (r: bool)
    ensures
        r == (j < text@.len() && text@[j as int] == c),
{
    j < text.len() && text[j] == c
}

fn is_space_b(b: u8) -> (r: bool)
    ensures
        r == is_space_byte(b),
{
    b == 32 || b == 9
}

fn is_digit_b(b: u8) -> (r: bool)
    ensures
        r == is_digit_byte(b),
{
    48 <= b && b <= 57
}

fn is_ident_start_b(b: u8) -> (r: bool)
    ensures
        r == is_ident_start_byte(b),
{
    (65 <= b && b <= 90) || (97 <= b && b <= 122) || b == 95
}

fn is_ident_b(b: u8) -> (r: bool)
    ensures
        r == is_ident_byte(b),
{
    is_ident_start_b(b) || is_digit_b(b)
}

fn is_quote_b(b: u8) -> (r: bool)
    ensures
        r == is_quote_byte(b),
{
    b == 34 || b == 39
}

fn is_simple_punct_b(b: u8) -> (r: bool)
    ensures
        r == is_simple_punct_byte(b),
{
    b == 43 || b == 45 || b == 42 || b == 47 || b == 37 || b == 126 || b == 38 || b == 124 || b
        == 94 || b == 60 || b == 62 || b == 61 || b == 46 || b == 44 || b == 59 || b == 58 || b
        == 40 || b == 41 || b == 91 || b == 93 || b == 123 || b == 125
}

fn is_hex_b(b: u8) -> (r: bool)
    ensures
        r == (is_digit_byte(b) || (97 <= b <= 102) || (65 <= b <= 70)),
{
    is_digit_b(b) || (97 <= b && b <= 102) || (65 <= b && b <= 70)
}

fn is_octal_b(b: u8) -> (r: bool)
    ensures
        r == (48 <= b <= 55),
{
    48 <= b && b <= 55
}

/// The end of the maximal run of space and tab bytes starting at `i`.
fn scan_space_run(text: &[u8], i: usize) -> (end: usize)
    requires
        i < text@.len(),
        is_space_byte(text@[i as int]),
    ensures
        i < end <= text@.len(),
        end == space_run_end(text@, i as int),
{
    let n = text.len();
    let mut end = i + 1;
    while end < n && is_space_b(text[end])
        invariant
            n == text@.len(),
            i < end <= text@.len(),
            space_run_end(text@, i as int) == space_run_end(text@, end as int),
        decreases text@.len() - end,
    {
        end = end + 1;
    }
    end
}

/// The end of the maximal run of decimal digits starting at `i`.
fn scan_digit_run(text: &[u8], i: usize) -> (end: usize)
    requires
        i <= text@.len(),
    ensures
        i <= end <= text@.len(),
        i < text@.len() && is_digit_byte(text@[i as int]) ==> end > i,
        end == digit_run_end(text@, i as int),
    decreases text@.len() - i,
{
    let mut end = i;
    while end < text.len() && is_digit_b(text[end])
        invariant
            i <= end <= text@.len(),
            digit_run_end(text@, i as int) == digit_run_end(text@, end as int),
            i < text@.len() && is_digit_byte(text@[i as int]) && end == i ==> end < text@.len()
                && is_digit_byte(text@[end as int]),
        decreases text@.len() - end,
    {
        end = end + 1;
    }
    end
}

/// The end of a comment: everything up to the next line feed or the end of
/// the text.
fn scan_comment(text: &[u8], i: usize) -> (end: usize)
    requires
        i < text@.len(),
    ensures
        i < end <= text@.len(),
        end == comment_run_end(text@, i as int + 1),
{
    let n = text.len();
    let mut end = i + 1;
    while end < n && text[end] != 10
        invariant
            n == text@.len(),
            i < end <= text@.len(),
            comment_run_end(text@, i as int + 1) == comment_run_end(text@, end as int),
        decreases text@.len() - end,
    {
        end = end + 1;
    }
    end
}

/// The end of a quoted literal whose opening quote stands at `i`: through
/// the matching quote, or — for an unterminated literal — up to the end of
/// the line or of the text. A backslash escapes the byte after it.
fn scan_string(text: &[u8], i: usize) -> (end: usize)
    requires
        i < text@.len(),
    ensures
        i < end <= text@.len(),
        end == string_end(text@, text@[i as int], i as int + 1),
{
    let q = text[i];
    let mut j = i + 1;
    while j < text.len()
        invariant
            i < j,
            j <= text@.len(),
            q == text@[i as int],
            string_end(text@, q, i as int + 1) == string_end(text@, q, j as int),
        decreases text@.len() - j,
    {
        let b = text[j];
        if b == q {
            return j + 1;
        }
        if b == 10 {
            return j;
        }
        if b == 92 && j + 1 < text.len() && text[j + 1] != 10 {
            j = j + 2;
        } else {
            j = j + 1;
        }
    }
    text.len()
}

/// The end of an identifier whose first byte stands at `i`.
fn scan_ident_run(text: &[u8], i: usize) -> (end: usize)
    requires
        i < text@.len(),
    ensures
        i < end <= text@.len(),
        end == ident_run_end(text@, i as int + 1),
{
    let n = text.len();
    let mut end = i + 1;
    while end < n && is_ident_b(text[end])
        invariant
            n == text@.len(),
            i < end <= text@.len(),
            ident_run_end(text@, i as int + 1) == ident_run_end(text@, end as int),
        decreases text@.len() - end,
    {
        end = end + 1;
    }
    end
}

/// The keyword kind spelled by `text[a..b]`, if there is one.
fn keyword_kind(text: &[u8], a: usize, b: usize) -> (r: Option<TokenKind>)
    requires
        a <= b <= text@.len(),
    ensures
        r == spec_keyword_token(text@.subrange(a as int, b as int)),
        r is Some ==> !(r.unwrap() is UNKNOWN) && !(r.unwrap() is EOF),
{
    let lex = copy_byte_range(text, a, b);
    match crate::kinds::SyntaxKind::from_keyword(lex.as_slice()) {
        Some(k) => Some(TokenKind::from_syntax(k)),
        None => None,
    }
}

/// The end of the optional exponent part starting at `j` (`e` or `E`, an
/// optional sign, then at least one digit); `j` itself when no exponent
/// stands there.
fn scan_exponent(text: &[u8], j: usize) -> (end: usize)
    requires
        j <= text@.len(),
    ensures
        j <= end <= text@.len(),
        end == exponent_end(text@, j as int),
{
    if j < text.len() && (text[j] == 101 || text[j] == 69) {
        let mut k = j + 1;
        if k < text.len() && (text[k] == 43 || text[k] == 45) {
            k = k + 1;
        }
        if k < text.len() && is_digit_b(text[k]) {
            scan_digit_run(text, k)
        } else {
            j
        }
    } else {
        j
    }
}

/// Scans one numeric literal whose first byte (a digit) stands at `i`.
fn scan_number(text: &[u8], i: usize) -> (r: (TokenKind, usize))
    requires
        i < text@.len(),
        is_digit_byte(text@[i as int]),
    ensures
        i < i + r.1 <= text@.len(),
        !(r.0 is UNKNOWN) && !(r.0 is EOF),
        (r.0, r.1 as int) == spec_scan_number(text@, i as int),
{
    if text[i] == 48 && at_byte(text, i + 1, 120) && i + 2 < text.len() && is_hex_b(text[i + 2]) {
        let mut end = i + 3;
        while end < text.len() && is_hex_b(text[end])
            invariant
                i + 3 <= end <= text@.len(),
                hex_run_end(text@, i as int + 3) == hex_run_end(text@, end as int),
            decreases text@.len() - end,
        {
            end = end + 1;
        }
        return (TokenKind::NumericLiteral, end - i);
    }
    if text[i] == 48 && at_byte(text, i + 1, 111) && i + 2 < text.len() && is_octal_b(
        text[i + 2],
    ) {
        let mut end = i + 3;
        while end < text.len() && is_octal_b(text[end])
            invariant
                i + 3 <= end <= text@.len(),
                octal_run_end(text@, i as int + 3) == octal_run_end(text@, end as int),
            decreases text@.len() - end,
        {
            end = end + 1;
        }
        return (TokenKind::NumericLiteral, end - i);
    }
    let mut end = scan_digit_run(text, i);
    let mut is_float = false;
    if end < text.len() && text[end] == 46 && end + 1 < text.len() && is_digit_b(text[end + 1]) {
        end = scan_digit_run(text, end + 1);
        is_float = true;
    }
    let with_exp = scan_exponent(text, end);
    if with_exp > end {
        end = with_exp;
        is_float = true;
    }
    (if is_float {
        TokenKind::FLOAT
    } else {
        TokenKind::INT
    }, end - i)
}

/// Scans one punctuation token whose first byte stands at `i`, taking the
/// longest spelling that fits.
fn scan_punct(text: &[u8], i: usize) -> (r: (TokenKind, usize))
    requires
        i < text@.len(),
        is_simple_punct_byte(text@[i as int]),
    ensures
        i < i + r.1 <= text@.len(),
        !(r.0 is UNKNOWN) && !(r.0 is EOF),
        (r.0, r.1 as int) == spec_scan_punct(text@, i as int),
{
    let b = text[i];
    if b == 43 {
        if at_byte(text, i + 1, 61) {
            (TokenKind::PLUSEQ, 2)
        } else {
            (TokenKind::PLUS, 1)
        }
    } else if b == 45 {
        if at_byte(text, i + 1, 61) {
            (TokenKind::MINUSEQ, 2)
        } else {
            (TokenKind::MINUS, 1)
        }
    } else if b == 42 {
        if at_byte(text, i + 1, 61) {
            (TokenKind::STAREQ, 2)
        } else if at_byte(text, i + 1, 42) {
            (TokenKind::DSTAR, 2)
        } else {
            (TokenKind::STAR, 1)
        }
    } else if b == 47 {
        if at_byte(text, i + 1, 47) {
            if at_byte(text, i + 2, 61) {
                (TokenKind::DSLASHEQ, 3)
            } else {
                (TokenKind::DSLASH, 2)
            }
        } else if at_byte(text, i + 1, 61) {
            (TokenKind::SLASHEQ, 2)
        } else {
            (TokenKind::SLASH, 1)
        }
    } else if b == 37 {
        if at_byte(text, i + 1, 61) {
            (TokenKind::PERCENTEQ, 2)
        } else {
            (TokenKind::PERCENT, 1)
        }
    } else if b == 126 {
        (TokenKind::TILDE, 1)
    } else if b == 38 {
        if at_byte(text, i + 1, 61) {
            (TokenKind::AMPEQ, 2)
        } else {
            (TokenKind::AMP, 1)
        }
    } else if b == 124 {
        if at_byte(text, i + 1, 61) {
            (TokenKind::PIPEEQ, 2)
        } else {
            (TokenKind::PIPE, 1)
        }
    } else if b == 94 {
        if at_byte(text, i + 1, 61) {
            (TokenKind::CARETEQ, 2)
        } else {
            (TokenKind::CARET, 1)
        }
    } else if b == 60 {
        if at_byte(text, i + 1, 60) {
            if at_byte(text, i + 2, 61) {
                (TokenKind::LSHIFTEQ, 3)
            } else {
                (TokenKind::LSHIFT, 2)
            }
        } else if at_byte(text, i + 1, 61) {
            (TokenKind::LE, 2)
        } else {
            (TokenKind::LT, 1)
        }
    } else if b == 62 {
        if at_byte(text, i + 1, 62) {
            if at_byte(text, i + 2, 61) {
                (TokenKind::RSHIFTEQ, 3)
            } else {
                (TokenKind::RSHIFT, 2)
            }
        } else if at_byte(text, i + 1, 61) {
            (TokenKind::GE, 2)
        } else {
            (TokenKind::GT, 1)
        }
    } else if b == 61 {
        if at_byte(text, i + 1, 61) {
            (TokenKind::EQEQ, 2)
        } else {
            (TokenKind::EQ, 1)
        }
    } else if b == 46 {
        if i + 1 < text.len() && is_digit_b(text[i + 1]) {
            let mut end = scan_digit_run(text, i + 1);
            let with_exp = scan_exponent(text, end);
            if with_exp > end {
                end = with_exp;
            }
            (TokenKind::FLOAT, end - i)
        } else {
            (TokenKind::DOT, 1)
        }
    } else if b == 44 {
        (TokenKind::COMMA, 1)
    } else if b == 59 {
        (TokenKind::SEMICOLON, 1)
    } else if b == 58 {
        (TokenKind::COLON, 1)
    } else if b == 40 {
        (TokenKind::LPAREN, 1)
    } else if b == 41 {
        (TokenKind::RPAREN, 1)
    } else if b == 91 {
        (TokenKind::LBRACKET, 1)
    } else if b == 93 {
        (TokenKind::RBRACKET, 1)
    } else if b == 123 {
        (TokenKind::LBRACE, 1)
    } else {
        (TokenKind::RBRACE, 1)
    }
}

/// Scans the one token that starts at position `i`. Total: it always makes
/// progress, and it answers `UNKNOWN` (always of length one; runs merge
/// later) exactly on the bytes no token can start at.
fn scan_token(text: &[u8], i: usize) -> (r: (TokenKind, usize))
    requires
        i < text@.len(),
    ensures
        1 <= r.1,
        i + r.1 <= text@.len(),
        !(r.0 is EOF),
        (r.0 is UNKNOWN) <==> unknown_start(text@, i as int),
        r.0 is UNKNOWN ==> r.1 == 1,
        (r.0, r.1 as int) == spec_scan_token(text@, i as int),
{
    let b = text[i];
    if is_space_b(b) {
        let end = scan_space_run(text, i);
        if end - i == 4 && text[i] == 32 && text[i + 1] == 32 && text[i + 2] == 32 && text[i + 3]
            == 32 {
            (TokenKind::INDENT, 4)
        } else {
            (TokenKind::WHITESPACE, end - i)
        }
    } else if b == 10 {
        (TokenKind::NEWLINE, 1)
    } else if b == 13 {
        if at_byte(text, i + 1, 10) {
            (TokenKind::NEWLINE, 2)
        } else {
            (TokenKind::UNKNOWN, 1)
        }
    } else if b == 35 {
        let end = scan_comment(text, i);
        (TokenKind::COMMENT, end - i)
    } else if is_digit_b(b) {
        scan_number(text, i)
    } else if is_quote_b(b) {
        let end = scan_string(text, i);
        (TokenKind::STRING, end - i)
    } else if is_ident_start_b(b) {
        if b == 98 && i + 1 < text.len() && is_quote_b(text[i + 1]) {
            let end = scan_string(text, i + 1);
            (TokenKind::BYTES, end - i)
        } else {
            let end = scan_ident_run(text, i);
            match keyword_kind(text, i, end) {
                Some(kw) => (kw, end - i),
                None => (TokenKind::IDENTIFIER, end - i),
            }
        }
    } else if is_simple_punct_b(b) {
        scan_punct(text, i)
    } else if b == 33 && at_byte(text, i + 1, 61) {
        (TokenKind::NE, 2)
    } else {
        (TokenKind::UNKNOWN, 1)
    }
}

/// Everything the scanning loop keeps true of the tokens and diagnostics
/// built so far.
#[verifier::opaque]
pub open spec fn lex_state_inv(
    toks: Seq<Token>,
    errs: Seq<SyntaxError>,
    text: Seq<u8>,
    i: int,
) -> bool {
    &&& lexed(toks, text, i)
    &&& errs.len() == count_unknown(toks)
    &&& forall|j: int| 0 <= j < errs.len() ==> (#[trigger] errs[j]).cause is Lexical
}

proof fn lemma_lex_start(text: Seq<u8>)
    ensures
        lex_state_inv(Seq::empty(), Seq::empty(), text, 0),
{
    reveal(lex_state_inv);
    assert(count_unknown(Seq::<Token>::empty()) == 0);
}

proof fn lemma_lex_push_token(
    toks: Seq<Token>,
    errs: Seq<SyntaxError>,
    text: Seq<u8>,
    i: usize,
    kind: TokenKind,
    len: usize,
)
    requires
        lex_state_inv(toks, errs, text, i as int),
        1 <= len,
        i + len <= usize::MAX,
        i + len <= text.len(),
        !(kind is UNKNOWN),
        !(kind is EOF),
        !unknown_start(text, i as int),
        spec_scan_token(text, i as int) == (kind, len as int),
    ensures
        lex_state_inv(
            toks.push(Token { kind, span: Span { start: i, end: (i + len) as usize } }),
            errs,
            text,
            i + len,
        ),
{
    reveal(lex_state_inv);
    let t = Token { kind, span: Span { start: i, end: (i + len) as usize } };
    let post = toks.push(t);
    assert(post.drop_last() =~= toks);
    assert(post.last() == t);
}

proof fn lemma_lex_push_unknown(
    toks: Seq<Token>,
    errs: Seq<SyntaxError>,
    text: Seq<u8>,
    i: usize,
    e: SyntaxError,
)
    requires
        lex_state_inv(toks, errs, text, i as int),
        i + 1 <= usize::MAX,
        i + 1 <= text.len(),
        unknown_start(text, i as int),
        toks.len() > 0 ==> !(toks.last().kind is UNKNOWN),
        e.cause is Lexical,
    ensures
        lex_state_inv(
            toks.push(
                Token { kind: TokenKind::UNKNOWN, span: Span { start: i, end: (i + 1) as usize } },
            ),
            errs.push(e),
            text,
            i + 1,
        ),
{
    reveal(lex_state_inv);
    let t = Token { kind: TokenKind::UNKNOWN, span: Span { start: i, end: (i + 1) as usize } };
    let post = toks.push(t);
    assert(post.drop_last() =~= toks);
    assert(post.last() == t);
    if toks.len() > 0 {
        assert(post[post.len() - 2] == toks.last());
    }
}

/// When the last token is `UNKNOWN`, there is a diagnostic for it.
proof fn lemma_lex_last_unknown(toks: Seq<Token>, errs: Seq<SyntaxError>, text: Seq<u8>, i: int)
    requires
        lex_state_inv(toks, errs, text, i),
        toks.len() > 0,
        toks.last().kind is UNKNOWN,
    ensures
        errs.len() >= 1,
        errs.last().cause is Lexical,
        toks.last().span.end == i,
        toks.last().span.start < i,
        i <= text.len(),
{
    reveal(lex_state_inv);
    assert(count_unknown(toks) >= 1);
}

proof fn lemma_lex_merge_unknown(
    toks: Seq<Token>,
    errs: Seq<SyntaxError>,
    text: Seq<u8>,
    i: usize,
    e: SyntaxError,
)
    requires
        lex_state_inv(toks, errs, text, i as int),
        i + 1 <= usize::MAX,
        i + 1 <= text.len(),
        unknown_start(text, i as int),
        toks.len() > 0,
        toks.last().kind is UNKNOWN,
        e.cause is Lexical,
    ensures
        lex_state_inv(
            toks.drop_last().push(
                Token {
                    kind: TokenKind::UNKNOWN,
                    span: Span { start: toks.last().span.start, end: (i + 1) as usize },
                },
            ),
            errs.drop_last().push(e),
            text,
            i + 1,
        ),
{
    reveal(lex_state_inv);
    let t = Token {
        kind: TokenKind::UNKNOWN,
        span: Span { start: toks.last().span.start, end: (i + 1) as usize },
    };
    let post = toks.drop_last().push(t);
    let poste = errs.drop_last().push(e);
    assert(count_unknown(toks) >= 1);
    assert(post.drop_last() =~= toks.drop_last());
    assert(post.last() == t);
    assert(post.len() == toks.len());
    if toks.len() >= 2 {
        assert(post[post.len() - 2] == toks.drop_last().last());
        assert(toks[toks.len() - 2] == toks.drop_last().last());
    }
    assert forall|p: int|
        t.span.start <= p < t.span.end implies unknown_start(text, p) by {
        if p < i {
            assert(all_unknown(text, toks.last().span.start as int, i as int));
        }
    }
    assert(count_unknown(post) == count_unknown(toks));
    assert forall|j: int| 0 <= j < poste.len() implies (#[trigger] poste[j]).cause is Lexical by {
        if j < poste.len() - 1 {
            assert(poste[j] == errs[j]);
        }
    }
}

proof fn lemma_lex_finish(toks: Seq<Token>, errs: Seq<SyntaxError>, text: Seq<u8>, eof: Token)
    requires
        lex_state_inv(toks, errs, text, text.len() as int),
        eof.kind is EOF,
        eof.span.start == text.len(),
        eof.span.end == text.len(),
    ensures
        toks.push(eof).len() >= 1,
        toks.push(eof).last() == eof,
        lexed(toks.push(eof).drop_last(), text, text.len() as int),
        errs.len() == count_unknown(toks.push(eof).drop_last()),
        forall|j: int| 0 <= j < errs.len() ==> (#[trigger] errs[j]).cause is Lexical,
{
    reveal(lex_state_inv);
    assert(toks.push(eof).drop_last() =~= toks);
}

/// Scans `text` into a complete token stream plus one diagnostic per run of
/// unrecognizable bytes. Total: every input, garbage included, yields a
/// stream whose tokens tile the whole text, closed by a synthetic `EOF`.
/// Only unrecognizable bytes are diagnosed: an unterminated quoted literal
/// is taken as a string or bytes token up to the end of its line (or of the
/// input) and gets no diagnostic of its own — its bytes are all accounted
/// for, and the parser reports what fails to parse around it.
pub fn tokenize(text: &[u8]) -> (r: (TokenStream, Vec<SyntaxError>))
    ensures
        r.0.wf(),
        r.0.cursor == 0,
        r.0.text@ == text@,
        r.1@.len() == count_unknown(r.0.tokens@.drop_last()),
        forall|j: int| 0 <= j < r.1@.len() ==> (#[trigger] r.1@[j]).cause is Lexical,
{
    let n = text.len();
    let mut tokens: Vec<Token> = Vec::new();
    let mut errors: Vec<SyntaxError> = Vec::new();
    let mut i: usize = 0;
    proof {
        lemma_lex_start(text@);
    }
    while i < n
        invariant
            n == text@.len(),
            i <= n,
            lex_state_inv(tokens@, errors@, text@, i as int),
        decreases n - i,
    {
        let (kind, len) = scan_token(text, i);
        if matches!(kind, TokenKind::UNKNOWN) {
            let mut merged = false;
            if tokens.len() > 0 {
                let last_kind = tokens[tokens.len() - 1].kind;
                if matches!(last_kind, TokenKind::UNKNOWN) {
                    merged = true;
                }
            }
            if merged {
                let ghost pre_toks = tokens@;
                let ghost pre_errs = errors@;
                proof {
                    lemma_lex_last_unknown(tokens@, errors@, text@, i as int);
                }
                let last = tokens.pop().unwrap();
                let last_err = errors.pop().unwrap();
                let grown_err = last_err.with_range(Span { start: last.span.start, end: i + 1 });
                proof {
                    lemma_lex_merge_unknown(pre_toks, pre_errs, text@, i, grown_err);
                }
                let grown = Token::new(
                    TokenKind::UNKNOWN,
                    Span { start: last.span.start, end: i + 1 },
                );
                tokens.push(grown);
                errors.push(grown_err);
            } else {
                let t = Token::new(TokenKind::UNKNOWN, Span { start: i, end: i + 1 });
                let e = SyntaxError::new(unknown_token_message(), Span { start: i, end: i + 1 });
                proof {
                    lemma_lex_push_unknown(tokens@, errors@, text@, i, e);
                }
                tokens.push(t);
                errors.push(e);
            }
            i = i + 1;
        } else {
            let t = Token::new(kind, Span { start: i, end: i + len });
            proof {
                lemma_lex_push_token(tokens@, errors@, text@, i, kind, len);
            }
            tokens.push(t);
            i = i + len;
        }
    }
    let eof = Token::new_eof(n);
    proof {
        lemma_lex_finish(tokens@, errors@, text@, eof);
    }
    tokens.push(eof);
    let stream_text = copy_byte_range(text, 0, n);
    proof {
        assert(stream_text@ =~= text@);
    }
    (TokenStream { text: stream_text, tokens, cursor: 0 }, errors)
}

/// The message every lexical diagnostic carries.
fn unknown_token_message() -> String {
    "unknown token".to_owned()
}

/// Rewriting only the last element leaves the count of `UNKNOWN` tokens
/// unchanged when the old and new last elements are both `UNKNOWN`.
proof fn lemma_count_unknown_last_same(a: Seq<Token>, b: Seq<Token>)
    requires
        a.len() == b.len() > 0,
        a.drop_last() =~= b.drop_last(),
        a.last().kind is UNKNOWN,
        b.last().kind is UNKNOWN,
    ensures
        count_unknown(a) == count_unknown(b),
{
}

/// A finished lexing run: the token stream and one diagnostic per run of
/// unrecognizable bytes.
#[derive(Debug)]
pub struct TokenSink {
    pub tokens: TokenStream,
    pub lexical_errors: Vec<SyntaxError>,
}

impl TokenSink {
    /// A sink over the empty input.
    pub fn empty_sink() -> (r: TokenSink)
        ensures
            r.tokens.wf(),
            r.lexical_errors@.len() == 0,
    {
        TokenSink { tokens: TokenStream::empty_stream(), lexical_errors: Vec::new() }
    }

    /// True when lexing reported at least one diagnostic.
    pub fn has_errors(&self) -> (r: bool)
        ensures
            r == (self.lexical_errors@.len() > 0),
    {
        self.lexical_errors.len() > 0
    }

    /// Appends one diagnostic.
    pub fn add_error(&mut self, error: SyntaxError)
        ensures
            final(self).tokens == old(self).tokens,
            final(self).lexical_errors@ == old(self).lexical_errors@.push(error),
    {
        self.lexical_errors.push(error);
    }
}

/// The lexer's front door: scans source text into a [`TokenSink`].
#[derive(Debug)]
pub struct StarlarkLexer {
}

impl StarlarkLexer {
    /// A fresh lexer.
    pub fn new() -> StarlarkLexer {
        StarlarkLexer {  }
    }

    /// Scans `source` completely; never fails, whatever the bytes hold.
    pub fn tokenize(&self, source: &[u8]) -> (r: TokenSink)
        ensures
            r.tokens.wf(),
            r.tokens.text@ == source@,
            r.lexical_errors@.len() == count_unknown(r.tokens.tokens@.drop_last()),
    {
        let (tokens, lexical_errors) = tokenize(source);
        TokenSink { tokens, lexical_errors }
    }
}

impl From<TokenKind> for SyntaxKind {
    /// The tree-side kind of a lexer token.
    fn from(kind: TokenKind) -> (r: SyntaxKind) {
        kind.to_syntax()
    }
}

impl vstd::std_specs::convert::FromSpecImpl<TokenKind> for SyntaxKind {
    open spec fn obeys_from_spec() -> bool {
        true
    }

    open spec fn from_spec(kind: TokenKind) -> SyntaxKind {
        kind.spec_to_syntax()
    }
}

impl TokenKind {
    /// The lexer-side kind a tree kind corresponds to: the inverse of
    /// [`TokenKind::to_syntax`] where one exists, `UNKNOWN` for the
    /// structural kinds, which no single token spells.
    pub open spec fn spec_from_syntax(kind: SyntaxKind) -> TokenKind {
        match kind {
            SyntaxKind::PLUS => TokenKind::PLUS,
            SyntaxKind::MINUS => TokenKind::MINUS,
            SyntaxKind::STAR => TokenKind::STAR,
            SyntaxKind::SLASH => TokenKind::SLASH,
            SyntaxKind::DSLASH => TokenKind::DSLASH,
            SyntaxKind::PERCENT => TokenKind::PERCENT,
            SyntaxKind::DSTAR => TokenKind::DSTAR,
            SyntaxKind::TILDE => TokenKind::TILDE,
            SyntaxKind::AMP => TokenKind::AMP,
            SyntaxKind::PIPE => TokenKind::PIPE,
            SyntaxKind::CARET => TokenKind::CARET,
            SyntaxKind::LSHIFT => TokenKind::LSHIFT,
            SyntaxKind::RSHIFT => TokenKind::RSHIFT,
            SyntaxKind::EQ => TokenKind::EQ,
            SyntaxKind::LT => TokenKind::LT,
            SyntaxKind::GT => TokenKind::GT,
            SyntaxKind::GE => TokenKind::GE,
            SyntaxKind::LE => TokenKind::LE,
            SyntaxKind::EQEQ => TokenKind::EQEQ,
            SyntaxKind::NE => TokenKind::NE,
            SyntaxKind::PLUSEQ => TokenKind::PLUSEQ,
            SyntaxKind::MINUSEQ => TokenKind::MINUSEQ,
            SyntaxKind::STAREQ => TokenKind::STAREQ,
            SyntaxKind::SLASHEQ => TokenKind::SLASHEQ,
            SyntaxKind::PERCENTEQ => TokenKind::PERCENTEQ,
            SyntaxKind::AMPEQ => TokenKind::AMPEQ,
            SyntaxKind::PIPEEQ => TokenKind::PIPEEQ,
            SyntaxKind::CARETEQ => TokenKind::CARETEQ,
            SyntaxKind::LSHIFTEQ => TokenKind::LSHIFTEQ,
            SyntaxKind::RSHIFTEQ => TokenKind::RSHIFTEQ,
            SyntaxKind::DOT => TokenKind::DOT,
            SyntaxKind::COMMA => TokenKind::COMMA,
            SyntaxKind::SEMICOLON => TokenKind::SEMICOLON,
            SyntaxKind::COLON => TokenKind::COLON,
            SyntaxKind::LPAREN => TokenKind::LPAREN,
            SyntaxKind::RPAREN => TokenKind::RPAREN,
            SyntaxKind::LBRACKET => TokenKind::LBRACKET,
            SyntaxKind::RBRACKET => TokenKind::RBRACKET,
            SyntaxKind::LBRACE => TokenKind::LBRACE,
            SyntaxKind::RBRACE => TokenKind::RBRACE,
            SyntaxKind::AND_KW => TokenKind::AND_KW,
            SyntaxKind::ELSE_KW => TokenKind::ELSE_KW,
            SyntaxKind::LOAD_KW => TokenKind::LOAD_KW,
            SyntaxKind::BREAK_KW => TokenKind::BREAK_KW,
            SyntaxKind::FOR_KW => TokenKind::FOR_KW,
            SyntaxKind::NOT_KW => TokenKind::NOT_KW,
            SyntaxKind::CONTINUE_KW => TokenKind::CONTINUE_KW,
            SyntaxKind::IF_KW => TokenKind::IF_KW,
            SyntaxKind::OR_KW => TokenKind::OR_KW,
            SyntaxKind::DEF_KW => TokenKind::DEF_KW,
            SyntaxKind::IN_KW => TokenKind::IN_KW,
            SyntaxKind::PASS_KW => TokenKind::PASS_KW,
            SyntaxKind::ELIF_KW => TokenKind::ELIF_KW,
            SyntaxKind::LAMBDA_KW => TokenKind::LAMBDA_KW,
            SyntaxKind::RETURN_KW => TokenKind::RETURN_KW,
            SyntaxKind::IDENTIFIER => TokenKind::IDENTIFIER,
            SyntaxKind::INT => TokenKind::INT,
            SyntaxKind::FLOAT => TokenKind::FLOAT,
            SyntaxKind::STRING => TokenKind::STRING,
            SyntaxKind::BYTES => TokenKind::BYTES,
            SyntaxKind::COMMENT => TokenKind::COMMENT,
            SyntaxKind::WHITESPACE => TokenKind::WHITESPACE,
            SyntaxKind::NEWLINE => TokenKind::NEWLINE,
            SyntaxKind::INDENT => TokenKind::INDENT,
            SyntaxKind::OUTDENT => TokenKind::OUTDENT,
            SyntaxKind::UNKNOWN => TokenKind::UNKNOWN,
            SyntaxKind::EOF => TokenKind::EOF,
            _ => TokenKind::UNKNOWN,
        }
    }

    /// Executable form of [`TokenKind::spec_from_syntax`].
    pub fn from_syntax(kind: SyntaxKind) -> (r: TokenKind)
        ensures
            r == TokenKind::spec_from_syntax(kind),
    {
        match kind {
            SyntaxKind::PLUS => TokenKind::PLUS,
            SyntaxKind::MINUS => TokenKind::MINUS,
            SyntaxKind::STAR => TokenKind::STAR,
            SyntaxKind::SLASH => TokenKind::SLASH,
            SyntaxKind::DSLASH => TokenKind::DSLASH,
            SyntaxKind::PERCENT => TokenKind::PERCENT,
            SyntaxKind::DSTAR => TokenKind::DSTAR,
            SyntaxKind::TILDE => TokenKind::TILDE,
            SyntaxKind::AMP => TokenKind::AMP,
            SyntaxKind::PIPE => TokenKind::PIPE,
            SyntaxKind::CARET => TokenKind::CARET,
            SyntaxKind::LSHIFT => TokenKind::LSHIFT,
            SyntaxKind::RSHIFT => TokenKind::RSHIFT,
            SyntaxKind::EQ => TokenKind::EQ,
            SyntaxKind::LT => TokenKind::LT,
            SyntaxKind::GT => TokenKind::GT,
            SyntaxKind::GE => TokenKind::GE,
            SyntaxKind::LE => TokenKind::LE,
            SyntaxKind::EQEQ => TokenKind::EQEQ,
            SyntaxKind::NE => TokenKind::NE,
            SyntaxKind::PLUSEQ => TokenKind::PLUSEQ,
            SyntaxKind::MINUSEQ => TokenKind::MINUSEQ,
            SyntaxKind::STAREQ => TokenKind::STAREQ,
            SyntaxKind::SLASHEQ => TokenKind::SLASHEQ,
            SyntaxKind::PERCENTEQ => TokenKind::PERCENTEQ,
            SyntaxKind::AMPEQ => TokenKind::AMPEQ,
            SyntaxKind::PIPEEQ => TokenKind::PIPEEQ,
            SyntaxKind::CARETEQ => TokenKind::CARETEQ,
            SyntaxKind::LSHIFTEQ => TokenKind::LSHIFTEQ,
            SyntaxKind::RSHIFTEQ => TokenKind::RSHIFTEQ,
            SyntaxKind::DOT => TokenKind::DOT,
            SyntaxKind::COMMA => TokenKind::COMMA,
            SyntaxKind::SEMICOLON => TokenKind::SEMICOLON,
            SyntaxKind::COLON => TokenKind::COLON,
            SyntaxKind::LPAREN => TokenKind::LPAREN,
            SyntaxKind::RPAREN => TokenKind::RPAREN,
            SyntaxKind::LBRACKET => TokenKind::LBRACKET,
            SyntaxKind::RBRACKET => TokenKind::RBRACKET,
            SyntaxKind::LBRACE => TokenKind::LBRACE,
            SyntaxKind::RBRACE => TokenKind::RBRACE,
            SyntaxKind::AND_KW => TokenKind::AND_KW,
            SyntaxKind::ELSE_KW => TokenKind::ELSE_KW,
            SyntaxKind::LOAD_KW => TokenKind::LOAD_KW,
            SyntaxKind::BREAK_KW => TokenKind::BREAK_KW,
            SyntaxKind::FOR_KW => TokenKind::FOR_KW,
            SyntaxKind::NOT_KW => TokenKind::NOT_KW,
            SyntaxKind::CONTINUE_KW => TokenKind::CONTINUE_KW,
            SyntaxKind::IF_KW => TokenKind::IF_KW,
            SyntaxKind::OR_KW => TokenKind::OR_KW,
            SyntaxKind::DEF_KW => TokenKind::DEF_KW,
            SyntaxKind::IN_KW => TokenKind::IN_KW,
            SyntaxKind::PASS_KW => TokenKind::PASS_KW,
            SyntaxKind::ELIF_KW => TokenKind::ELIF_KW,
            SyntaxKind::LAMBDA_KW => TokenKind::LAMBDA_KW,
            SyntaxKind::RETURN_KW => TokenKind::RETURN_KW,
            SyntaxKind::IDENTIFIER => TokenKind::IDENTIFIER,
            SyntaxKind::INT => TokenKind::INT,
            SyntaxKind::FLOAT => TokenKind::FLOAT,
            SyntaxKind::STRING => TokenKind::STRING,
            SyntaxKind::BYTES => TokenKind::BYTES,
            SyntaxKind::COMMENT => TokenKind::COMMENT,
            SyntaxKind::WHITESPACE => TokenKind::WHITESPACE,
            SyntaxKind::NEWLINE => TokenKind::NEWLINE,
            SyntaxKind::INDENT => TokenKind::INDENT,
            SyntaxKind::OUTDENT => TokenKind::OUTDENT,
            SyntaxKind::UNKNOWN => TokenKind::UNKNOWN,
            SyntaxKind::EOF => TokenKind::EOF,
            _ => TokenKind::UNKNOWN,
        }
    }
}

} // verus!
