//! A lossless, error-resilient syntax-tree front end for a Python-like
//! build-scripting language.
//!
//! Source text goes in; a persistent green tree and a list of diagnostics
//! come out, for every input. The tree keeps every byte of the input —
//! whitespace, comments and unrecognizable garbage included — so the
//! original text can always be reconstructed from it, and the parse never
//! fails: malformed input yields a tree plus recorded errors, not an abort.

use vstd::prelude::*;

mod ast;
mod ast_tokens;
mod event;
mod grammar;
mod green;
mod kinds;
mod lexer;
mod node;
mod parser;
mod parsing;
mod syntax_error;
mod syntax_tree;
mod text_tree_sink;
mod token_set;

pub use green::{GreenElement, GreenNode, GreenToken};
pub use kinds::SyntaxKind;
pub use lexer::{tokenize, Span, StarlarkLexer, Token, TokenKind, TokenSink, TokenStream};
pub use ast::{File, Statement, DefStmt, Parameters, Parameter, IfStmt, ElifClauses, ElseClause, ForStmt, Suite, SimpleStmt, SmallStmt, ReturnStmt, BreakStmt, ContinueStmt, PassStmt, AssignStmt, ExprStmt, LoadStmt, Test, BinOp, IfExpr, PrimaryExpr, Operand, DotSuffix, SliceSuffix, CallSuffix, Arguments, Argument, ListExpr, ListComp, DictExpr, DictComp, Entries, Entry, CompClause, UnaryExpr, BinaryExpr, Binop, LambdaExpr, Expression, LoopVariables};
pub use ast_tokens::{Whitespace, Comment, Newline, Indent, Outdent, Unknown, Identifier, Int, Float, StringLit, Bytes, And, Else, Load, Break, For, Not, Continue, If, Or, Def, In, Pass, Elif, Lambda, Return, Plus, Minus, Star, Slash, Dslash, Percent, Dstar, Tilde, Amp, Pipe, Caret, Lshift, Rshift, Dot, Comma, EqSign, Semicolon, Colon, Lparen, Rparen, Lbracket, Rbracket, Lbrace, Rbrace, Lt, Gt, Ge, Le, Eqeq, Ne, Pluseq, Minuseq, Stareq, Slasheq, Percenteq, Ampeq, Pipeeq, Careteq, Lshifteq, Rshifteq};
pub use event::{process, Event};
pub use parser::{CompletedMarker, Marker, ParseError, Parser, TextTokenSource};
pub use node::{children_with_tokens, SyntaxElement, SyntaxNode, SyntaxToken};
pub use parsing::parse_text;
pub use syntax_error::{SyntaxError, SyntaxErrorCause};
pub use syntax_tree::SyntaxTreeBuilder;
pub use text_tree_sink::TextTreeSink;
pub use token_set::TokenSet;

verus! {

/// The result of parsing one piece of source text: the green tree, which is
/// always produced and always carries the whole input, and the ordered list
/// of diagnostics, lexical ones first.
#[derive(Debug)]
pub struct Parse {
    green: GreenNode,
    errors: Vec<SyntaxError>,
}

impl Parse {
    /// The tree.
    pub closed spec fn spec_green(&self) -> GreenNode {
        self.green
    }

    /// The diagnostics.
    pub closed spec fn spec_errors(&self) -> Seq<SyntaxError> {
        self.errors@
    }

    /// A parse is well formed when its tree is rooted in a `FILE` node; every
    /// parse this library produces is.
    pub open spec fn wf(&self) -> bool {
        self.spec_green().kind is FILE
    }

    /// A cursor over the root of the tree.
    pub fn syntax_node(&self) -> (r: SyntaxNode<'_>)
        ensures
            r.green == &self.spec_green(),
            r.offset == 0,
    {
        SyntaxNode::new_root(&self.green)
    }

    /// The tree itself.
    pub fn green(&self) -> (r: &GreenNode)
        ensures
            r == &self.spec_green(),
    {
        &self.green
    }

    /// The typed root.
    pub fn tree(&self) -> (r: File<'_>)
        requires
            self.wf(),
        ensures
            r.syntax.green == &self.spec_green(),
            r.syntax.offset == 0,
    {
        let root = self.syntax_node();
        File::cast(root).unwrap()
    }

    /// The diagnostics, in order: lexical ones, then the grammar's.
    pub fn errors(&self) -> (r: &Vec<SyntaxError>)
        ensures
            r@ == self.spec_errors(),
    {
        &self.errors
    }

    /// The typed root when the parse was clean, the errors otherwise.
    pub fn ok(&self) -> (r: Result<File<'_>, &Vec<SyntaxError>>)
        requires
            self.wf(),
        ensures
            (r is Ok) == (self.spec_errors().len() == 0),
            r is Ok ==> r.unwrap().syntax.green == &self.spec_green()
                && r.unwrap().syntax.offset == 0,
            r is Err ==> (r->Err_0)@ == self.spec_errors(),
    {
        if self.errors.len() == 0 {
            Ok(self.tree())
        } else {
            Err(&self.errors)
        }
    }
}

impl<'a> File<'a> {
    /// Parses source text. Total and lossless: every input yields a parse
    /// whose tree is rooted in a `FILE` node and reproduces the input byte
    /// for byte; whatever was wrong with the input is in the error list, not
    /// an abort.
    pub fn parse(text: &[u8]) -> (r: Parse)
        ensures
            r.wf(),
            green::node_text(r.spec_green()) == text@,
            node::node_in_range(node::SyntaxNode { green: &r.spec_green(), offset: 0 }),
    {
        let n = text.len();
        let (green, errors) = parse_text(text);
        proof {
            assert(node::node_in_range(node::SyntaxNode { green: &green, offset: 0 })) by {
                assert(green::node_text(green).len() == text@.len() == n);
            }
        }
        Parse { green, errors }
    }
}

} // verus!
