//! Errors attached to a finished parse: each one a message, the byte range
//! it points at, and the structured cause it was made from.

use crate::lexer::Span;
use crate::parser::ParseError;
use vstd::prelude::*;

verus! {

/// What a [`SyntaxError`] was made from: a lexical diagnostic for a run of
/// unrecognizable bytes, or a parse error from the grammar.
#[derive(Debug, Clone, PartialEq, Eq)]
pub enum SyntaxErrorCause {
    Lexical,
    Parse(ParseError),
}

/// One diagnostic: never fatal, always attached to the error list beside the
/// tree, never inside the tree itself.
#[derive(Debug, Clone, PartialEq, Eq)]
pub struct SyntaxError {
    pub message: String,
    pub range: Span,
    pub cause: SyntaxErrorCause,
}

impl SyntaxError {
    /// A plain message over a range, with no structured cause.
    pub fn new(message: String, range: Span) -> (r: SyntaxError)
        ensures
            r.message == message,
            r.range == range,
            r.cause == SyntaxErrorCause::Lexical,
    {
        SyntaxError { message, range, cause: SyntaxErrorCause::Lexical }
    }

    /// A zero-width error at one offset.
    pub fn new_at_offset(message: String, offset: usize) -> (r: SyntaxError)
        ensures
            r.message == message,
            r.range.start == offset && r.range.end == offset,
            r.cause == SyntaxErrorCause::Lexical,
    {
        SyntaxError { message, range: Span { start: offset, end: offset }, cause: SyntaxErrorCause::Lexical }
    }

    /// The range the error points at.
    pub fn range(&self) -> (r: Span)
        ensures
            r == self.range,
    {
        self.range
    }

    /// The same error, pointed at another range.
    pub fn with_range(self, range: Span) -> (r: SyntaxError)
        ensures
            r.message == self.message,
            r.range == range,
            r.cause == self.cause,
    {
        SyntaxError { message: self.message, range, cause: self.cause }
    }

    /// The message text.
    pub fn message_text(&self) -> (r: &String)
        ensures
            r == &self.message,
    {
        &self.message
    }
}

} // verus!
