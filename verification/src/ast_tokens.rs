//! The typed view of the leaves: one wrapper per token kind, each a thin
//! cursor over one leaf of the tree, enforcing that the leaf has the
//! wrapper's kind.

use crate::kinds::SyntaxKind;
use crate::node::SyntaxToken;
use vstd::prelude::*;

verus! {

/// Typed view of a `WHITESPACE` leaf.
#[derive(Clone, Copy)]
pub struct Whitespace<'a> {
    pub syntax: SyntaxToken<'a>,
}

impl<'a> Whitespace<'a> {
    /// True exactly of the kind this wrapper stands for.
    pub open spec fn spec_can_cast(kind: SyntaxKind) -> bool {
        kind is WHITESPACE
    }

    /// Executable form of [`Self::spec_can_cast`].
    pub fn can_cast(kind: SyntaxKind) -> (r: bool)
        ensures
            r == Self::spec_can_cast(kind),
    {
        matches!(kind, SyntaxKind::WHITESPACE)
    }

    /// Wraps the leaf exactly when it has the right kind.
    pub fn cast(syntax: SyntaxToken<'a>) -> (r: Option<Whitespace<'a>>)
        ensures
            (r is Some) == Self::spec_can_cast(syntax.green.kind),
            r is Some ==> r.unwrap().syntax == syntax,
    {
        if Self::can_cast(syntax.kind()) {
            Some(Whitespace { syntax })
        } else {
            None
        }
    }

    /// The untyped leaf underneath.
    pub fn syntax(&self) -> (r: &SyntaxToken<'a>)
        ensures
            r == &self.syntax,
    {
        &self.syntax
    }

    /// The leaf's bytes.
    pub fn text(&self) -> (r: Vec<u8>)
        ensures
            r@ == self.syntax.green.text@,
    {
        self.syntax.text()
    }
}

/// Typed view of a `COMMENT` leaf.
#[derive(Clone, Copy)]
pub struct Comment<'a> {
    pub syntax: SyntaxToken<'a>,
}

impl<'a> Comment<'a> {
    /// True exactly of the kind this wrapper stands for.
    pub open spec fn spec_can_cast(kind: SyntaxKind) -> bool {
        kind is COMMENT
    }

    /// Executable form of [`Self::spec_can_cast`].
    pub fn can_cast(kind: SyntaxKind) -> (r: bool)
        ensures
            r == Self::spec_can_cast(kind),
    {
        matches!(kind, SyntaxKind::COMMENT)
    }

    /// Wraps the leaf exactly when it has the right kind.
    pub fn cast(syntax: SyntaxToken<'a>) -> (r: Option<Comment<'a>>)
        ensures
            (r is Some) == Self::spec_can_cast(syntax.green.kind),
            r is Some ==> r.unwrap().syntax == syntax,
    {
        if Self::can_cast(syntax.kind()) {
            Some(Comment { syntax })
        } else {
            None
        }
    }

    /// The untyped leaf underneath.
    pub fn syntax(&self) -> (r: &SyntaxToken<'a>)
        ensures
            r == &self.syntax,
    {
        &self.syntax
    }

    /// The leaf's bytes.
    pub fn text(&self) -> (r: Vec<u8>)
        ensures
            r@ == self.syntax.green.text@,
    {
        self.syntax.text()
    }
}

/// Typed view of a `NEWLINE` leaf.
#[derive(Clone, Copy)]
pub struct Newline<'a> {
    pub syntax: SyntaxToken<'a>,
}

impl<'a> Newline<'a> {
    /// True exactly of the kind this wrapper stands for.
    pub open spec fn spec_can_cast(kind: SyntaxKind) -> bool {
        kind is NEWLINE
    }

    /// Executable form of [`Self::spec_can_cast`].
    pub fn can_cast(kind: SyntaxKind) -> (r: bool)
        ensures
            r == Self::spec_can_cast(kind),
    {
        matches!(kind, SyntaxKind::NEWLINE)
    }

    /// Wraps the leaf exactly when it has the right kind.
    pub fn cast(syntax: SyntaxToken<'a>) -> (r: Option<Newline<'a>>)
        ensures
            (r is Some) == Self::spec_can_cast(syntax.green.kind),
            r is Some ==> r.unwrap().syntax == syntax,
    {
        if Self::can_cast(syntax.kind()) {
            Some(Newline { syntax })
        } else {
            None
        }
    }

    /// The untyped leaf underneath.
    pub fn syntax(&self) -> (r: &SyntaxToken<'a>)
        ensures
            r == &self.syntax,
    {
        &self.syntax
    }

    /// The leaf's bytes.
    pub fn text(&self) -> (r: Vec<u8>)
        ensures
            r@ == self.syntax.green.text@,
    {
        self.syntax.text()
    }
}

/// Typed view of a `INDENT` leaf.
#[derive(Clone, Copy)]
pub struct Indent<'a> {
    pub syntax: SyntaxToken<'a>,
}

impl<'a> Indent<'a> {
    /// True exactly of the kind this wrapper stands for.
    pub open spec fn spec_can_cast(kind: SyntaxKind) -> bool {
        kind is INDENT
    }

    /// Executable form of [`Self::spec_can_cast`].
    pub fn can_cast(kind: SyntaxKind) -> (r: bool)
        ensures
            r == Self::spec_can_cast(kind),
    {
        matches!(kind, SyntaxKind::INDENT)
    }

    /// Wraps the leaf exactly when it has the right kind.
    pub fn cast(syntax: SyntaxToken<'a>) -> (r: Option<Indent<'a>>)
        ensures
            (r is Some) == Self::spec_can_cast(syntax.green.kind),
            r is Some ==> r.unwrap().syntax == syntax,
    {
        if Self::can_cast(syntax.kind()) {
            Some(Indent { syntax })
        } else {
            None
        }
    }

    /// The untyped leaf underneath.
    pub fn syntax(&self) -> (r: &SyntaxToken<'a>)
        ensures
            r == &self.syntax,
    {
        &self.syntax
    }

    /// The leaf's bytes.
    pub fn text(&self) -> (r: Vec<u8>)
        ensures
            r@ == self.syntax.green.text@,
    {
        self.syntax.text()
    }
}

/// Typed view of a `OUTDENT` leaf.
#[derive(Clone, Copy)]
pub struct Outdent<'a> {
    pub syntax: SyntaxToken<'a>,
}

impl<'a> Outdent<'a> {
    /// True exactly of the kind this wrapper stands for.
    pub open spec fn spec_can_cast(kind: SyntaxKind) -> bool {
        kind is OUTDENT
    }

    /// Executable form of [`Self::spec_can_cast`].
    pub fn can_cast(kind: SyntaxKind) -> (r: bool)
        ensures
            r == Self::spec_can_cast(kind),
    {
        matches!(kind, SyntaxKind::OUTDENT)
    }

    /// Wraps the leaf exactly when it has the right kind.
    pub fn cast(syntax: SyntaxToken<'a>) -> (r: Option<Outdent<'a>>)
        ensures
            (r is Some) == Self::spec_can_cast(syntax.green.kind),
            r is Some ==> r.unwrap().syntax == syntax,
    {
        if Self::can_cast(syntax.kind()) {
            Some(Outdent { syntax })
        } else {
            None
        }
    }

    /// The untyped leaf underneath.
    pub fn syntax(&self) -> (r: &SyntaxToken<'a>)
        ensures
            r == &self.syntax,
    {
        &self.syntax
    }

    /// The leaf's bytes.
    pub fn text(&self) -> (r: Vec<u8>)
        ensures
            r@ == self.syntax.green.text@,
    {
        self.syntax.text()
    }
}

/// Typed view of a `UNKNOWN` leaf.
#[derive(Clone, Copy)]
pub struct Unknown<'a> {
    pub syntax: SyntaxToken<'a>,
}

impl<'a> Unknown<'a> {
    /// True exactly of the kind this wrapper stands for.
    pub open spec fn spec_can_cast(kind: SyntaxKind) -> bool {
        kind is UNKNOWN
    }

    /// Executable form of [`Self::spec_can_cast`].
    pub fn can_cast(kind: SyntaxKind) -> (r: bool)
        ensures
            r == Self::spec_can_cast(kind),
    {
        matches!(kind, SyntaxKind::UNKNOWN)
    }

    /// Wraps the leaf exactly when it has the right kind.
    pub fn cast(syntax: SyntaxToken<'a>) -> (r: Option<Unknown<'a>>)
        ensures
            (r is Some) == Self::spec_can_cast(syntax.green.kind),
            r is Some ==> r.unwrap().syntax == syntax,
    {
        if Self::can_cast(syntax.kind()) {
            Some(Unknown { syntax })
        } else {
            None
        }
    }

    /// The untyped leaf underneath.
    pub fn syntax(&self) -> (r: &SyntaxToken<'a>)
        ensures
            r == &self.syntax,
    {
        &self.syntax
    }

    /// The leaf's bytes.
    pub fn text(&self) -> (r: Vec<u8>)
        ensures
            r@ == self.syntax.green.text@,
    {
        self.syntax.text()
    }
}

/// Typed view of a `IDENTIFIER` leaf.
#[derive(Clone, Copy)]
pub struct Identifier<'a> {
    pub syntax: SyntaxToken<'a>,
}

impl<'a> Identifier<'a> {
    /// True exactly of the kind this wrapper stands for.
    pub open spec fn spec_can_cast(kind: SyntaxKind) -> bool {
        kind is IDENTIFIER
    }

    /// Executable form of [`Self::spec_can_cast`].
    pub fn can_cast(kind: SyntaxKind) -> (r: bool)
        ensures
            r == Self::spec_can_cast(kind),
    {
        matches!(kind, SyntaxKind::IDENTIFIER)
    }

    /// Wraps the leaf exactly when it has the right kind.
    pub fn cast(syntax: SyntaxToken<'a>) -> (r: Option<Identifier<'a>>)
        ensures
            (r is Some) == Self::spec_can_cast(syntax.green.kind),
            r is Some ==> r.unwrap().syntax == syntax,
    {
        if Self::can_cast(syntax.kind()) {
            Some(Identifier { syntax })
        } else {
            None
        }
    }

    /// The untyped leaf underneath.
    pub fn syntax(&self) -> (r: &SyntaxToken<'a>)
        ensures
            r == &self.syntax,
    {
        &self.syntax
    }

    /// The leaf's bytes.
    pub fn text(&self) -> (r: Vec<u8>)
        ensures
            r@ == self.syntax.green.text@,
    {
        self.syntax.text()
    }
}

/// Typed view of a `INT` leaf.
#[derive(Clone, Copy)]
pub struct Int<'a> {
    pub syntax: SyntaxToken<'a>,
}

impl<'a> Int<'a> {
    /// True exactly of the kind this wrapper stands for.
    pub open spec fn spec_can_cast(kind: SyntaxKind) -> bool {
        kind is INT
    }

    /// Executable form of [`Self::spec_can_cast`].
    pub fn can_cast(kind: SyntaxKind) -> (r: bool)
        ensures
            r == Self::spec_can_cast(kind),
    {
        matches!(kind, SyntaxKind::INT)
    }

    /// Wraps the leaf exactly when it has the right kind.
    pub fn cast(syntax: SyntaxToken<'a>) -> (r: Option<Int<'a>>)
        ensures
            (r is Some) == Self::spec_can_cast(syntax.green.kind),
            r is Some ==> r.unwrap().syntax == syntax,
    {
        if Self::can_cast(syntax.kind()) {
            Some(Int { syntax })
        } else {
            None
        }
    }

    /// The untyped leaf underneath.
    pub fn syntax(&self) -> (r: &SyntaxToken<'a>)
        ensures
            r == &self.syntax,
    {
        &self.syntax
    }

    /// The leaf's bytes.
    pub fn text(&self) -> (r: Vec<u8>)
        ensures
            r@ == self.syntax.green.text@,
    {
        self.syntax.text()
    }
}

/// Typed view of a `FLOAT` leaf.
#[derive(Clone, Copy)]
pub struct Float<'a> {
    pub syntax: SyntaxToken<'a>,
}

impl<'a> Float<'a> {
    /// True exactly of the kind this wrapper stands for.
    pub open spec fn spec_can_cast(kind: SyntaxKind) -> bool {
        kind is FLOAT
    }

    /// Executable form of [`Self::spec_can_cast`].
    pub fn can_cast(kind: SyntaxKind) -> (r: bool)
        ensures
            r == Self::spec_can_cast(kind),
    {
        matches!(kind, SyntaxKind::FLOAT)
    }

    /// Wraps the leaf exactly when it has the right kind.
    pub fn cast(syntax: SyntaxToken<'a>) -> (r: Option<Float<'a>>)
        ensures
            (r is Some) == Self::spec_can_cast(syntax.green.kind),
            r is Some ==> r.unwrap().syntax == syntax,
    {
        if Self::can_cast(syntax.kind()) {
            Some(Float { syntax })
        } else {
            None
        }
    }

    /// The untyped leaf underneath.
    pub fn syntax(&self) -> (r: &SyntaxToken<'a>)
        ensures
            r == &self.syntax,
    {
        &self.syntax
    }

    /// The leaf's bytes.
    pub fn text(&self) -> (r: Vec<u8>)
        ensures
            r@ == self.syntax.green.text@,
    {
        self.syntax.text()
    }
}

/// Typed view of a `STRING` leaf.
#[derive(Clone, Copy)]
pub struct StringLit<'a> {
    pub syntax: SyntaxToken<'a>,
}

impl<'a> StringLit<'a> {
    /// True exactly of the kind this wrapper stands for.
    pub open spec fn spec_can_cast(kind: SyntaxKind) -> bool {
        kind is STRING
    }

    /// Executable form of [`Self::spec_can_cast`].
    pub fn can_cast(kind: SyntaxKind) -> (r: bool)
        ensures
            r == Self::spec_can_cast(kind),
    {
        matches!(kind, SyntaxKind::STRING)
    }

    /// Wraps the leaf exactly when it has the right kind.
    pub fn cast(syntax: SyntaxToken<'a>) -> (r: Option<StringLit<'a>>)
        ensures
            (r is Some) == Self::spec_can_cast(syntax.green.kind),
            r is Some ==> r.unwrap().syntax == syntax,
    {
        if Self::can_cast(syntax.kind()) {
            Some(StringLit { syntax })
        } else {
            None
        }
    }

    /// The untyped leaf underneath.
    pub fn syntax(&self) -> (r: &SyntaxToken<'a>)
        ensures
            r == &self.syntax,
    {
        &self.syntax
    }

    /// The leaf's bytes.
    pub fn text(&self) -> (r: Vec<u8>)
        ensures
            r@ == self.syntax.green.text@,
    {
        self.syntax.text()
    }
}

/// Typed view of a `BYTES` leaf.
#[derive(Clone, Copy)]
pub struct Bytes<'a> {
    pub syntax: SyntaxToken<'a>,
}

impl<'a> Bytes<'a> {
    /// True exactly of the kind this wrapper stands for.
    pub open spec fn spec_can_cast(kind: SyntaxKind) -> bool {
        kind is BYTES
    }

    /// Executable form of [`Self::spec_can_cast`].
    pub fn can_cast(kind: SyntaxKind) -> (r: bool)
        ensures
            r == Self::spec_can_cast(kind),
    {
        matches!(kind, SyntaxKind::BYTES)
    }

    /// Wraps the leaf exactly when it has the right kind.
    pub fn cast(syntax: SyntaxToken<'a>) -> (r: Option<Bytes<'a>>)
        ensures
            (r is Some) == Self::spec_can_cast(syntax.green.kind),
            r is Some ==> r.unwrap().syntax == syntax,
    {
        if Self::can_cast(syntax.kind()) {
            Some(Bytes { syntax })
        } else {
            None
        }
    }

    /// The untyped leaf underneath.
    pub fn syntax(&self) -> (r: &SyntaxToken<'a>)
        ensures
            r == &self.syntax,
    {
        &self.syntax
    }

    /// The leaf's bytes.
    pub fn text(&self) -> (r: Vec<u8>)
        ensures
            r@ == self.syntax.green.text@,
    {
        self.syntax.text()
    }
}

/// Typed view of a `AND_KW` leaf.
#[derive(Clone, Copy)]
pub struct And<'a> {
    pub syntax: SyntaxToken<'a>,
}

impl<'a> And<'a> {
    /// True exactly of the kind this wrapper stands for.
    pub open spec fn spec_can_cast(kind: SyntaxKind) -> bool {
        kind is AND_KW
    }

    /// Executable form of [`Self::spec_can_cast`].
    pub fn can_cast(kind: SyntaxKind) -> (r: bool)
        ensures
            r == Self::spec_can_cast(kind),
    {
        matches!(kind, SyntaxKind::AND_KW)
    }

    /// Wraps the leaf exactly when it has the right kind.
    pub fn cast(syntax: SyntaxToken<'a>) -> (r: Option<And<'a>>)
        ensures
            (r is Some) == Self::spec_can_cast(syntax.green.kind),
            r is Some ==> r.unwrap().syntax == syntax,
    {
        if Self::can_cast(syntax.kind()) {
            Some(And { syntax })
        } else {
            None
        }
    }

    /// The untyped leaf underneath.
    pub fn syntax(&self) -> (r: &SyntaxToken<'a>)
        ensures
            r == &self.syntax,
    {
        &self.syntax
    }

    /// The leaf's bytes.
    pub fn text(&self) -> (r: Vec<u8>)
        ensures
            r@ == self.syntax.green.text@,
    {
        self.syntax.text()
    }
}

/// Typed view of a `ELSE_KW` leaf.
#[derive(Clone, Copy)]
pub struct Else<'a> {
    pub syntax: SyntaxToken<'a>,
}

impl<'a> Else<'a> {
    /// True exactly of the kind this wrapper stands for.
    pub open spec fn spec_can_cast(kind: SyntaxKind) -> bool {
        kind is ELSE_KW
    }

    /// Executable form of [`Self::spec_can_cast`].
    pub fn can_cast(kind: SyntaxKind) -> (r: bool)
        ensures
            r == Self::spec_can_cast(kind),
    {
        matches!(kind, SyntaxKind::ELSE_KW)
    }

    /// Wraps the leaf exactly when it has the right kind.
    pub fn cast(syntax: SyntaxToken<'a>) -> (r: Option<Else<'a>>)
        ensures
            (r is Some) == Self::spec_can_cast(syntax.green.kind),
            r is Some ==> r.unwrap().syntax == syntax,
    {
        if Self::can_cast(syntax.kind()) {
            Some(Else { syntax })
        } else {
            None
        }
    }

    /// The untyped leaf underneath.
    pub fn syntax(&self) -> (r: &SyntaxToken<'a>)
        ensures
            r == &self.syntax,
    {
        &self.syntax
    }

    /// The leaf's bytes.
    pub fn text(&self) -> (r: Vec<u8>)
        ensures
            r@ == self.syntax.green.text@,
    {
        self.syntax.text()
    }
}

/// Typed view of a `LOAD_KW` leaf.
#[derive(Clone, Copy)]
pub struct Load<'a> {
    pub syntax: SyntaxToken<'a>,
}

impl<'a> Load<'a> {
    /// True exactly of the kind this wrapper stands for.
    pub open spec fn spec_can_cast(kind: SyntaxKind) -> bool {
        kind is LOAD_KW
    }

    /// Executable form of [`Self::spec_can_cast`].
    pub fn can_cast(kind: SyntaxKind) -> (r: bool)
        ensures
            r == Self::spec_can_cast(kind),
    {
        matches!(kind, SyntaxKind::LOAD_KW)
    }

    /// Wraps the leaf exactly when it has the right kind.
    pub fn cast(syntax: SyntaxToken<'a>) -> (r: Option<Load<'a>>)
        ensures
            (r is Some) == Self::spec_can_cast(syntax.green.kind),
            r is Some ==> r.unwrap().syntax == syntax,
    {
        if Self::can_cast(syntax.kind()) {
            Some(Load { syntax })
        } else {
            None
        }
    }

    /// The untyped leaf underneath.
    pub fn syntax(&self) -> (r: &SyntaxToken<'a>)
        ensures
            r == &self.syntax,
    {
        &self.syntax
    }

    /// The leaf's bytes.
    pub fn text(&self) -> (r: Vec<u8>)
        ensures
            r@ == self.syntax.green.text@,
    {
        self.syntax.text()
    }
}

/// Typed view of a `BREAK_KW` leaf.
#[derive(Clone, Copy)]
pub struct Break<'a> {
    pub syntax: SyntaxToken<'a>,
}

impl<'a> Break<'a> {
    /// True exactly of the kind this wrapper stands for.
    pub open spec fn spec_can_cast(kind: SyntaxKind) -> bool {
        kind is BREAK_KW
    }

    /// Executable form of [`Self::spec_can_cast`].
    pub fn can_cast(kind: SyntaxKind) -> (r: bool)
        ensures
            r == Self::spec_can_cast(kind),
    {
        matches!(kind, SyntaxKind::BREAK_KW)
    }

    /// Wraps the leaf exactly when it has the right kind.
    pub fn cast(syntax: SyntaxToken<'a>) -> (r: Option<Break<'a>>)
        ensures
            (r is Some) == Self::spec_can_cast(syntax.green.kind),
            r is Some ==> r.unwrap().syntax == syntax,
    {
        if Self::can_cast(syntax.kind()) {
            Some(Break { syntax })
        } else {
            None
        }
    }

    /// The untyped leaf underneath.
    pub fn syntax(&self) -> (r: &SyntaxToken<'a>)
        ensures
            r == &self.syntax,
    {
        &self.syntax
    }

    /// The leaf's bytes.
    pub fn text(&self) -> (r: Vec<u8>)
        ensures
            r@ == self.syntax.green.text@,
    {
        self.syntax.text()
    }
}

/// Typed view of a `FOR_KW` leaf.
#[derive(Clone, Copy)]
pub struct For<'a> {
    pub syntax: SyntaxToken<'a>,
}

impl<'a> For<'a> {
    /// True exactly of the kind this wrapper stands for.
    pub open spec fn spec_can_cast(kind: SyntaxKind) -> bool {
        kind is FOR_KW
    }

    /// Executable form of [`Self::spec_can_cast`].
    pub fn can_cast(kind: SyntaxKind) -> (r: bool)
        ensures
            r == Self::spec_can_cast(kind),
    {
        matches!(kind, SyntaxKind::FOR_KW)
    }

    /// Wraps the leaf exactly when it has the right kind.
    pub fn cast(syntax: SyntaxToken<'a>) -> (r: Option<For<'a>>)
        ensures
            (r is Some) == Self::spec_can_cast(syntax.green.kind),
            r is Some ==> r.unwrap().syntax == syntax,
    {
        if Self::can_cast(syntax.kind()) {
            Some(For { syntax })
        } else {
            None
        }
    }

    /// The untyped leaf underneath.
    pub fn syntax(&self) -> (r: &SyntaxToken<'a>)
        ensures
            r == &self.syntax,
    {
        &self.syntax
    }

    /// The leaf's bytes.
    pub fn text(&self) -> (r: Vec<u8>)
        ensures
            r@ == self.syntax.green.text@,
    {
        self.syntax.text()
    }
}

/// Typed view of a `NOT_KW` leaf.
#[derive(Clone, Copy)]
pub struct Not<'a> {
    pub syntax: SyntaxToken<'a>,
}

impl<'a> Not<'a> {
    /// True exactly of the kind this wrapper stands for.
    pub open spec fn spec_can_cast(kind: SyntaxKind) -> bool {
        kind is NOT_KW
    }

    /// Executable form of [`Self::spec_can_cast`].
    pub fn can_cast(kind: SyntaxKind) -> (r: bool)
        ensures
            r == Self::spec_can_cast(kind),
    {
        matches!(kind, SyntaxKind::NOT_KW)
    }

    /// Wraps the leaf exactly when it has the right kind.
    pub fn cast(syntax: SyntaxToken<'a>) -> (r: Option<Not<'a>>)
        ensures
            (r is Some) == Self::spec_can_cast(syntax.green.kind),
            r is Some ==> r.unwrap().syntax == syntax,
    {
        if Self::can_cast(syntax.kind()) {
            Some(Not { syntax })
        } else {
            None
        }
    }

    /// The untyped leaf underneath.
    pub fn syntax(&self) -> (r: &SyntaxToken<'a>)
        ensures
            r == &self.syntax,
    {
        &self.syntax
    }

    /// The leaf's bytes.
    pub fn text(&self) -> (r: Vec<u8>)
        ensures
            r@ == self.syntax.green.text@,
    {
        self.syntax.text()
    }
}

/// Typed view of a `CONTINUE_KW` leaf.
#[derive(Clone, Copy)]
pub struct Continue<'a> {
    pub syntax: SyntaxToken<'a>,
}

impl<'a> Continue<'a> {
    /// True exactly of the kind this wrapper stands for.
    pub open spec fn spec_can_cast(kind: SyntaxKind) -> bool {
        kind is CONTINUE_KW
    }

    /// Executable form of [`Self::spec_can_cast`].
    pub fn can_cast(kind: SyntaxKind) -> (r: bool)
        ensures
            r == Self::spec_can_cast(kind),
    {
        matches!(kind, SyntaxKind::CONTINUE_KW)
    }

    /// Wraps the leaf exactly when it has the right kind.
    pub fn cast(syntax: SyntaxToken<'a>) -> (r: Option<Continue<'a>>)
        ensures
            (r is Some) == Self::spec_can_cast(syntax.green.kind),
            r is Some ==> r.unwrap().syntax == syntax,
    {
        if Self::can_cast(syntax.kind()) {
            Some(Continue { syntax })
        } else {
            None
        }
    }

    /// The untyped leaf underneath.
    pub fn syntax(&self) -> (r: &SyntaxToken<'a>)
        ensures
            r == &self.syntax,
    {
        &self.syntax
    }

    /// The leaf's bytes.
    pub fn text(&self) -> (r: Vec<u8>)
        ensures
            r@ == self.syntax.green.text@,
    {
        self.syntax.text()
    }
}

/// Typed view of a `IF_KW` leaf.
#[derive(Clone, Copy)]
pub struct If<'a> {
    pub syntax: SyntaxToken<'a>,
}

impl<'a> If<'a> {
    /// True exactly of the kind this wrapper stands for.
    pub open spec fn spec_can_cast(kind: SyntaxKind) -> bool {
        kind is IF_KW
    }

    /// Executable form of [`Self::spec_can_cast`].
    pub fn can_cast(kind: SyntaxKind) -> (r: bool)
        ensures
            r == Self::spec_can_cast(kind),
    {
        matches!(kind, SyntaxKind::IF_KW)
    }

    /// Wraps the leaf exactly when it has the right kind.
    pub fn cast(syntax: SyntaxToken<'a>) -> (r: Option<If<'a>>)
        ensures
            (r is Some) == Self::spec_can_cast(syntax.green.kind),
            r is Some ==> r.unwrap().syntax == syntax,
    {
        if Self::can_cast(syntax.kind()) {
            Some(If { syntax })
        } else {
            None
        }
    }

    /// The untyped leaf underneath.
    pub fn syntax(&self) -> (r: &SyntaxToken<'a>)
        ensures
            r == &self.syntax,
    {
        &self.syntax
    }

    /// The leaf's bytes.
    pub fn text(&self) -> (r: Vec<u8>)
        ensures
            r@ == self.syntax.green.text@,
    {
        self.syntax.text()
    }
}

/// Typed view of a `OR_KW` leaf.
#[derive(Clone, Copy)]
pub struct Or<'a> {
    pub syntax: SyntaxToken<'a>,
}

impl<'a> Or<'a> {
    /// True exactly of the kind this wrapper stands for.
    pub open spec fn spec_can_cast(kind: SyntaxKind) -> bool {
        kind is OR_KW
    }

    /// Executable form of [`Self::spec_can_cast`].
    pub fn can_cast(kind: SyntaxKind) -> (r: bool)
        ensures
            r == Self::spec_can_cast(kind),
    {
        matches!(kind, SyntaxKind::OR_KW)
    }

    /// Wraps the leaf exactly when it has the right kind.
    pub fn cast(syntax: SyntaxToken<'a>) -> (r: Option<Or<'a>>)
        ensures
            (r is Some) == Self::spec_can_cast(syntax.green.kind),
            r is Some ==> r.unwrap().syntax == syntax,
    {
        if Self::can_cast(syntax.kind()) {
            Some(Or { syntax })
        } else {
            None
        }
    }

    /// The untyped leaf underneath.
    pub fn syntax(&self) -> (r: &SyntaxToken<'a>)
        ensures
            r == &self.syntax,
    {
        &self.syntax
    }

    /// The leaf's bytes.
    pub fn text(&self) -> (r: Vec<u8>)
        ensures
            r@ == self.syntax.green.text@,
    {
        self.syntax.text()
    }
}

/// Typed view of a `DEF_KW` leaf.
#[derive(Clone, Copy)]
pub struct Def<'a> {
    pub syntax: SyntaxToken<'a>,
}

impl<'a> Def<'a> {
    /// True exactly of the kind this wrapper stands for.
    pub open spec fn spec_can_cast(kind: SyntaxKind) -> bool {
        kind is DEF_KW
    }

    /// Executable form of [`Self::spec_can_cast`].
    pub fn can_cast(kind: SyntaxKind) -> (r: bool)
        ensures
            r == Self::spec_can_cast(kind),
    {
        matches!(kind, SyntaxKind::DEF_KW)
    }

    /// Wraps the leaf exactly when it has the right kind.
    pub fn cast(syntax: SyntaxToken<'a>) -> (r: Option<Def<'a>>)
        ensures
            (r is Some) == Self::spec_can_cast(syntax.green.kind),
            r is Some ==> r.unwrap().syntax == syntax,
    {
        if Self::can_cast(syntax.kind()) {
            Some(Def { syntax })
        } else {
            None
        }
    }

    /// The untyped leaf underneath.
    pub fn syntax(&self) -> (r: &SyntaxToken<'a>)
        ensures
            r == &self.syntax,
    {
        &self.syntax
    }

    /// The leaf's bytes.
    pub fn text(&self) -> (r: Vec<u8>)
        ensures
            r@ == self.syntax.green.text@,
    {
        self.syntax.text()
    }
}

/// Typed view of a `IN_KW` leaf.
#[derive(Clone, Copy)]
pub struct In<'a> {
    pub syntax: SyntaxToken<'a>,
}

impl<'a> In<'a> {
    /// True exactly of the kind this wrapper stands for.
    pub open spec fn spec_can_cast(kind: SyntaxKind) -> bool {
        kind is IN_KW
    }

    /// Executable form of [`Self::spec_can_cast`].
    pub fn can_cast(kind: SyntaxKind) -> (r: bool)
        ensures
            r == Self::spec_can_cast(kind),
    {
        matches!(kind, SyntaxKind::IN_KW)
    }

    /// Wraps the leaf exactly when it has the right kind.
    pub fn cast(syntax: SyntaxToken<'a>) -> (r: Option<In<'a>>)
        ensures
            (r is Some) == Self::spec_can_cast(syntax.green.kind),
            r is Some ==> r.unwrap().syntax == syntax,
    {
        if Self::can_cast(syntax.kind()) {
            Some(In { syntax })
        } else {
            None
        }
    }

    /// The untyped leaf underneath.
    pub fn syntax(&self) -> (r: &SyntaxToken<'a>)
        ensures
            r == &self.syntax,
    {
        &self.syntax
    }

    /// The leaf's bytes.
    pub fn text(&self) -> (r: Vec<u8>)
        ensures
            r@ == self.syntax.green.text@,
    {
        self.syntax.text()
    }
}

/// Typed view of a `PASS_KW` leaf.
#[derive(Clone, Copy)]
pub struct Pass<'a> {
    pub syntax: SyntaxToken<'a>,
}

impl<'a> Pass<'a> {
    /// True exactly of the kind this wrapper stands for.
    pub open spec fn spec_can_cast(kind: SyntaxKind) -> bool {
        kind is PASS_KW
    }

    /// Executable form of [`Self::spec_can_cast`].
    pub fn can_cast(kind: SyntaxKind) -> (r: bool)
        ensures
            r == Self::spec_can_cast(kind),
    {
        matches!(kind, SyntaxKind::PASS_KW)
    }

    /// Wraps the leaf exactly when it has the right kind.
    pub fn cast(syntax: SyntaxToken<'a>) -> (r: Option<Pass<'a>>)
        ensures
            (r is Some) == Self::spec_can_cast(syntax.green.kind),
            r is Some ==> r.unwrap().syntax == syntax,
    {
        if Self::can_cast(syntax.kind()) {
            Some(Pass { syntax })
        } else {
            None
        }
    }

    /// The untyped leaf underneath.
    pub fn syntax(&self) -> (r: &SyntaxToken<'a>)
        ensures
            r == &self.syntax,
    {
        &self.syntax
    }

    /// The leaf's bytes.
    pub fn text(&self) -> (r: Vec<u8>)
        ensures
            r@ == self.syntax.green.text@,
    {
        self.syntax.text()
    }
}

/// Typed view of a `ELIF_KW` leaf.
#[derive(Clone, Copy)]
pub struct Elif<'a> {
    pub syntax: SyntaxToken<'a>,
}

impl<'a> Elif<'a> {
    /// True exactly of the kind this wrapper stands for.
    pub open spec fn spec_can_cast(kind: SyntaxKind) -> bool {
        kind is ELIF_KW
    }

    /// Executable form of [`Self::spec_can_cast`].
    pub fn can_cast(kind: SyntaxKind) -> (r: bool)
        ensures
            r == Self::spec_can_cast(kind),
    {
        matches!(kind, SyntaxKind::ELIF_KW)
    }

    /// Wraps the leaf exactly when it has the right kind.
    pub fn cast(syntax: SyntaxToken<'a>) -> (r: Option<Elif<'a>>)
        ensures
            (r is Some) == Self::spec_can_cast(syntax.green.kind),
            r is Some ==> r.unwrap().syntax == syntax,
    {
        if Self::can_cast(syntax.kind()) {
            Some(Elif { syntax })
        } else {
            None
        }
    }

    /// The untyped leaf underneath.
    pub fn syntax(&self) -> (r: &SyntaxToken<'a>)
        ensures
            r == &self.syntax,
    {
        &self.syntax
    }

    /// The leaf's bytes.
    pub fn text(&self) -> (r: Vec<u8>)
        ensures
            r@ == self.syntax.green.text@,
    {
        self.syntax.text()
    }
}

/// Typed view of a `LAMBDA_KW` leaf.
#[derive(Clone, Copy)]
pub struct Lambda<'a> {
    pub syntax: SyntaxToken<'a>,
}

impl<'a> Lambda<'a> {
    /// True exactly of the kind this wrapper stands for.
    pub open spec fn spec_can_cast(kind: SyntaxKind) -> bool {
        kind is LAMBDA_KW
    }

    /// Executable form of [`Self::spec_can_cast`].
    pub fn can_cast(kind: SyntaxKind) -> (r: bool)
        ensures
            r == Self::spec_can_cast(kind),
    {
        matches!(kind, SyntaxKind::LAMBDA_KW)
    }

    /// Wraps the leaf exactly when it has the right kind.
    pub fn cast(syntax: SyntaxToken<'a>) -> (r: Option<Lambda<'a>>)
        ensures
            (r is Some) == Self::spec_can_cast(syntax.green.kind),
            r is Some ==> r.unwrap().syntax == syntax,
    {
        if Self::can_cast(syntax.kind()) {
            Some(Lambda { syntax })
        } else {
            None
        }
    }

    /// The untyped leaf underneath.
    pub fn syntax(&self) -> (r: &SyntaxToken<'a>)
        ensures
            r == &self.syntax,
    {
        &self.syntax
    }

    /// The leaf's bytes.
    pub fn text(&self) -> (r: Vec<u8>)
        ensures
            r@ == self.syntax.green.text@,
    {
        self.syntax.text()
    }
}

/// Typed view of a `RETURN_KW` leaf.
#[derive(Clone, Copy)]
pub struct Return<'a> {
    pub syntax: SyntaxToken<'a>,
}

impl<'a> Return<'a> {
    /// True exactly of the kind this wrapper stands for.
    pub open spec fn spec_can_cast(kind: SyntaxKind) -> bool {
        kind is RETURN_KW
    }

    /// Executable form of [`Self::spec_can_cast`].
    pub fn can_cast(kind: SyntaxKind) -> (r: bool)
        ensures
            r == Self::spec_can_cast(kind),
    {
        matches!(kind, SyntaxKind::RETURN_KW)
    }

    /// Wraps the leaf exactly when it has the right kind.
    pub fn cast(syntax: SyntaxToken<'a>) -> (r: Option<Return<'a>>)
        ensures
            (r is Some) == Self::spec_can_cast(syntax.green.kind),
            r is Some ==> r.unwrap().syntax == syntax,
    {
        if Self::can_cast(syntax.kind()) {
            Some(Return { syntax })
        } else {
            None
        }
    }

    /// The untyped leaf underneath.
    pub fn syntax(&self) -> (r: &SyntaxToken<'a>)
        ensures
            r == &self.syntax,
    {
        &self.syntax
    }

    /// The leaf's bytes.
    pub fn text(&self) -> (r: Vec<u8>)
        ensures
            r@ == self.syntax.green.text@,
    {
        self.syntax.text()
    }
}

/// Typed view of a `PLUS` leaf.
#[derive(Clone, Copy)]
pub struct Plus<'a> {
    pub syntax: SyntaxToken<'a>,
}

impl<'a> Plus<'a> {
    /// True exactly of the kind this wrapper stands for.
    pub open spec fn spec_can_cast(kind: SyntaxKind) -> bool {
        kind is PLUS
    }

    /// Executable form of [`Self::spec_can_cast`].
    pub fn can_cast(kind: SyntaxKind) -> (r: bool)
        ensures
            r == Self::spec_can_cast(kind),
    {
        matches!(kind, SyntaxKind::PLUS)
    }

    /// Wraps the leaf exactly when it has the right kind.
    pub fn cast(syntax: SyntaxToken<'a>) -> (r: Option<Plus<'a>>)
        ensures
            (r is Some) == Self::spec_can_cast(syntax.green.kind),
            r is Some ==> r.unwrap().syntax == syntax,
    {
        if Self::can_cast(syntax.kind()) {
            Some(Plus { syntax })
        } else {
            None
        }
    }

    /// The untyped leaf underneath.
    pub fn syntax(&self) -> (r: &SyntaxToken<'a>)
        ensures
            r == &self.syntax,
    {
        &self.syntax
    }

    /// The leaf's bytes.
    pub fn text(&self) -> (r: Vec<u8>)
        ensures
            r@ == self.syntax.green.text@,
    {
        self.syntax.text()
    }
}

/// Typed view of a `MINUS` leaf.
#[derive(Clone, Copy)]
pub struct Minus<'a> {
    pub syntax: SyntaxToken<'a>,
}

impl<'a> Minus<'a> {
    /// True exactly of the kind this wrapper stands for.
    pub open spec fn spec_can_cast(kind: SyntaxKind) -> bool {
        kind is MINUS
    }

    /// Executable form of [`Self::spec_can_cast`].
    pub fn can_cast(kind: SyntaxKind) -> (r: bool)
        ensures
            r == Self::spec_can_cast(kind),
    {
        matches!(kind, SyntaxKind::MINUS)
    }

    /// Wraps the leaf exactly when it has the right kind.
    pub fn cast(syntax: SyntaxToken<'a>) -> (r: Option<Minus<'a>>)
        ensures
            (r is Some) == Self::spec_can_cast(syntax.green.kind),
            r is Some ==> r.unwrap().syntax == syntax,
    {
        if Self::can_cast(syntax.kind()) {
            Some(Minus { syntax })
        } else {
            None
        }
    }

    /// The untyped leaf underneath.
    pub fn syntax(&self) -> (r: &SyntaxToken<'a>)
        ensures
            r == &self.syntax,
    {
        &self.syntax
    }

    /// The leaf's bytes.
    pub fn text(&self) -> (r: Vec<u8>)
        ensures
            r@ == self.syntax.green.text@,
    {
        self.syntax.text()
    }
}

/// Typed view of a `STAR` leaf.
#[derive(Clone, Copy)]
pub struct Star<'a> {
    pub syntax: SyntaxToken<'a>,
}

impl<'a> Star<'a> {
    /// True exactly of the kind this wrapper stands for.
    pub open spec fn spec_can_cast(kind: SyntaxKind) -> bool {
        kind is STAR
    }

    /// Executable form of [`Self::spec_can_cast`].
    pub fn can_cast(kind: SyntaxKind) -> (r: bool)
        ensures
            r == Self::spec_can_cast(kind),
    {
        matches!(kind, SyntaxKind::STAR)
    }

    /// Wraps the leaf exactly when it has the right kind.
    pub fn cast(syntax: SyntaxToken<'a>) -> (r: Option<Star<'a>>)
        ensures
            (r is Some) == Self::spec_can_cast(syntax.green.kind),
            r is Some ==> r.unwrap().syntax == syntax,
    {
        if Self::can_cast(syntax.kind()) {
            Some(Star { syntax })
        } else {
            None
        }
    }

    /// The untyped leaf underneath.
    pub fn syntax(&self) -> (r: &SyntaxToken<'a>)
        ensures
            r == &self.syntax,
    {
        &self.syntax
    }

    /// The leaf's bytes.
    pub fn text(&self) -> (r: Vec<u8>)
        ensures
            r@ == self.syntax.green.text@,
    {
        self.syntax.text()
    }
}

/// Typed view of a `SLASH` leaf.
#[derive(Clone, Copy)]
pub struct Slash<'a> {
    pub syntax: SyntaxToken<'a>,
}

impl<'a> Slash<'a> {
    /// True exactly of the kind this wrapper stands for.
    pub open spec fn spec_can_cast(kind: SyntaxKind) -> bool {
        kind is SLASH
    }

    /// Executable form of [`Self::spec_can_cast`].
    pub fn can_cast(kind: SyntaxKind) -> (r: bool)
        ensures
            r == Self::spec_can_cast(kind),
    {
        matches!(kind, SyntaxKind::SLASH)
    }

    /// Wraps the leaf exactly when it has the right kind.
    pub fn cast(syntax: SyntaxToken<'a>) -> (r: Option<Slash<'a>>)
        ensures
            (r is Some) == Self::spec_can_cast(syntax.green.kind),
            r is Some ==> r.unwrap().syntax == syntax,
    {
        if Self::can_cast(syntax.kind()) {
            Some(Slash { syntax })
        } else {
            None
        }
    }

    /// The untyped leaf underneath.
    pub fn syntax(&self) -> (r: &SyntaxToken<'a>)
        ensures
            r == &self.syntax,
    {
        &self.syntax
    }

    /// The leaf's bytes.
    pub fn text(&self) -> (r: Vec<u8>)
        ensures
            r@ == self.syntax.green.text@,
    {
        self.syntax.text()
    }
}

/// Typed view of a `DSLASH` leaf.
#[derive(Clone, Copy)]
pub struct Dslash<'a> {
    pub syntax: SyntaxToken<'a>,
}

impl<'a> Dslash<'a> {
    /// True exactly of the kind this wrapper stands for.
    pub open spec fn spec_can_cast(kind: SyntaxKind) -> bool {
        kind is DSLASH
    }

    /// Executable form of [`Self::spec_can_cast`].
    pub fn can_cast(kind: SyntaxKind) -> (r: bool)
        ensures
            r == Self::spec_can_cast(kind),
    {
        matches!(kind, SyntaxKind::DSLASH)
    }

    /// Wraps the leaf exactly when it has the right kind.
    pub fn cast(syntax: SyntaxToken<'a>) -> (r: Option<Dslash<'a>>)
        ensures
            (r is Some) == Self::spec_can_cast(syntax.green.kind),
            r is Some ==> r.unwrap().syntax == syntax,
    {
        if Self::can_cast(syntax.kind()) {
            Some(Dslash { syntax })
        } else {
            None
        }
    }

    /// The untyped leaf underneath.
    pub fn syntax(&self) -> (r: &SyntaxToken<'a>)
        ensures
            r == &self.syntax,
    {
        &self.syntax
    }

    /// The leaf's bytes.
    pub fn text(&self) -> (r: Vec<u8>)
        ensures
            r@ == self.syntax.green.text@,
    {
        self.syntax.text()
    }
}

/// Typed view of a `PERCENT` leaf.
#[derive(Clone, Copy)]
pub struct Percent<'a> {
    pub syntax: SyntaxToken<'a>,
}

impl<'a> Percent<'a> {
    /// True exactly of the kind this wrapper stands for.
    pub open spec fn spec_can_cast(kind: SyntaxKind) -> bool {
        kind is PERCENT
    }

    /// Executable form of [`Self::spec_can_cast`].
    pub fn can_cast(kind: SyntaxKind) -> (r: bool)
        ensures
            r == Self::spec_can_cast(kind),
    {
        matches!(kind, SyntaxKind::PERCENT)
    }

    /// Wraps the leaf exactly when it has the right kind.
    pub fn cast(syntax: SyntaxToken<'a>) -> (r: Option<Percent<'a>>)
        ensures
            (r is Some) == Self::spec_can_cast(syntax.green.kind),
            r is Some ==> r.unwrap().syntax == syntax,
    {
        if Self::can_cast(syntax.kind()) {
            Some(Percent { syntax })
        } else {
            None
        }
    }

    /// The untyped leaf underneath.
    pub fn syntax(&self) -> (r: &SyntaxToken<'a>)
        ensures
            r == &self.syntax,
    {
        &self.syntax
    }

    /// The leaf's bytes.
    pub fn text(&self) -> (r: Vec<u8>)
        ensures
            r@ == self.syntax.green.text@,
    {
        self.syntax.text()
    }
}

/// Typed view of a `DSTAR` leaf.
#[derive(Clone, Copy)]
pub struct Dstar<'a> {
    pub syntax: SyntaxToken<'a>,
}

impl<'a> Dstar<'a> {
    /// True exactly of the kind this wrapper stands for.
    pub open spec fn spec_can_cast(kind: SyntaxKind) -> bool {
        kind is DSTAR
    }

    /// Executable form of [`Self::spec_can_cast`].
    pub fn can_cast(kind: SyntaxKind) -> (r: bool)
        ensures
            r == Self::spec_can_cast(kind),
    {
        matches!(kind, SyntaxKind::DSTAR)
    }

    /// Wraps the leaf exactly when it has the right kind.
    pub fn cast(syntax: SyntaxToken<'a>) -> (r: Option<Dstar<'a>>)
        ensures
            (r is Some) == Self::spec_can_cast(syntax.green.kind),
            r is Some ==> r.unwrap().syntax == syntax,
    {
        if Self::can_cast(syntax.kind()) {
            Some(Dstar { syntax })
        } else {
            None
        }
    }

    /// The untyped leaf underneath.
    pub fn syntax(&self) -> (r: &SyntaxToken<'a>)
        ensures
            r == &self.syntax,
    {
        &self.syntax
    }

    /// The leaf's bytes.
    pub fn text(&self) -> (r: Vec<u8>)
        ensures
            r@ == self.syntax.green.text@,
    {
        self.syntax.text()
    }
}

/// Typed view of a `TILDE` leaf.
#[derive(Clone, Copy)]
pub struct Tilde<'a> {
    pub syntax: SyntaxToken<'a>,
}

impl<'a> Tilde<'a> {
    /// True exactly of the kind this wrapper stands for.
    pub open spec fn spec_can_cast(kind: SyntaxKind) -> bool {
        kind is TILDE
    }

    /// Executable form of [`Self::spec_can_cast`].
    pub fn can_cast(kind: SyntaxKind) -> (r: bool)
        ensures
            r == Self::spec_can_cast(kind),
    {
        matches!(kind, SyntaxKind::TILDE)
    }

    /// Wraps the leaf exactly when it has the right kind.
    pub fn cast(syntax: SyntaxToken<'a>) -> (r: Option<Tilde<'a>>)
        ensures
            (r is Some) == Self::spec_can_cast(syntax.green.kind),
            r is Some ==> r.unwrap().syntax == syntax,
    {
        if Self::can_cast(syntax.kind()) {
            Some(Tilde { syntax })
        } else {
            None
        }
    }

    /// The untyped leaf underneath.
    pub fn syntax(&self) -> (r: &SyntaxToken<'a>)
        ensures
            r == &self.syntax,
    {
        &self.syntax
    }

    /// The leaf's bytes.
    pub fn text(&self) -> (r: Vec<u8>)
        ensures
            r@ == self.syntax.green.text@,
    {
        self.syntax.text()
    }
}

/// Typed view of a `AMP` leaf.
#[derive(Clone, Copy)]
pub struct Amp<'a> {
    pub syntax: SyntaxToken<'a>,
}

impl<'a> Amp<'a> {
    /// True exactly of the kind this wrapper stands for.
    pub open spec fn spec_can_cast(kind: SyntaxKind) -> bool {
        kind is AMP
    }

    /// Executable form of [`Self::spec_can_cast`].
    pub fn can_cast(kind: SyntaxKind) -> (r: bool)
        ensures
            r == Self::spec_can_cast(kind),
    {
        matches!(kind, SyntaxKind::AMP)
    }

    /// Wraps the leaf exactly when it has the right kind.
    pub fn cast(syntax: SyntaxToken<'a>) -> (r: Option<Amp<'a>>)
        ensures
            (r is Some) == Self::spec_can_cast(syntax.green.kind),
            r is Some ==> r.unwrap().syntax == syntax,
    {
        if Self::can_cast(syntax.kind()) {
            Some(Amp { syntax })
        } else {
            None
        }
    }

    /// The untyped leaf underneath.
    pub fn syntax(&self) -> (r: &SyntaxToken<'a>)
        ensures
            r == &self.syntax,
    {
        &self.syntax
    }

    /// The leaf's bytes.
    pub fn text(&self) -> (r: Vec<u8>)
        ensures
            r@ == self.syntax.green.text@,
    {
        self.syntax.text()
    }
}

/// Typed view of a `PIPE` leaf.
#[derive(Clone, Copy)]
pub struct Pipe<'a> {
    pub syntax: SyntaxToken<'a>,
}

impl<'a> Pipe<'a> {
    /// True exactly of the kind this wrapper stands for.
    pub open spec fn spec_can_cast(kind: SyntaxKind) -> bool {
        kind is PIPE
    }

    /// Executable form of [`Self::spec_can_cast`].
    pub fn can_cast(kind: SyntaxKind) -> (r: bool)
        ensures
            r == Self::spec_can_cast(kind),
    {
        matches!(kind, SyntaxKind::PIPE)
    }

    /// Wraps the leaf exactly when it has the right kind.
    pub fn cast(syntax: SyntaxToken<'a>) -> (r: Option<Pipe<'a>>)
        ensures
            (r is Some) == Self::spec_can_cast(syntax.green.kind),
            r is Some ==> r.unwrap().syntax == syntax,
    {
        if Self::can_cast(syntax.kind()) {
            Some(Pipe { syntax })
        } else {
            None
        }
    }

    /// The untyped leaf underneath.
    pub fn syntax(&self) -> (r: &SyntaxToken<'a>)
        ensures
            r == &self.syntax,
    {
        &self.syntax
    }

    /// The leaf's bytes.
    pub fn text(&self) -> (r: Vec<u8>)
        ensures
            r@ == self.syntax.green.text@,
    {
        self.syntax.text()
    }
}

/// Typed view of a `CARET` leaf.
#[derive(Clone, Copy)]
pub struct Caret<'a> {
    pub syntax: SyntaxToken<'a>,
}

impl<'a> Caret<'a> {
    /// True exactly of the kind this wrapper stands for.
    pub open spec fn spec_can_cast(kind: SyntaxKind) -> bool {
        kind is CARET
    }

    /// Executable form of [`Self::spec_can_cast`].
    pub fn can_cast(kind: SyntaxKind) -> (r: bool)
        ensures
            r == Self::spec_can_cast(kind),
    {
        matches!(kind, SyntaxKind::CARET)
    }

    /// Wraps the leaf exactly when it has the right kind.
    pub fn cast(syntax: SyntaxToken<'a>) -> (r: Option<Caret<'a>>)
        ensures
            (r is Some) == Self::spec_can_cast(syntax.green.kind),
            r is Some ==> r.unwrap().syntax == syntax,
    {
        if Self::can_cast(syntax.kind()) {
            Some(Caret { syntax })
        } else {
            None
        }
    }

    /// The untyped leaf underneath.
    pub fn syntax(&self) -> (r: &SyntaxToken<'a>)
        ensures
            r == &self.syntax,
    {
        &self.syntax
    }

    /// The leaf's bytes.
    pub fn text(&self) -> (r: Vec<u8>)
        ensures
            r@ == self.syntax.green.text@,
    {
        self.syntax.text()
    }
}

/// Typed view of a `LSHIFT` leaf.
#[derive(Clone, Copy)]
pub struct Lshift<'a> {
    pub syntax: SyntaxToken<'a>,
}

impl<'a> Lshift<'a> {
    /// True exactly of the kind this wrapper stands for.
    pub open spec fn spec_can_cast(kind: SyntaxKind) -> bool {
        kind is LSHIFT
    }

    /// Executable form of [`Self::spec_can_cast`].
    pub fn can_cast(kind: SyntaxKind) -> (r: bool)
        ensures
            r == Self::spec_can_cast(kind),
    {
        matches!(kind, SyntaxKind::LSHIFT)
    }

    /// Wraps the leaf exactly when it has the right kind.
    pub fn cast(syntax: SyntaxToken<'a>) -> (r: Option<Lshift<'a>>)
        ensures
            (r is Some) == Self::spec_can_cast(syntax.green.kind),
            r is Some ==> r.unwrap().syntax == syntax,
    {
        if Self::can_cast(syntax.kind()) {
            Some(Lshift { syntax })
        } else {
            None
        }
    }

    /// The untyped leaf underneath.
    pub fn syntax(&self) -> (r: &SyntaxToken<'a>)
        ensures
            r == &self.syntax,
    {
        &self.syntax
    }

    /// The leaf's bytes.
    pub fn text(&self) -> (r: Vec<u8>)
        ensures
            r@ == self.syntax.green.text@,
    {
        self.syntax.text()
    }
}

/// Typed view of a `RSHIFT` leaf.
#[derive(Clone, Copy)]
pub struct Rshift<'a> {
    pub syntax: SyntaxToken<'a>,
}

impl<'a> Rshift<'a> {
    /// True exactly of the kind this wrapper stands for.
    pub open spec fn spec_can_cast(kind: SyntaxKind) -> bool {
        kind is RSHIFT
    }

    /// Executable form of [`Self::spec_can_cast`].
    pub fn can_cast(kind: SyntaxKind) -> (r: bool)
        ensures
            r == Self::spec_can_cast(kind),
    {
        matches!(kind, SyntaxKind::RSHIFT)
    }

    /// Wraps the leaf exactly when it has the right kind.
    pub fn cast(syntax: SyntaxToken<'a>) -> (r: Option<Rshift<'a>>)
        ensures
            (r is Some) == Self::spec_can_cast(syntax.green.kind),
            r is Some ==> r.unwrap().syntax == syntax,
    {
        if Self::can_cast(syntax.kind()) {
            Some(Rshift { syntax })
        } else {
            None
        }
    }

    /// The untyped leaf underneath.
    pub fn syntax(&self) -> (r: &SyntaxToken<'a>)
        ensures
            r == &self.syntax,
    {
        &self.syntax
    }

    /// The leaf's bytes.
    pub fn text(&self) -> (r: Vec<u8>)
        ensures
            r@ == self.syntax.green.text@,
    {
        self.syntax.text()
    }
}

/// Typed view of a `DOT` leaf.
#[derive(Clone, Copy)]
pub struct Dot<'a> {
    pub syntax: SyntaxToken<'a>,
}

impl<'a> Dot<'a> {
    /// True exactly of the kind this wrapper stands for.
    pub open spec fn spec_can_cast(kind: SyntaxKind) -> bool {
        kind is DOT
    }

    /// Executable form of [`Self::spec_can_cast`].
    pub fn can_cast(kind: SyntaxKind) -> (r: bool)
        ensures
            r == Self::spec_can_cast(kind),
    {
        matches!(kind, SyntaxKind::DOT)
    }

    /// Wraps the leaf exactly when it has the right kind.
    pub fn cast(syntax: SyntaxToken<'a>) -> (r: Option<Dot<'a>>)
        ensures
            (r is Some) == Self::spec_can_cast(syntax.green.kind),
            r is Some ==> r.unwrap().syntax == syntax,
    {
        if Self::can_cast(syntax.kind()) {
            Some(Dot { syntax })
        } else {
            None
        }
    }

    /// The untyped leaf underneath.
    pub fn syntax(&self) -> (r: &SyntaxToken<'a>)
        ensures
            r == &self.syntax,
    {
        &self.syntax
    }

    /// The leaf's bytes.
    pub fn text(&self) -> (r: Vec<u8>)
        ensures
            r@ == self.syntax.green.text@,
    {
        self.syntax.text()
    }
}

/// Typed view of a `COMMA` leaf.
#[derive(Clone, Copy)]
pub struct Comma<'a> {
    pub syntax: SyntaxToken<'a>,
}

impl<'a> Comma<'a> {
    /// True exactly of the kind this wrapper stands for.
    pub open spec fn spec_can_cast(kind: SyntaxKind) -> bool {
        kind is COMMA
    }

    /// Executable form of [`Self::spec_can_cast`].
    pub fn can_cast(kind: SyntaxKind) -> (r: bool)
        ensures
            r == Self::spec_can_cast(kind),
    {
        matches!(kind, SyntaxKind::COMMA)
    }

    /// Wraps the leaf exactly when it has the right kind.
    pub fn cast(syntax: SyntaxToken<'a>) -> (r: Option<Comma<'a>>)
        ensures
            (r is Some) == Self::spec_can_cast(syntax.green.kind),
            r is Some ==> r.unwrap().syntax == syntax,
    {
        if Self::can_cast(syntax.kind()) {
            Some(Comma { syntax })
        } else {
            None
        }
    }

    /// The untyped leaf underneath.
    pub fn syntax(&self) -> (r: &SyntaxToken<'a>)
        ensures
            r == &self.syntax,
    {
        &self.syntax
    }

    /// The leaf's bytes.
    pub fn text(&self) -> (r: Vec<u8>)
        ensures
            r@ == self.syntax.green.text@,
    {
        self.syntax.text()
    }
}

/// Typed view of a `EQ` leaf.
#[derive(Clone, Copy)]
pub struct EqSign<'a> {
    pub syntax: SyntaxToken<'a>,
}

impl<'a> EqSign<'a> {
    /// True exactly of the kind this wrapper stands for.
    pub open spec fn spec_can_cast(kind: SyntaxKind) -> bool {
        kind is EQ
    }

    /// Executable form of [`Self::spec_can_cast`].
    pub fn can_cast(kind: SyntaxKind) -> (r: bool)
        ensures
            r == Self::spec_can_cast(kind),
    {
        matches!(kind, SyntaxKind::EQ)
    }

    /// Wraps the leaf exactly when it has the right kind.
    pub fn cast(syntax: SyntaxToken<'a>) -> (r: Option<EqSign<'a>>)
        ensures
            (r is Some) == Self::spec_can_cast(syntax.green.kind),
            r is Some ==> r.unwrap().syntax == syntax,
    {
        if Self::can_cast(syntax.kind()) {
            Some(EqSign { syntax })
        } else {
            None
        }
    }

    /// The untyped leaf underneath.
    pub fn syntax(&self) -> (r: &SyntaxToken<'a>)
        ensures
            r == &self.syntax,
    {
        &self.syntax
    }

    /// The leaf's bytes.
    pub fn text(&self) -> (r: Vec<u8>)
        ensures
            r@ == self.syntax.green.text@,
    {
        self.syntax.text()
    }
}

/// Typed view of a `SEMICOLON` leaf.
#[derive(Clone, Copy)]
pub struct Semicolon<'a> {
    pub syntax: SyntaxToken<'a>,
}

impl<'a> Semicolon<'a> {
    /// True exactly of the kind this wrapper stands for.
    pub open spec fn spec_can_cast(kind: SyntaxKind) -> bool {
        kind is SEMICOLON
    }

    /// Executable form of [`Self::spec_can_cast`].
    pub fn can_cast(kind: SyntaxKind) -> (r: bool)
        ensures
            r == Self::spec_can_cast(kind),
    {
        matches!(kind, SyntaxKind::SEMICOLON)
    }

    /// Wraps the leaf exactly when it has the right kind.
    pub fn cast(syntax: SyntaxToken<'a>) -> (r: Option<Semicolon<'a>>)
        ensures
            (r is Some) == Self::spec_can_cast(syntax.green.kind),
            r is Some ==> r.unwrap().syntax == syntax,
    {
        if Self::can_cast(syntax.kind()) {
            Some(Semicolon { syntax })
        } else {
            None
        }
    }

    /// The untyped leaf underneath.
    pub fn syntax(&self) -> (r: &SyntaxToken<'a>)
        ensures
            r == &self.syntax,
    {
        &self.syntax
    }

    /// The leaf's bytes.
    pub fn text(&self) -> (r: Vec<u8>)
        ensures
            r@ == self.syntax.green.text@,
    {
        self.syntax.text()
    }
}

/// Typed view of a `COLON` leaf.
#[derive(Clone, Copy)]
pub struct Colon<'a> {
    pub syntax: SyntaxToken<'a>,
}

impl<'a> Colon<'a> {
    /// True exactly of the kind this wrapper stands for.
    pub open spec fn spec_can_cast(kind: SyntaxKind) -> bool {
        kind is COLON
    }

    /// Executable form of [`Self::spec_can_cast`].
    pub fn can_cast(kind: SyntaxKind) -> (r: bool)
        ensures
            r == Self::spec_can_cast(kind),
    {
        matches!(kind, SyntaxKind::COLON)
    }

    /// Wraps the leaf exactly when it has the right kind.
    pub fn cast(syntax: SyntaxToken<'a>) -> (r: Option<Colon<'a>>)
        ensures
            (r is Some) == Self::spec_can_cast(syntax.green.kind),
            r is Some ==> r.unwrap().syntax == syntax,
    {
        if Self::can_cast(syntax.kind()) {
            Some(Colon { syntax })
        } else {
            None
        }
    }

    /// The untyped leaf underneath.
    pub fn syntax(&self) -> (r: &SyntaxToken<'a>)
        ensures
            r == &self.syntax,
    {
        &self.syntax
    }

    /// The leaf's bytes.
    pub fn text(&self) -> (r: Vec<u8>)
        ensures
            r@ == self.syntax.green.text@,
    {
        self.syntax.text()
    }
}

/// Typed view of a `LPAREN` leaf.
#[derive(Clone, Copy)]
pub struct Lparen<'a> {
    pub syntax: SyntaxToken<'a>,
}

impl<'a> Lparen<'a> {
    /// True exactly of the kind this wrapper stands for.
    pub open spec fn spec_can_cast(kind: SyntaxKind) -> bool {
        kind is LPAREN
    }

    /// Executable form of [`Self::spec_can_cast`].
    pub fn can_cast(kind: SyntaxKind) -> (r: bool)
        ensures
            r == Self::spec_can_cast(kind),
    {
        matches!(kind, SyntaxKind::LPAREN)
    }

    /// Wraps the leaf exactly when it has the right kind.
    pub fn cast(syntax: SyntaxToken<'a>) -> (r: Option<Lparen<'a>>)
        ensures
            (r is Some) == Self::spec_can_cast(syntax.green.kind),
            r is Some ==> r.unwrap().syntax == syntax,
    {
        if Self::can_cast(syntax.kind()) {
            Some(Lparen { syntax })
        } else {
            None
        }
    }

    /// The untyped leaf underneath.
    pub fn syntax(&self) -> (r: &SyntaxToken<'a>)
        ensures
            r == &self.syntax,
    {
        &self.syntax
    }

    /// The leaf's bytes.
    pub fn text(&self) -> (r: Vec<u8>)
        ensures
            r@ == self.syntax.green.text@,
    {
        self.syntax.text()
    }
}

/// Typed view of a `RPAREN` leaf.
#[derive(Clone, Copy)]
pub struct Rparen<'a> {
    pub syntax: SyntaxToken<'a>,
}

impl<'a> Rparen<'a> {
    /// True exactly of the kind this wrapper stands for.
    pub open spec fn spec_can_cast(kind: SyntaxKind) -> bool {
        kind is RPAREN
    }

    /// Executable form of [`Self::spec_can_cast`].
    pub fn can_cast(kind: SyntaxKind) -> (r: bool)
        ensures
            r == Self::spec_can_cast(kind),
    {
        matches!(kind, SyntaxKind::RPAREN)
    }

    /// Wraps the leaf exactly when it has the right kind.
    pub fn cast(syntax: SyntaxToken<'a>) -> (r: Option<Rparen<'a>>)
        ensures
            (r is Some) == Self::spec_can_cast(syntax.green.kind),
            r is Some ==> r.unwrap().syntax == syntax,
    {
        if Self::can_cast(syntax.kind()) {
            Some(Rparen { syntax })
        } else {
            None
        }
    }

    /// The untyped leaf underneath.
    pub fn syntax(&self) -> (r: &SyntaxToken<'a>)
        ensures
            r == &self.syntax,
    {
        &self.syntax
    }

    /// The leaf's bytes.
    pub fn text(&self) -> (r: Vec<u8>)
        ensures
            r@ == self.syntax.green.text@,
    {
        self.syntax.text()
    }
}

/// Typed view of a `LBRACKET` leaf.
#[derive(Clone, Copy)]
pub struct Lbracket<'a> {
    pub syntax: SyntaxToken<'a>,
}

impl<'a> Lbracket<'a> {
    /// True exactly of the kind this wrapper stands for.
    pub open spec fn spec_can_cast(kind: SyntaxKind) -> bool {
        kind is LBRACKET
    }

    /// Executable form of [`Self::spec_can_cast`].
    pub fn can_cast(kind: SyntaxKind) -> (r: bool)
        ensures
            r == Self::spec_can_cast(kind),
    {
        matches!(kind, SyntaxKind::LBRACKET)
    }

    /// Wraps the leaf exactly when it has the right kind.
    pub fn cast(syntax: SyntaxToken<'a>) -> (r: Option<Lbracket<'a>>)
        ensures
            (r is Some) == Self::spec_can_cast(syntax.green.kind),
            r is Some ==> r.unwrap().syntax == syntax,
    {
        if Self::can_cast(syntax.kind()) {
            Some(Lbracket { syntax })
        } else {
            None
        }
    }

    /// The untyped leaf underneath.
    pub fn syntax(&self) -> (r: &SyntaxToken<'a>)
        ensures
            r == &self.syntax,
    {
        &self.syntax
    }

    /// The leaf's bytes.
    pub fn text(&self) -> (r: Vec<u8>)
        ensures
            r@ == self.syntax.green.text@,
    {
        self.syntax.text()
    }
}

/// Typed view of a `RBRACKET` leaf.
#[derive(Clone, Copy)]
pub struct Rbracket<'a> {
    pub syntax: SyntaxToken<'a>,
}

impl<'a> Rbracket<'a> {
    /// True exactly of the kind this wrapper stands for.
    pub open spec fn spec_can_cast(kind: SyntaxKind) -> bool {
        kind is RBRACKET
    }

    /// Executable form of [`Self::spec_can_cast`].
    pub fn can_cast(kind: SyntaxKind) -> (r: bool)
        ensures
            r == Self::spec_can_cast(kind),
    {
        matches!(kind, SyntaxKind::RBRACKET)
    }

    /// Wraps the leaf exactly when it has the right kind.
    pub fn cast(syntax: SyntaxToken<'a>) -> (r: Option<Rbracket<'a>>)
        ensures
            (r is Some) == Self::spec_can_cast(syntax.green.kind),
            r is Some ==> r.unwrap().syntax == syntax,
    {
        if Self::can_cast(syntax.kind()) {
            Some(Rbracket { syntax })
        } else {
            None
        }
    }

    /// The untyped leaf underneath.
    pub fn syntax(&self) -> (r: &SyntaxToken<'a>)
        ensures
            r == &self.syntax,
    {
        &self.syntax
    }

    /// The leaf's bytes.
    pub fn text(&self) -> (r: Vec<u8>)
        ensures
            r@ == self.syntax.green.text@,
    {
        self.syntax.text()
    }
}

/// Typed view of a `LBRACE` leaf.
#[derive(Clone, Copy)]
pub struct Lbrace<'a> {
    pub syntax: SyntaxToken<'a>,
}

impl<'a> Lbrace<'a> {
    /// True exactly of the kind this wrapper stands for.
    pub open spec fn spec_can_cast(kind: SyntaxKind) -> bool {
        kind is LBRACE
    }

    /// Executable form of [`Self::spec_can_cast`].
    pub fn can_cast(kind: SyntaxKind) -> (r: bool)
        ensures
            r == Self::spec_can_cast(kind),
    {
        matches!(kind, SyntaxKind::LBRACE)
    }

    /// Wraps the leaf exactly when it has the right kind.
    pub fn cast(syntax: SyntaxToken<'a>) -> (r: Option<Lbrace<'a>>)
        ensures
            (r is Some) == Self::spec_can_cast(syntax.green.kind),
            r is Some ==> r.unwrap().syntax == syntax,
    {
        if Self::can_cast(syntax.kind()) {
            Some(Lbrace { syntax })
        } else {
            None
        }
    }

    /// The untyped leaf underneath.
    pub fn syntax(&self) -> (r: &SyntaxToken<'a>)
        ensures
            r == &self.syntax,
    {
        &self.syntax
    }

    /// The leaf's bytes.
    pub fn text(&self) -> (r: Vec<u8>)
        ensures
            r@ == self.syntax.green.text@,
    {
        self.syntax.text()
    }
}

/// Typed view of a `RBRACE` leaf.
#[derive(Clone, Copy)]
pub struct Rbrace<'a> {
    pub syntax: SyntaxToken<'a>,
}

impl<'a> Rbrace<'a> {
    /// True exactly of the kind this wrapper stands for.
    pub open spec fn spec_can_cast(kind: SyntaxKind) -> bool {
        kind is RBRACE
    }

    /// Executable form of [`Self::spec_can_cast`].
    pub fn can_cast(kind: SyntaxKind) -> (r: bool)
        ensures
            r == Self::spec_can_cast(kind),
    {
        matches!(kind, SyntaxKind::RBRACE)
    }

    /// Wraps the leaf exactly when it has the right kind.
    pub fn cast(syntax: SyntaxToken<'a>) -> (r: Option<Rbrace<'a>>)
        ensures
            (r is Some) == Self::spec_can_cast(syntax.green.kind),
            r is Some ==> r.unwrap().syntax == syntax,
    {
        if Self::can_cast(syntax.kind()) {
            Some(Rbrace { syntax })
        } else {
            None
        }
    }

    /// The untyped leaf underneath.
    pub fn syntax(&self) -> (r: &SyntaxToken<'a>)
        ensures
            r == &self.syntax,
    {
        &self.syntax
    }

    /// The leaf's bytes.
    pub fn text(&self) -> (r: Vec<u8>)
        ensures
            r@ == self.syntax.green.text@,
    {
        self.syntax.text()
    }
}

/// Typed view of a `LT` leaf.
#[derive(Clone, Copy)]
pub struct Lt<'a> {
    pub syntax: SyntaxToken<'a>,
}

impl<'a> Lt<'a> {
    /// True exactly of the kind this wrapper stands for.
    pub open spec fn spec_can_cast(kind: SyntaxKind) -> bool {
        kind is LT
    }

    /// Executable form of [`Self::spec_can_cast`].
    pub fn can_cast(kind: SyntaxKind) -> (r: bool)
        ensures
            r == Self::spec_can_cast(kind),
    {
        matches!(kind, SyntaxKind::LT)
    }

    /// Wraps the leaf exactly when it has the right kind.
    pub fn cast(syntax: SyntaxToken<'a>) -> (r: Option<Lt<'a>>)
        ensures
            (r is Some) == Self::spec_can_cast(syntax.green.kind),
            r is Some ==> r.unwrap().syntax == syntax,
    {
        if Self::can_cast(syntax.kind()) {
            Some(Lt { syntax })
        } else {
            None
        }
    }

    /// The untyped leaf underneath.
    pub fn syntax(&self) -> (r: &SyntaxToken<'a>)
        ensures
            r == &self.syntax,
    {
        &self.syntax
    }

    /// The leaf's bytes.
    pub fn text(&self) -> (r: Vec<u8>)
        ensures
            r@ == self.syntax.green.text@,
    {
        self.syntax.text()
    }
}

/// Typed view of a `GT` leaf.
#[derive(Clone, Copy)]
pub struct Gt<'a> {
    pub syntax: SyntaxToken<'a>,
}

impl<'a> Gt<'a> {
    /// True exactly of the kind this wrapper stands for.
    pub open spec fn spec_can_cast(kind: SyntaxKind) -> bool {
        kind is GT
    }

    /// Executable form of [`Self::spec_can_cast`].
    pub fn can_cast(kind: SyntaxKind) -> (r: bool)
        ensures
            r == Self::spec_can_cast(kind),
    {
        matches!(kind, SyntaxKind::GT)
    }

    /// Wraps the leaf exactly when it has the right kind.
    pub fn cast(syntax: SyntaxToken<'a>) -> (r: Option<Gt<'a>>)
        ensures
            (r is Some) == Self::spec_can_cast(syntax.green.kind),
            r is Some ==> r.unwrap().syntax == syntax,
    {
        if Self::can_cast(syntax.kind()) {
            Some(Gt { syntax })
        } else {
            None
        }
    }

    /// The untyped leaf underneath.
    pub fn syntax(&self) -> (r: &SyntaxToken<'a>)
        ensures
            r == &self.syntax,
    {
        &self.syntax
    }

    /// The leaf's bytes.
    pub fn text(&self) -> (r: Vec<u8>)
        ensures
            r@ == self.syntax.green.text@,
    {
        self.syntax.text()
    }
}

/// Typed view of a `GE` leaf.
#[derive(Clone, Copy)]
pub struct Ge<'a> {
    pub syntax: SyntaxToken<'a>,
}

impl<'a> Ge<'a> {
    /// True exactly of the kind this wrapper stands for.
    pub open spec fn spec_can_cast(kind: SyntaxKind) -> bool {
        kind is GE
    }

    /// Executable form of [`Self::spec_can_cast`].
    pub fn can_cast(kind: SyntaxKind) -> (r: bool)
        ensures
            r == Self::spec_can_cast(kind),
    {
        matches!(kind, SyntaxKind::GE)
    }

    /// Wraps the leaf exactly when it has the right kind.
    pub fn cast(syntax: SyntaxToken<'a>) -> (r: Option<Ge<'a>>)
        ensures
            (r is Some) == Self::spec_can_cast(syntax.green.kind),
            r is Some ==> r.unwrap().syntax == syntax,
    {
        if Self::can_cast(syntax.kind()) {
            Some(Ge { syntax })
        } else {
            None
        }
    }

    /// The untyped leaf underneath.
    pub fn syntax(&self) -> (r: &SyntaxToken<'a>)
        ensures
            r == &self.syntax,
    {
        &self.syntax
    }

    /// The leaf's bytes.
    pub fn text(&self) -> (r: Vec<u8>)
        ensures
            r@ == self.syntax.green.text@,
    {
        self.syntax.text()
    }
}

/// Typed view of a `LE` leaf.
#[derive(Clone, Copy)]
pub struct Le<'a> {
    pub syntax: SyntaxToken<'a>,
}

impl<'a> Le<'a> {
    /// True exactly of the kind this wrapper stands for.
    pub open spec fn spec_can_cast(kind: SyntaxKind) -> bool {
        kind is LE
    }

    /// Executable form of [`Self::spec_can_cast`].
    pub fn can_cast(kind: SyntaxKind) -> (r: bool)
        ensures
            r == Self::spec_can_cast(kind),
    {
        matches!(kind, SyntaxKind::LE)
    }

    /// Wraps the leaf exactly when it has the right kind.
    pub fn cast(syntax: SyntaxToken<'a>) -> (r: Option<Le<'a>>)
        ensures
            (r is Some) == Self::spec_can_cast(syntax.green.kind),
            r is Some ==> r.unwrap().syntax == syntax,
    {
        if Self::can_cast(syntax.kind()) {
            Some(Le { syntax })
        } else {
            None
        }
    }

    /// The untyped leaf underneath.
    pub fn syntax(&self) -> (r: &SyntaxToken<'a>)
        ensures
            r == &self.syntax,
    {
        &self.syntax
    }

    /// The leaf's bytes.
    pub fn text(&self) -> (r: Vec<u8>)
        ensures
            r@ == self.syntax.green.text@,
    {
        self.syntax.text()
    }
}

/// Typed view of a `EQEQ` leaf.
#[derive(Clone, Copy)]
pub struct Eqeq<'a> {
    pub syntax: SyntaxToken<'a>,
}

impl<'a> Eqeq<'a> {
    /// True exactly of the kind this wrapper stands for.
    pub open spec fn spec_can_cast(kind: SyntaxKind) -> bool {
        kind is EQEQ
    }

    /// Executable form of [`Self::spec_can_cast`].
    pub fn can_cast(kind: SyntaxKind) -> (r: bool)
        ensures
            r == Self::spec_can_cast(kind),
    {
        matches!(kind, SyntaxKind::EQEQ)
    }

    /// Wraps the leaf exactly when it has the right kind.
    pub fn cast(syntax: SyntaxToken<'a>) -> (r: Option<Eqeq<'a>>)
        ensures
            (r is Some) == Self::spec_can_cast(syntax.green.kind),
            r is Some ==> r.unwrap().syntax == syntax,
    {
        if Self::can_cast(syntax.kind()) {
            Some(Eqeq { syntax })
        } else {
            None
        }
    }

    /// The untyped leaf underneath.
    pub fn syntax(&self) -> (r: &SyntaxToken<'a>)
        ensures
            r == &self.syntax,
    {
        &self.syntax
    }

    /// The leaf's bytes.
    pub fn text(&self) -> (r: Vec<u8>)
        ensures
            r@ == self.syntax.green.text@,
    {
        self.syntax.text()
    }
}

/// Typed view of a `NE` leaf.
#[derive(Clone, Copy)]
pub struct Ne<'a> {
    pub syntax: SyntaxToken<'a>,
}

impl<'a> Ne<'a> {
    /// True exactly of the kind this wrapper stands for.
    pub open spec fn spec_can_cast(kind: SyntaxKind) -> bool {
        kind is NE
    }

    /// Executable form of [`Self::spec_can_cast`].
    pub fn can_cast(kind: SyntaxKind) -> (r: bool)
        ensures
            r == Self::spec_can_cast(kind),
    {
        matches!(kind, SyntaxKind::NE)
    }

    /// Wraps the leaf exactly when it has the right kind.
    pub fn cast(syntax: SyntaxToken<'a>) -> (r: Option<Ne<'a>>)
        ensures
            (r is Some) == Self::spec_can_cast(syntax.green.kind),
            r is Some ==> r.unwrap().syntax == syntax,
    {
        if Self::can_cast(syntax.kind()) {
            Some(Ne { syntax })
        } else {
            None
        }
    }

    /// The untyped leaf underneath.
    pub fn syntax(&self) -> (r: &SyntaxToken<'a>)
        ensures
            r == &self.syntax,
    {
        &self.syntax
    }

    /// The leaf's bytes.
    pub fn text(&self) -> (r: Vec<u8>)
        ensures
            r@ == self.syntax.green.text@,
    {
        self.syntax.text()
    }
}

/// Typed view of a `PLUSEQ` leaf.
#[derive(Clone, Copy)]
pub struct Pluseq<'a> {
    pub syntax: SyntaxToken<'a>,
}

impl<'a> Pluseq<'a> {
    /// True exactly of the kind this wrapper stands for.
    pub open spec fn spec_can_cast(kind: SyntaxKind) -> bool {
        kind is PLUSEQ
    }

    /// Executable form of [`Self::spec_can_cast`].
    pub fn can_cast(kind: SyntaxKind) -> (r: bool)
        ensures
            r == Self::spec_can_cast(kind),
    {
        matches!(kind, SyntaxKind::PLUSEQ)
    }

    /// Wraps the leaf exactly when it has the right kind.
    pub fn cast(syntax: SyntaxToken<'a>) -> (r: Option<Pluseq<'a>>)
        ensures
            (r is Some) == Self::spec_can_cast(syntax.green.kind),
            r is Some ==> r.unwrap().syntax == syntax,
    {
        if Self::can_cast(syntax.kind()) {
            Some(Pluseq { syntax })
        } else {
            None
        }
    }

    /// The untyped leaf underneath.
    pub fn syntax(&self) -> (r: &SyntaxToken<'a>)
        ensures
            r == &self.syntax,
    {
        &self.syntax
    }

    /// The leaf's bytes.
    pub fn text(&self) -> (r: Vec<u8>)
        ensures
            r@ == self.syntax.green.text@,
    {
        self.syntax.text()
    }
}

/// Typed view of a `MINUSEQ` leaf.
#[derive(Clone, Copy)]
pub struct Minuseq<'a> {
    pub syntax: SyntaxToken<'a>,
}

impl<'a> Minuseq<'a> {
    /// True exactly of the kind this wrapper stands for.
    pub open spec fn spec_can_cast(kind: SyntaxKind) -> bool {
        kind is MINUSEQ
    }

    /// Executable form of [`Self::spec_can_cast`].
    pub fn can_cast(kind: SyntaxKind) -> (r: bool)
        ensures
            r == Self::spec_can_cast(kind),
    {
        matches!(kind, SyntaxKind::MINUSEQ)
    }

    /// Wraps the leaf exactly when it has the right kind.
    pub fn cast(syntax: SyntaxToken<'a>) -> (r: Option<Minuseq<'a>>)
        ensures
            (r is Some) == Self::spec_can_cast(syntax.green.kind),
            r is Some ==> r.unwrap().syntax == syntax,
    {
        if Self::can_cast(syntax.kind()) {
            Some(Minuseq { syntax })
        } else {
            None
        }
    }

    /// The untyped leaf underneath.
    pub fn syntax(&self) -> (r: &SyntaxToken<'a>)
        ensures
            r == &self.syntax,
    {
        &self.syntax
    }

    /// The leaf's bytes.
    pub fn text(&self) -> (r: Vec<u8>)
        ensures
            r@ == self.syntax.green.text@,
    {
        self.syntax.text()
    }
}

/// Typed view of a `STAREQ` leaf.
#[derive(Clone, Copy)]
pub struct Stareq<'a> {
    pub syntax: SyntaxToken<'a>,
}

impl<'a> Stareq<'a> {
    /// True exactly of the kind this wrapper stands for.
    pub open spec fn spec_can_cast(kind: SyntaxKind) -> bool {
        kind is STAREQ
    }

    /// Executable form of [`Self::spec_can_cast`].
    pub fn can_cast(kind: SyntaxKind) -> (r: bool)
        ensures
            r == Self::spec_can_cast(kind),
    {
        matches!(kind, SyntaxKind::STAREQ)
    }

    /// Wraps the leaf exactly when it has the right kind.
    pub fn cast(syntax: SyntaxToken<'a>) -> (r: Option<Stareq<'a>>)
        ensures
            (r is Some) == Self::spec_can_cast(syntax.green.kind),
            r is Some ==> r.unwrap().syntax == syntax,
    {
        if Self::can_cast(syntax.kind()) {
            Some(Stareq { syntax })
        } else {
            None
        }
    }

    /// The untyped leaf underneath.
    pub fn syntax(&self) -> (r: &SyntaxToken<'a>)
        ensures
            r == &self.syntax,
    {
        &self.syntax
    }

    /// The leaf's bytes.
    pub fn text(&self) -> (r: Vec<u8>)
        ensures
            r@ == self.syntax.green.text@,
    {
        self.syntax.text()
    }
}

/// Typed view of a `SLASHEQ` leaf.
#[derive(Clone, Copy)]
pub struct Slasheq<'a> {
    pub syntax: SyntaxToken<'a>,
}

impl<'a> Slasheq<'a> {
    /// True exactly of the kind this wrapper stands for.
    pub open spec fn spec_can_cast(kind: SyntaxKind) -> bool {
        kind is SLASHEQ
    }

    /// Executable form of [`Self::spec_can_cast`].
    pub fn can_cast(kind: SyntaxKind) -> (r: bool)
        ensures
            r == Self::spec_can_cast(kind),
    {
        matches!(kind, SyntaxKind::SLASHEQ)
    }

    /// Wraps the leaf exactly when it has the right kind.
    pub fn cast(syntax: SyntaxToken<'a>) -> (r: Option<Slasheq<'a>>)
        ensures
            (r is Some) == Self::spec_can_cast(syntax.green.kind),
            r is Some ==> r.unwrap().syntax == syntax,
    {
        if Self::can_cast(syntax.kind()) {
            Some(Slasheq { syntax })
        } else {
            None
        }
    }

    /// The untyped leaf underneath.
    pub fn syntax(&self) -> (r: &SyntaxToken<'a>)
        ensures
            r == &self.syntax,
    {
        &self.syntax
    }

    /// The leaf's bytes.
    pub fn text(&self) -> (r: Vec<u8>)
        ensures
            r@ == self.syntax.green.text@,
    {
        self.syntax.text()
    }
}

/// Typed view of a `PERCENTEQ` leaf.
#[derive(Clone, Copy)]
pub struct Percenteq<'a> {
    pub syntax: SyntaxToken<'a>,
}

impl<'a> Percenteq<'a> {
    /// True exactly of the kind this wrapper stands for.
    pub open spec fn spec_can_cast(kind: SyntaxKind) -> bool {
        kind is PERCENTEQ
    }

    /// Executable form of [`Self::spec_can_cast`].
    pub fn can_cast(kind: SyntaxKind) -> (r: bool)
        ensures
            r == Self::spec_can_cast(kind),
    {
        matches!(kind, SyntaxKind::PERCENTEQ)
    }

    /// Wraps the leaf exactly when it has the right kind.
    pub fn cast(syntax: SyntaxToken<'a>) -> (r: Option<Percenteq<'a>>)
        ensures
            (r is Some) == Self::spec_can_cast(syntax.green.kind),
            r is Some ==> r.unwrap().syntax == syntax,
    {
        if Self::can_cast(syntax.kind()) {
            Some(Percenteq { syntax })
        } else {
            None
        }
    }

    /// The untyped leaf underneath.
    pub fn syntax(&self) -> (r: &SyntaxToken<'a>)
        ensures
            r == &self.syntax,
    {
        &self.syntax
    }

    /// The leaf's bytes.
    pub fn text(&self) -> (r: Vec<u8>)
        ensures
            r@ == self.syntax.green.text@,
    {
        self.syntax.text()
    }
}

/// Typed view of a `AMPEQ` leaf.
#[derive(Clone, Copy)]
pub struct Ampeq<'a> {
    pub syntax: SyntaxToken<'a>,
}

impl<'a> Ampeq<'a> {
    /// True exactly of the kind this wrapper stands for.
    pub open spec fn spec_can_cast(kind: SyntaxKind) -> bool {
        kind is AMPEQ
    }

    /// Executable form of [`Self::spec_can_cast`].
    pub fn can_cast(kind: SyntaxKind) -> (r: bool)
        ensures
            r == Self::spec_can_cast(kind),
    {
        matches!(kind, SyntaxKind::AMPEQ)
    }

    /// Wraps the leaf exactly when it has the right kind.
    pub fn cast(syntax: SyntaxToken<'a>) -> (r: Option<Ampeq<'a>>)
        ensures
            (r is Some) == Self::spec_can_cast(syntax.green.kind),
            r is Some ==> r.unwrap().syntax == syntax,
    {
        if Self::can_cast(syntax.kind()) {
            Some(Ampeq { syntax })
        } else {
            None
        }
    }

    /// The untyped leaf underneath.
    pub fn syntax(&self) -> (r: &SyntaxToken<'a>)
        ensures
            r == &self.syntax,
    {
        &self.syntax
    }

    /// The leaf's bytes.
    pub fn text(&self) -> (r: Vec<u8>)
        ensures
            r@ == self.syntax.green.text@,
    {
        self.syntax.text()
    }
}

/// Typed view of a `PIPEEQ` leaf.
#[derive(Clone, Copy)]
pub struct Pipeeq<'a> {
    pub syntax: SyntaxToken<'a>,
}

impl<'a> Pipeeq<'a> {
    /// True exactly of the kind this wrapper stands for.
    pub open spec fn spec_can_cast(kind: SyntaxKind) -> bool {
        kind is PIPEEQ
    }

    /// Executable form of [`Self::spec_can_cast`].
    pub fn can_cast(kind: SyntaxKind) -> (r: bool)
        ensures
            r == Self::spec_can_cast(kind),
    {
        matches!(kind, SyntaxKind::PIPEEQ)
    }

    /// Wraps the leaf exactly when it has the right kind.
    pub fn cast(syntax: SyntaxToken<'a>) -> (r: Option<Pipeeq<'a>>)
        ensures
            (r is Some) == Self::spec_can_cast(syntax.green.kind),
            r is Some ==> r.unwrap().syntax == syntax,
    {
        if Self::can_cast(syntax.kind()) {
            Some(Pipeeq { syntax })
        } else {
            None
        }
    }

    /// The untyped leaf underneath.
    pub fn syntax(&self) -> (r: &SyntaxToken<'a>)
        ensures
            r == &self.syntax,
    {
        &self.syntax
    }

    /// The leaf's bytes.
    pub fn text(&self) -> (r: Vec<u8>)
        ensures
            r@ == self.syntax.green.text@,
    {
        self.syntax.text()
    }
}

/// Typed view of a `CARETEQ` leaf.
#[derive(Clone, Copy)]
pub struct Careteq<'a> {
    pub syntax: SyntaxToken<'a>,
}

impl<'a> Careteq<'a> {
    /// True exactly of the kind this wrapper stands for.
    pub open spec fn spec_can_cast(kind: SyntaxKind) -> bool {
        kind is CARETEQ
    }

    /// Executable form of [`Self::spec_can_cast`].
    pub fn can_cast(kind: SyntaxKind) -> (r: bool)
        ensures
            r == Self::spec_can_cast(kind),
    {
        matches!(kind, SyntaxKind::CARETEQ)
    }

    /// Wraps the leaf exactly when it has the right kind.
    pub fn cast(syntax: SyntaxToken<'a>) -> (r: Option<Careteq<'a>>)
        ensures
            (r is Some) == Self::spec_can_cast(syntax.green.kind),
            r is Some ==> r.unwrap().syntax == syntax,
    {
        if Self::can_cast(syntax.kind()) {
            Some(Careteq { syntax })
        } else {
            None
        }
    }

    /// The untyped leaf underneath.
    pub fn syntax(&self) -> (r: &SyntaxToken<'a>)
        ensures
            r == &self.syntax,
    {
        &self.syntax
    }

    /// The leaf's bytes.
    pub fn text(&self) -> (r: Vec<u8>)
        ensures
            r@ == self.syntax.green.text@,
    {
        self.syntax.text()
    }
}

/// Typed view of a `LSHIFTEQ` leaf.
#[derive(Clone, Copy)]
pub struct Lshifteq<'a> {
    pub syntax: SyntaxToken<'a>,
}

impl<'a> Lshifteq<'a> {
    /// True exactly of the kind this wrapper stands for.
    pub open spec fn spec_can_cast(kind: SyntaxKind) -> bool {
        kind is LSHIFTEQ
    }

    /// Executable form of [`Self::spec_can_cast`].
    pub fn can_cast(kind: SyntaxKind) -> (r: bool)
        ensures
            r == Self::spec_can_cast(kind),
    {
        matches!(kind, SyntaxKind::LSHIFTEQ)
    }

    /// Wraps the leaf exactly when it has the right kind.
    pub fn cast(syntax: SyntaxToken<'a>) -> (r: Option<Lshifteq<'a>>)
        ensures
            (r is Some) == Self::spec_can_cast(syntax.green.kind),
            r is Some ==> r.unwrap().syntax == syntax,
    {
        if Self::can_cast(syntax.kind()) {
            Some(Lshifteq { syntax })
        } else {
            None
        }
    }

    /// The untyped leaf underneath.
    pub fn syntax(&self) -> (r: &SyntaxToken<'a>)
        ensures
            r == &self.syntax,
    {
        &self.syntax
    }

    /// The leaf's bytes.
    pub fn text(&self) -> (r: Vec<u8>)
        ensures
            r@ == self.syntax.green.text@,
    {
        self.syntax.text()
    }
}

/// Typed view of a `RSHIFTEQ` leaf.
#[derive(Clone, Copy)]
pub struct Rshifteq<'a> {
    pub syntax: SyntaxToken<'a>,
}

impl<'a> Rshifteq<'a> {
    /// True exactly of the kind this wrapper stands for.
    pub open spec fn spec_can_cast(kind: SyntaxKind) -> bool {
        kind is RSHIFTEQ
    }

    /// Executable form of [`Self::spec_can_cast`].
    pub fn can_cast(kind: SyntaxKind) -> (r: bool)
        ensures
            r == Self::spec_can_cast(kind),
    {
        matches!(kind, SyntaxKind::RSHIFTEQ)
    }

    /// Wraps the leaf exactly when it has the right kind.
    pub fn cast(syntax: SyntaxToken<'a>) -> (r: Option<Rshifteq<'a>>)
        ensures
            (r is Some) == Self::spec_can_cast(syntax.green.kind),
            r is Some ==> r.unwrap().syntax == syntax,
    {
        if Self::can_cast(syntax.kind()) {
            Some(Rshifteq { syntax })
        } else {
            None
        }
    }

    /// The untyped leaf underneath.
    pub fn syntax(&self) -> (r: &SyntaxToken<'a>)
        ensures
            r == &self.syntax,
    {
        &self.syntax
    }

    /// The leaf's bytes.
    pub fn text(&self) -> (r: Vec<u8>)
        ensures
            r@ == self.syntax.green.text@,
    {
        self.syntax.text()
    }
}

} // verus!
