//! The typed view: one wrapper per structural kind, each a thin cursor
//! over the untyped tree. `can_cast` and `cast` enforce the one invariant
//! of the layer: a wrapper's node always has the wrapper's kind.

use crate::green::GreenNode;
use crate::kinds::SyntaxKind;
use crate::node::{node_in_range, SyntaxNode};
use vstd::prelude::*;

verus! {

/// Typed view of a `FILE` node.
#[derive(Clone, Copy)]
pub struct File<'a> {
    pub syntax: SyntaxNode<'a>,
}

impl<'a> File<'a> {
    /// True exactly of the kind this wrapper stands for.
    pub open spec fn spec_can_cast(kind: SyntaxKind) -> bool {
        kind is FILE
    }

    /// Executable form of [`Self::spec_can_cast`].
    pub fn can_cast(kind: SyntaxKind) -> (r: bool)
        ensures
            r == Self::spec_can_cast(kind),
    {
        matches!(kind, SyntaxKind::FILE)
    }

    /// Wraps the node exactly when it has the right kind.
    pub fn cast(syntax: SyntaxNode<'a>) -> (r: Option<File<'a>>)
        ensures
            (r is Some) == Self::spec_can_cast(syntax.green.kind),
            r is Some ==> r.unwrap().syntax == syntax,
    {
        if Self::can_cast(syntax.kind()) {
            Some(File { syntax })
        } else {
            None
        }
    }

    /// The untyped node underneath.
    pub fn syntax(&self) -> (r: &SyntaxNode<'a>)
        ensures
            r == &self.syntax,
    {
        &self.syntax
    }
}

/// Typed view of a `STATEMENT` node.
#[derive(Clone, Copy)]
pub struct Statement<'a> {
    pub syntax: SyntaxNode<'a>,
}

impl<'a> Statement<'a> {
    /// True exactly of the kind this wrapper stands for.
    pub open spec fn spec_can_cast(kind: SyntaxKind) -> bool {
        kind is STATEMENT
    }

    /// Executable form of [`Self::spec_can_cast`].
    pub fn can_cast(kind: SyntaxKind) -> (r: bool)
        ensures
            r == Self::spec_can_cast(kind),
    {
        matches!(kind, SyntaxKind::STATEMENT)
    }

    /// Wraps the node exactly when it has the right kind.
    pub fn cast(syntax: SyntaxNode<'a>) -> (r: Option<Statement<'a>>)
        ensures
            (r is Some) == Self::spec_can_cast(syntax.green.kind),
            r is Some ==> r.unwrap().syntax == syntax,
    {
        if Self::can_cast(syntax.kind()) {
            Some(Statement { syntax })
        } else {
            None
        }
    }

    /// The untyped node underneath.
    pub fn syntax(&self) -> (r: &SyntaxNode<'a>)
        ensures
            r == &self.syntax,
    {
        &self.syntax
    }
}

/// Typed view of a `DEF_STMT` node.
#[derive(Clone, Copy)]
pub struct DefStmt<'a> {
    pub syntax: SyntaxNode<'a>,
}

impl<'a> DefStmt<'a> {
    /// True exactly of the kind this wrapper stands for.
    pub open spec fn spec_can_cast(kind: SyntaxKind) -> bool {
        kind is DEF_STMT
    }

    /// Executable form of [`Self::spec_can_cast`].
    pub fn can_cast(kind: SyntaxKind) -> (r: bool)
        ensures
            r == Self::spec_can_cast(kind),
    {
        matches!(kind, SyntaxKind::DEF_STMT)
    }

    /// Wraps the node exactly when it has the right kind.
    pub fn cast(syntax: SyntaxNode<'a>) -> (r: Option<DefStmt<'a>>)
        ensures
            (r is Some) == Self::spec_can_cast(syntax.green.kind),
            r is Some ==> r.unwrap().syntax == syntax,
    {
        if Self::can_cast(syntax.kind()) {
            Some(DefStmt { syntax })
        } else {
            None
        }
    }

    /// The untyped node underneath.
    pub fn syntax(&self) -> (r: &SyntaxNode<'a>)
        ensures
            r == &self.syntax,
    {
        &self.syntax
    }
}

/// Typed view of a `PARAMETERS` node.
#[derive(Clone, Copy)]
pub struct Parameters<'a> {
    pub syntax: SyntaxNode<'a>,
}

impl<'a> Parameters<'a> {
    /// True exactly of the kind this wrapper stands for.
    pub open spec fn spec_can_cast(kind: SyntaxKind) -> bool {
        kind is PARAMETERS
    }

    /// Executable form of [`Self::spec_can_cast`].
    pub fn can_cast(kind: SyntaxKind) -> (r: bool)
        ensures
            r == Self::spec_can_cast(kind),
    {
        matches!(kind, SyntaxKind::PARAMETERS)
    }

    /// Wraps the node exactly when it has the right kind.
    pub fn cast(syntax: SyntaxNode<'a>) -> (r: Option<Parameters<'a>>)
        ensures
            (r is Some) == Self::spec_can_cast(syntax.green.kind),
            r is Some ==> r.unwrap().syntax == syntax,
    {
        if Self::can_cast(syntax.kind()) {
            Some(Parameters { syntax })
        } else {
            None
        }
    }

    /// The untyped node underneath.
    pub fn syntax(&self) -> (r: &SyntaxNode<'a>)
        ensures
            r == &self.syntax,
    {
        &self.syntax
    }
}

/// Typed view of a `PARAMETER` node.
#[derive(Clone, Copy)]
pub struct Parameter<'a> {
    pub syntax: SyntaxNode<'a>,
}

impl<'a> Parameter<'a> {
    /// True exactly of the kind this wrapper stands for.
    pub open spec fn spec_can_cast(kind: SyntaxKind) -> bool {
        kind is PARAMETER
    }

    /// Executable form of [`Self::spec_can_cast`].
    pub fn can_cast(kind: SyntaxKind) -> (r: bool)
        ensures
            r == Self::spec_can_cast(kind),
    {
        matches!(kind, SyntaxKind::PARAMETER)
    }

    /// Wraps the node exactly when it has the right kind.
    pub fn cast(syntax: SyntaxNode<'a>) -> (r: Option<Parameter<'a>>)
        ensures
            (r is Some) == Self::spec_can_cast(syntax.green.kind),
            r is Some ==> r.unwrap().syntax == syntax,
    {
        if Self::can_cast(syntax.kind()) {
            Some(Parameter { syntax })
        } else {
            None
        }
    }

    /// The untyped node underneath.
    pub fn syntax(&self) -> (r: &SyntaxNode<'a>)
        ensures
            r == &self.syntax,
    {
        &self.syntax
    }
}

/// Typed view of a `IF_STMT` node.
#[derive(Clone, Copy)]
pub struct IfStmt<'a> {
    pub syntax: SyntaxNode<'a>,
}

impl<'a> IfStmt<'a> {
    /// True exactly of the kind this wrapper stands for.
    pub open spec fn spec_can_cast(kind: SyntaxKind) -> bool {
        kind is IF_STMT
    }

    /// Executable form of [`Self::spec_can_cast`].
    pub fn can_cast(kind: SyntaxKind) -> (r: bool)
        ensures
            r == Self::spec_can_cast(kind),
    {
        matches!(kind, SyntaxKind::IF_STMT)
    }

    /// Wraps the node exactly when it has the right kind.
    pub fn cast(syntax: SyntaxNode<'a>) -> (r: Option<IfStmt<'a>>)
        ensures
            (r is Some) == Self::spec_can_cast(syntax.green.kind),
            r is Some ==> r.unwrap().syntax == syntax,
    {
        if Self::can_cast(syntax.kind()) {
            Some(IfStmt { syntax })
        } else {
            None
        }
    }

    /// The untyped node underneath.
    pub fn syntax(&self) -> (r: &SyntaxNode<'a>)
        ensures
            r == &self.syntax,
    {
        &self.syntax
    }
}

/// Typed view of a `ELIF_CLAUSES` node.
#[derive(Clone, Copy)]
pub struct ElifClauses<'a> {
    pub syntax: SyntaxNode<'a>,
}

impl<'a> ElifClauses<'a> {
    /// True exactly of the kind this wrapper stands for.
    pub open spec fn spec_can_cast(kind: SyntaxKind) -> bool {
        kind is ELIF_CLAUSES
    }

    /// Executable form of [`Self::spec_can_cast`].
    pub fn can_cast(kind: SyntaxKind) -> (r: bool)
        ensures
            r == Self::spec_can_cast(kind),
    {
        matches!(kind, SyntaxKind::ELIF_CLAUSES)
    }

    /// Wraps the node exactly when it has the right kind.
    pub fn cast(syntax: SyntaxNode<'a>) -> (r: Option<ElifClauses<'a>>)
        ensures
            (r is Some) == Self::spec_can_cast(syntax.green.kind),
            r is Some ==> r.unwrap().syntax == syntax,
    {
        if Self::can_cast(syntax.kind()) {
            Some(ElifClauses { syntax })
        } else {
            None
        }
    }

    /// The untyped node underneath.
    pub fn syntax(&self) -> (r: &SyntaxNode<'a>)
        ensures
            r == &self.syntax,
    {
        &self.syntax
    }
}

/// Typed view of a `ELSE_CLAUSE` node.
#[derive(Clone, Copy)]
pub struct ElseClause<'a> {
    pub syntax: SyntaxNode<'a>,
}

impl<'a> ElseClause<'a> {
    /// True exactly of the kind this wrapper stands for.
    pub open spec fn spec_can_cast(kind: SyntaxKind) -> bool {
        kind is ELSE_CLAUSE
    }

    /// Executable form of [`Self::spec_can_cast`].
    pub fn can_cast(kind: SyntaxKind) -> (r: bool)
        ensures
            r == Self::spec_can_cast(kind),
    {
        matches!(kind, SyntaxKind::ELSE_CLAUSE)
    }

    /// Wraps the node exactly when it has the right kind.
    pub fn cast(syntax: SyntaxNode<'a>) -> (r: Option<ElseClause<'a>>)
        ensures
            (r is Some) == Self::spec_can_cast(syntax.green.kind),
            r is Some ==> r.unwrap().syntax == syntax,
    {
        if Self::can_cast(syntax.kind()) {
            Some(ElseClause { syntax })
        } else {
            None
        }
    }

    /// The untyped node underneath.
    pub fn syntax(&self) -> (r: &SyntaxNode<'a>)
        ensures
            r == &self.syntax,
    {
        &self.syntax
    }
}

/// Typed view of a `FOR_STMT` node.
#[derive(Clone, Copy)]
pub struct ForStmt<'a> {
    pub syntax: SyntaxNode<'a>,
}

impl<'a> ForStmt<'a> {
    /// True exactly of the kind this wrapper stands for.
    pub open spec fn spec_can_cast(kind: SyntaxKind) -> bool {
        kind is FOR_STMT
    }

    /// Executable form of [`Self::spec_can_cast`].
    pub fn can_cast(kind: SyntaxKind) -> (r: bool)
        ensures
            r == Self::spec_can_cast(kind),
    {
        matches!(kind, SyntaxKind::FOR_STMT)
    }

    /// Wraps the node exactly when it has the right kind.
    pub fn cast(syntax: SyntaxNode<'a>) -> (r: Option<ForStmt<'a>>)
        ensures
            (r is Some) == Self::spec_can_cast(syntax.green.kind),
            r is Some ==> r.unwrap().syntax == syntax,
    {
        if Self::can_cast(syntax.kind()) {
            Some(ForStmt { syntax })
        } else {
            None
        }
    }

    /// The untyped node underneath.
    pub fn syntax(&self) -> (r: &SyntaxNode<'a>)
        ensures
            r == &self.syntax,
    {
        &self.syntax
    }
}

/// Typed view of a `SUITE` node.
#[derive(Clone, Copy)]
pub struct Suite<'a> {
    pub syntax: SyntaxNode<'a>,
}

impl<'a> Suite<'a> {
    /// True exactly of the kind this wrapper stands for.
    pub open spec fn spec_can_cast(kind: SyntaxKind) -> bool {
        kind is SUITE
    }

    /// Executable form of [`Self::spec_can_cast`].
    pub fn can_cast(kind: SyntaxKind) -> (r: bool)
        ensures
            r == Self::spec_can_cast(kind),
    {
        matches!(kind, SyntaxKind::SUITE)
    }

    /// Wraps the node exactly when it has the right kind.
    pub fn cast(syntax: SyntaxNode<'a>) -> (r: Option<Suite<'a>>)
        ensures
            (r is Some) == Self::spec_can_cast(syntax.green.kind),
            r is Some ==> r.unwrap().syntax == syntax,
    {
        if Self::can_cast(syntax.kind()) {
            Some(Suite { syntax })
        } else {
            None
        }
    }

    /// The untyped node underneath.
    pub fn syntax(&self) -> (r: &SyntaxNode<'a>)
        ensures
            r == &self.syntax,
    {
        &self.syntax
    }
}

/// Typed view of a `SIMPLE_STMT` node.
#[derive(Clone, Copy)]
pub struct SimpleStmt<'a> {
    pub syntax: SyntaxNode<'a>,
}

impl<'a> SimpleStmt<'a> {
    /// True exactly of the kind this wrapper stands for.
    pub open spec fn spec_can_cast(kind: SyntaxKind) -> bool {
        kind is SIMPLE_STMT
    }

    /// Executable form of [`Self::spec_can_cast`].
    pub fn can_cast(kind: SyntaxKind) -> (r: bool)
        ensures
            r == Self::spec_can_cast(kind),
    {
        matches!(kind, SyntaxKind::SIMPLE_STMT)
    }

    /// Wraps the node exactly when it has the right kind.
    pub fn cast(syntax: SyntaxNode<'a>) -> (r: Option<SimpleStmt<'a>>)
        ensures
            (r is Some) == Self::spec_can_cast(syntax.green.kind),
            r is Some ==> r.unwrap().syntax == syntax,
    {
        if Self::can_cast(syntax.kind()) {
            Some(SimpleStmt { syntax })
        } else {
            None
        }
    }

    /// The untyped node underneath.
    pub fn syntax(&self) -> (r: &SyntaxNode<'a>)
        ensures
            r == &self.syntax,
    {
        &self.syntax
    }
}

/// Typed view of a `SMALL_STMT` node.
#[derive(Clone, Copy)]
pub struct SmallStmt<'a> {
    pub syntax: SyntaxNode<'a>,
}

impl<'a> SmallStmt<'a> {
    /// True exactly of the kind this wrapper stands for.
    pub open spec fn spec_can_cast(kind: SyntaxKind) -> bool {
        kind is SMALL_STMT
    }

    /// Executable form of [`Self::spec_can_cast`].
    pub fn can_cast(kind: SyntaxKind) -> (r: bool)
        ensures
            r == Self::spec_can_cast(kind),
    {
        matches!(kind, SyntaxKind::SMALL_STMT)
    }

    /// Wraps the node exactly when it has the right kind.
    pub fn cast(syntax: SyntaxNode<'a>) -> (r: Option<SmallStmt<'a>>)
        ensures
            (r is Some) == Self::spec_can_cast(syntax.green.kind),
            r is Some ==> r.unwrap().syntax == syntax,
    {
        if Self::can_cast(syntax.kind()) {
            Some(SmallStmt { syntax })
        } else {
            None
        }
    }

    /// The untyped node underneath.
    pub fn syntax(&self) -> (r: &SyntaxNode<'a>)
        ensures
            r == &self.syntax,
    {
        &self.syntax
    }
}

/// Typed view of a `RETURN_STMT` node.
#[derive(Clone, Copy)]
pub struct ReturnStmt<'a> {
    pub syntax: SyntaxNode<'a>,
}

impl<'a> ReturnStmt<'a> {
    /// True exactly of the kind this wrapper stands for.
    pub open spec fn spec_can_cast(kind: SyntaxKind) -> bool {
        kind is RETURN_STMT
    }

    /// Executable form of [`Self::spec_can_cast`].
    pub fn can_cast(kind: SyntaxKind) -> (r: bool)
        ensures
            r == Self::spec_can_cast(kind),
    {
        matches!(kind, SyntaxKind::RETURN_STMT)
    }

    /// Wraps the node exactly when it has the right kind.
    pub fn cast(syntax: SyntaxNode<'a>) -> (r: Option<ReturnStmt<'a>>)
        ensures
            (r is Some) == Self::spec_can_cast(syntax.green.kind),
            r is Some ==> r.unwrap().syntax == syntax,
    {
        if Self::can_cast(syntax.kind()) {
            Some(ReturnStmt { syntax })
        } else {
            None
        }
    }

    /// The untyped node underneath.
    pub fn syntax(&self) -> (r: &SyntaxNode<'a>)
        ensures
            r == &self.syntax,
    {
        &self.syntax
    }
}

/// Typed view of a `BREAK_STMT` node.
#[derive(Clone, Copy)]
pub struct BreakStmt<'a> {
    pub syntax: SyntaxNode<'a>,
}

impl<'a> BreakStmt<'a> {
    /// True exactly of the kind this wrapper stands for.
    pub open spec fn spec_can_cast(kind: SyntaxKind) -> bool {
        kind is BREAK_STMT
    }

    /// Executable form of [`Self::spec_can_cast`].
    pub fn can_cast(kind: SyntaxKind) -> (r: bool)
        ensures
            r == Self::spec_can_cast(kind),
    {
        matches!(kind, SyntaxKind::BREAK_STMT)
    }

    /// Wraps the node exactly when it has the right kind.
    pub fn cast(syntax: SyntaxNode<'a>) -> (r: Option<BreakStmt<'a>>)
        ensures
            (r is Some) == Self::spec_can_cast(syntax.green.kind),
            r is Some ==> r.unwrap().syntax == syntax,
    {
        if Self::can_cast(syntax.kind()) {
            Some(BreakStmt { syntax })
        } else {
            None
        }
    }

    /// The untyped node underneath.
    pub fn syntax(&self) -> (r: &SyntaxNode<'a>)
        ensures
            r == &self.syntax,
    {
        &self.syntax
    }
}

/// Typed view of a `CONTINUE_STMT` node.
#[derive(Clone, Copy)]
pub struct ContinueStmt<'a> {
    pub syntax: SyntaxNode<'a>,
}

impl<'a> ContinueStmt<'a> {
    /// True exactly of the kind this wrapper stands for.
    pub open spec fn spec_can_cast(kind: SyntaxKind) -> bool {
        kind is CONTINUE_STMT
    }

    /// Executable form of [`Self::spec_can_cast`].
    pub fn can_cast(kind: SyntaxKind) -> (r: bool)
        ensures
            r == Self::spec_can_cast(kind),
    {
        matches!(kind, SyntaxKind::CONTINUE_STMT)
    }

    /// Wraps the node exactly when it has the right kind.
    pub fn cast(syntax: SyntaxNode<'a>) -> (r: Option<ContinueStmt<'a>>)
        ensures
            (r is Some) == Self::spec_can_cast(syntax.green.kind),
            r is Some ==> r.unwrap().syntax == syntax,
    {
        if Self::can_cast(syntax.kind()) {
            Some(ContinueStmt { syntax })
        } else {
            None
        }
    }

    /// The untyped node underneath.
    pub fn syntax(&self) -> (r: &SyntaxNode<'a>)
        ensures
            r == &self.syntax,
    {
        &self.syntax
    }
}

/// Typed view of a `PASS_STMT` node.
#[derive(Clone, Copy)]
pub struct PassStmt<'a> {
    pub syntax: SyntaxNode<'a>,
}

impl<'a> PassStmt<'a> {
    /// True exactly of the kind this wrapper stands for.
    pub open spec fn spec_can_cast(kind: SyntaxKind) -> bool {
        kind is PASS_STMT
    }

    /// Executable form of [`Self::spec_can_cast`].
    pub fn can_cast(kind: SyntaxKind) -> (r: bool)
        ensures
            r == Self::spec_can_cast(kind),
    {
        matches!(kind, SyntaxKind::PASS_STMT)
    }

    /// Wraps the node exactly when it has the right kind.
    pub fn cast(syntax: SyntaxNode<'a>) -> (r: Option<PassStmt<'a>>)
        ensures
            (r is Some) == Self::spec_can_cast(syntax.green.kind),
            r is Some ==> r.unwrap().syntax == syntax,
    {
        if Self::can_cast(syntax.kind()) {
            Some(PassStmt { syntax })
        } else {
            None
        }
    }

    /// The untyped node underneath.
    pub fn syntax(&self) -> (r: &SyntaxNode<'a>)
        ensures
            r == &self.syntax,
    {
        &self.syntax
    }
}

/// Typed view of a `ASSIGN_STMT` node.
#[derive(Clone, Copy)]
pub struct AssignStmt<'a> {
    pub syntax: SyntaxNode<'a>,
}

impl<'a> AssignStmt<'a> {
    /// True exactly of the kind this wrapper stands for.
    pub open spec fn spec_can_cast(kind: SyntaxKind) -> bool {
        kind is ASSIGN_STMT
    }

    /// Executable form of [`Self::spec_can_cast`].
    pub fn can_cast(kind: SyntaxKind) -> (r: bool)
        ensures
            r == Self::spec_can_cast(kind),
    {
        matches!(kind, SyntaxKind::ASSIGN_STMT)
    }

    /// Wraps the node exactly when it has the right kind.
    pub fn cast(syntax: SyntaxNode<'a>) -> (r: Option<AssignStmt<'a>>)
        ensures
            (r is Some) == Self::spec_can_cast(syntax.green.kind),
            r is Some ==> r.unwrap().syntax == syntax,
    {
        if Self::can_cast(syntax.kind()) {
            Some(AssignStmt { syntax })
        } else {
            None
        }
    }

    /// The untyped node underneath.
    pub fn syntax(&self) -> (r: &SyntaxNode<'a>)
        ensures
            r == &self.syntax,
    {
        &self.syntax
    }
}

/// Typed view of a `EXPR_STMT` node.
#[derive(Clone, Copy)]
pub struct ExprStmt<'a> {
    pub syntax: SyntaxNode<'a>,
}

impl<'a> ExprStmt<'a> {
    /// True exactly of the kind this wrapper stands for.
    pub open spec fn spec_can_cast(kind: SyntaxKind) -> bool {
        kind is EXPR_STMT
    }

    /// Executable form of [`Self::spec_can_cast`].
    pub fn can_cast(kind: SyntaxKind) -> (r: bool)
        ensures
            r == Self::spec_can_cast(kind),
    {
        matches!(kind, SyntaxKind::EXPR_STMT)
    }

    /// Wraps the node exactly when it has the right kind.
    pub fn cast(syntax: SyntaxNode<'a>) -> (r: Option<ExprStmt<'a>>)
        ensures
            (r is Some) == Self::spec_can_cast(syntax.green.kind),
            r is Some ==> r.unwrap().syntax == syntax,
    {
        if Self::can_cast(syntax.kind()) {
            Some(ExprStmt { syntax })
        } else {
            None
        }
    }

    /// The untyped node underneath.
    pub fn syntax(&self) -> (r: &SyntaxNode<'a>)
        ensures
            r == &self.syntax,
    {
        &self.syntax
    }
}

/// Typed view of a `LOAD_STMT` node.
#[derive(Clone, Copy)]
pub struct LoadStmt<'a> {
    pub syntax: SyntaxNode<'a>,
}

impl<'a> LoadStmt<'a> {
    /// True exactly of the kind this wrapper stands for.
    pub open spec fn spec_can_cast(kind: SyntaxKind) -> bool {
        kind is LOAD_STMT
    }

    /// Executable form of [`Self::spec_can_cast`].
    pub fn can_cast(kind: SyntaxKind) -> (r: bool)
        ensures
            r == Self::spec_can_cast(kind),
    {
        matches!(kind, SyntaxKind::LOAD_STMT)
    }

    /// Wraps the node exactly when it has the right kind.
    pub fn cast(syntax: SyntaxNode<'a>) -> (r: Option<LoadStmt<'a>>)
        ensures
            (r is Some) == Self::spec_can_cast(syntax.green.kind),
            r is Some ==> r.unwrap().syntax == syntax,
    {
        if Self::can_cast(syntax.kind()) {
            Some(LoadStmt { syntax })
        } else {
            None
        }
    }

    /// The untyped node underneath.
    pub fn syntax(&self) -> (r: &SyntaxNode<'a>)
        ensures
            r == &self.syntax,
    {
        &self.syntax
    }
}

/// Typed view of a `TEST` node.
#[derive(Clone, Copy)]
pub struct Test<'a> {
    pub syntax: SyntaxNode<'a>,
}

impl<'a> Test<'a> {
    /// True exactly of the kind this wrapper stands for.
    pub open spec fn spec_can_cast(kind: SyntaxKind) -> bool {
        kind is TEST
    }

    /// Executable form of [`Self::spec_can_cast`].
    pub fn can_cast(kind: SyntaxKind) -> (r: bool)
        ensures
            r == Self::spec_can_cast(kind),
    {
        matches!(kind, SyntaxKind::TEST)
    }

    /// Wraps the node exactly when it has the right kind.
    pub fn cast(syntax: SyntaxNode<'a>) -> (r: Option<Test<'a>>)
        ensures
            (r is Some) == Self::spec_can_cast(syntax.green.kind),
            r is Some ==> r.unwrap().syntax == syntax,
    {
        if Self::can_cast(syntax.kind()) {
            Some(Test { syntax })
        } else {
            None
        }
    }

    /// The untyped node underneath.
    pub fn syntax(&self) -> (r: &SyntaxNode<'a>)
        ensures
            r == &self.syntax,
    {
        &self.syntax
    }
}

/// Typed view of a `BIN_OP` node.
#[derive(Clone, Copy)]
pub struct BinOp<'a> {
    pub syntax: SyntaxNode<'a>,
}

impl<'a> BinOp<'a> {
    /// True exactly of the kind this wrapper stands for.
    pub open spec fn spec_can_cast(kind: SyntaxKind) -> bool {
        kind is BIN_OP
    }

    /// Executable form of [`Self::spec_can_cast`].
    pub fn can_cast(kind: SyntaxKind) -> (r: bool)
        ensures
            r == Self::spec_can_cast(kind),
    {
        matches!(kind, SyntaxKind::BIN_OP)
    }

    /// Wraps the node exactly when it has the right kind.
    pub fn cast(syntax: SyntaxNode<'a>) -> (r: Option<BinOp<'a>>)
        ensures
            (r is Some) == Self::spec_can_cast(syntax.green.kind),
            r is Some ==> r.unwrap().syntax == syntax,
    {
        if Self::can_cast(syntax.kind()) {
            Some(BinOp { syntax })
        } else {
            None
        }
    }

    /// The untyped node underneath.
    pub fn syntax(&self) -> (r: &SyntaxNode<'a>)
        ensures
            r == &self.syntax,
    {
        &self.syntax
    }
}

/// Typed view of a `IF_EXPR` node.
#[derive(Clone, Copy)]
pub struct IfExpr<'a> {
    pub syntax: SyntaxNode<'a>,
}

impl<'a> IfExpr<'a> {
    /// True exactly of the kind this wrapper stands for.
    pub open spec fn spec_can_cast(kind: SyntaxKind) -> bool {
        kind is IF_EXPR
    }

    /// Executable form of [`Self::spec_can_cast`].
    pub fn can_cast(kind: SyntaxKind) -> (r: bool)
        ensures
            r == Self::spec_can_cast(kind),
    {
        matches!(kind, SyntaxKind::IF_EXPR)
    }

    /// Wraps the node exactly when it has the right kind.
    pub fn cast(syntax: SyntaxNode<'a>) -> (r: Option<IfExpr<'a>>)
        ensures
            (r is Some) == Self::spec_can_cast(syntax.green.kind),
            r is Some ==> r.unwrap().syntax == syntax,
    {
        if Self::can_cast(syntax.kind()) {
            Some(IfExpr { syntax })
        } else {
            None
        }
    }

    /// The untyped node underneath.
    pub fn syntax(&self) -> (r: &SyntaxNode<'a>)
        ensures
            r == &self.syntax,
    {
        &self.syntax
    }
}

/// Typed view of a `PRIMARY_EXPR` node.
#[derive(Clone, Copy)]
pub struct PrimaryExpr<'a> {
    pub syntax: SyntaxNode<'a>,
}

impl<'a> PrimaryExpr<'a> {
    /// True exactly of the kind this wrapper stands for.
    pub open spec fn spec_can_cast(kind: SyntaxKind) -> bool {
        kind is PRIMARY_EXPR
    }

    /// Executable form of [`Self::spec_can_cast`].
    pub fn can_cast(kind: SyntaxKind) -> (r: bool)
        ensures
            r == Self::spec_can_cast(kind),
    {
        matches!(kind, SyntaxKind::PRIMARY_EXPR)
    }

    /// Wraps the node exactly when it has the right kind.
    pub fn cast(syntax: SyntaxNode<'a>) -> (r: Option<PrimaryExpr<'a>>)
        ensures
            (r is Some) == Self::spec_can_cast(syntax.green.kind),
            r is Some ==> r.unwrap().syntax == syntax,
    {
        if Self::can_cast(syntax.kind()) {
            Some(PrimaryExpr { syntax })
        } else {
            None
        }
    }

    /// The untyped node underneath.
    pub fn syntax(&self) -> (r: &SyntaxNode<'a>)
        ensures
            r == &self.syntax,
    {
        &self.syntax
    }
}

/// Typed view of a `OPERAND` node.
#[derive(Clone, Copy)]
pub struct Operand<'a> {
    pub syntax: SyntaxNode<'a>,
}

impl<'a> Operand<'a> {
    /// True exactly of the kind this wrapper stands for.
    pub open spec fn spec_can_cast(kind: SyntaxKind) -> bool {
        kind is OPERAND
    }

    /// Executable form of [`Self::spec_can_cast`].
    pub fn can_cast(kind: SyntaxKind) -> (r: bool)
        ensures
            r == Self::spec_can_cast(kind),
    {
        matches!(kind, SyntaxKind::OPERAND)
    }

    /// Wraps the node exactly when it has the right kind.
    pub fn cast(syntax: SyntaxNode<'a>) -> (r: Option<Operand<'a>>)
        ensures
            (r is Some) == Self::spec_can_cast(syntax.green.kind),
            r is Some ==> r.unwrap().syntax == syntax,
    {
        if Self::can_cast(syntax.kind()) {
            Some(Operand { syntax })
        } else {
            None
        }
    }

    /// The untyped node underneath.
    pub fn syntax(&self) -> (r: &SyntaxNode<'a>)
        ensures
            r == &self.syntax,
    {
        &self.syntax
    }
}

/// Typed view of a `DOT_SUFFIX` node.
#[derive(Clone, Copy)]
pub struct DotSuffix<'a> {
    pub syntax: SyntaxNode<'a>,
}

impl<'a> DotSuffix<'a> {
    /// True exactly of the kind this wrapper stands for.
    pub open spec fn spec_can_cast(kind: SyntaxKind) -> bool {
        kind is DOT_SUFFIX
    }

    /// Executable form of [`Self::spec_can_cast`].
    pub fn can_cast(kind: SyntaxKind) -> (r: bool)
        ensures
            r == Self::spec_can_cast(kind),
    {
        matches!(kind, SyntaxKind::DOT_SUFFIX)
    }

    /// Wraps the node exactly when it has the right kind.
    pub fn cast(syntax: SyntaxNode<'a>) -> (r: Option<DotSuffix<'a>>)
        ensures
            (r is Some) == Self::spec_can_cast(syntax.green.kind),
            r is Some ==> r.unwrap().syntax == syntax,
    {
        if Self::can_cast(syntax.kind()) {
            Some(DotSuffix { syntax })
        } else {
            None
        }
    }

    /// The untyped node underneath.
    pub fn syntax(&self) -> (r: &SyntaxNode<'a>)
        ensures
            r == &self.syntax,
    {
        &self.syntax
    }
}

/// Typed view of a `SLICE_SUFFIX` node.
#[derive(Clone, Copy)]
pub struct SliceSuffix<'a> {
    pub syntax: SyntaxNode<'a>,
}

impl<'a> SliceSuffix<'a> {
    /// True exactly of the kind this wrapper stands for.
    pub open spec fn spec_can_cast(kind: SyntaxKind) -> bool {
        kind is SLICE_SUFFIX
    }

    /// Executable form of [`Self::spec_can_cast`].
    pub fn can_cast(kind: SyntaxKind) -> (r: bool)
        ensures
            r == Self::spec_can_cast(kind),
    {
        matches!(kind, SyntaxKind::SLICE_SUFFIX)
    }

    /// Wraps the node exactly when it has the right kind.
    pub fn cast(syntax: SyntaxNode<'a>) -> (r: Option<SliceSuffix<'a>>)
        ensures
            (r is Some) == Self::spec_can_cast(syntax.green.kind),
            r is Some ==> r.unwrap().syntax == syntax,
    {
        if Self::can_cast(syntax.kind()) {
            Some(SliceSuffix { syntax })
        } else {
            None
        }
    }

    /// The untyped node underneath.
    pub fn syntax(&self) -> (r: &SyntaxNode<'a>)
        ensures
            r == &self.syntax,
    {
        &self.syntax
    }
}

/// Typed view of a `CALL_SUFFIX` node.
#[derive(Clone, Copy)]
pub struct CallSuffix<'a> {
    pub syntax: SyntaxNode<'a>,
}

impl<'a> CallSuffix<'a> {
    /// True exactly of the kind this wrapper stands for.
    pub open spec fn spec_can_cast(kind: SyntaxKind) -> bool {
        kind is CALL_SUFFIX
    }

    /// Executable form of [`Self::spec_can_cast`].
    pub fn can_cast(kind: SyntaxKind) -> (r: bool)
        ensures
            r == Self::spec_can_cast(kind),
    {
        matches!(kind, SyntaxKind::CALL_SUFFIX)
    }

    /// Wraps the node exactly when it has the right kind.
    pub fn cast(syntax: SyntaxNode<'a>) -> (r: Option<CallSuffix<'a>>)
        ensures
            (r is Some) == Self::spec_can_cast(syntax.green.kind),
            r is Some ==> r.unwrap().syntax == syntax,
    {
        if Self::can_cast(syntax.kind()) {
            Some(CallSuffix { syntax })
        } else {
            None
        }
    }

    /// The untyped node underneath.
    pub fn syntax(&self) -> (r: &SyntaxNode<'a>)
        ensures
            r == &self.syntax,
    {
        &self.syntax
    }
}

/// Typed view of a `ARGUMENTS` node.
#[derive(Clone, Copy)]
pub struct Arguments<'a> {
    pub syntax: SyntaxNode<'a>,
}

impl<'a> Arguments<'a> {
    /// True exactly of the kind this wrapper stands for.
    pub open spec fn spec_can_cast(kind: SyntaxKind) -> bool {
        kind is ARGUMENTS
    }

    /// Executable form of [`Self::spec_can_cast`].
    pub fn can_cast(kind: SyntaxKind) -> (r: bool)
        ensures
            r == Self::spec_can_cast(kind),
    {
        matches!(kind, SyntaxKind::ARGUMENTS)
    }

    /// Wraps the node exactly when it has the right kind.
    pub fn cast(syntax: SyntaxNode<'a>) -> (r: Option<Arguments<'a>>)
        ensures
            (r is Some) == Self::spec_can_cast(syntax.green.kind),
            r is Some ==> r.unwrap().syntax == syntax,
    {
        if Self::can_cast(syntax.kind()) {
            Some(Arguments { syntax })
        } else {
            None
        }
    }

    /// The untyped node underneath.
    pub fn syntax(&self) -> (r: &SyntaxNode<'a>)
        ensures
            r == &self.syntax,
    {
        &self.syntax
    }
}

/// Typed view of a `ARGUMENT` node.
#[derive(Clone, Copy)]
pub struct Argument<'a> {
    pub syntax: SyntaxNode<'a>,
}

impl<'a> Argument<'a> {
    /// True exactly of the kind this wrapper stands for.
    pub open spec fn spec_can_cast(kind: SyntaxKind) -> bool {
        kind is ARGUMENT
    }

    /// Executable form of [`Self::spec_can_cast`].
    pub fn can_cast(kind: SyntaxKind) -> (r: bool)
        ensures
            r == Self::spec_can_cast(kind),
    {
        matches!(kind, SyntaxKind::ARGUMENT)
    }

    /// Wraps the node exactly when it has the right kind.
    pub fn cast(syntax: SyntaxNode<'a>) -> (r: Option<Argument<'a>>)
        ensures
            (r is Some) == Self::spec_can_cast(syntax.green.kind),
            r is Some ==> r.unwrap().syntax == syntax,
    {
        if Self::can_cast(syntax.kind()) {
            Some(Argument { syntax })
        } else {
            None
        }
    }

    /// The untyped node underneath.
    pub fn syntax(&self) -> (r: &SyntaxNode<'a>)
        ensures
            r == &self.syntax,
    {
        &self.syntax
    }
}

/// Typed view of a `LIST_EXPR` node.
#[derive(Clone, Copy)]
pub struct ListExpr<'a> {
    pub syntax: SyntaxNode<'a>,
}

impl<'a> ListExpr<'a> {
    /// True exactly of the kind this wrapper stands for.
    pub open spec fn spec_can_cast(kind: SyntaxKind) -> bool {
        kind is LIST_EXPR
    }

    /// Executable form of [`Self::spec_can_cast`].
    pub fn can_cast(kind: SyntaxKind) -> (r: bool)
        ensures
            r == Self::spec_can_cast(kind),
    {
        matches!(kind, SyntaxKind::LIST_EXPR)
    }

    /// Wraps the node exactly when it has the right kind.
    pub fn cast(syntax: SyntaxNode<'a>) -> (r: Option<ListExpr<'a>>)
        ensures
            (r is Some) == Self::spec_can_cast(syntax.green.kind),
            r is Some ==> r.unwrap().syntax == syntax,
    {
        if Self::can_cast(syntax.kind()) {
            Some(ListExpr { syntax })
        } else {
            None
        }
    }

    /// The untyped node underneath.
    pub fn syntax(&self) -> (r: &SyntaxNode<'a>)
        ensures
            r == &self.syntax,
    {
        &self.syntax
    }
}

/// Typed view of a `LIST_COMP` node.
#[derive(Clone, Copy)]
pub struct ListComp<'a> {
    pub syntax: SyntaxNode<'a>,
}

impl<'a> ListComp<'a> {
    /// True exactly of the kind this wrapper stands for.
    pub open spec fn spec_can_cast(kind: SyntaxKind) -> bool {
        kind is LIST_COMP
    }

    /// Executable form of [`Self::spec_can_cast`].
    pub fn can_cast(kind: SyntaxKind) -> (r: bool)
        ensures
            r == Self::spec_can_cast(kind),
    {
        matches!(kind, SyntaxKind::LIST_COMP)
    }

    /// Wraps the node exactly when it has the right kind.
    pub fn cast(syntax: SyntaxNode<'a>) -> (r: Option<ListComp<'a>>)
        ensures
            (r is Some) == Self::spec_can_cast(syntax.green.kind),
            r is Some ==> r.unwrap().syntax == syntax,
    {
        if Self::can_cast(syntax.kind()) {
            Some(ListComp { syntax })
        } else {
            None
        }
    }

    /// The untyped node underneath.
    pub fn syntax(&self) -> (r: &SyntaxNode<'a>)
        ensures
            r == &self.syntax,
    {
        &self.syntax
    }
}

/// Typed view of a `DICT_EXPR` node.
#[derive(Clone, Copy)]
pub struct DictExpr<'a> {
    pub syntax: SyntaxNode<'a>,
}

impl<'a> DictExpr<'a> {
    /// True exactly of the kind this wrapper stands for.
    pub open spec fn spec_can_cast(kind: SyntaxKind) -> bool {
        kind is DICT_EXPR
    }

    /// Executable form of [`Self::spec_can_cast`].
    pub fn can_cast(kind: SyntaxKind) -> (r: bool)
        ensures
            r == Self::spec_can_cast(kind),
    {
        matches!(kind, SyntaxKind::DICT_EXPR)
    }

    /// Wraps the node exactly when it has the right kind.
    pub fn cast(syntax: SyntaxNode<'a>) -> (r: Option<DictExpr<'a>>)
        ensures
            (r is Some) == Self::spec_can_cast(syntax.green.kind),
            r is Some ==> r.unwrap().syntax == syntax,
    {
        if Self::can_cast(syntax.kind()) {
            Some(DictExpr { syntax })
        } else {
            None
        }
    }

    /// The untyped node underneath.
    pub fn syntax(&self) -> (r: &SyntaxNode<'a>)
        ensures
            r == &self.syntax,
    {
        &self.syntax
    }
}

/// Typed view of a `DICT_COMP` node.
#[derive(Clone, Copy)]
pub struct DictComp<'a> {
    pub syntax: SyntaxNode<'a>,
}

impl<'a> DictComp<'a> {
    /// True exactly of the kind this wrapper stands for.
    pub open spec fn spec_can_cast(kind: SyntaxKind) -> bool {
        kind is DICT_COMP
    }

    /// Executable form of [`Self::spec_can_cast`].
    pub fn can_cast(kind: SyntaxKind) -> (r: bool)
        ensures
            r == Self::spec_can_cast(kind),
    {
        matches!(kind, SyntaxKind::DICT_COMP)
    }

    /// Wraps the node exactly when it has the right kind.
    pub fn cast(syntax: SyntaxNode<'a>) -> (r: Option<DictComp<'a>>)
        ensures
            (r is Some) == Self::spec_can_cast(syntax.green.kind),
            r is Some ==> r.unwrap().syntax == syntax,
    {
        if Self::can_cast(syntax.kind()) {
            Some(DictComp { syntax })
        } else {
            None
        }
    }

    /// The untyped node underneath.
    pub fn syntax(&self) -> (r: &SyntaxNode<'a>)
        ensures
            r == &self.syntax,
    {
        &self.syntax
    }
}

/// Typed view of a `ENTRIES` node.
#[derive(Clone, Copy)]
pub struct Entries<'a> {
    pub syntax: SyntaxNode<'a>,
}

impl<'a> Entries<'a> {
    /// True exactly of the kind this wrapper stands for.
    pub open spec fn spec_can_cast(kind: SyntaxKind) -> bool {
        kind is ENTRIES
    }

    /// Executable form of [`Self::spec_can_cast`].
    pub fn can_cast(kind: SyntaxKind) -> (r: bool)
        ensures
            r == Self::spec_can_cast(kind),
    {
        matches!(kind, SyntaxKind::ENTRIES)
    }

    /// Wraps the node exactly when it has the right kind.
    pub fn cast(syntax: SyntaxNode<'a>) -> (r: Option<Entries<'a>>)
        ensures
            (r is Some) == Self::spec_can_cast(syntax.green.kind),
            r is Some ==> r.unwrap().syntax == syntax,
    {
        if Self::can_cast(syntax.kind()) {
            Some(Entries { syntax })
        } else {
            None
        }
    }

    /// The untyped node underneath.
    pub fn syntax(&self) -> (r: &SyntaxNode<'a>)
        ensures
            r == &self.syntax,
    {
        &self.syntax
    }
}

/// Typed view of a `ENTRY` node.
#[derive(Clone, Copy)]
pub struct Entry<'a> {
    pub syntax: SyntaxNode<'a>,
}

impl<'a> Entry<'a> {
    /// True exactly of the kind this wrapper stands for.
    pub open spec fn spec_can_cast(kind: SyntaxKind) -> bool {
        kind is ENTRY
    }

    /// Executable form of [`Self::spec_can_cast`].
    pub fn can_cast(kind: SyntaxKind) -> (r: bool)
        ensures
            r == Self::spec_can_cast(kind),
    {
        matches!(kind, SyntaxKind::ENTRY)
    }

    /// Wraps the node exactly when it has the right kind.
    pub fn cast(syntax: SyntaxNode<'a>) -> (r: Option<Entry<'a>>)
        ensures
            (r is Some) == Self::spec_can_cast(syntax.green.kind),
            r is Some ==> r.unwrap().syntax == syntax,
    {
        if Self::can_cast(syntax.kind()) {
            Some(Entry { syntax })
        } else {
            None
        }
    }

    /// The untyped node underneath.
    pub fn syntax(&self) -> (r: &SyntaxNode<'a>)
        ensures
            r == &self.syntax,
    {
        &self.syntax
    }
}

/// Typed view of a `COMP_CLAUSE` node.
#[derive(Clone, Copy)]
pub struct CompClause<'a> {
    pub syntax: SyntaxNode<'a>,
}

impl<'a> CompClause<'a> {
    /// True exactly of the kind this wrapper stands for.
    pub open spec fn spec_can_cast(kind: SyntaxKind) -> bool {
        kind is COMP_CLAUSE
    }

    /// Executable form of [`Self::spec_can_cast`].
    pub fn can_cast(kind: SyntaxKind) -> (r: bool)
        ensures
            r == Self::spec_can_cast(kind),
    {
        matches!(kind, SyntaxKind::COMP_CLAUSE)
    }

    /// Wraps the node exactly when it has the right kind.
    pub fn cast(syntax: SyntaxNode<'a>) -> (r: Option<CompClause<'a>>)
        ensures
            (r is Some) == Self::spec_can_cast(syntax.green.kind),
            r is Some ==> r.unwrap().syntax == syntax,
    {
        if Self::can_cast(syntax.kind()) {
            Some(CompClause { syntax })
        } else {
            None
        }
    }

    /// The untyped node underneath.
    pub fn syntax(&self) -> (r: &SyntaxNode<'a>)
        ensures
            r == &self.syntax,
    {
        &self.syntax
    }
}

/// Typed view of a `UNARY_EXPR` node.
#[derive(Clone, Copy)]
pub struct UnaryExpr<'a> {
    pub syntax: SyntaxNode<'a>,
}

impl<'a> UnaryExpr<'a> {
    /// True exactly of the kind this wrapper stands for.
    pub open spec fn spec_can_cast(kind: SyntaxKind) -> bool {
        kind is UNARY_EXPR
    }

    /// Executable form of [`Self::spec_can_cast`].
    pub fn can_cast(kind: SyntaxKind) -> (r: bool)
        ensures
            r == Self::spec_can_cast(kind),
    {
        matches!(kind, SyntaxKind::UNARY_EXPR)
    }

    /// Wraps the node exactly when it has the right kind.
    pub fn cast(syntax: SyntaxNode<'a>) -> (r: Option<UnaryExpr<'a>>)
        ensures
            (r is Some) == Self::spec_can_cast(syntax.green.kind),
            r is Some ==> r.unwrap().syntax == syntax,
    {
        if Self::can_cast(syntax.kind()) {
            Some(UnaryExpr { syntax })
        } else {
            None
        }
    }

    /// The untyped node underneath.
    pub fn syntax(&self) -> (r: &SyntaxNode<'a>)
        ensures
            r == &self.syntax,
    {
        &self.syntax
    }
}

/// Typed view of a `BINARY_EXPR` node.
#[derive(Clone, Copy)]
pub struct BinaryExpr<'a> {
    pub syntax: SyntaxNode<'a>,
}

impl<'a> BinaryExpr<'a> {
    /// True exactly of the kind this wrapper stands for.
    pub open spec fn spec_can_cast(kind: SyntaxKind) -> bool {
        kind is BINARY_EXPR
    }

    /// Executable form of [`Self::spec_can_cast`].
    pub fn can_cast(kind: SyntaxKind) -> (r: bool)
        ensures
            r == Self::spec_can_cast(kind),
    {
        matches!(kind, SyntaxKind::BINARY_EXPR)
    }

    /// Wraps the node exactly when it has the right kind.
    pub fn cast(syntax: SyntaxNode<'a>) -> (r: Option<BinaryExpr<'a>>)
        ensures
            (r is Some) == Self::spec_can_cast(syntax.green.kind),
            r is Some ==> r.unwrap().syntax == syntax,
    {
        if Self::can_cast(syntax.kind()) {
            Some(BinaryExpr { syntax })
        } else {
            None
        }
    }

    /// The untyped node underneath.
    pub fn syntax(&self) -> (r: &SyntaxNode<'a>)
        ensures
            r == &self.syntax,
    {
        &self.syntax
    }
}

/// Typed view of a `BINOP` node.
#[derive(Clone, Copy)]
pub struct Binop<'a> {
    pub syntax: SyntaxNode<'a>,
}

impl<'a> Binop<'a> {
    /// True exactly of the kind this wrapper stands for.
    pub open spec fn spec_can_cast(kind: SyntaxKind) -> bool {
        kind is BINOP
    }

    /// Executable form of [`Self::spec_can_cast`].
    pub fn can_cast(kind: SyntaxKind) -> (r: bool)
        ensures
            r == Self::spec_can_cast(kind),
    {
        matches!(kind, SyntaxKind::BINOP)
    }

    /// Wraps the node exactly when it has the right kind.
    pub fn cast(syntax: SyntaxNode<'a>) -> (r: Option<Binop<'a>>)
        ensures
            (r is Some) == Self::spec_can_cast(syntax.green.kind),
            r is Some ==> r.unwrap().syntax == syntax,
    {
        if Self::can_cast(syntax.kind()) {
            Some(Binop { syntax })
        } else {
            None
        }
    }

    /// The untyped node underneath.
    pub fn syntax(&self) -> (r: &SyntaxNode<'a>)
        ensures
            r == &self.syntax,
    {
        &self.syntax
    }
}

/// Typed view of a `LAMBDA_EXPR` node.
#[derive(Clone, Copy)]
pub struct LambdaExpr<'a> {
    pub syntax: SyntaxNode<'a>,
}

impl<'a> LambdaExpr<'a> {
    /// True exactly of the kind this wrapper stands for.
    pub open spec fn spec_can_cast(kind: SyntaxKind) -> bool {
        kind is LAMBDA_EXPR
    }

    /// Executable form of [`Self::spec_can_cast`].
    pub fn can_cast(kind: SyntaxKind) -> (r: bool)
        ensures
            r == Self::spec_can_cast(kind),
    {
        matches!(kind, SyntaxKind::LAMBDA_EXPR)
    }

    /// Wraps the node exactly when it has the right kind.
    pub fn cast(syntax: SyntaxNode<'a>) -> (r: Option<LambdaExpr<'a>>)
        ensures
            (r is Some) == Self::spec_can_cast(syntax.green.kind),
            r is Some ==> r.unwrap().syntax == syntax,
    {
        if Self::can_cast(syntax.kind()) {
            Some(LambdaExpr { syntax })
        } else {
            None
        }
    }

    /// The untyped node underneath.
    pub fn syntax(&self) -> (r: &SyntaxNode<'a>)
        ensures
            r == &self.syntax,
    {
        &self.syntax
    }
}

/// Typed view of a `EXPRESSION` node.
#[derive(Clone, Copy)]
pub struct Expression<'a> {
    pub syntax: SyntaxNode<'a>,
}

impl<'a> Expression<'a> {
    /// True exactly of the kind this wrapper stands for.
    pub open spec fn spec_can_cast(kind: SyntaxKind) -> bool {
        kind is EXPRESSION
    }

    /// Executable form of [`Self::spec_can_cast`].
    pub fn can_cast(kind: SyntaxKind) -> (r: bool)
        ensures
            r == Self::spec_can_cast(kind),
    {
        matches!(kind, SyntaxKind::EXPRESSION)
    }

    /// Wraps the node exactly when it has the right kind.
    pub fn cast(syntax: SyntaxNode<'a>) -> (r: Option<Expression<'a>>)
        ensures
            (r is Some) == Self::spec_can_cast(syntax.green.kind),
            r is Some ==> r.unwrap().syntax == syntax,
    {
        if Self::can_cast(syntax.kind()) {
            Some(Expression { syntax })
        } else {
            None
        }
    }

    /// The untyped node underneath.
    pub fn syntax(&self) -> (r: &SyntaxNode<'a>)
        ensures
            r == &self.syntax,
    {
        &self.syntax
    }
}

/// Typed view of a `LOOP_VARIABLES` node.
#[derive(Clone, Copy)]
pub struct LoopVariables<'a> {
    pub syntax: SyntaxNode<'a>,
}

impl<'a> LoopVariables<'a> {
    /// True exactly of the kind this wrapper stands for.
    pub open spec fn spec_can_cast(kind: SyntaxKind) -> bool {
        kind is LOOP_VARIABLES
    }

    /// Executable form of [`Self::spec_can_cast`].
    pub fn can_cast(kind: SyntaxKind) -> (r: bool)
        ensures
            r == Self::spec_can_cast(kind),
    {
        matches!(kind, SyntaxKind::LOOP_VARIABLES)
    }

    /// Wraps the node exactly when it has the right kind.
    pub fn cast(syntax: SyntaxNode<'a>) -> (r: Option<LoopVariables<'a>>)
        ensures
            (r is Some) == Self::spec_can_cast(syntax.green.kind),
            r is Some ==> r.unwrap().syntax == syntax,
    {
        if Self::can_cast(syntax.kind()) {
            Some(LoopVariables { syntax })
        } else {
            None
        }
    }

    /// The untyped node underneath.
    pub fn syntax(&self) -> (r: &SyntaxNode<'a>)
        ensures
            r == &self.syntax,
    {
        &self.syntax
    }
}



/// The members of `ns[..i]` whose kind is `kind`, in order.
pub open spec fn nodes_of_kind(ns: Seq<GreenNode>, i: int, kind: SyntaxKind) -> Seq<GreenNode>
    decreases i,
{
    if 0 < i <= ns.len() {
        nodes_of_kind(ns, i - 1, kind) + (if ns[i - 1].kind == kind {
            seq![ns[i - 1]]
        } else {
            Seq::empty()
        })
    } else {
        Seq::empty()
    }
}

/// The child nodes of `n` whose kind is `kind`, in order: what a typed
/// accessor hands out.
pub open spec fn kind_children(n: GreenNode, kind: SyntaxKind) -> Seq<GreenNode> {
    let ns = crate::node::nodes_upto(n.children@, n.children@.len() as int);
    nodes_of_kind(ns, ns.len() as int, kind)
}

/// Once the first node of the kind is found, it stays the first, whatever
/// comes after.
proof fn lemma_first_of_kind(ns: Seq<GreenNode>, i: int, l: int, kind: SyntaxKind)
    requires
        0 <= i < l <= ns.len(),
        nodes_of_kind(ns, i, kind).len() == 0,
        ns[i].kind == kind,
    ensures
        nodes_of_kind(ns, l, kind).len() >= 1,
        nodes_of_kind(ns, l, kind)[0] == ns[i],
    decreases l,
{
    if l == i + 1 {
        assert(nodes_of_kind(ns, i, kind) =~= Seq::<GreenNode>::empty());
        assert(nodes_of_kind(ns, l, kind) =~= seq![ns[i]]);
    } else {
        lemma_first_of_kind(ns, i, l - 1, kind);
    }
}


impl<'a> File<'a> {
    /// The file's statements, in order. Hands out exactly the `STATEMENT` child nodes, in order.
    pub fn statements(&self) -> (r: Vec<Statement<'a>>)
        requires
            node_in_range(self.syntax),
        ensures
            r@.len() == kind_children(*self.syntax.green, SyntaxKind::STATEMENT).len(),
            forall|j: int|
                0 <= j < r@.len() ==> *(#[trigger] r@[j]).syntax.green == kind_children(
                    *self.syntax.green,
                    SyntaxKind::STATEMENT,
                )[j] && node_in_range(r@[j].syntax) && r@[j].syntax.green.kind is STATEMENT,
    {
        let kids = self.syntax.children();
        let ghost ns = crate::node::nodes_upto(
            self.syntax.green.children@,
            self.syntax.green.children@.len() as int,
        );
        let mut r: Vec<Statement<'a>> = Vec::new();
        let mut i: usize = 0;
        while i < kids.len()
            invariant
                i <= kids@.len(),
                kids@.len() == ns.len(),
                ns == crate::node::nodes_upto(
                    self.syntax.green.children@,
                    self.syntax.green.children@.len() as int,
                ),
                forall|j: int|
                    0 <= j < kids@.len() ==> *(#[trigger] kids@[j]).green == ns[j]
                        && node_in_range(kids@[j]),
                r@.len() == nodes_of_kind(ns, i as int, SyntaxKind::STATEMENT).len(),
                forall|j: int|
                    0 <= j < r@.len() ==> *(#[trigger] r@[j]).syntax.green == nodes_of_kind(
                        ns,
                        i as int,
                        SyntaxKind::STATEMENT,
                    )[j] && node_in_range(r@[j].syntax) && r@[j].syntax.green.kind is STATEMENT,
            decreases kids@.len() - i,
        {
            match Statement::cast(kids[i]) {
                Some(x) => {
                    r.push(x);
                },
                None => {
                },
            }
            i = i + 1;
        }
        r
    }
}

impl<'a> Statement<'a> {
    /// The function definition this statement holds, if that is what it is. Finds the first `DEF_STMT` child node; answers `None` exactly
    /// when there is none.
    pub fn def_stmt(&self) -> (r: Option<DefStmt<'a>>)
        requires
            node_in_range(self.syntax),
        ensures
            (r is None) == (kind_children(*self.syntax.green, SyntaxKind::DEF_STMT).len() == 0),
            r is Some ==> *(r.unwrap().syntax.green) == kind_children(
                *self.syntax.green,
                SyntaxKind::DEF_STMT,
            )[0] && node_in_range(r.unwrap().syntax) && r.unwrap().syntax.green.kind is DEF_STMT,
    {
        let kids = self.syntax.children();
        let ghost ns = crate::node::nodes_upto(
            self.syntax.green.children@,
            self.syntax.green.children@.len() as int,
        );
        let mut i: usize = 0;
        while i < kids.len()
            invariant
                i <= kids@.len(),
                kids@.len() == ns.len(),
                ns == crate::node::nodes_upto(
                    self.syntax.green.children@,
                    self.syntax.green.children@.len() as int,
                ),
                forall|j: int|
                    0 <= j < kids@.len() ==> *(#[trigger] kids@[j]).green == ns[j]
                        && node_in_range(kids@[j]),
                nodes_of_kind(ns, i as int, SyntaxKind::DEF_STMT).len() == 0,
            decreases kids@.len() - i,
        {
            match DefStmt::cast(kids[i]) {
                Some(x) => {
                    proof {
                        lemma_first_of_kind(ns, i as int, ns.len() as int, SyntaxKind::DEF_STMT);
                    }
                    return Some(x);
                },
                None => {
                },
            }
            i = i + 1;
        }
        None
    }
}

impl<'a> Statement<'a> {
    /// The conditional this statement holds, if that is what it is. Finds the first `IF_STMT` child node; answers `None` exactly
    /// when there is none.
    pub fn if_stmt(&self) -> (r: Option<IfStmt<'a>>)
        requires
            node_in_range(self.syntax),
        ensures
            (r is None) == (kind_children(*self.syntax.green, SyntaxKind::IF_STMT).len() == 0),
            r is Some ==> *(r.unwrap().syntax.green) == kind_children(
                *self.syntax.green,
                SyntaxKind::IF_STMT,
            )[0] && node_in_range(r.unwrap().syntax) && r.unwrap().syntax.green.kind is IF_STMT,
    {
        let kids = self.syntax.children();
        let ghost ns = crate::node::nodes_upto(
            self.syntax.green.children@,
            self.syntax.green.children@.len() as int,
        );
        let mut i: usize = 0;
        while i < kids.len()
            invariant
                i <= kids@.len(),
                kids@.len() == ns.len(),
                ns == crate::node::nodes_upto(
                    self.syntax.green.children@,
                    self.syntax.green.children@.len() as int,
                ),
                forall|j: int|
                    0 <= j < kids@.len() ==> *(#[trigger] kids@[j]).green == ns[j]
                        && node_in_range(kids@[j]),
                nodes_of_kind(ns, i as int, SyntaxKind::IF_STMT).len() == 0,
            decreases kids@.len() - i,
        {
            match IfStmt::cast(kids[i]) {
                Some(x) => {
                    proof {
                        lemma_first_of_kind(ns, i as int, ns.len() as int, SyntaxKind::IF_STMT);
                    }
                    return Some(x);
                },
                None => {
                },
            }
            i = i + 1;
        }
        None
    }
}

impl<'a> Statement<'a> {
    /// The loop this statement holds, if that is what it is. Finds the first `FOR_STMT` child node; answers `None` exactly
    /// when there is none.
    pub fn for_stmt(&self) -> (r: Option<ForStmt<'a>>)
        requires
            node_in_range(self.syntax),
        ensures
            (r is None) == (kind_children(*self.syntax.green, SyntaxKind::FOR_STMT).len() == 0),
            r is Some ==> *(r.unwrap().syntax.green) == kind_children(
                *self.syntax.green,
                SyntaxKind::FOR_STMT,
            )[0] && node_in_range(r.unwrap().syntax) && r.unwrap().syntax.green.kind is FOR_STMT,
    {
        let kids = self.syntax.children();
        let ghost ns = crate::node::nodes_upto(
            self.syntax.green.children@,
            self.syntax.green.children@.len() as int,
        );
        let mut i: usize = 0;
        while i < kids.len()
            invariant
                i <= kids@.len(),
                kids@.len() == ns.len(),
                ns == crate::node::nodes_upto(
                    self.syntax.green.children@,
                    self.syntax.green.children@.len() as int,
                ),
                forall|j: int|
                    0 <= j < kids@.len() ==> *(#[trigger] kids@[j]).green == ns[j]
                        && node_in_range(kids@[j]),
                nodes_of_kind(ns, i as int, SyntaxKind::FOR_STMT).len() == 0,
            decreases kids@.len() - i,
        {
            match ForStmt::cast(kids[i]) {
                Some(x) => {
                    proof {
                        lemma_first_of_kind(ns, i as int, ns.len() as int, SyntaxKind::FOR_STMT);
                    }
                    return Some(x);
                },
                None => {
                },
            }
            i = i + 1;
        }
        None
    }
}

impl<'a> Statement<'a> {
    /// The simple statement this statement holds, if that is what it is. Finds the first `SIMPLE_STMT` child node; answers `None` exactly
    /// when there is none.
    pub fn simple_stmt(&self) -> (r: Option<SimpleStmt<'a>>)
        requires
            node_in_range(self.syntax),
        ensures
            (r is None) == (kind_children(*self.syntax.green, SyntaxKind::SIMPLE_STMT).len() == 0),
            r is Some ==> *(r.unwrap().syntax.green) == kind_children(
                *self.syntax.green,
                SyntaxKind::SIMPLE_STMT,
            )[0] && node_in_range(r.unwrap().syntax) && r.unwrap().syntax.green.kind is SIMPLE_STMT,
    {
        let kids = self.syntax.children();
        let ghost ns = crate::node::nodes_upto(
            self.syntax.green.children@,
            self.syntax.green.children@.len() as int,
        );
        let mut i: usize = 0;
        while i < kids.len()
            invariant
                i <= kids@.len(),
                kids@.len() == ns.len(),
                ns == crate::node::nodes_upto(
                    self.syntax.green.children@,
                    self.syntax.green.children@.len() as int,
                ),
                forall|j: int|
                    0 <= j < kids@.len() ==> *(#[trigger] kids@[j]).green == ns[j]
                        && node_in_range(kids@[j]),
                nodes_of_kind(ns, i as int, SyntaxKind::SIMPLE_STMT).len() == 0,
            decreases kids@.len() - i,
        {
            match SimpleStmt::cast(kids[i]) {
                Some(x) => {
                    proof {
                        lemma_first_of_kind(ns, i as int, ns.len() as int, SyntaxKind::SIMPLE_STMT);
                    }
                    return Some(x);
                },
                None => {
                },
            }
            i = i + 1;
        }
        None
    }
}

impl<'a> DefStmt<'a> {
    /// The parameter list, when the definition has one. Finds the first `PARAMETERS` child node; answers `None` exactly
    /// when there is none.
    pub fn parameters(&self) -> (r: Option<Parameters<'a>>)
        requires
            node_in_range(self.syntax),
        ensures
            (r is None) == (kind_children(*self.syntax.green, SyntaxKind::PARAMETERS).len() == 0),
            r is Some ==> *(r.unwrap().syntax.green) == kind_children(
                *self.syntax.green,
                SyntaxKind::PARAMETERS,
            )[0] && node_in_range(r.unwrap().syntax) && r.unwrap().syntax.green.kind is PARAMETERS,
    {
        let kids = self.syntax.children();
        let ghost ns = crate::node::nodes_upto(
            self.syntax.green.children@,
            self.syntax.green.children@.len() as int,
        );
        let mut i: usize = 0;
        while i < kids.len()
            invariant
                i <= kids@.len(),
                kids@.len() == ns.len(),
                ns == crate::node::nodes_upto(
                    self.syntax.green.children@,
                    self.syntax.green.children@.len() as int,
                ),
                forall|j: int|
                    0 <= j < kids@.len() ==> *(#[trigger] kids@[j]).green == ns[j]
                        && node_in_range(kids@[j]),
                nodes_of_kind(ns, i as int, SyntaxKind::PARAMETERS).len() == 0,
            decreases kids@.len() - i,
        {
            match Parameters::cast(kids[i]) {
                Some(x) => {
                    proof {
                        lemma_first_of_kind(ns, i as int, ns.len() as int, SyntaxKind::PARAMETERS);
                    }
                    return Some(x);
                },
                None => {
                },
            }
            i = i + 1;
        }
        None
    }
}

impl<'a> DefStmt<'a> {
    /// The function body. Finds the first `SUITE` child node; answers `None` exactly
    /// when there is none.
    pub fn body(&self) -> (r: Option<Suite<'a>>)
        requires
            node_in_range(self.syntax),
        ensures
            (r is None) == (kind_children(*self.syntax.green, SyntaxKind::SUITE).len() == 0),
            r is Some ==> *(r.unwrap().syntax.green) == kind_children(
                *self.syntax.green,
                SyntaxKind::SUITE,
            )[0] && node_in_range(r.unwrap().syntax) && r.unwrap().syntax.green.kind is SUITE,
    {
        let kids = self.syntax.children();
        let ghost ns = crate::node::nodes_upto(
            self.syntax.green.children@,
            self.syntax.green.children@.len() as int,
        );
        let mut i: usize = 0;
        while i < kids.len()
            invariant
                i <= kids@.len(),
                kids@.len() == ns.len(),
                ns == crate::node::nodes_upto(
                    self.syntax.green.children@,
                    self.syntax.green.children@.len() as int,
                ),
                forall|j: int|
                    0 <= j < kids@.len() ==> *(#[trigger] kids@[j]).green == ns[j]
                        && node_in_range(kids@[j]),
                nodes_of_kind(ns, i as int, SyntaxKind::SUITE).len() == 0,
            decreases kids@.len() - i,
        {
            match Suite::cast(kids[i]) {
                Some(x) => {
                    proof {
                        lemma_first_of_kind(ns, i as int, ns.len() as int, SyntaxKind::SUITE);
                    }
                    return Some(x);
                },
                None => {
                },
            }
            i = i + 1;
        }
        None
    }
}

impl<'a> Parameters<'a> {
    /// The single parameters, in order. Hands out exactly the `PARAMETER` child nodes, in order.
    pub fn parameters(&self) -> (r: Vec<Parameter<'a>>)
        requires
            node_in_range(self.syntax),
        ensures
            r@.len() == kind_children(*self.syntax.green, SyntaxKind::PARAMETER).len(),
            forall|j: int|
                0 <= j < r@.len() ==> *(#[trigger] r@[j]).syntax.green == kind_children(
                    *self.syntax.green,
                    SyntaxKind::PARAMETER,
                )[j] && node_in_range(r@[j].syntax) && r@[j].syntax.green.kind is PARAMETER,
    {
        let kids = self.syntax.children();
        let ghost ns = crate::node::nodes_upto(
            self.syntax.green.children@,
            self.syntax.green.children@.len() as int,
        );
        let mut r: Vec<Parameter<'a>> = Vec::new();
        let mut i: usize = 0;
        while i < kids.len()
            invariant
                i <= kids@.len(),
                kids@.len() == ns.len(),
                ns == crate::node::nodes_upto(
                    self.syntax.green.children@,
                    self.syntax.green.children@.len() as int,
                ),
                forall|j: int|
                    0 <= j < kids@.len() ==> *(#[trigger] kids@[j]).green == ns[j]
                        && node_in_range(kids@[j]),
                r@.len() == nodes_of_kind(ns, i as int, SyntaxKind::PARAMETER).len(),
                forall|j: int|
                    0 <= j < r@.len() ==> *(#[trigger] r@[j]).syntax.green == nodes_of_kind(
                        ns,
                        i as int,
                        SyntaxKind::PARAMETER,
                    )[j] && node_in_range(r@[j].syntax) && r@[j].syntax.green.kind is PARAMETER,
            decreases kids@.len() - i,
        {
            match Parameter::cast(kids[i]) {
                Some(x) => {
                    r.push(x);
                },
                None => {
                },
            }
            i = i + 1;
        }
        r
    }
}

impl<'a> Suite<'a> {
    /// The statements of the block form, in order. Hands out exactly the `STATEMENT` child nodes, in order.
    pub fn statements(&self) -> (r: Vec<Statement<'a>>)
        requires
            node_in_range(self.syntax),
        ensures
            r@.len() == kind_children(*self.syntax.green, SyntaxKind::STATEMENT).len(),
            forall|j: int|
                0 <= j < r@.len() ==> *(#[trigger] r@[j]).syntax.green == kind_children(
                    *self.syntax.green,
                    SyntaxKind::STATEMENT,
                )[j] && node_in_range(r@[j].syntax) && r@[j].syntax.green.kind is STATEMENT,
    {
        let kids = self.syntax.children();
        let ghost ns = crate::node::nodes_upto(
            self.syntax.green.children@,
            self.syntax.green.children@.len() as int,
        );
        let mut r: Vec<Statement<'a>> = Vec::new();
        let mut i: usize = 0;
        while i < kids.len()
            invariant
                i <= kids@.len(),
                kids@.len() == ns.len(),
                ns == crate::node::nodes_upto(
                    self.syntax.green.children@,
                    self.syntax.green.children@.len() as int,
                ),
                forall|j: int|
                    0 <= j < kids@.len() ==> *(#[trigger] kids@[j]).green == ns[j]
                        && node_in_range(kids@[j]),
                r@.len() == nodes_of_kind(ns, i as int, SyntaxKind::STATEMENT).len(),
                forall|j: int|
                    0 <= j < r@.len() ==> *(#[trigger] r@[j]).syntax.green == nodes_of_kind(
                        ns,
                        i as int,
                        SyntaxKind::STATEMENT,
                    )[j] && node_in_range(r@[j].syntax) && r@[j].syntax.green.kind is STATEMENT,
            decreases kids@.len() - i,
        {
            match Statement::cast(kids[i]) {
                Some(x) => {
                    r.push(x);
                },
                None => {
                },
            }
            i = i + 1;
        }
        r
    }
}

impl<'a> Suite<'a> {
    /// The one-line form's statement, when the suite is one. Finds the first `SIMPLE_STMT` child node; answers `None` exactly
    /// when there is none.
    pub fn simple_stmt(&self) -> (r: Option<SimpleStmt<'a>>)
        requires
            node_in_range(self.syntax),
        ensures
            (r is None) == (kind_children(*self.syntax.green, SyntaxKind::SIMPLE_STMT).len() == 0),
            r is Some ==> *(r.unwrap().syntax.green) == kind_children(
                *self.syntax.green,
                SyntaxKind::SIMPLE_STMT,
            )[0] && node_in_range(r.unwrap().syntax) && r.unwrap().syntax.green.kind is SIMPLE_STMT,
    {
        let kids = self.syntax.children();
        let ghost ns = crate::node::nodes_upto(
            self.syntax.green.children@,
            self.syntax.green.children@.len() as int,
        );
        let mut i: usize = 0;
        while i < kids.len()
            invariant
                i <= kids@.len(),
                kids@.len() == ns.len(),
                ns == crate::node::nodes_upto(
                    self.syntax.green.children@,
                    self.syntax.green.children@.len() as int,
                ),
                forall|j: int|
                    0 <= j < kids@.len() ==> *(#[trigger] kids@[j]).green == ns[j]
                        && node_in_range(kids@[j]),
                nodes_of_kind(ns, i as int, SyntaxKind::SIMPLE_STMT).len() == 0,
            decreases kids@.len() - i,
        {
            match SimpleStmt::cast(kids[i]) {
                Some(x) => {
                    proof {
                        lemma_first_of_kind(ns, i as int, ns.len() as int, SyntaxKind::SIMPLE_STMT);
                    }
                    return Some(x);
                },
                None => {
                },
            }
            i = i + 1;
        }
        None
    }
}

impl<'a> SimpleStmt<'a> {
    /// The semicolon-separated small statements, in order. Hands out exactly the `SMALL_STMT` child nodes, in order.
    pub fn small_stmts(&self) -> (r: Vec<SmallStmt<'a>>)
        requires
            node_in_range(self.syntax),
        ensures
            r@.len() == kind_children(*self.syntax.green, SyntaxKind::SMALL_STMT).len(),
            forall|j: int|
                0 <= j < r@.len() ==> *(#[trigger] r@[j]).syntax.green == kind_children(
                    *self.syntax.green,
                    SyntaxKind::SMALL_STMT,
                )[j] && node_in_range(r@[j].syntax) && r@[j].syntax.green.kind is SMALL_STMT,
    {
        let kids = self.syntax.children();
        let ghost ns = crate::node::nodes_upto(
            self.syntax.green.children@,
            self.syntax.green.children@.len() as int,
        );
        let mut r: Vec<SmallStmt<'a>> = Vec::new();
        let mut i: usize = 0;
        while i < kids.len()
            invariant
                i <= kids@.len(),
                kids@.len() == ns.len(),
                ns == crate::node::nodes_upto(
                    self.syntax.green.children@,
                    self.syntax.green.children@.len() as int,
                ),
                forall|j: int|
                    0 <= j < kids@.len() ==> *(#[trigger] kids@[j]).green == ns[j]
                        && node_in_range(kids@[j]),
                r@.len() == nodes_of_kind(ns, i as int, SyntaxKind::SMALL_STMT).len(),
                forall|j: int|
                    0 <= j < r@.len() ==> *(#[trigger] r@[j]).syntax.green == nodes_of_kind(
                        ns,
                        i as int,
                        SyntaxKind::SMALL_STMT,
                    )[j] && node_in_range(r@[j].syntax) && r@[j].syntax.green.kind is SMALL_STMT,
            decreases kids@.len() - i,
        {
            match SmallStmt::cast(kids[i]) {
                Some(x) => {
                    r.push(x);
                },
                None => {
                },
            }
            i = i + 1;
        }
        r
    }
}

impl<'a> SmallStmt<'a> {
    /// The `pass` this small statement holds, if that is what it is. Finds the first `PASS_STMT` child node; answers `None` exactly
    /// when there is none.
    pub fn pass_stmt(&self) -> (r: Option<PassStmt<'a>>)
        requires
            node_in_range(self.syntax),
        ensures
            (r is None) == (kind_children(*self.syntax.green, SyntaxKind::PASS_STMT).len() == 0),
            r is Some ==> *(r.unwrap().syntax.green) == kind_children(
                *self.syntax.green,
                SyntaxKind::PASS_STMT,
            )[0] && node_in_range(r.unwrap().syntax) && r.unwrap().syntax.green.kind is PASS_STMT,
    {
        let kids = self.syntax.children();
        let ghost ns = crate::node::nodes_upto(
            self.syntax.green.children@,
            self.syntax.green.children@.len() as int,
        );
        let mut i: usize = 0;
        while i < kids.len()
            invariant
                i <= kids@.len(),
                kids@.len() == ns.len(),
                ns == crate::node::nodes_upto(
                    self.syntax.green.children@,
                    self.syntax.green.children@.len() as int,
                ),
                forall|j: int|
                    0 <= j < kids@.len() ==> *(#[trigger] kids@[j]).green == ns[j]
                        && node_in_range(kids@[j]),
                nodes_of_kind(ns, i as int, SyntaxKind::PASS_STMT).len() == 0,
            decreases kids@.len() - i,
        {
            match PassStmt::cast(kids[i]) {
                Some(x) => {
                    proof {
                        lemma_first_of_kind(ns, i as int, ns.len() as int, SyntaxKind::PASS_STMT);
                    }
                    return Some(x);
                },
                None => {
                },
            }
            i = i + 1;
        }
        None
    }
}

impl<'a> SmallStmt<'a> {
    /// The expression statement this small statement holds, if that is what it is. Finds the first `EXPR_STMT` child node; answers `None` exactly
    /// when there is none.
    pub fn expr_stmt(&self) -> (r: Option<ExprStmt<'a>>)
        requires
            node_in_range(self.syntax),
        ensures
            (r is None) == (kind_children(*self.syntax.green, SyntaxKind::EXPR_STMT).len() == 0),
            r is Some ==> *(r.unwrap().syntax.green) == kind_children(
                *self.syntax.green,
                SyntaxKind::EXPR_STMT,
            )[0] && node_in_range(r.unwrap().syntax) && r.unwrap().syntax.green.kind is EXPR_STMT,
    {
        let kids = self.syntax.children();
        let ghost ns = crate::node::nodes_upto(
            self.syntax.green.children@,
            self.syntax.green.children@.len() as int,
        );
        let mut i: usize = 0;
        while i < kids.len()
            invariant
                i <= kids@.len(),
                kids@.len() == ns.len(),
                ns == crate::node::nodes_upto(
                    self.syntax.green.children@,
                    self.syntax.green.children@.len() as int,
                ),
                forall|j: int|
                    0 <= j < kids@.len() ==> *(#[trigger] kids@[j]).green == ns[j]
                        && node_in_range(kids@[j]),
                nodes_of_kind(ns, i as int, SyntaxKind::EXPR_STMT).len() == 0,
            decreases kids@.len() - i,
        {
            match ExprStmt::cast(kids[i]) {
                Some(x) => {
                    proof {
                        lemma_first_of_kind(ns, i as int, ns.len() as int, SyntaxKind::EXPR_STMT);
                    }
                    return Some(x);
                },
                None => {
                },
            }
            i = i + 1;
        }
        None
    }
}

impl<'a> SmallStmt<'a> {
    /// The assignment this small statement holds, if that is what it is. Finds the first `ASSIGN_STMT` child node; answers `None` exactly
    /// when there is none.
    pub fn assign_stmt(&self) -> (r: Option<AssignStmt<'a>>)
        requires
            node_in_range(self.syntax),
        ensures
            (r is None) == (kind_children(*self.syntax.green, SyntaxKind::ASSIGN_STMT).len() == 0),
            r is Some ==> *(r.unwrap().syntax.green) == kind_children(
                *self.syntax.green,
                SyntaxKind::ASSIGN_STMT,
            )[0] && node_in_range(r.unwrap().syntax) && r.unwrap().syntax.green.kind is ASSIGN_STMT,
    {
        let kids = self.syntax.children();
        let ghost ns = crate::node::nodes_upto(
            self.syntax.green.children@,
            self.syntax.green.children@.len() as int,
        );
        let mut i: usize = 0;
        while i < kids.len()
            invariant
                i <= kids@.len(),
                kids@.len() == ns.len(),
                ns == crate::node::nodes_upto(
                    self.syntax.green.children@,
                    self.syntax.green.children@.len() as int,
                ),
                forall|j: int|
                    0 <= j < kids@.len() ==> *(#[trigger] kids@[j]).green == ns[j]
                        && node_in_range(kids@[j]),
                nodes_of_kind(ns, i as int, SyntaxKind::ASSIGN_STMT).len() == 0,
            decreases kids@.len() - i,
        {
            match AssignStmt::cast(kids[i]) {
                Some(x) => {
                    proof {
                        lemma_first_of_kind(ns, i as int, ns.len() as int, SyntaxKind::ASSIGN_STMT);
                    }
                    return Some(x);
                },
                None => {
                },
            }
            i = i + 1;
        }
        None
    }
}

} // verus!
