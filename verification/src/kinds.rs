use vstd::prelude::*;

verus! {

/// Every lexical and structural category of the language, in one closed,
/// totally ordered enumeration. `TOMBSTONE` is a placeholder that never
/// survives into a finished tree; `__LAST` is a fencepost, not a real kind.
#[allow(non_camel_case_types)]
#[derive(Debug, Clone, Copy, PartialEq, Eq, Hash, Structural)]
pub enum SyntaxKind {
    TOMBSTONE,
    EOF,
    IDENTIFIER,
    INT,
    FLOAT,
    STRING,
    BYTES,
    WHITESPACE,
    COMMENT,
    NEWLINE,
    INDENT,
    OUTDENT,
    UNKNOWN,
    AND_KW,
    ELSE_KW,
    LOAD_KW,
    BREAK_KW,
    FOR_KW,
    NOT_KW,
    CONTINUE_KW,
    IF_KW,
    OR_KW,
    DEF_KW,
    IN_KW,
    PASS_KW,
    ELIF_KW,
    LAMBDA_KW,
    RETURN_KW,
    PLUS,
    MINUS,
    STAR,
    SLASH,
    DSLASH,
    PERCENT,
    DSTAR,
    TILDE,
    AMP,
    PIPE,
    CARET,
    LSHIFT,
    RSHIFT,
    DOT,
    COMMA,
    EQ,
    SEMICOLON,
    COLON,
    LPAREN,
    RPAREN,
    LBRACKET,
    RBRACKET,
    LBRACE,
    RBRACE,
    LT,
    GT,
    GE,
    LE,
    EQEQ,
    NE,
    PLUSEQ,
    MINUSEQ,
    STAREQ,
    SLASHEQ,
    PERCENTEQ,
    AMPEQ,
    PIPEEQ,
    CARETEQ,
    LSHIFTEQ,
    RSHIFTEQ,
    FILE,
    STATEMENT,
    DEF_STMT,
    PARAMETERS,
    PARAMETER,
    IF_STMT,
    ELIF_CLAUSES,
    ELSE_CLAUSE,
    FOR_STMT,
    SUITE,
    SIMPLE_STMT,
    SMALL_STMT,
    RETURN_STMT,
    BREAK_STMT,
    CONTINUE_STMT,
    PASS_STMT,
    ASSIGN_STMT,
    EXPR_STMT,
    LOAD_STMT,
    TEST,
    BIN_OP,
    IF_EXPR,
    PRIMARY_EXPR,
    OPERAND,
    DOT_SUFFIX,
    SLICE_SUFFIX,
    CALL_SUFFIX,
    ARGUMENTS,
    ARGUMENT,
    LIST_EXPR,
    LIST_COMP,
    DICT_EXPR,
    DICT_COMP,
    ENTRIES,
    ENTRY,
    COMP_CLAUSE,
    UNARY_EXPR,
    BINARY_EXPR,
    BINOP,
    LAMBDA_EXPR,
    EXPRESSION,
    LOOP_VARIABLES,
    __LAST,
}

/// The ordinal of a kind: its position in the declaration order, the bit
/// it occupies in a `TokenSet`.
pub open spec fn kind_ord(k: SyntaxKind) -> int {
    match k {
        SyntaxKind::TOMBSTONE => 0,
        SyntaxKind::EOF => 1,
        SyntaxKind::IDENTIFIER => 2,
        SyntaxKind::INT => 3,
        SyntaxKind::FLOAT => 4,
        SyntaxKind::STRING => 5,
        SyntaxKind::BYTES => 6,
        SyntaxKind::WHITESPACE => 7,
        SyntaxKind::COMMENT => 8,
        SyntaxKind::NEWLINE => 9,
        SyntaxKind::INDENT => 10,
        SyntaxKind::OUTDENT => 11,
        SyntaxKind::UNKNOWN => 12,
        SyntaxKind::AND_KW => 13,
        SyntaxKind::ELSE_KW => 14,
        SyntaxKind::LOAD_KW => 15,
        SyntaxKind::BREAK_KW => 16,
        SyntaxKind::FOR_KW => 17,
        SyntaxKind::NOT_KW => 18,
        SyntaxKind::CONTINUE_KW => 19,
        SyntaxKind::IF_KW => 20,
        SyntaxKind::OR_KW => 21,
        SyntaxKind::DEF_KW => 22,
        SyntaxKind::IN_KW => 23,
        SyntaxKind::PASS_KW => 24,
        SyntaxKind::ELIF_KW => 25,
        SyntaxKind::LAMBDA_KW => 26,
        SyntaxKind::RETURN_KW => 27,
        SyntaxKind::PLUS => 28,
        SyntaxKind::MINUS => 29,
        SyntaxKind::STAR => 30,
        SyntaxKind::SLASH => 31,
        SyntaxKind::DSLASH => 32,
        SyntaxKind::PERCENT => 33,
        SyntaxKind::DSTAR => 34,
        SyntaxKind::TILDE => 35,
        SyntaxKind::AMP => 36,
        SyntaxKind::PIPE => 37,
        SyntaxKind::CARET => 38,
        SyntaxKind::LSHIFT => 39,
        SyntaxKind::RSHIFT => 40,
        SyntaxKind::DOT => 41,
        SyntaxKind::COMMA => 42,
        SyntaxKind::EQ => 43,
        SyntaxKind::SEMICOLON => 44,
        SyntaxKind::COLON => 45,
        SyntaxKind::LPAREN => 46,
        SyntaxKind::RPAREN => 47,
        SyntaxKind::LBRACKET => 48,
        SyntaxKind::RBRACKET => 49,
        SyntaxKind::LBRACE => 50,
        SyntaxKind::RBRACE => 51,
        SyntaxKind::LT => 52,
        SyntaxKind::GT => 53,
        SyntaxKind::GE => 54,
        SyntaxKind::LE => 55,
        SyntaxKind::EQEQ => 56,
        SyntaxKind::NE => 57,
        SyntaxKind::PLUSEQ => 58,
        SyntaxKind::MINUSEQ => 59,
        SyntaxKind::STAREQ => 60,
        SyntaxKind::SLASHEQ => 61,
        SyntaxKind::PERCENTEQ => 62,
        SyntaxKind::AMPEQ => 63,
        SyntaxKind::PIPEEQ => 64,
        SyntaxKind::CARETEQ => 65,
        SyntaxKind::LSHIFTEQ => 66,
        SyntaxKind::RSHIFTEQ => 67,
        SyntaxKind::FILE => 68,
        SyntaxKind::STATEMENT => 69,
        SyntaxKind::DEF_STMT => 70,
        SyntaxKind::PARAMETERS => 71,
        SyntaxKind::PARAMETER => 72,
        SyntaxKind::IF_STMT => 73,
        SyntaxKind::ELIF_CLAUSES => 74,
        SyntaxKind::ELSE_CLAUSE => 75,
        SyntaxKind::FOR_STMT => 76,
        SyntaxKind::SUITE => 77,
        SyntaxKind::SIMPLE_STMT => 78,
        SyntaxKind::SMALL_STMT => 79,
        SyntaxKind::RETURN_STMT => 80,
        SyntaxKind::BREAK_STMT => 81,
        SyntaxKind::CONTINUE_STMT => 82,
        SyntaxKind::PASS_STMT => 83,
        SyntaxKind::ASSIGN_STMT => 84,
        SyntaxKind::EXPR_STMT => 85,
        SyntaxKind::LOAD_STMT => 86,
        SyntaxKind::TEST => 87,
        SyntaxKind::BIN_OP => 88,
        SyntaxKind::IF_EXPR => 89,
        SyntaxKind::PRIMARY_EXPR => 90,
        SyntaxKind::OPERAND => 91,
        SyntaxKind::DOT_SUFFIX => 92,
        SyntaxKind::SLICE_SUFFIX => 93,
        SyntaxKind::CALL_SUFFIX => 94,
        SyntaxKind::ARGUMENTS => 95,
        SyntaxKind::ARGUMENT => 96,
        SyntaxKind::LIST_EXPR => 97,
        SyntaxKind::LIST_COMP => 98,
        SyntaxKind::DICT_EXPR => 99,
        SyntaxKind::DICT_COMP => 100,
        SyntaxKind::ENTRIES => 101,
        SyntaxKind::ENTRY => 102,
        SyntaxKind::COMP_CLAUSE => 103,
        SyntaxKind::UNARY_EXPR => 104,
        SyntaxKind::BINARY_EXPR => 105,
        SyntaxKind::BINOP => 106,
        SyntaxKind::LAMBDA_EXPR => 107,
        SyntaxKind::EXPRESSION => 108,
        SyntaxKind::LOOP_VARIABLES => 109,
        SyntaxKind::__LAST => 110,
    }
}

/// The kind at a given ordinal; `TOMBSTONE` for an ordinal no kind has.
pub open spec fn kind_of_ord(n: int) -> SyntaxKind {
    if n == 0 {
        SyntaxKind::TOMBSTONE
    } else if n == 1 {
        SyntaxKind::EOF
    } else if n == 2 {
        SyntaxKind::IDENTIFIER
    } else if n == 3 {
        SyntaxKind::INT
    } else if n == 4 {
        SyntaxKind::FLOAT
    } else if n == 5 {
        SyntaxKind::STRING
    } else if n == 6 {
        SyntaxKind::BYTES
    } else if n == 7 {
        SyntaxKind::WHITESPACE
    } else if n == 8 {
        SyntaxKind::COMMENT
    } else if n == 9 {
        SyntaxKind::NEWLINE
    } else if n == 10 {
        SyntaxKind::INDENT
    } else if n == 11 {
        SyntaxKind::OUTDENT
    } else if n == 12 {
        SyntaxKind::UNKNOWN
    } else if n == 13 {
        SyntaxKind::AND_KW
    } else if n == 14 {
        SyntaxKind::ELSE_KW
    } else if n == 15 {
        SyntaxKind::LOAD_KW
    } else if n == 16 {
        SyntaxKind::BREAK_KW
    } else if n == 17 {
        SyntaxKind::FOR_KW
    } else if n == 18 {
        SyntaxKind::NOT_KW
    } else if n == 19 {
        SyntaxKind::CONTINUE_KW
    } else if n == 20 {
        SyntaxKind::IF_KW
    } else if n == 21 {
        SyntaxKind::OR_KW
    } else if n == 22 {
        SyntaxKind::DEF_KW
    } else if n == 23 {
        SyntaxKind::IN_KW
    } else if n == 24 {
        SyntaxKind::PASS_KW
    } else if n == 25 {
        SyntaxKind::ELIF_KW
    } else if n == 26 {
        SyntaxKind::LAMBDA_KW
    } else if n == 27 {
        SyntaxKind::RETURN_KW
    } else if n == 28 {
        SyntaxKind::PLUS
    } else if n == 29 {
        SyntaxKind::MINUS
    } else if n == 30 {
        SyntaxKind::STAR
    } else if n == 31 {
        SyntaxKind::SLASH
    } else if n == 32 {
        SyntaxKind::DSLASH
    } else if n == 33 {
        SyntaxKind::PERCENT
    } else if n == 34 {
        SyntaxKind::DSTAR
    } else if n == 35 {
        SyntaxKind::TILDE
    } else if n == 36 {
        SyntaxKind::AMP
    } else if n == 37 {
        SyntaxKind::PIPE
    } else if n == 38 {
        SyntaxKind::CARET
    } else if n == 39 {
        SyntaxKind::LSHIFT
    } else if n == 40 {
        SyntaxKind::RSHIFT
    } else if n == 41 {
        SyntaxKind::DOT
    } else if n == 42 {
        SyntaxKind::COMMA
    } else if n == 43 {
        SyntaxKind::EQ
    } else if n == 44 {
        SyntaxKind::SEMICOLON
    } else if n == 45 {
        SyntaxKind::COLON
    } else if n == 46 {
        SyntaxKind::LPAREN
    } else if n == 47 {
        SyntaxKind::RPAREN
    } else if n == 48 {
        SyntaxKind::LBRACKET
    } else if n == 49 {
        SyntaxKind::RBRACKET
    } else if n == 50 {
        SyntaxKind::LBRACE
    } else if n == 51 {
        SyntaxKind::RBRACE
    } else if n == 52 {
        SyntaxKind::LT
    } else if n == 53 {
        SyntaxKind::GT
    } else if n == 54 {
        SyntaxKind::GE
    } else if n == 55 {
        SyntaxKind::LE
    } else if n == 56 {
        SyntaxKind::EQEQ
    } else if n == 57 {
        SyntaxKind::NE
    } else if n == 58 {
        SyntaxKind::PLUSEQ
    } else if n == 59 {
        SyntaxKind::MINUSEQ
    } else if n == 60 {
        SyntaxKind::STAREQ
    } else if n == 61 {
        SyntaxKind::SLASHEQ
    } else if n == 62 {
        SyntaxKind::PERCENTEQ
    } else if n == 63 {
        SyntaxKind::AMPEQ
    } else if n == 64 {
        SyntaxKind::PIPEEQ
    } else if n == 65 {
        SyntaxKind::CARETEQ
    } else if n == 66 {
        SyntaxKind::LSHIFTEQ
    } else if n == 67 {
        SyntaxKind::RSHIFTEQ
    } else if n == 68 {
        SyntaxKind::FILE
    } else if n == 69 {
        SyntaxKind::STATEMENT
    } else if n == 70 {
        SyntaxKind::DEF_STMT
    } else if n == 71 {
        SyntaxKind::PARAMETERS
    } else if n == 72 {
        SyntaxKind::PARAMETER
    } else if n == 73 {
        SyntaxKind::IF_STMT
    } else if n == 74 {
        SyntaxKind::ELIF_CLAUSES
    } else if n == 75 {
        SyntaxKind::ELSE_CLAUSE
    } else if n == 76 {
        SyntaxKind::FOR_STMT
    } else if n == 77 {
        SyntaxKind::SUITE
    } else if n == 78 {
        SyntaxKind::SIMPLE_STMT
    } else if n == 79 {
        SyntaxKind::SMALL_STMT
    } else if n == 80 {
        SyntaxKind::RETURN_STMT
    } else if n == 81 {
        SyntaxKind::BREAK_STMT
    } else if n == 82 {
        SyntaxKind::CONTINUE_STMT
    } else if n == 83 {
        SyntaxKind::PASS_STMT
    } else if n == 84 {
        SyntaxKind::ASSIGN_STMT
    } else if n == 85 {
        SyntaxKind::EXPR_STMT
    } else if n == 86 {
        SyntaxKind::LOAD_STMT
    } else if n == 87 {
        SyntaxKind::TEST
    } else if n == 88 {
        SyntaxKind::BIN_OP
    } else if n == 89 {
        SyntaxKind::IF_EXPR
    } else if n == 90 {
        SyntaxKind::PRIMARY_EXPR
    } else if n == 91 {
        SyntaxKind::OPERAND
    } else if n == 92 {
        SyntaxKind::DOT_SUFFIX
    } else if n == 93 {
        SyntaxKind::SLICE_SUFFIX
    } else if n == 94 {
        SyntaxKind::CALL_SUFFIX
    } else if n == 95 {
        SyntaxKind::ARGUMENTS
    } else if n == 96 {
        SyntaxKind::ARGUMENT
    } else if n == 97 {
        SyntaxKind::LIST_EXPR
    } else if n == 98 {
        SyntaxKind::LIST_COMP
    } else if n == 99 {
        SyntaxKind::DICT_EXPR
    } else if n == 100 {
        SyntaxKind::DICT_COMP
    } else if n == 101 {
        SyntaxKind::ENTRIES
    } else if n == 102 {
        SyntaxKind::ENTRY
    } else if n == 103 {
        SyntaxKind::COMP_CLAUSE
    } else if n == 104 {
        SyntaxKind::UNARY_EXPR
    } else if n == 105 {
        SyntaxKind::BINARY_EXPR
    } else if n == 106 {
        SyntaxKind::BINOP
    } else if n == 107 {
        SyntaxKind::LAMBDA_EXPR
    } else if n == 108 {
        SyntaxKind::EXPRESSION
    } else if n == 109 {
        SyntaxKind::LOOP_VARIABLES
    } else if n == 110 {
        SyntaxKind::__LAST
    } else {
        SyntaxKind::TOMBSTONE
    }
}

pub broadcast proof fn lemma_kind_ord_range(k: SyntaxKind)
    ensures
        0 <= #[trigger] kind_ord(k) < 111,
{
}

/// On the ordinals that kinds actually have, `kind_of_ord` is a right
/// inverse of `kind_ord`.
pub proof fn lemma_kind_ord_inverse_of(n: int)
    requires
        0 <= n < 111,
    ensures
        kind_ord(kind_of_ord(n)) == n,
{
}

pub broadcast proof fn lemma_kind_ord_inverse(k: SyntaxKind)
    ensures
        #[trigger] kind_of_ord(kind_ord(k)) == k,
{
}

pub proof fn lemma_kind_ord_injective(k1: SyntaxKind, k2: SyntaxKind)
    requires
        kind_ord(k1) == kind_ord(k2),
    ensures
        k1 == k2,
{
    lemma_kind_ord_inverse(k1);
    lemma_kind_ord_inverse(k2);
}

/// The exact keyword table: the kind a byte string spells, `None` when it
/// spells no keyword.
pub open spec fn spec_from_keyword(s: Seq<u8>) -> Option<SyntaxKind> {
    if s == seq![97u8, 110u8, 100u8] {
        Some(SyntaxKind::AND_KW)
    } else if s == seq![101u8, 108u8, 115u8, 101u8] {
        Some(SyntaxKind::ELSE_KW)
    } else if s == seq![108u8, 111u8, 97u8, 100u8] {
        Some(SyntaxKind::LOAD_KW)
    } else if s == seq![98u8, 114u8, 101u8, 97u8, 107u8] {
        Some(SyntaxKind::BREAK_KW)
    } else if s == seq![102u8, 111u8, 114u8] {
        Some(SyntaxKind::FOR_KW)
    } else if s == seq![110u8, 111u8, 116u8] {
        Some(SyntaxKind::NOT_KW)
    } else if s == seq![99u8, 111u8, 110u8, 116u8, 105u8, 110u8, 117u8, 101u8] {
        Some(SyntaxKind::CONTINUE_KW)
    } else if s == seq![105u8, 102u8] {
        Some(SyntaxKind::IF_KW)
    } else if s == seq![111u8, 114u8] {
        Some(SyntaxKind::OR_KW)
    } else if s == seq![100u8, 101u8, 102u8] {
        Some(SyntaxKind::DEF_KW)
    } else if s == seq![105u8, 110u8] {
        Some(SyntaxKind::IN_KW)
    } else if s == seq![112u8, 97u8, 115u8, 115u8] {
        Some(SyntaxKind::PASS_KW)
    } else if s == seq![101u8, 108u8, 105u8, 102u8] {
        Some(SyntaxKind::ELIF_KW)
    } else if s == seq![108u8, 97u8, 109u8, 98u8, 100u8, 97u8] {
        Some(SyntaxKind::LAMBDA_KW)
    } else if s == seq![114u8, 101u8, 116u8, 117u8, 114u8, 110u8] {
        Some(SyntaxKind::RETURN_KW)
    } else {
        None
    }
}

/// The exact single-character punctuation table.
pub open spec fn spec_from_char(c: u8) -> Option<SyntaxKind> {
    match c {
        43 => Some(SyntaxKind::PLUS),
        45 => Some(SyntaxKind::MINUS),
        42 => Some(SyntaxKind::STAR),
        47 => Some(SyntaxKind::SLASH),
        37 => Some(SyntaxKind::PERCENT),
        126 => Some(SyntaxKind::TILDE),
        38 => Some(SyntaxKind::AMP),
        124 => Some(SyntaxKind::PIPE),
        94 => Some(SyntaxKind::CARET),
        46 => Some(SyntaxKind::DOT),
        44 => Some(SyntaxKind::COMMA),
        61 => Some(SyntaxKind::EQ),
        59 => Some(SyntaxKind::SEMICOLON),
        58 => Some(SyntaxKind::COLON),
        40 => Some(SyntaxKind::LPAREN),
        41 => Some(SyntaxKind::RPAREN),
        91 => Some(SyntaxKind::LBRACKET),
        93 => Some(SyntaxKind::RBRACKET),
        123 => Some(SyntaxKind::LBRACE),
        125 => Some(SyntaxKind::RBRACE),
        60 => Some(SyntaxKind::LT),
        62 => Some(SyntaxKind::GT),
        _ => None,
    }
}

impl SyntaxKind {
    /// The ordinal of this kind, as a machine integer.
    pub fn ordinal(self) -> (r: u8)
        ensures
            r as int == kind_ord(self),
    {
        match self {
            SyntaxKind::TOMBSTONE => 0,
            SyntaxKind::EOF => 1,
            SyntaxKind::IDENTIFIER => 2,
            SyntaxKind::INT => 3,
            SyntaxKind::FLOAT => 4,
            SyntaxKind::STRING => 5,
            SyntaxKind::BYTES => 6,
            SyntaxKind::WHITESPACE => 7,
            SyntaxKind::COMMENT => 8,
            SyntaxKind::NEWLINE => 9,
            SyntaxKind::INDENT => 10,
            SyntaxKind::OUTDENT => 11,
            SyntaxKind::UNKNOWN => 12,
            SyntaxKind::AND_KW => 13,
            SyntaxKind::ELSE_KW => 14,
            SyntaxKind::LOAD_KW => 15,
            SyntaxKind::BREAK_KW => 16,
            SyntaxKind::FOR_KW => 17,
            SyntaxKind::NOT_KW => 18,
            SyntaxKind::CONTINUE_KW => 19,
            SyntaxKind::IF_KW => 20,
            SyntaxKind::OR_KW => 21,
            SyntaxKind::DEF_KW => 22,
            SyntaxKind::IN_KW => 23,
            SyntaxKind::PASS_KW => 24,
            SyntaxKind::ELIF_KW => 25,
            SyntaxKind::LAMBDA_KW => 26,
            SyntaxKind::RETURN_KW => 27,
            SyntaxKind::PLUS => 28,
            SyntaxKind::MINUS => 29,
            SyntaxKind::STAR => 30,
            SyntaxKind::SLASH => 31,
            SyntaxKind::DSLASH => 32,
            SyntaxKind::PERCENT => 33,
            SyntaxKind::DSTAR => 34,
            SyntaxKind::TILDE => 35,
            SyntaxKind::AMP => 36,
            SyntaxKind::PIPE => 37,
            SyntaxKind::CARET => 38,
            SyntaxKind::LSHIFT => 39,
            SyntaxKind::RSHIFT => 40,
            SyntaxKind::DOT => 41,
            SyntaxKind::COMMA => 42,
            SyntaxKind::EQ => 43,
            SyntaxKind::SEMICOLON => 44,
            SyntaxKind::COLON => 45,
            SyntaxKind::LPAREN => 46,
            SyntaxKind::RPAREN => 47,
            SyntaxKind::LBRACKET => 48,
            SyntaxKind::RBRACKET => 49,
            SyntaxKind::LBRACE => 50,
            SyntaxKind::RBRACE => 51,
            SyntaxKind::LT => 52,
            SyntaxKind::GT => 53,
            SyntaxKind::GE => 54,
            SyntaxKind::LE => 55,
            SyntaxKind::EQEQ => 56,
            SyntaxKind::NE => 57,
            SyntaxKind::PLUSEQ => 58,
            SyntaxKind::MINUSEQ => 59,
            SyntaxKind::STAREQ => 60,
            SyntaxKind::SLASHEQ => 61,
            SyntaxKind::PERCENTEQ => 62,
            SyntaxKind::AMPEQ => 63,
            SyntaxKind::PIPEEQ => 64,
            SyntaxKind::CARETEQ => 65,
            SyntaxKind::LSHIFTEQ => 66,
            SyntaxKind::RSHIFTEQ => 67,
            SyntaxKind::FILE => 68,
            SyntaxKind::STATEMENT => 69,
            SyntaxKind::DEF_STMT => 70,
            SyntaxKind::PARAMETERS => 71,
            SyntaxKind::PARAMETER => 72,
            SyntaxKind::IF_STMT => 73,
            SyntaxKind::ELIF_CLAUSES => 74,
            SyntaxKind::ELSE_CLAUSE => 75,
            SyntaxKind::FOR_STMT => 76,
            SyntaxKind::SUITE => 77,
            SyntaxKind::SIMPLE_STMT => 78,
            SyntaxKind::SMALL_STMT => 79,
            SyntaxKind::RETURN_STMT => 80,
            SyntaxKind::BREAK_STMT => 81,
            SyntaxKind::CONTINUE_STMT => 82,
            SyntaxKind::PASS_STMT => 83,
            SyntaxKind::ASSIGN_STMT => 84,
            SyntaxKind::EXPR_STMT => 85,
            SyntaxKind::LOAD_STMT => 86,
            SyntaxKind::TEST => 87,
            SyntaxKind::BIN_OP => 88,
            SyntaxKind::IF_EXPR => 89,
            SyntaxKind::PRIMARY_EXPR => 90,
            SyntaxKind::OPERAND => 91,
            SyntaxKind::DOT_SUFFIX => 92,
            SyntaxKind::SLICE_SUFFIX => 93,
            SyntaxKind::CALL_SUFFIX => 94,
            SyntaxKind::ARGUMENTS => 95,
            SyntaxKind::ARGUMENT => 96,
            SyntaxKind::LIST_EXPR => 97,
            SyntaxKind::LIST_COMP => 98,
            SyntaxKind::DICT_EXPR => 99,
            SyntaxKind::DICT_COMP => 100,
            SyntaxKind::ENTRIES => 101,
            SyntaxKind::ENTRY => 102,
            SyntaxKind::COMP_CLAUSE => 103,
            SyntaxKind::UNARY_EXPR => 104,
            SyntaxKind::BINARY_EXPR => 105,
            SyntaxKind::BINOP => 106,
            SyntaxKind::LAMBDA_EXPR => 107,
            SyntaxKind::EXPRESSION => 108,
            SyntaxKind::LOOP_VARIABLES => 109,
            SyntaxKind::__LAST => 110,
        }
    }

    /// The kind whose ordinal is `n`, if there is one.
    pub fn from_ordinal(n: u8) -> (r: Option<SyntaxKind>)
        ensures
            n < 111 ==> r == Some(kind_of_ord(n as int)),
            n >= 111 ==> r is None,
    {
        match n {
            0 => Some(SyntaxKind::TOMBSTONE),
            1 => Some(SyntaxKind::EOF),
            2 => Some(SyntaxKind::IDENTIFIER),
            3 => Some(SyntaxKind::INT),
            4 => Some(SyntaxKind::FLOAT),
            5 => Some(SyntaxKind::STRING),
            6 => Some(SyntaxKind::BYTES),
            7 => Some(SyntaxKind::WHITESPACE),
            8 => Some(SyntaxKind::COMMENT),
            9 => Some(SyntaxKind::NEWLINE),
            10 => Some(SyntaxKind::INDENT),
            11 => Some(SyntaxKind::OUTDENT),
            12 => Some(SyntaxKind::UNKNOWN),
            13 => Some(SyntaxKind::AND_KW),
            14 => Some(SyntaxKind::ELSE_KW),
            15 => Some(SyntaxKind::LOAD_KW),
            16 => Some(SyntaxKind::BREAK_KW),
            17 => Some(SyntaxKind::FOR_KW),
            18 => Some(SyntaxKind::NOT_KW),
            19 => Some(SyntaxKind::CONTINUE_KW),
            20 => Some(SyntaxKind::IF_KW),
            21 => Some(SyntaxKind::OR_KW),
            22 => Some(SyntaxKind::DEF_KW),
            23 => Some(SyntaxKind::IN_KW),
            24 => Some(SyntaxKind::PASS_KW),
            25 => Some(SyntaxKind::ELIF_KW),
            26 => Some(SyntaxKind::LAMBDA_KW),
            27 => Some(SyntaxKind::RETURN_KW),
            28 => Some(SyntaxKind::PLUS),
            29 => Some(SyntaxKind::MINUS),
            30 => Some(SyntaxKind::STAR),
            31 => Some(SyntaxKind::SLASH),
            32 => Some(SyntaxKind::DSLASH),
            33 => Some(SyntaxKind::PERCENT),
            34 => Some(SyntaxKind::DSTAR),
            35 => Some(SyntaxKind::TILDE),
            36 => Some(SyntaxKind::AMP),
            37 => Some(SyntaxKind::PIPE),
            38 => Some(SyntaxKind::CARET),
            39 => Some(SyntaxKind::LSHIFT),
            40 => Some(SyntaxKind::RSHIFT),
            41 => Some(SyntaxKind::DOT),
            42 => Some(SyntaxKind::COMMA),
            43 => Some(SyntaxKind::EQ),
            44 => Some(SyntaxKind::SEMICOLON),
            45 => Some(SyntaxKind::COLON),
            46 => Some(SyntaxKind::LPAREN),
            47 => Some(SyntaxKind::RPAREN),
            48 => Some(SyntaxKind::LBRACKET),
            49 => Some(SyntaxKind::RBRACKET),
            50 => Some(SyntaxKind::LBRACE),
            51 => Some(SyntaxKind::RBRACE),
            52 => Some(SyntaxKind::LT),
            53 => Some(SyntaxKind::GT),
            54 => Some(SyntaxKind::GE),
            55 => Some(SyntaxKind::LE),
            56 => Some(SyntaxKind::EQEQ),
            57 => Some(SyntaxKind::NE),
            58 => Some(SyntaxKind::PLUSEQ),
            59 => Some(SyntaxKind::MINUSEQ),
            60 => Some(SyntaxKind::STAREQ),
            61 => Some(SyntaxKind::SLASHEQ),
            62 => Some(SyntaxKind::PERCENTEQ),
            63 => Some(SyntaxKind::AMPEQ),
            64 => Some(SyntaxKind::PIPEEQ),
            65 => Some(SyntaxKind::CARETEQ),
            66 => Some(SyntaxKind::LSHIFTEQ),
            67 => Some(SyntaxKind::RSHIFTEQ),
            68 => Some(SyntaxKind::FILE),
            69 => Some(SyntaxKind::STATEMENT),
            70 => Some(SyntaxKind::DEF_STMT),
            71 => Some(SyntaxKind::PARAMETERS),
            72 => Some(SyntaxKind::PARAMETER),
            73 => Some(SyntaxKind::IF_STMT),
            74 => Some(SyntaxKind::ELIF_CLAUSES),
            75 => Some(SyntaxKind::ELSE_CLAUSE),
            76 => Some(SyntaxKind::FOR_STMT),
            77 => Some(SyntaxKind::SUITE),
            78 => Some(SyntaxKind::SIMPLE_STMT),
            79 => Some(SyntaxKind::SMALL_STMT),
            80 => Some(SyntaxKind::RETURN_STMT),
            81 => Some(SyntaxKind::BREAK_STMT),
            82 => Some(SyntaxKind::CONTINUE_STMT),
            83 => Some(SyntaxKind::PASS_STMT),
            84 => Some(SyntaxKind::ASSIGN_STMT),
            85 => Some(SyntaxKind::EXPR_STMT),
            86 => Some(SyntaxKind::LOAD_STMT),
            87 => Some(SyntaxKind::TEST),
            88 => Some(SyntaxKind::BIN_OP),
            89 => Some(SyntaxKind::IF_EXPR),
            90 => Some(SyntaxKind::PRIMARY_EXPR),
            91 => Some(SyntaxKind::OPERAND),
            92 => Some(SyntaxKind::DOT_SUFFIX),
            93 => Some(SyntaxKind::SLICE_SUFFIX),
            94 => Some(SyntaxKind::CALL_SUFFIX),
            95 => Some(SyntaxKind::ARGUMENTS),
            96 => Some(SyntaxKind::ARGUMENT),
            97 => Some(SyntaxKind::LIST_EXPR),
            98 => Some(SyntaxKind::LIST_COMP),
            99 => Some(SyntaxKind::DICT_EXPR),
            100 => Some(SyntaxKind::DICT_COMP),
            101 => Some(SyntaxKind::ENTRIES),
            102 => Some(SyntaxKind::ENTRY),
            103 => Some(SyntaxKind::COMP_CLAUSE),
            104 => Some(SyntaxKind::UNARY_EXPR),
            105 => Some(SyntaxKind::BINARY_EXPR),
            106 => Some(SyntaxKind::BINOP),
            107 => Some(SyntaxKind::LAMBDA_EXPR),
            108 => Some(SyntaxKind::EXPRESSION),
            109 => Some(SyntaxKind::LOOP_VARIABLES),
            110 => Some(SyntaxKind::__LAST),
            _ => None,
        }
    }

    /// True of the fifteen reserved words.
    pub open spec fn spec_is_keyword(self) -> bool {
        match self {
            SyntaxKind::AND_KW | SyntaxKind::ELSE_KW | SyntaxKind::LOAD_KW | SyntaxKind::BREAK_KW | SyntaxKind::FOR_KW | SyntaxKind::NOT_KW | SyntaxKind::CONTINUE_KW | SyntaxKind::IF_KW | SyntaxKind::OR_KW | SyntaxKind::DEF_KW | SyntaxKind::IN_KW | SyntaxKind::PASS_KW | SyntaxKind::ELIF_KW | SyntaxKind::LAMBDA_KW | SyntaxKind::RETURN_KW => true,
            _ => false,
        }
    }

    #[verifier::when_used_as_spec(spec_is_keyword)]
    pub fn is_keyword(self) -> (r: bool)
        ensures
            r == self.spec_is_keyword(),
    {
        matches!(self, SyntaxKind::AND_KW | SyntaxKind::ELSE_KW | SyntaxKind::LOAD_KW | SyntaxKind::BREAK_KW | SyntaxKind::FOR_KW | SyntaxKind::NOT_KW | SyntaxKind::CONTINUE_KW | SyntaxKind::IF_KW | SyntaxKind::OR_KW | SyntaxKind::DEF_KW | SyntaxKind::IN_KW | SyntaxKind::PASS_KW | SyntaxKind::ELIF_KW | SyntaxKind::LAMBDA_KW | SyntaxKind::RETURN_KW)
    }

    /// True of the punctuation and operator kinds.
    pub open spec fn spec_is_punct(self) -> bool {
        match self {
            SyntaxKind::PLUS | SyntaxKind::MINUS | SyntaxKind::STAR | SyntaxKind::SLASH | SyntaxKind::DSLASH | SyntaxKind::PERCENT | SyntaxKind::DSTAR | SyntaxKind::TILDE | SyntaxKind::AMP | SyntaxKind::PIPE | SyntaxKind::CARET | SyntaxKind::LSHIFT | SyntaxKind::RSHIFT | SyntaxKind::DOT | SyntaxKind::COMMA | SyntaxKind::EQ | SyntaxKind::SEMICOLON | SyntaxKind::COLON | SyntaxKind::LPAREN | SyntaxKind::RPAREN | SyntaxKind::LBRACKET | SyntaxKind::RBRACKET | SyntaxKind::LBRACE | SyntaxKind::RBRACE | SyntaxKind::LT | SyntaxKind::GT | SyntaxKind::GE | SyntaxKind::LE | SyntaxKind::EQEQ | SyntaxKind::NE | SyntaxKind::PLUSEQ | SyntaxKind::MINUSEQ | SyntaxKind::STAREQ | SyntaxKind::SLASHEQ | SyntaxKind::PERCENTEQ | SyntaxKind::AMPEQ | SyntaxKind::PIPEEQ | SyntaxKind::CARETEQ | SyntaxKind::LSHIFTEQ | SyntaxKind::RSHIFTEQ => true,
            _ => false,
        }
    }

    #[verifier::when_used_as_spec(spec_is_punct)]
    pub fn is_punct(self) -> (r: bool)
        ensures
            r == self.spec_is_punct(),
    {
        matches!(self, SyntaxKind::PLUS | SyntaxKind::MINUS | SyntaxKind::STAR | SyntaxKind::SLASH | SyntaxKind::DSLASH | SyntaxKind::PERCENT | SyntaxKind::DSTAR | SyntaxKind::TILDE | SyntaxKind::AMP | SyntaxKind::PIPE | SyntaxKind::CARET | SyntaxKind::LSHIFT | SyntaxKind::RSHIFT | SyntaxKind::DOT | SyntaxKind::COMMA | SyntaxKind::EQ | SyntaxKind::SEMICOLON | SyntaxKind::COLON | SyntaxKind::LPAREN | SyntaxKind::RPAREN | SyntaxKind::LBRACKET | SyntaxKind::RBRACKET | SyntaxKind::LBRACE | SyntaxKind::RBRACE | SyntaxKind::LT | SyntaxKind::GT | SyntaxKind::GE | SyntaxKind::LE | SyntaxKind::EQEQ | SyntaxKind::NE | SyntaxKind::PLUSEQ | SyntaxKind::MINUSEQ | SyntaxKind::STAREQ | SyntaxKind::SLASHEQ | SyntaxKind::PERCENTEQ | SyntaxKind::AMPEQ | SyntaxKind::PIPEEQ | SyntaxKind::CARETEQ | SyntaxKind::LSHIFTEQ | SyntaxKind::RSHIFTEQ)
    }

    /// True of the literal kinds, identifiers included.
    pub open spec fn spec_is_literal(self) -> bool {
        match self {
            SyntaxKind::IDENTIFIER | SyntaxKind::INT | SyntaxKind::FLOAT | SyntaxKind::STRING | SyntaxKind::BYTES => true,
            _ => false,
        }
    }

    #[verifier::when_used_as_spec(spec_is_literal)]
    pub fn is_literal(self) -> (r: bool)
        ensures
            r == self.spec_is_literal(),
    {
        matches!(self, SyntaxKind::IDENTIFIER | SyntaxKind::INT | SyntaxKind::FLOAT | SyntaxKind::STRING | SyntaxKind::BYTES)
    }

    /// The keyword kind spelled exactly `ident`, if any.
    pub fn from_keyword(ident: &[u8]) -> (r: Option<SyntaxKind>)
        ensures
            r == spec_from_keyword(ident@),
            r is Some ==> r.unwrap().spec_is_keyword(),
    {
        let n = ident.len();
        if n == 2 {
            let r = match (ident[0], ident[1]) {
                (105, 102) => Some(SyntaxKind::IF_KW),
                (111, 114) => Some(SyntaxKind::OR_KW),
                (105, 110) => Some(SyntaxKind::IN_KW),
                _ => None,
            };
            proof {
                if r == Some(SyntaxKind::IF_KW) {
                    assert(ident@ =~= seq![105u8, 102u8]);
                }
                if r == Some(SyntaxKind::OR_KW) {
                    assert(ident@ =~= seq![111u8, 114u8]);
                }
                if r == Some(SyntaxKind::IN_KW) {
                    assert(ident@ =~= seq![105u8, 110u8]);
                }
                if r is None {
                    assert(ident@ != seq![105u8, 102u8]) by {
                        assert(ident@[0] != 105u8 || ident@[1] != 102u8);
                    }
                    assert(ident@ != seq![111u8, 114u8]) by {
                        assert(ident@[0] != 111u8 || ident@[1] != 114u8);
                    }
                    assert(ident@ != seq![105u8, 110u8]) by {
                        assert(ident@[0] != 105u8 || ident@[1] != 110u8);
                    }
                }
            }
            return r;
        }
        if n == 3 {
            let r = match (ident[0], ident[1], ident[2]) {
                (97, 110, 100) => Some(SyntaxKind::AND_KW),
                (102, 111, 114) => Some(SyntaxKind::FOR_KW),
                (110, 111, 116) => Some(SyntaxKind::NOT_KW),
                (100, 101, 102) => Some(SyntaxKind::DEF_KW),
                _ => None,
            };
            proof {
                if r == Some(SyntaxKind::AND_KW) {
                    assert(ident@ =~= seq![97u8, 110u8, 100u8]);
                }
                if r == Some(SyntaxKind::FOR_KW) {
                    assert(ident@ =~= seq![102u8, 111u8, 114u8]);
                }
                if r == Some(SyntaxKind::NOT_KW) {
                    assert(ident@ =~= seq![110u8, 111u8, 116u8]);
                }
                if r == Some(SyntaxKind::DEF_KW) {
                    assert(ident@ =~= seq![100u8, 101u8, 102u8]);
                }
                if r is None {
                    assert(ident@ != seq![97u8, 110u8, 100u8]) by {
                        assert(ident@[0] != 97u8 || ident@[1] != 110u8 || ident@[2] != 100u8);
                    }
                    assert(ident@ != seq![102u8, 111u8, 114u8]) by {
                        assert(ident@[0] != 102u8 || ident@[1] != 111u8 || ident@[2] != 114u8);
                    }
                    assert(ident@ != seq![110u8, 111u8, 116u8]) by {
                        assert(ident@[0] != 110u8 || ident@[1] != 111u8 || ident@[2] != 116u8);
                    }
                    assert(ident@ != seq![100u8, 101u8, 102u8]) by {
                        assert(ident@[0] != 100u8 || ident@[1] != 101u8 || ident@[2] != 102u8);
                    }
                }
            }
            return r;
        }
        if n == 4 {
            let r = match (ident[0], ident[1], ident[2], ident[3]) {
                (101, 108, 115, 101) => Some(SyntaxKind::ELSE_KW),
                (108, 111, 97, 100) => Some(SyntaxKind::LOAD_KW),
                (112, 97, 115, 115) => Some(SyntaxKind::PASS_KW),
                (101, 108, 105, 102) => Some(SyntaxKind::ELIF_KW),
                _ => None,
            };
            proof {
                if r == Some(SyntaxKind::ELSE_KW) {
                    assert(ident@ =~= seq![101u8, 108u8, 115u8, 101u8]);
                }
                if r == Some(SyntaxKind::LOAD_KW) {
                    assert(ident@ =~= seq![108u8, 111u8, 97u8, 100u8]);
                }
                if r == Some(SyntaxKind::PASS_KW) {
                    assert(ident@ =~= seq![112u8, 97u8, 115u8, 115u8]);
                }
                if r == Some(SyntaxKind::ELIF_KW) {
                    assert(ident@ =~= seq![101u8, 108u8, 105u8, 102u8]);
                }
                if r is None {
                    assert(ident@ != seq![101u8, 108u8, 115u8, 101u8]) by {
                        assert(ident@[0] != 101u8 || ident@[1] != 108u8 || ident@[2] != 115u8 || ident@[3] != 101u8);
                    }
                    assert(ident@ != seq![108u8, 111u8, 97u8, 100u8]) by {
                        assert(ident@[0] != 108u8 || ident@[1] != 111u8 || ident@[2] != 97u8 || ident@[3] != 100u8);
                    }
                    assert(ident@ != seq![112u8, 97u8, 115u8, 115u8]) by {
                        assert(ident@[0] != 112u8 || ident@[1] != 97u8 || ident@[2] != 115u8 || ident@[3] != 115u8);
                    }
                    assert(ident@ != seq![101u8, 108u8, 105u8, 102u8]) by {
                        assert(ident@[0] != 101u8 || ident@[1] != 108u8 || ident@[2] != 105u8 || ident@[3] != 102u8);
                    }
                }
            }
            return r;
        }
        if n == 5 {
            let r = match (ident[0], ident[1], ident[2], ident[3], ident[4]) {
                (98, 114, 101, 97, 107) => Some(SyntaxKind::BREAK_KW),
                _ => None,
            };
            proof {
                if r == Some(SyntaxKind::BREAK_KW) {
                    assert(ident@ =~= seq![98u8, 114u8, 101u8, 97u8, 107u8]);
                }
                if r is None {
                    assert(ident@ != seq![98u8, 114u8, 101u8, 97u8, 107u8]) by {
                        assert(ident@[0] != 98u8 || ident@[1] != 114u8 || ident@[2] != 101u8 || ident@[3] != 97u8 || ident@[4] != 107u8);
                    }
                }
            }
            return r;
        }
        if n == 6 {
            let r = match (ident[0], ident[1], ident[2], ident[3], ident[4], ident[5]) {
                (108, 97, 109, 98, 100, 97) => Some(SyntaxKind::LAMBDA_KW),
                (114, 101, 116, 117, 114, 110) => Some(SyntaxKind::RETURN_KW),
                _ => None,
            };
            proof {
                if r == Some(SyntaxKind::LAMBDA_KW) {
                    assert(ident@ =~= seq![108u8, 97u8, 109u8, 98u8, 100u8, 97u8]);
                }
                if r == Some(SyntaxKind::RETURN_KW) {
                    assert(ident@ =~= seq![114u8, 101u8, 116u8, 117u8, 114u8, 110u8]);
                }
                if r is None {
                    assert(ident@ != seq![108u8, 97u8, 109u8, 98u8, 100u8, 97u8]) by {
                        assert(ident@[0] != 108u8 || ident@[1] != 97u8 || ident@[2] != 109u8 || ident@[3] != 98u8 || ident@[4] != 100u8 || ident@[5] != 97u8);
                    }
                    assert(ident@ != seq![114u8, 101u8, 116u8, 117u8, 114u8, 110u8]) by {
                        assert(ident@[0] != 114u8 || ident@[1] != 101u8 || ident@[2] != 116u8 || ident@[3] != 117u8 || ident@[4] != 114u8 || ident@[5] != 110u8);
                    }
                }
            }
            return r;
        }
        if n == 8 {
            let r = match (ident[0], ident[1], ident[2], ident[3], ident[4], ident[5], ident[6], ident[7]) {
                (99, 111, 110, 116, 105, 110, 117, 101) => Some(SyntaxKind::CONTINUE_KW),
                _ => None,
            };
            proof {
                if r == Some(SyntaxKind::CONTINUE_KW) {
                    assert(ident@ =~= seq![99u8, 111u8, 110u8, 116u8, 105u8, 110u8, 117u8, 101u8]);
                }
                if r is None {
                    assert(ident@ != seq![99u8, 111u8, 110u8, 116u8, 105u8, 110u8, 117u8, 101u8]) by {
                        assert(ident@[0] != 99u8 || ident@[1] != 111u8 || ident@[2] != 110u8 || ident@[3] != 116u8 || ident@[4] != 105u8 || ident@[5] != 110u8 || ident@[6] != 117u8 || ident@[7] != 101u8);
                    }
                }
            }
            return r;
        }
        proof {
            assert(ident@ != seq![97u8, 110u8, 100u8]);
            assert(ident@ != seq![101u8, 108u8, 115u8, 101u8]);
            assert(ident@ != seq![108u8, 111u8, 97u8, 100u8]);
            assert(ident@ != seq![98u8, 114u8, 101u8, 97u8, 107u8]);
            assert(ident@ != seq![102u8, 111u8, 114u8]);
            assert(ident@ != seq![110u8, 111u8, 116u8]);
            assert(ident@ != seq![99u8, 111u8, 110u8, 116u8, 105u8, 110u8, 117u8, 101u8]);
            assert(ident@ != seq![105u8, 102u8]);
            assert(ident@ != seq![111u8, 114u8]);
            assert(ident@ != seq![100u8, 101u8, 102u8]);
            assert(ident@ != seq![105u8, 110u8]);
            assert(ident@ != seq![112u8, 97u8, 115u8, 115u8]);
            assert(ident@ != seq![101u8, 108u8, 105u8, 102u8]);
            assert(ident@ != seq![108u8, 97u8, 109u8, 98u8, 100u8, 97u8]);
            assert(ident@ != seq![114u8, 101u8, 116u8, 117u8, 114u8, 110u8]);
        }
        None
    }

    /// No keyword is contextual in this language.
    pub fn from_contextual_keyword(ident: &[u8]) -> (r: Option<SyntaxKind>)
        ensures
            r is None,
    {
        let _ = ident;
        None
    }

    /// The single-character punctuation kind for `c`, if any.
    pub fn from_char(c: u8) -> (r: Option<SyntaxKind>)
        ensures
            r == spec_from_char(c),
            r is Some ==> r.unwrap().spec_is_punct(),
    {
        match c {
            43 => Some(SyntaxKind::PLUS),
            45 => Some(SyntaxKind::MINUS),
            42 => Some(SyntaxKind::STAR),
            47 => Some(SyntaxKind::SLASH),
            37 => Some(SyntaxKind::PERCENT),
            126 => Some(SyntaxKind::TILDE),
            38 => Some(SyntaxKind::AMP),
            124 => Some(SyntaxKind::PIPE),
            94 => Some(SyntaxKind::CARET),
            46 => Some(SyntaxKind::DOT),
            44 => Some(SyntaxKind::COMMA),
            61 => Some(SyntaxKind::EQ),
            59 => Some(SyntaxKind::SEMICOLON),
            58 => Some(SyntaxKind::COLON),
            40 => Some(SyntaxKind::LPAREN),
            41 => Some(SyntaxKind::RPAREN),
            91 => Some(SyntaxKind::LBRACKET),
            93 => Some(SyntaxKind::RBRACKET),
            123 => Some(SyntaxKind::LBRACE),
            125 => Some(SyntaxKind::RBRACE),
            60 => Some(SyntaxKind::LT),
            62 => Some(SyntaxKind::GT),
            _ => None,
        }
    }
}

/// Byte-for-byte equality of two byte strings.
pub fn slice_eq_bytes(a: &[u8], b: &[u8]) -> (r: bool)
    ensures
        r == (a@ == b@),
{
    if a.len() != b.len() {
        assert(a@ != b@);
        return false;
    }
    let mut i: usize = 0;
    while i < a.len()
        invariant
            i <= a@.len(),
            a@.len() == b@.len(),
            forall|j: int| 0 <= j < i ==> a@[j] == b@[j],
        decreases a@.len() - i,
    {
        if a[i] != b[i] {
            return false;
        }
        i = i + 1;
    }
    proof {
        assert(a@ =~= b@);
    }
    true
}

} // verus!
