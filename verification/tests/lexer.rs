use sky_syntax::{tokenize, Span, StarlarkLexer, SyntaxKind, TokenKind};

fn kinds_of(text: &[u8]) -> Vec<TokenKind> {
    let (stream, _) = tokenize(text);
    stream.tokens.iter().map(|t| t.kind).collect()
}

/// A run of unrecognizable bytes becomes one `UNKNOWN` token spanning the
/// whole run, with exactly one diagnostic.
#[test]
fn scenario_unknown_run() {
    let (stream, errors) = tokenize(b"$$");
    assert_eq!(stream.tokens.len(), 2);
    assert_eq!(stream.tokens[0].kind, TokenKind::UNKNOWN);
    assert_eq!(stream.tokens[0].span, Span { start: 0, end: 2 });
    assert_eq!(stream.tokens[1].kind, TokenKind::EOF);
    assert_eq!(errors.len(), 1);
    assert_eq!(errors[0].range, Span { start: 0, end: 2 });
}

/// One diagnostic per maximal run: three runs, three diagnostics, however
/// long each run is.
#[test]
fn unknown_runs_are_merged() {
    let (stream, errors) = tokenize(b"$ ?? x $$$@");
    let unknown: Vec<Span> = stream
        .tokens
        .iter()
        .filter(|t| t.kind == TokenKind::UNKNOWN)
        .map(|t| t.span)
        .collect();
    assert_eq!(
        unknown,
        vec![
            Span { start: 0, end: 1 },
            Span { start: 2, end: 4 },
            Span { start: 7, end: 11 },
        ]
    );
    assert_eq!(errors.len(), 3);
}

#[test]
fn keywords_and_identifiers() {
    assert_eq!(
        kinds_of(b"def foo"),
        vec![
            TokenKind::DEF_KW,
            TokenKind::WHITESPACE,
            TokenKind::IDENTIFIER,
            TokenKind::EOF,
        ]
    );
    // a keyword prefix inside a longer identifier stays an identifier
    assert_eq!(
        kinds_of(b"definition"),
        vec![TokenKind::IDENTIFIER, TokenKind::EOF]
    );
    assert_eq!(
        kinds_of(b"lambda not in"),
        vec![
            TokenKind::LAMBDA_KW,
            TokenKind::WHITESPACE,
            TokenKind::NOT_KW,
            TokenKind::WHITESPACE,
            TokenKind::IN_KW,
            TokenKind::EOF,
        ]
    );
}

#[test]
fn numbers() {
    assert_eq!(kinds_of(b"123"), vec![TokenKind::INT, TokenKind::EOF]);
    assert_eq!(kinds_of(b"1.5"), vec![TokenKind::FLOAT, TokenKind::EOF]);
    assert_eq!(kinds_of(b"1e9"), vec![TokenKind::FLOAT, TokenKind::EOF]);
    assert_eq!(kinds_of(b".5"), vec![TokenKind::FLOAT, TokenKind::EOF]);
    assert_eq!(
        kinds_of(b"0x1f"),
        vec![TokenKind::NumericLiteral, TokenKind::EOF]
    );
    assert_eq!(
        kinds_of(b"0o17"),
        vec![TokenKind::NumericLiteral, TokenKind::EOF]
    );
    // "1." is an integer followed by a dot: the fraction needs a digit
    assert_eq!(
        kinds_of(b"1."),
        vec![TokenKind::INT, TokenKind::DOT, TokenKind::EOF]
    );
}

#[test]
fn strings_and_bytes() {
    assert_eq!(
        kinds_of(b"\"hi\\\"there\""),
        vec![TokenKind::STRING, TokenKind::EOF]
    );
    assert_eq!(kinds_of(b"'x'"), vec![TokenKind::STRING, TokenKind::EOF]);
    assert_eq!(kinds_of(b"b\"x\""), vec![TokenKind::BYTES, TokenKind::EOF]);
    // an unterminated string runs to the end of its line
    assert_eq!(
        kinds_of(b"\"open\nx"),
        vec![
            TokenKind::STRING,
            TokenKind::NEWLINE,
            TokenKind::IDENTIFIER,
            TokenKind::EOF,
        ]
    );
}

#[test]
fn whitespace_indent_newline() {
    // exactly four spaces form an indent marker
    assert_eq!(
        kinds_of(b"    x"),
        vec![TokenKind::INDENT, TokenKind::IDENTIFIER, TokenKind::EOF]
    );
    // five spaces are plain whitespace
    assert_eq!(
        kinds_of(b"     x"),
        vec![TokenKind::WHITESPACE, TokenKind::IDENTIFIER, TokenKind::EOF]
    );
    assert_eq!(
        kinds_of(b"\r\n"),
        vec![TokenKind::NEWLINE, TokenKind::EOF]
    );
    // a bare carriage return opens no token
    assert_eq!(
        kinds_of(b"\r"),
        vec![TokenKind::UNKNOWN, TokenKind::EOF]
    );
    assert_eq!(
        kinds_of(b"# note\nx"),
        vec![
            TokenKind::COMMENT,
            TokenKind::NEWLINE,
            TokenKind::IDENTIFIER,
            TokenKind::EOF,
        ]
    );
}

#[test]
fn operators_longest_match() {
    assert_eq!(
        kinds_of(b"<<= << <= <"),
        vec![
            TokenKind::LSHIFTEQ,
            TokenKind::WHITESPACE,
            TokenKind::LSHIFT,
            TokenKind::WHITESPACE,
            TokenKind::LE,
            TokenKind::WHITESPACE,
            TokenKind::LT,
            TokenKind::EOF,
        ]
    );
    assert_eq!(
        kinds_of(b"//= // /= /"),
        vec![
            TokenKind::DSLASHEQ,
            TokenKind::WHITESPACE,
            TokenKind::DSLASH,
            TokenKind::WHITESPACE,
            TokenKind::SLASHEQ,
            TokenKind::WHITESPACE,
            TokenKind::SLASH,
            TokenKind::EOF,
        ]
    );
    assert_eq!(
        kinds_of(b"** *= *"),
        vec![
            TokenKind::DSTAR,
            TokenKind::WHITESPACE,
            TokenKind::STAREQ,
            TokenKind::WHITESPACE,
            TokenKind::STAR,
            TokenKind::EOF,
        ]
    );
    // `!` alone opens no token; `!=` does
    assert_eq!(kinds_of(b"!="), vec![TokenKind::NE, TokenKind::EOF]);
    assert_eq!(kinds_of(b"!"), vec![TokenKind::UNKNOWN, TokenKind::EOF]);
}

/// Token spans tile the text without gap or overlap, whatever the input.
#[test]
fn spans_tile_the_text() {
    let inputs: [&[u8]; 4] = [
        b"def foo():\n    pass\n",
        b"$$ garbage \xff here",
        b"",
        b"'unterminated",
    ];
    for text in inputs {
        let (stream, _) = tokenize(text);
        let mut at = 0usize;
        for t in stream.tokens.iter() {
            assert_eq!(t.span.start, at);
            assert!(t.span.start <= t.span.end);
            at = t.span.end;
        }
        assert_eq!(at, text.len());
    }
}

/// The conversions between the lexer's kinds and the tree's kinds.
#[test]
fn kind_conversions() {
    assert_eq!(TokenKind::DEF_KW.to_syntax(), SyntaxKind::DEF_KW);
    assert_eq!(TokenKind::NumericLiteral.to_syntax(), SyntaxKind::INT);
    assert_eq!(TokenKind::DSLASHEQ.to_syntax(), SyntaxKind::SLASHEQ);
    assert!(TokenKind::WHITESPACE.is_whitespace());
    assert!(!TokenKind::NEWLINE.is_whitespace());
    assert!(TokenKind::COMMENT.is_trivia());
    assert!(!TokenKind::INDENT.is_trivia());

    assert!(SyntaxKind::DEF_KW.is_keyword());
    assert!(!SyntaxKind::IDENTIFIER.is_keyword());
    assert!(SyntaxKind::PLUSEQ.is_punct());
    assert!(SyntaxKind::STRING.is_literal());
    assert_eq!(
        SyntaxKind::from_keyword(b"lambda"),
        Some(SyntaxKind::LAMBDA_KW)
    );
    assert_eq!(SyntaxKind::from_keyword(b"lambdas"), None);
    assert_eq!(SyntaxKind::from_contextual_keyword(b"anything"), None);
    assert_eq!(SyntaxKind::from_char(b'{'), Some(SyntaxKind::LBRACE));
    assert_eq!(SyntaxKind::from_char(b'!'), None);
}

/// The lexer facade reports its diagnostics through the sink.
#[test]
fn lexer_facade() {
    let lexer = StarlarkLexer::new();
    let sink = lexer.tokenize(b"x = $\n");
    assert!(sink.has_errors());
    assert_eq!(sink.lexical_errors.len(), 1);
    let clean = lexer.tokenize(b"x = 1\n");
    assert!(!clean.has_errors());
}

/// Span arithmetic.
#[test]
fn span_operations() {
    let a = Span::new(2, 3);
    assert!(a.overlaps(Span::new(2, 3)));
    assert!(a.overlaps(Span::new(3, 5)));
    assert!(a.overlaps(Span::new(0, 2)));
    assert!(!a.overlaps(Span::new(4, 5)));
    assert_eq!(a.merge(Span::new(5, 7)), Span { start: 2, end: 7 });
    assert_eq!(a.len(), 1);
}
