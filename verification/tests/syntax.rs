use sky_syntax::{
    children_with_tokens, process, tokenize, File, ParseError, Parser, Pass, SyntaxElement,
    SyntaxErrorCause, SyntaxKind, SyntaxNode, TextTokenSource, TextTreeSink,
};

/// Parsing a well-formed function definition and reading the source back out
/// of the tree reproduces it exactly.
#[test]
fn test_syntax() {
    let source = "def foo():\n    pass\n";
    let ast = File::parse(source.as_bytes());
    assert_eq!(ast.syntax_node().text(), source.as_bytes().to_vec());
    assert!(ast.errors().is_empty());
}

/// A well-formed definition: no errors, and the tree has the expected shape:
/// one statement holding a function definition with no parameters and a body
/// of exactly one `pass`.
#[test]
fn scenario_function_definition() {
    let ast = File::parse(b"def foo():\n    pass\n");
    assert_eq!(ast.errors().len(), 0);
    assert_eq!(ast.green().kind(), SyntaxKind::FILE);

    let file = ast.tree();
    let stmts = file.statements();
    assert_eq!(stmts.len(), 1);

    let def = stmts[0].def_stmt().expect("expected a function definition");
    assert!(def.parameters().is_none(), "expected an empty parameter list");

    let body = def.body().expect("expected a body");
    let body_stmts = body.statements();
    assert_eq!(body_stmts.len(), 1);
    let simple = body_stmts[0]
        .simple_stmt()
        .expect("expected a simple statement");
    let smalls = simple.small_stmts();
    assert_eq!(smalls.len(), 1);
    assert!(smalls[0].pass_stmt().is_some(), "expected a pass statement");
}

/// A definition missing its parameter: a `FILE`-rooted tree still comes out,
/// the error list is non-empty, and its first entry expects an identifier.
#[test]
fn scenario_missing_parameter() {
    let ast = File::parse(b"def foo(:\n");
    assert_eq!(ast.green().kind(), SyntaxKind::FILE);
    let errors = ast.errors();
    assert!(!errors.is_empty());
    match &errors[0].cause {
        SyntaxErrorCause::Parse(ParseError::UnexpectedToken { expected, .. }) => {
            assert!(expected.contains(SyntaxKind::IDENTIFIER));
        }
        other => panic!("expected an unexpected-token error, got {:?}", other),
    }
    // the tree still holds every input byte
    assert_eq!(ast.syntax_node().text(), b"def foo(:\n".to_vec());
}

/// Parsing the same text twice yields structurally equal trees and identical
/// error lists.
#[test]
fn reparse_is_identical() {
    let sources: [&[u8]; 4] = [
        b"def foo():\n    pass\n",
        b"def foo(:\n",
        b"x = 1; y = 2\n$$\n",
        b"",
    ];
    for source in sources {
        let a = File::parse(source);
        let b = File::parse(source);
        assert!(a.green().tree_eq(b.green()));
        assert_eq!(a.errors(), b.errors());
    }
}

/// Arbitrary garbage still parses to a lossless `FILE` tree.
#[test]
fn garbage_is_lossless() {
    let sources: [&[u8]; 6] = [
        b"$$",
        b"\xff\xfe\x00!",
        b")))((",
        b"def def def",
        b"x = ",
        b"\r\r\n",
    ];
    for source in sources {
        let ast = File::parse(source);
        assert_eq!(ast.green().kind(), SyntaxKind::FILE);
        assert_eq!(ast.syntax_node().text(), source.to_vec());
    }
}

/// The empty input parses cleanly to an empty `FILE`.
#[test]
fn empty_input() {
    let ast = File::parse(b"");
    assert_eq!(ast.errors().len(), 0);
    assert_eq!(ast.green().kind(), SyntaxKind::FILE);
    assert_eq!(ast.tree().statements().len(), 0);
    assert!(ast.ok().is_ok());
}

/// A truncated parenthesis reports an unexpected end of input, yet the parse
/// completes.
#[test]
fn unexpected_eof_is_recorded() {
    let ast = File::parse(b"(");
    assert_eq!(ast.syntax_node().text(), b"(".to_vec());
    let has_eof_error = ast.errors().iter().any(|e| {
        matches!(e.cause, SyntaxErrorCause::Parse(ParseError::UnexpectedEof))
    });
    assert!(has_eof_error);
    assert!(ast.ok().is_err());
}

/// Statements, assignments and expressions round-trip with their exact
/// whitespace and comments.
#[test]
fn statements_round_trip() {
    let sources: [&[u8]; 5] = [
        b"x = 1\n",
        b"load(\"lib.star\", \"f\")\n",
        b"if x > 0:\n    y = x\nelse:\n    y = 0\n",
        b"for i in items:\n    total += i  # running sum\n",
        b"return\n",
    ];
    for source in sources {
        let ast = File::parse(source);
        assert_eq!(ast.syntax_node().text(), source.to_vec());
    }
}

/// The typed leaf layer: a `pass` statement's node carries exactly the
/// `pass` keyword leaf, reachable through a typed wrapper.
#[test]
fn typed_token_view() {
    let ast = File::parse(b"pass\n");
    assert_eq!(ast.errors().len(), 0);
    let file = ast.tree();
    let stmts = file.statements();
    assert_eq!(stmts.len(), 1);
    let pass = stmts[0]
        .simple_stmt()
        .unwrap()
        .small_stmts()[0]
        .pass_stmt()
        .unwrap();
    let elems = children_with_tokens(pass.syntax());
    assert_eq!(elems.len(), 1);
    match &elems[0] {
        SyntaxElement::Token(tok) => {
            assert_eq!(tok.kind(), SyntaxKind::PASS_KW);
            let wrapped = Pass::cast(*tok).expect("expected the pass keyword");
            assert_eq!(wrapped.text(), b"pass".to_vec());
            assert_eq!(tok.offset, 0);
        }
        SyntaxElement::Node(_) => panic!("expected a leaf"),
    }
}

/// Copying a subtree yields a structurally equal tree and leaves the
/// original untouched.
#[test]
fn clone_subtree_is_structurally_equal() {
    let ast = File::parse(b"def foo():\n    pass\n");
    let copy = ast.green().clone_subtree();
    assert!(copy.tree_eq(ast.green()));
    assert!(ast.green().tree_eq(&copy));
}

/// Forward-parent backpatching: a node completed first can be wrapped, after
/// the fact, in a parent that the replay step starts before it.
#[test]
fn forward_parent_replay() {
    let (stream, lex_errors) = tokenize(b"x y");
    assert!(lex_errors.is_empty());
    let src = TextTokenSource::new(&stream);
    let mut p = Parser::new(src);

    // parse `x` as an operand, then decide it belongs under an expression
    let m = p.start();
    p.bump(SyntaxKind::IDENTIFIER);
    let cm = m.complete(&mut p, SyntaxKind::OPERAND);
    let outer = cm.precede(&mut p);
    p.bump(SyntaxKind::IDENTIFIER);
    let _ = outer.complete(&mut p, SyntaxKind::EXPRESSION);

    let events = p.finish();
    let mut sink = TextTreeSink::new(stream);
    process(&mut sink, events);
    let (green, errors) = sink.finish();
    assert!(errors.is_empty());

    // the late-decided expression is the root, the operand sits inside it
    assert_eq!(green.kind(), SyntaxKind::EXPRESSION);
    let root = SyntaxNode::new_root(&green);
    assert_eq!(root.text(), b"x y".to_vec());
    let kids = root.children();
    assert_eq!(kids.len(), 1);
    assert_eq!(kids[0].kind(), SyntaxKind::OPERAND);
    assert_eq!(kids[0].text(), b"x".to_vec());
}
