use sky_syntax::{SyntaxKind, TokenKind, TokenSet};

#[test]
fn test_token_set() {
    let set = TokenSet::from(vec![TokenKind::IDENTIFIER, TokenKind::AND_KW]);
    assert!(set.contains(TokenKind::IDENTIFIER.to_syntax()));
    assert!(set.contains(TokenKind::AND_KW.to_syntax()));
    assert!(!set.contains(TokenKind::OR_KW.to_syntax()));
    assert_eq!(
        set,
        TokenSet::new(&[SyntaxKind::IDENTIFIER, SyntaxKind::AND_KW])
    );
    assert_eq!(TokenSet::from(vec![]), TokenSet::empty());
    assert!(TokenSet::new(&[]).is_empty());
    assert_eq!(TokenSet::new(&[]), TokenSet::empty());
}

#[test]
fn test_union() {
    let a = TokenSet::new(&[SyntaxKind::IDENTIFIER, SyntaxKind::AND_KW]);
    let b = TokenSet::new(&[SyntaxKind::LPAREN, SyntaxKind::RPAREN]);
    let u = a.union(b);
    for kind in [
        SyntaxKind::IDENTIFIER,
        SyntaxKind::AND_KW,
        SyntaxKind::LPAREN,
        SyntaxKind::RPAREN,
    ] {
        assert!(u.contains(kind));
    }
    let overlapping = a.union(TokenSet::new(&[SyntaxKind::AND_KW, SyntaxKind::LPAREN]));
    assert_eq!(overlapping.len(), 3);
    assert_eq!(a.union(TokenSet::empty()), a);
}

#[test]
fn test_intersection() {
    let a = TokenSet::new(&[SyntaxKind::IDENTIFIER, SyntaxKind::AND_KW]);
    let b = TokenSet::new(&[SyntaxKind::AND_KW, SyntaxKind::LPAREN]);
    let i = a.intersection(b);
    assert!(i.contains(SyntaxKind::AND_KW));
    assert!(!i.contains(SyntaxKind::IDENTIFIER));
    assert!(!i.contains(SyntaxKind::LPAREN));
    assert!(a
        .intersection(TokenSet::new(&[SyntaxKind::LPAREN, SyntaxKind::RPAREN]))
        .is_empty());
}

#[test]
fn test_difference() {
    let a = TokenSet::new(&[SyntaxKind::IDENTIFIER, SyntaxKind::AND_KW]);
    let b = TokenSet::new(&[SyntaxKind::AND_KW, SyntaxKind::LPAREN]);
    let d = a.difference(b);
    assert!(d.contains(SyntaxKind::IDENTIFIER));
    assert!(!d.contains(SyntaxKind::AND_KW));
    assert!(!d.contains(SyntaxKind::LPAREN));
    // what is left shares nothing with what was removed
    assert!(d.is_disjoint(b));
}

#[test]
fn test_symmetric_difference() {
    let a = TokenSet::new(&[SyntaxKind::IDENTIFIER, SyntaxKind::AND_KW]);
    let b = TokenSet::new(&[SyntaxKind::AND_KW, SyntaxKind::LPAREN]);
    let s = a.symmetric_difference(b);
    assert!(s.contains(SyntaxKind::IDENTIFIER));
    assert!(!s.contains(SyntaxKind::AND_KW));
    assert!(s.contains(SyntaxKind::LPAREN));
}

#[test]
fn test_is_subset() {
    let a = TokenSet::new(&[SyntaxKind::IDENTIFIER, SyntaxKind::AND_KW]);
    let wider = TokenSet::new(&[
        SyntaxKind::IDENTIFIER,
        SyntaxKind::AND_KW,
        SyntaxKind::LPAREN,
    ]);
    assert!(a.is_subset(a));
    assert!(a.is_subset(wider));
    assert!(!wider.is_subset(a));
    assert!(!a.is_subset(TokenSet::empty()));
}

#[test]
fn test_is_superset() {
    let a = TokenSet::new(&[SyntaxKind::IDENTIFIER, SyntaxKind::AND_KW]);
    let wider = TokenSet::new(&[
        SyntaxKind::IDENTIFIER,
        SyntaxKind::AND_KW,
        SyntaxKind::LPAREN,
    ]);
    assert!(wider.is_superset(a));
    assert!(!a.is_superset(wider));
    assert!(a.is_superset(TokenSet::empty()));
}

#[test]
fn test_is_disjoint() {
    let a = TokenSet::new(&[SyntaxKind::IDENTIFIER, SyntaxKind::AND_KW]);
    assert!(a.is_disjoint(TokenSet::new(&[SyntaxKind::LPAREN, SyntaxKind::RPAREN])));
    assert!(!a.is_disjoint(TokenSet::new(&[SyntaxKind::AND_KW])));
    assert!(a.is_disjoint(TokenSet::empty()));
}

/// Union membership is pointwise disjunction, checked on concrete sets.
#[test]
fn union_contains_pointwise() {
    let a = TokenSet::new(&[SyntaxKind::PLUS, SyntaxKind::MINUS]);
    let b = TokenSet::new(&[SyntaxKind::MINUS, SyntaxKind::STAR]);
    for kind in [
        SyntaxKind::PLUS,
        SyntaxKind::MINUS,
        SyntaxKind::STAR,
        SyntaxKind::SLASH,
    ] {
        assert_eq!(
            a.union(b).contains(kind),
            a.contains(kind) || b.contains(kind)
        );
    }
}

/// Union is idempotent on concrete sets.
#[test]
fn union_idempotent() {
    let a = TokenSet::new(&[SyntaxKind::PLUS, SyntaxKind::COMMA, SyntaxKind::EOF]);
    assert_eq!(a.union(a), a);
}

/// A set shares nothing with its own complement.
#[test]
fn complement_disjoint() {
    let a = TokenSet::new(&[SyntaxKind::PLUS, SyntaxKind::COMMA]);
    assert!(a.intersection(a.complement()).is_empty());
    assert!(!a.complement().contains(SyntaxKind::PLUS));
    assert!(a.complement().contains(SyntaxKind::MINUS));
}

#[test]
fn singleton_and_counts() {
    let s = TokenSet::singleton(SyntaxKind::IDENTIFIER);
    assert!(s.is_singleton());
    assert_eq!(s.len(), 1);
    assert_eq!(s.count(), 1);
    assert!(!TokenSet::empty().is_singleton());
    assert!(!TokenSet::new(&[SyntaxKind::PLUS, SyntaxKind::MINUS]).is_singleton());
    assert_eq!(TokenSet::empty().count(), 0);
}

#[test]
fn mutating_operations() {
    let mut s = TokenSet::new(&[SyntaxKind::IDENTIFIER]);
    s.merge(SyntaxKind::AND_KW);
    assert!(s.contains(SyntaxKind::IDENTIFIER) && s.contains(SyntaxKind::AND_KW));

    s.remove(TokenSet::new(&[SyntaxKind::AND_KW]));
    assert!(s.contains(SyntaxKind::IDENTIFIER) && !s.contains(SyntaxKind::AND_KW));

    s.insert(TokenSet::new(&[SyntaxKind::LPAREN]));
    assert!(s.contains(SyntaxKind::LPAREN));

    s.toggle(TokenSet::new(&[SyntaxKind::LPAREN, SyntaxKind::RPAREN]));
    assert!(!s.contains(SyntaxKind::LPAREN) && s.contains(SyntaxKind::RPAREN));

    s.toggle_kind(SyntaxKind::RPAREN);
    assert!(!s.contains(SyntaxKind::RPAREN));

    let taken = s.take();
    assert!(taken.contains(SyntaxKind::IDENTIFIER));
    assert!(s.is_empty());
}

#[test]
fn kinds_enumeration() {
    let s = TokenSet::new(&[SyntaxKind::AND_KW, SyntaxKind::TOMBSTONE, SyntaxKind::PLUS]);
    let kinds = s.kinds();
    assert_eq!(
        kinds,
        vec![SyntaxKind::TOMBSTONE, SyntaxKind::AND_KW, SyntaxKind::PLUS]
    );
    assert_eq!(s.iter(), kinds);
}

/// Involutions: complementing or toggling twice gives the set back.
#[test]
fn involutions() {
    let a = TokenSet::new(&[SyntaxKind::PLUS, SyntaxKind::COMMA]);
    assert_eq!(a.complement().complement(), a);
    let b = TokenSet::new(&[SyntaxKind::COMMA, SyntaxKind::DOT]);
    let mut t = a;
    t.toggle(b);
    t.toggle(b);
    assert_eq!(t, a);
}

/// The disjointness test agrees with emptiness of the intersection.
#[test]
fn disjoint_matches_intersection() {
    let a = TokenSet::new(&[SyntaxKind::PLUS, SyntaxKind::COMMA]);
    let b = TokenSet::new(&[SyntaxKind::COMMA, SyntaxKind::DOT]);
    let c = TokenSet::new(&[SyntaxKind::DOT]);
    assert_eq!(a.is_disjoint(b), a.intersection(b).is_empty());
    assert_eq!(a.is_disjoint(c), a.intersection(c).is_empty());
    assert_eq!(a.is_disjoint(c), c.is_disjoint(a));
}

/// The enumeration has exactly `len` kinds for sets built from kinds.
#[test]
fn kinds_count_matches_len() {
    let a = TokenSet::new(&[SyntaxKind::PLUS, SyntaxKind::COMMA, SyntaxKind::EOF]);
    assert_eq!(a.kinds().len(), a.len());
    assert_eq!(TokenSet::empty().kinds().len(), 0);
}

/// The exact keyword and punctuation tables.
#[test]
fn keyword_and_char_tables() {
    assert_eq!(SyntaxKind::from_keyword(b"continue"), Some(SyntaxKind::CONTINUE_KW));
    assert_eq!(SyntaxKind::from_keyword(b"continu"), None);
    assert_eq!(SyntaxKind::from_keyword(b"Continue"), None);
    assert_eq!(SyntaxKind::from_keyword(b""), None);
    assert_eq!(SyntaxKind::from_char(b'~'), Some(SyntaxKind::TILDE));
    assert_eq!(SyntaxKind::from_char(b'$'), None);
}
