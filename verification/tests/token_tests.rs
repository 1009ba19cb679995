use nova::tokens::{LookaheadChars, Token, TokenType};

#[test]
fn test_lookahead() {
    let inp = "23";
    let mut s = LookaheadChars::new(inp);
    assert_eq!(s.peek(), Some('2')); // 2
    assert_eq!(s.peek_next(), Some('3')); // 3
    s.next();

    assert_eq!(s.peek(), Some('3')); // 3
    assert_eq!(s.peek_next(), None); // None

    s.next();

    assert_eq!(s.peek(), None); // None
    assert_eq!(s.peek_next(), None); // None

    s.next();
    s.next();

    assert_eq!(s.peek(), None); // None
    assert_eq!(s.peek_next(), None); // None
}

#[test]
fn token_reprs() {
    assert_eq!(TokenType::TokenLeftParen.get_repr(), "(");
    assert_eq!(TokenType::TokenRightParen.get_repr(), ")");
    assert_eq!(TokenType::TokenEqEq.get_repr(), "==");
    assert_eq!(TokenType::TokenPlus.get_repr(), "ok");
}

#[test]
fn error_token() {
    let t = Token::err(3);
    assert!(t.is_err());
    assert_eq!(t.content, "");
    assert_eq!(t.line, 3);
    assert_eq!(t.debug_print(), "TokenError(''):line 3");

    let ok = Token { token_type: TokenType::TokenIdent, content: "abc", line: 12 };
    assert!(!ok.is_err());
    assert_eq!(ok.debug_print(), "TokenIdent('abc'):line 12");
}
