use lua_expr::token::{Token, TokenType};

#[test]
fn should_create_token() {
    let token = Token::new(TokenType::Function, "test", 0, None, 1);
    assert_eq!(token.token_type, TokenType::Function);
}

#[test]
fn token_keeps_lexeme_literal_and_position() {
    let token = Token::new(TokenType::Numeral, "42", 7, Some("42"), 3);
    assert_eq!(token.lexeme, "42");
    assert_eq!(token.lexeme_start, 7);
    assert_eq!(token.literal, Some(String::from("42")));
    assert_eq!(token.line, 3);
}
