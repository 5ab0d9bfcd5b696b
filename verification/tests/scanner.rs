use lua_expr::scanner::{ScanError, Scanner};
use lua_expr::token::{Token, TokenType};

#[test]
fn should_scan_unary_expressions() {
    assert_eq!(
        Scanner::new("-1").scan_tokens(),
        Ok(vec![
            Token::new(TokenType::Minus, "-", 0, None, 1),
            Token::new(TokenType::Numeral, "1", 1, Some("1"), 1),
            Token::new(TokenType::Eof, "", 2, None, 1),
        ])
    );

    assert_eq!(
        Scanner::new("not true").scan_tokens(),
        Ok(vec![
            Token::new(TokenType::Not, "not", 0, None, 1),
            Token::new(TokenType::True, "true", 4, None, 1),
            Token::new(TokenType::Eof, "", 8, None, 1),
        ])
    );

    assert_eq!(
        Scanner::new("#some_array").scan_tokens(),
        Ok(vec![
            Token::new(TokenType::Hash, "#", 0, None, 1),
            Token::new(TokenType::Identifier, "some_array", 1, None, 1),
            Token::new(TokenType::Eof, "", 11, None, 1),
        ])
    );

    assert_eq!(
        Scanner::new("~value").scan_tokens(),
        Ok(vec![
            Token::new(TokenType::Tilde, "~", 0, None, 1),
            Token::new(TokenType::Identifier, "value", 1, None, 1),
            Token::new(TokenType::Eof, "", 6, None, 1),
        ])
    );
}

#[test]
fn should_scan_binary_expressions() {
    assert_eq!(
        Scanner::new("3 * 2").scan_tokens(),
        Ok(vec![
            Token::new(TokenType::Numeral, "3", 0, Some("3"), 1),
            Token::new(TokenType::Star, "*", 2, None, 1),
            Token::new(TokenType::Numeral, "2", 4, Some("2"), 1),
            Token::new(TokenType::Eof, "", 5, None, 1),
        ])
    );

    assert_eq!(
        Scanner::new("3 ^ 2").scan_tokens(),
        Ok(vec![
            Token::new(TokenType::Numeral, "3", 0, Some("3"), 1),
            Token::new(TokenType::Caret, "^", 2, None, 1),
            Token::new(TokenType::Numeral, "2", 4, Some("2"), 1),
            Token::new(TokenType::Eof, "", 5, None, 1),
        ])
    );

    assert_eq!(
        Scanner::new("3 / 2").scan_tokens(),
        Ok(vec![
            Token::new(TokenType::Numeral, "3", 0, Some("3"), 1),
            Token::new(TokenType::Slash, "/", 2, None, 1),
            Token::new(TokenType::Numeral, "2", 4, Some("2"), 1),
            Token::new(TokenType::Eof, "", 5, None, 1),
        ])
    );

    assert_eq!(
        Scanner::new("3 // 2").scan_tokens(),
        Ok(vec![
            Token::new(TokenType::Numeral, "3", 0, Some("3"), 1),
            Token::new(TokenType::SlashSlash, "//", 2, None, 1),
            Token::new(TokenType::Numeral, "2", 5, Some("2"), 1),
            Token::new(TokenType::Eof, "", 6, None, 1),
        ])
    );
}

#[test]
fn should_scan_comparisons() {
    assert_eq!(
        Scanner::new("5 >= 5").scan_tokens(),
        Ok(vec![
            Token::new(TokenType::Numeral, "5", 0, Some("5"), 1),
            Token::new(TokenType::GreaterEqual, ">=", 2, None, 1),
            Token::new(TokenType::Numeral, "5", 5, Some("5"), 1),
            Token::new(TokenType::Eof, "", 6, None, 1),
        ])
    );

    assert_eq!(
        Scanner::new("5 <= 5").scan_tokens(),
        Ok(vec![
            Token::new(TokenType::Numeral, "5", 0, Some("5"), 1),
            Token::new(TokenType::LessEqual, "<=", 2, None, 1),
            Token::new(TokenType::Numeral, "5", 5, Some("5"), 1),
            Token::new(TokenType::Eof, "", 6, None, 1),
        ])
    );

    assert_eq!(
        Scanner::new("11 < 10").scan_tokens(),
        Ok(vec![
            Token::new(TokenType::Numeral, "11", 0, Some("11"), 1),
            Token::new(TokenType::Less, "<", 3, None, 1),
            Token::new(TokenType::Numeral, "10", 5, Some("10"), 1),
            Token::new(TokenType::Eof, "", 7, None, 1),
        ])
    );
}

#[test]
fn should_scan_concatenation() {
    assert_eq!(
        Scanner::new("'hello ' .. 'world'").scan_tokens(),
        Ok(vec![
            Token::new(TokenType::LiteralString, "'hello '", 0, Some("hello "), 1),
            Token::new(TokenType::DotDot, "..", 9, None, 1),
            Token::new(TokenType::LiteralString, "'world'", 12, Some("world"), 1),
            Token::new(TokenType::Eof, "", 19, None, 1),
        ])
    );

    assert_eq!(
        Scanner::new("\"hello \" .. 'world'").scan_tokens(),
        Ok(vec![
            Token::new(TokenType::LiteralString, "\"hello \"", 0, Some("hello "), 1),
            Token::new(TokenType::DotDot, "..", 9, None, 1),
            Token::new(TokenType::LiteralString, "'world'", 12, Some("world"), 1),
            Token::new(TokenType::Eof, "", 19, None, 1),
        ])
    );
}

#[test]
fn should_merge_adjacent_else_and_if_into_elseif() {
    assert_eq!(
        Scanner::new("else if").scan_tokens(),
        Ok(vec![
            Token::new(TokenType::Elseif, "else if", 0, None, 1),
            Token::new(TokenType::Eof, "", 7, None, 1),
        ])
    );
}

#[test]
fn should_scan_elseif_keyword_as_one_token() {
    assert_eq!(
        Scanner::new("elseif").scan_tokens(),
        Ok(vec![
            Token::new(TokenType::Elseif, "elseif", 0, None, 1),
            Token::new(TokenType::Eof, "", 6, None, 1),
        ])
    );
}

#[test]
fn should_report_unterminated_string_with_starting_line() {
    assert_eq!(
        Scanner::new("'abc").scan_tokens(),
        Err(ScanError::UnterminatedString { line: 1 })
    );
    assert_eq!(
        Scanner::new("\n\n'abc").scan_tokens(),
        Err(ScanError::UnterminatedString { line: 3 })
    );
    assert_eq!(
        Scanner::new("'abc\ndef'").scan_tokens(),
        Err(ScanError::UnterminatedString { line: 1 })
    );
}

#[test]
fn should_report_unterminated_long_string() {
    assert_eq!(
        Scanner::new("[[abc").scan_tokens(),
        Err(ScanError::UnterminatedLongString { line: 1 })
    );
}

#[test]
fn should_report_unknown_character_with_line() {
    assert_eq!(
        Scanner::new("@").scan_tokens(),
        Err(ScanError::UnknownCharacter { character: '@', line: 1 })
    );
    assert_eq!(
        Scanner::new("1\n$").scan_tokens(),
        Err(ScanError::UnknownCharacter { character: '$', line: 2 })
    );
}

#[test]
fn scan_error_reports_line_and_message() {
    let error = Scanner::new("'abc").scan_tokens().unwrap_err();
    assert_eq!(error.line(), 1);
    assert_eq!(error.describe(), "unterminated string");
}

#[test]
fn should_scan_long_bracket_string_across_lines() {
    assert_eq!(
        Scanner::new("[[hello\nworld]]").scan_tokens(),
        Ok(vec![
            Token::new(
                TokenType::LiteralString,
                "[[hello\nworld]]",
                0,
                Some("hello\nworld"),
                2
            ),
            Token::new(TokenType::Eof, "", 15, None, 2),
        ])
    );
}

#[test]
fn should_discard_line_comment_and_count_lines() {
    assert_eq!(
        Scanner::new("1 --x\n2").scan_tokens(),
        Ok(vec![
            Token::new(TokenType::Numeral, "1", 0, Some("1"), 1),
            Token::new(TokenType::Numeral, "2", 6, Some("2"), 2),
            Token::new(TokenType::Eof, "", 7, None, 2),
        ])
    );
}

#[test]
fn should_discard_block_comment_and_count_lines() {
    assert_eq!(
        Scanner::new("1 --[[a\nb]] 2").scan_tokens(),
        Ok(vec![
            Token::new(TokenType::Numeral, "1", 0, Some("1"), 1),
            Token::new(TokenType::Numeral, "2", 12, Some("2"), 2),
            Token::new(TokenType::Eof, "", 13, None, 2),
        ])
    );
}

#[test]
fn should_scan_numeral_with_fractional_part() {
    assert_eq!(
        Scanner::new("3.14 10").scan_tokens(),
        Ok(vec![
            Token::new(TokenType::Numeral, "3.14", 0, Some("3.14"), 1),
            Token::new(TokenType::Numeral, "10", 5, Some("10"), 1),
            Token::new(TokenType::Eof, "", 7, None, 1),
        ])
    );
}

#[test]
fn should_scan_string_with_escaped_quote() {
    assert_eq!(
        Scanner::new("'a\\'b'").scan_tokens(),
        Ok(vec![
            Token::new(TokenType::LiteralString, "'a\\'b'", 0, Some("a\\'b"), 1),
            Token::new(TokenType::Eof, "", 6, None, 1),
        ])
    );
}

#[test]
fn escaped_newline_in_string_advances_line_counter() {
    assert_eq!(
        Scanner::new("'a\\\nb' x").scan_tokens(),
        Ok(vec![
            Token::new(TokenType::LiteralString, "'a\\\nb'", 0, Some("a\\\nb"), 1),
            Token::new(TokenType::Identifier, "x", 7, None, 2),
            Token::new(TokenType::Eof, "", 8, None, 2),
        ])
    );
}

#[test]
fn scanning_the_same_source_twice_yields_identical_tokens() {
    let source = "foo[1 + 2].bar -- note\n'x' .. 3.5";
    let first = Scanner::new(source).scan_tokens();
    let second = Scanner::new(source).scan_tokens();
    assert_eq!(first, second);
}
