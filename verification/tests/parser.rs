use lua_expr::debug_visitor::DebugVisitor;
use lua_expr::parser::Parser;
use lua_expr::parsing_error::ParseErrorKind;
use lua_expr::scanner::Scanner;
use lua_expr::token::{Token, TokenType};

fn expect_source_to_equal_ast(source: &str, expected: &str) {
    let mut scanner = Scanner::new(source);
    let tokens = scanner.scan_tokens().unwrap();
    let mut parser = Parser::new(tokens);
    let ast = parser.parse().unwrap();
    let debug_visitor = DebugVisitor;
    let output = ast.visit(&debug_visitor);
    assert_eq!(&output[..], expected);
}

fn expect_source_to_fail_with(source: &str, kind: ParseErrorKind) {
    let mut scanner = Scanner::new(source);
    let tokens = scanner.scan_tokens().unwrap();
    let mut parser = Parser::new(tokens);
    let error = parser.parse().unwrap_err();
    assert_eq!(error.kind, kind);
}

fn check_expressions() {
    expect_source_to_equal_ast(
        "true or (false and true) and true",
        "[or l=`true` r=[and l=([and l=`false` r=`true`]) r=`true`]]",
    );
    expect_source_to_equal_ast(
        "true and false and true",
        "[and l=[and l=`true` r=`false`] r=`true`]",
    );
    expect_source_to_equal_ast(
        "true or false and true and true",
        "[or l=`true` r=[and l=[and l=`false` r=`true`] r=`true`]]",
    );
    expect_source_to_equal_ast(
        "true or false or false and true",
        "[or l=[or l=`true` r=`false`] r=[and l=`false` r=`true`]]",
    );
    expect_source_to_equal_ast("1 >= 2 or 3", "[or l=[>= l=`1` r=`2`] r=`3`]");
    expect_source_to_equal_ast("false or 1 > 2", "[or l=`false` r=[> l=`1` r=`2`]]");
    expect_source_to_equal_ast("1 >= 2 and 3", "[and l=[>= l=`1` r=`2`] r=`3`]");
    expect_source_to_equal_ast(
        "false and 5 >= 5 or 11 < 10",
        "[or l=[and l=`false` r=[>= l=`5` r=`5`]] r=[< l=`11` r=`10`]]",
    );
    expect_source_to_equal_ast(
        "2 == 2 ^ 1 or true",
        "[or l=[== l=`2` r=[^ l=`2` r=`1`]] r=`true`]",
    );
    expect_source_to_equal_ast("not true or true", "[or l=[not r=`true`] r=`true`]");
    expect_source_to_equal_ast(
        "2 / 2 == 1 and true",
        "[and l=[== l=[/ l=`2` r=`2`] r=`1`] r=`true`]",
    );
    expect_source_to_equal_ast(
        "2 - 1 == 1 and true",
        "[and l=[== l=[- l=`2` r=`1`] r=`1`] r=`true`]",
    );
    expect_source_to_equal_ast(
        "'hello' .. 'world' ~= 0 or true",
        "[or l=[~= l=[.. l=`'hello'` r=`'world'`] r=`0`] r=`true`]",
    );
    expect_source_to_equal_ast(
        "2 << 2 == 8 or true",
        "[or l=[== l=[<< l=`2` r=`2`] r=`8`] r=`true`]",
    );
    expect_source_to_equal_ast(
        "1 & 1 == 3 or true",
        "[or l=[== l=[& l=`1` r=`1`] r=`3`] r=`true`]",
    );
    expect_source_to_equal_ast(
        "1 ~ 1 == 3 or true",
        "[or l=[== l=[~ l=`1` r=`1`] r=`3`] r=`true`]",
    );
    expect_source_to_equal_ast(
        "1 | 1 == 3 or true",
        "[or l=[== l=[| l=`1` r=`1`] r=`3`] r=`true`]",
    );
    expect_source_to_equal_ast(
        "(1 ~= 2 or (true or 2 << 1 == 4)) and false and (true or false)",
        "[and l=[and l=([or l=[~= l=`1` r=`2`] r=([or l=`true` r=[== l=[<< l=`2` r=`1`] r=`4`]])]) r=`false`] r=([or l=`true` r=`false`])]",
    );
    expect_source_to_equal_ast(
        "{ foo = 1, bar = 2 } and true",
        "[and l=Tc[`foo`=`1` `bar`=`2` ] r=`true`]",
    );
    expect_source_to_equal_ast(
        "foo.baz or foo[1 + 2].baz",
        "[or l=foo.baz r=foo[[+ l=`1` r=`2`]].baz]",
    );
}

fn check_table_constructors() {
    expect_source_to_equal_ast("{ foo = 1, }", "Tc[`foo`=`1` ]");
    expect_source_to_equal_ast("{ 123 }", "Tc[?=`123` ]");
    expect_source_to_equal_ast("{ }", "Tc[]");
    expect_source_to_equal_ast("{ 'foo' }", "Tc[?=`'foo'` ]");
    expect_source_to_equal_ast(
        "{ ['fo'..'o'] = 'bar' }",
        "Tc[[.. l=`'fo'` r=`'o'`]=`'bar'` ]",
    );
    expect_source_to_equal_ast("{ [1 + 2] = 'bar' }", "Tc[[+ l=`1` r=`2`]=`'bar'` ]");
    expect_source_to_equal_ast("{ 1, 2, 3 }", "Tc[?=`1` ?=`2` ?=`3` ]");
    expect_source_to_equal_ast("{ foo = 1, bar = 2; }", "Tc[`foo`=`1` `bar`=`2` ]");
    expect_source_to_equal_ast(
        "{ [1 + 2] = 'bar', ['1'..'2'] = 'foo' }",
        "Tc[[+ l=`1` r=`2`]=`'bar'` [.. l=`'1'` r=`'2'`]=`'foo'` ]",
    );
    expect_source_to_equal_ast(
        "{ 'hello'; [1 + 2] = 'bar'; foo = 1; }",
        "Tc[?=`'hello'` [+ l=`1` r=`2`]=`'bar'` `foo`=`1` ]",
    );
    expect_source_to_equal_ast(
        "{ foo = { bar = 1 }, baz = {} }",
        "Tc[`foo`=Tc[`bar`=`1` ] `baz`=Tc[] ]",
    );
}

fn check_variables() {
    expect_source_to_equal_ast("foo", "foo");
    expect_source_to_equal_ast("foo == true", "[== l=foo r=`true`]");
    expect_source_to_equal_ast("foo.bar", "foo.bar");
    expect_source_to_equal_ast("(foo).bar", "(foo).bar");
    expect_source_to_equal_ast("(foo or baz).bar", "([or l=foo r=baz]).bar");
    expect_source_to_equal_ast("foo.baz.bar", "foo.baz.bar");
    expect_source_to_equal_ast("foo.baz.bar.qoo", "foo.baz.bar.qoo");
    expect_source_to_equal_ast("(foo or baz).bar.qoo", "([or l=foo r=baz]).bar.qoo");
    expect_source_to_equal_ast("foo[bar]", "foo[bar]");
    expect_source_to_equal_ast("foo.baz[bar]", "foo.baz[bar]");
    expect_source_to_equal_ast("foo[1 + 2]", "foo[[+ l=`1` r=`2`]]");
    expect_source_to_equal_ast("foo.baz[1 + 2]", "foo.baz[[+ l=`1` r=`2`]]");
    expect_source_to_equal_ast("foo[1 + 2][3 + 4]", "foo[[+ l=`1` r=`2`]][[+ l=`3` r=`4`]]");
    expect_source_to_equal_ast("foo[1 + 2].bar", "foo[[+ l=`1` r=`2`]].bar");
}

#[test]
fn parser_should_parse_expressions() {
    check_expressions();
}

#[test]
fn parser_should_parse_table_constructor() {
    check_table_constructors();
}

#[test]
fn parser_should_parse_variables() {
    check_variables();
}

#[test]
fn mod_should_parse_expressions() {
    check_expressions();
}

#[test]
fn mod_should_parse_table_constructor() {
    check_table_constructors();
}

#[test]
fn mod_should_parse_variables() {
    check_variables();
}

#[test]
fn subtraction_chain_groups_to_the_left() {
    expect_source_to_equal_ast("2 - 1 - 1", "[- l=[- l=`2` r=`1`] r=`1`]");
}

#[test]
fn exponentiation_chain_groups_to_the_right() {
    expect_source_to_equal_ast("2 ^ 3 ^ 2", "[^ l=`2` r=[^ l=`3` r=`2`]]");
}

#[test]
fn concatenation_chain_groups_to_the_right() {
    expect_source_to_equal_ast(
        "'a' .. 'b' .. 'c'",
        "[.. l=`'a'` r=[.. l=`'b'` r=`'c'`]]",
    );
}

#[test]
fn relational_binds_tighter_than_or() {
    expect_source_to_equal_ast("1 >= 2 or 3", "[or l=[>= l=`1` r=`2`] r=`3`]");
}

#[test]
fn table_constructor_accepts_trailing_comma() {
    expect_source_to_equal_ast("{ }", "Tc[]");
    expect_source_to_equal_ast("{ foo = 1, bar = 2, }", "Tc[`foo`=`1` `bar`=`2` ]");
}

#[test]
fn unary_binds_looser_than_exponentiation() {
    expect_source_to_equal_ast("-2 ^ 2", "[- r=[^ l=`2` r=`2`]]");
}

#[test]
fn unary_operators_stack() {
    expect_source_to_equal_ast("- -2", "[- r=[- r=`2`]]");
}

#[test]
fn should_parse_function_calls() {
    expect_source_to_equal_ast("foo()", "[foo a:]");
    expect_source_to_equal_ast("foo(1, 2)", "[foo a:`1`, `2`, ]");
    expect_source_to_equal_ast("foo:bar('x')", "[foo:bar a:`'x'`, ]");
    expect_source_to_equal_ast("foo{ x = 1 }", "[foo a:Tc[`x`=`1` ]]");
    expect_source_to_equal_ast("foo'lit'", "[foo a:`'lit'`]");
    expect_source_to_equal_ast("foo(1)(2)", "[[foo a:`1`, ] a:`2`, ]");
    expect_source_to_equal_ast("foo.bar(1).baz", "[foo.bar a:`1`, ].baz");
}

#[test]
fn missing_closing_paren_is_reported() {
    expect_source_to_fail_with("(1 + 2", ParseErrorKind::MissingClosingDelimiter);
}

#[test]
fn missing_closing_brace_is_reported() {
    expect_source_to_fail_with("{ foo = 1", ParseErrorKind::MissingClosingDelimiter);
}

#[test]
fn missing_closing_bracket_is_reported() {
    expect_source_to_fail_with("foo[1 + 2", ParseErrorKind::MissingClosingDelimiter);
}

#[test]
fn missing_binary_operand_is_reported() {
    expect_source_to_fail_with("1 +", ParseErrorKind::MissingOperand);
}

#[test]
fn missing_unary_operand_is_reported() {
    expect_source_to_fail_with("not", ParseErrorKind::MissingOperand);
}

#[test]
fn missing_field_separator_is_reported() {
    expect_source_to_fail_with("{ [1] 2 }", ParseErrorKind::MissingFieldSeparator);
}

#[test]
fn token_starting_no_expression_is_reported() {
    expect_source_to_fail_with(")", ParseErrorKind::UnexpectedToken);
}

#[test]
fn exhausted_input_without_end_marker_reports_unexpected_end_of_tokens() {
    // The scanner always ends its output with the end-of-stream token; a
    // hand-built sequence without it can run out mid-production.
    let tokens = vec![Token::new(TokenType::Not, "not", 0, None, 1)];
    let mut parser = Parser::new(tokens);
    let error = parser.parse().unwrap_err();
    assert_eq!(error.kind, ParseErrorKind::UnexpectedEndOfTokens);
    assert_eq!(error.token.token_type, TokenType::Not);
}
