//! The mathematical model of parsing: total recursive-descent grammar
//! functions over token sequences, ordered from loosest to tightest binding
//! power, which the executable parser refines.  Each function returns the
//! parsed node (or `None` when its production does not start at the given
//! position, or the first error) together with the position it stopped at.

use vstd::prelude::*;

use crate::ast::ArgsModel;
use crate::ast::ExpressionModel;
use crate::ast::FieldModel;
use crate::ast::FunctionCallModel;
use crate::ast::PrefixModel;
use crate::ast::VariableModel;
use crate::parsing_error::expected_kind;
use crate::parsing_error::ParseErrorKind;
use crate::parsing_error::ParseErrorModel;
use crate::token::{TokenModel, TokenType};

verus! {

/// The token a failure at `pos` is reported against: the token there, or the
/// last token (the end-of-stream marker) if input was exhausted.
pub open spec fn token_at(toks: Seq<TokenModel>, pos: nat) -> TokenModel {
    if pos < toks.len() {
        toks[pos as int]
    } else {
        toks.last()
    }
}

/// The error for input exhausted in the middle of a production, reported
/// against the token at `pos` (the last token once the cursor has passed
/// the end).
pub open spec fn end_of_tokens_error(toks: Seq<TokenModel>, pos: nat) -> ParseErrorModel {
    ParseErrorModel {
        kind: ParseErrorKind::UnexpectedEndOfTokens,
        message: "Unexpected end of tokens"@,
        token: token_at(toks, pos),
    }
}

/// Whether `t` is a binary operator of the given precedence level, low to
/// high: `or`; `and`; relational; bitwise or, xor, and; shift;
/// concatenation; additive; multiplicative; exponentiation.
pub open spec fn level_op(level: int, t: TokenType) -> bool {
    if level == 0 {
        t == TokenType::Or
    } else if level == 1 {
        t == TokenType::And
    } else if level == 2 {
        t == TokenType::Less || t == TokenType::LessEqual || t == TokenType::Greater || t
            == TokenType::GreaterEqual || t == TokenType::TildeEqual || t == TokenType::EqualEqual
    } else if level == 3 {
        t == TokenType::Pipe
    } else if level == 4 {
        t == TokenType::Tilde
    } else if level == 5 {
        t == TokenType::Ampersand
    } else if level == 6 {
        t == TokenType::LessLess || t == TokenType::GreaterGreater
    } else if level == 7 {
        t == TokenType::DotDot
    } else if level == 8 {
        t == TokenType::Plus || t == TokenType::Minus
    } else if level == 9 {
        t == TokenType::Star || t == TokenType::Slash || t == TokenType::SlashSlash || t
            == TokenType::Percent
    } else if level == 10 {
        t == TokenType::Caret
    } else {
        false
    }
}

/// Concatenation and exponentiation group to the right; every other binary
/// level groups to the left.
pub open spec fn right_associative(level: int) -> bool {
    level == 7 || level == 10
}

/// The tokens that continue a variable access and call chain.
pub open spec fn chain_token(t: TokenType) -> bool {
    t == TokenType::LeftBracket || t == TokenType::Dot || t == TokenType::Colon || t
        == TokenType::LeftParen || t == TokenType::LeftBrace || t == TokenType::LiteralString
}

/// The unary prefix operators.
pub open spec fn unary_op(t: TokenType) -> bool {
    t == TokenType::Minus || t == TokenType::Not || t == TokenType::Hash || t == TokenType::Tilde
}

/// The token kinds a literal expression is made of.
pub open spec fn literal_kind(t: TokenType) -> bool {
    t == TokenType::False || t == TokenType::True || t == TokenType::Nil || t == TokenType::Numeral
        || t == TokenType::LiteralString
}

/// The entry production: an expression.
pub open spec fn spec_parse_expression(toks: Seq<TokenModel>, pos: nat) -> (Result<
    Option<ExpressionModel>,
    ParseErrorModel,
>, nat)
    decreases toks.len() - pos, 120int,
{
    spec_parse_spread(toks, pos)
}

/// Placeholder level for `...` spread expressions (statement-level grammar is
/// out of scope): delegates to the next level.
pub open spec fn spec_parse_spread(toks: Seq<TokenModel>, pos: nat) -> (Result<
    Option<ExpressionModel>,
    ParseErrorModel,
>, nat)
    decreases toks.len() - pos, 118int,
{
    spec_parse_function_definition(toks, pos)
}

/// Placeholder level for function definition expressions (out of scope):
/// delegates to the binary operator levels.
pub open spec fn spec_parse_function_definition(toks: Seq<TokenModel>, pos: nat) -> (Result<
    Option<ExpressionModel>,
    ParseErrorModel,
>, nat)
    decreases toks.len() - pos, 116int,
{
    spec_parse_binary(toks, pos, 0)
}

/// One binary precedence level: parses its next-tighter level as left
/// operand, then folds further operands in.  Left-associative levels fold
/// iteratively into an accumulating left tree; the right-associative levels
/// (concatenation, exponentiation) recurse into the same level once for the
/// right operand.
pub open spec fn spec_parse_binary(toks: Seq<TokenModel>, pos: nat, level: nat) -> (Result<
    Option<ExpressionModel>,
    ParseErrorModel,
>, nat)
    decreases toks.len() - pos, 100int - 4 * level,
{
    if level > 10 {
        (Ok(None), pos)
    } else {
        let (left_r, pos1) = spec_parse_binary_operand(toks, pos, level);
        match left_r {
            Err(e) => (Err(e), pos1),
            Ok(None) => (Ok(None), pos1),
            Ok(Some(left)) => {
                if pos1 < pos || pos1 > toks.len() {
                    // Parsing never moves the cursor backwards nor past the
                    // end of the tokens.
                    (Ok(Some(left)), pos1)
                } else if right_associative(level as int) {
                    if pos1 < toks.len() && level_op(level as int, toks[pos1 as int].token_type) {
                        let op = toks[pos1 as int];
                        let (right_r, pos2) = spec_parse_binary(toks, pos1 + 1, level);
                        match right_r {
                            Err(e) => (Err(e), pos2),
                            Ok(None) => (
                                Err(
                                    ParseErrorModel {
                                        kind: ParseErrorKind::MissingOperand,
                                        message: "Failed to parse operand of binary expression"@,
                                        token: token_at(toks, pos2),
                                    },
                                ),
                                pos2,
                            ),
                            Ok(Some(right)) => (
                                Ok(
                                    Some(
                                        ExpressionModel::Binary {
                                            left: Box::new(left),
                                            operator: op,
                                            right: Box::new(right),
                                        },
                                    ),
                                ),
                                pos2,
                            ),
                        }
                    } else {
                        (Ok(Some(left)), pos1)
                    }
                } else {
                    spec_fold_binary(toks, pos1, level, left)
                }
            },
        }
    }
}

/// The operand one level tighter: the next binary level, the unary level
/// after the multiplicative operators, and the postfix chain after
/// exponentiation.
pub open spec fn spec_parse_binary_operand(toks: Seq<TokenModel>, pos: nat, level: nat) -> (Result<
    Option<ExpressionModel>,
    ParseErrorModel,
>, nat)
    decreases toks.len() - pos, 98int - 4 * level,
{
    if level < 9 {
        spec_parse_binary(toks, pos, level + 1)
    } else if level == 9 {
        spec_parse_unary(toks, pos)
    } else if level == 10 {
        spec_parse_var_access(toks, pos)
    } else {
        (Ok(None), pos)
    }
}

/// The left fold of a left-associative binary level: while the level's own
/// operator follows, parses the next-tighter level as right operand and
/// folds it into the accumulating left tree.
pub open spec fn spec_fold_binary(
    toks: Seq<TokenModel>,
    pos: nat,
    level: nat,
    left: ExpressionModel,
) -> (Result<Option<ExpressionModel>, ParseErrorModel>, nat)
    decreases toks.len() - pos, 10int,
{
    if pos < toks.len() && level_op(level as int, toks[pos as int].token_type) {
        let op = toks[pos as int];
        let (right_r, pos2) = spec_parse_binary_operand(toks, pos + 1, level);
        match right_r {
            Err(e) => (Err(e), pos2),
            Ok(None) => (
                Err(
                    ParseErrorModel {
                        kind: ParseErrorKind::MissingOperand,
                        message: "Failed to parse operand of binary expression"@,
                        token: token_at(toks, pos2),
                    },
                ),
                pos2,
            ),
            Ok(Some(right)) => {
                let folded = ExpressionModel::Binary {
                    left: Box::new(left),
                    operator: op,
                    right: Box::new(right),
                };
                if pos < pos2 <= toks.len() {
                    spec_fold_binary(toks, pos2, level, folded)
                } else {
                    (Ok(Some(folded)), pos2)
                }
            },
        }
    } else {
        (Ok(Some(left)), pos)
    }
}

/// The unary prefix level: `not # - ~`, right-recursive so operators stack,
/// binding tighter than every binary level but exponentiation.
pub open spec fn spec_parse_unary(toks: Seq<TokenModel>, pos: nat) -> (Result<
    Option<ExpressionModel>,
    ParseErrorModel,
>, nat)
    decreases toks.len() - pos, 61int,
{
    if pos >= toks.len() {
        (Err(end_of_tokens_error(toks, pos)), pos)
    } else if unary_op(toks[pos as int].token_type) {
        let op = toks[pos as int];
        let (right_r, pos2) = spec_parse_unary(toks, pos + 1);
        match right_r {
            Err(e) => (Err(e), pos2),
            Ok(None) => (
                Err(
                    ParseErrorModel {
                        kind: ParseErrorKind::MissingOperand,
                        message: "Failed to parse operand of unary expression"@,
                        token: token_at(toks, pos2),
                    },
                ),
                pos2,
            ),
            Ok(Some(right)) => (
                Ok(Some(ExpressionModel::Unary { operator: op, right: Box::new(right) })),
                pos2,
            ),
        }
    } else {
        spec_parse_binary(toks, pos, 10)
    }
}

/// The postfix level: a variable or grouped prefix followed by its access
/// and call chain.
pub open spec fn spec_parse_var_access(toks: Seq<TokenModel>, pos: nat) -> (Result<
    Option<ExpressionModel>,
    ParseErrorModel,
>, nat)
    decreases toks.len() - pos, 57int,
{
    let (r, pos1) = spec_parse_var_identifier(toks, pos);
    match r {
        Ok(Some(ExpressionModel::Prefix(prefix))) => {
            if pos <= pos1 <= toks.len() {
                spec_parse_var_chain(toks, pos1, prefix)
            } else {
                (Ok(Some(ExpressionModel::Prefix(prefix))), pos1)
            }
        },
        _ => (r, pos1),
    }
}

/// The access and call chain on a prefix expression: `.name`, `[expr]`,
/// call arguments, or `:name` plus call arguments, repeated until the first
/// token matching none of these.
pub open spec fn spec_parse_var_chain(
    toks: Seq<TokenModel>,
    pos: nat,
    prefix: PrefixModel,
) -> (Result<Option<ExpressionModel>, ParseErrorModel>, nat)
    decreases toks.len() - pos, 52int,
{
    if pos >= toks.len() {
        (Ok(Some(ExpressionModel::Prefix(prefix))), pos)
    } else {
        let kind = toks[pos as int].token_type;
        if kind == TokenType::LeftBracket {
            let (r, pos2) = spec_parse_expression(toks, pos + 1);
            match r {
                Err(e) => (Err(e), pos2),
                Ok(None) => (
                    Err(
                        ParseErrorModel {
                            kind: ParseErrorKind::UnexpectedToken,
                            message: "Unexpected token"@,
                            token: token_at(toks, pos2),
                        },
                    ),
                    pos2,
                ),
                Ok(Some(member)) => {
                    if pos2 < toks.len() && toks[pos2 as int].token_type
                        == TokenType::RightBracket {
                        let chained = PrefixModel::Variable(
                            VariableModel::ExpressionMemberAccess {
                                reference: Box::new(prefix),
                                member: Box::new(member),
                            },
                        );
                        if pos2 + 1 > pos {
                            spec_parse_var_chain(toks, pos2 + 1, chained)
                        } else {
                            (Ok(Some(ExpressionModel::Prefix(chained))), pos2 + 1)
                        }
                    } else {
                        (
                            Err(
                                ParseErrorModel {
                                    kind: expected_kind(TokenType::RightBracket),
                                    message: "Expected `]` after expression"@,
                                    token: token_at(toks, pos2),
                                },
                            ),
                            pos2,
                        )
                    }
                },
            }
        } else if kind == TokenType::Dot {
            if pos + 1 >= toks.len() {
                (Err(end_of_tokens_error(toks, pos + 1)), pos + 1)
            } else if toks[pos as int + 1].token_type == TokenType::Identifier {
                let chained = PrefixModel::Variable(
                    VariableModel::MemberAccess {
                        reference: Box::new(prefix),
                        member: toks[pos as int + 1],
                    },
                );
                spec_parse_var_chain(toks, pos + 2, chained)
            } else {
                (
                    Err(
                        ParseErrorModel {
                            kind: ParseErrorKind::UnexpectedToken,
                            message: "Expected identifier after `.`"@,
                            token: token_at(toks, pos + 1),
                        },
                    ),
                    pos + 1,
                )
            }
        } else if kind == TokenType::Colon || kind == TokenType::LeftParen || kind
            == TokenType::LeftBrace || kind == TokenType::LiteralString {
            let (r, pos2) = spec_parse_call_step(toks, pos, prefix);
            match r {
                Err(e) => (Err(e), pos2),
                Ok(None) => (Ok(Some(ExpressionModel::Prefix(prefix))), pos),
                Ok(Some(chained)) => {
                    if pos < pos2 <= toks.len() {
                        spec_parse_var_chain(toks, pos2, chained)
                    } else {
                        (Ok(Some(ExpressionModel::Prefix(chained))), pos2)
                    }
                },
            }
        } else {
            (Ok(Some(ExpressionModel::Prefix(prefix))), pos)
        }
    }
}

/// One call in the chain: `:name` followed by call arguments makes a method
/// call; call arguments alone make a function call.
pub open spec fn spec_parse_call_step(
    toks: Seq<TokenModel>,
    pos: nat,
    prefix: PrefixModel,
) -> (Result<Option<PrefixModel>, ParseErrorModel>, nat)
    decreases toks.len() - pos, 50int,
{
    if pos < toks.len() && toks[pos as int].token_type == TokenType::Colon {
        if pos + 1 >= toks.len() {
            (Err(end_of_tokens_error(toks, pos + 1)), pos + 1)
        } else if toks[pos as int + 1].token_type == TokenType::Identifier {
            let method = toks[pos as int + 1];
            let (r, pos2) = spec_parse_function_args(toks, pos + 2);
            match r {
                Err(e) => (Err(e), pos2),
                Ok(None) => (
                    Err(
                        ParseErrorModel {
                            kind: ParseErrorKind::UnexpectedToken,
                            message: "Expected arguments in method call"@,
                            token: token_at(toks, pos2),
                        },
                    ),
                    pos2,
                ),
                Ok(Some(args)) => (
                    Ok(
                        Some(
                            PrefixModel::FunctionCall(
                                FunctionCallModel::MethodCall {
                                    callee: Box::new(prefix),
                                    method,
                                    args,
                                },
                            ),
                        ),
                    ),
                    pos2,
                ),
            }
        } else {
            (
                Err(
                    ParseErrorModel {
                        kind: ParseErrorKind::UnexpectedToken,
                        message: "Expected identifier after `:` in method call"@,
                        token: token_at(toks, pos + 1),
                    },
                ),
                pos + 1,
            )
        }
    } else {
        let (r, pos2) = spec_parse_function_args(toks, pos);
        match r {
            Err(e) => (Err(e), pos2),
            Ok(None) => (Ok(None), pos2),
            Ok(Some(args)) => (
                Ok(
                    Some(
                        PrefixModel::FunctionCall(
                            FunctionCallModel::FunctionCall { callee: Box::new(prefix), args },
                        ),
                    ),
                ),
                pos2,
            ),
        }
    }
}

/// Call arguments: `()`, a parenthesized expression list, a table
/// constructor used directly, or a bare literal string.
pub open spec fn spec_parse_function_args(toks: Seq<TokenModel>, pos: nat) -> (Result<
    Option<ArgsModel>,
    ParseErrorModel,
>, nat)
    decreases toks.len() - pos, 49int,
{
    if pos >= toks.len() {
        (Err(end_of_tokens_error(toks, pos)), pos)
    } else {
        let kind = toks[pos as int].token_type;
        if kind == TokenType::LeftParen {
            if pos + 1 < toks.len() && toks[pos as int + 1].token_type == TokenType::RightParen {
                (Ok(Some(ArgsModel::ExpressionList(Seq::empty()))), pos + 2)
            } else {
                let (r, pos2) = spec_parse_args_list(toks, pos + 1, Seq::empty());
                match r {
                    Err(e) => (Err(e), pos2),
                    Ok(args) => {
                        if pos2 < toks.len() && toks[pos2 as int].token_type
                            == TokenType::RightParen {
                            (Ok(Some(ArgsModel::ExpressionList(args))), pos2 + 1)
                        } else {
                            (
                                Err(
                                    ParseErrorModel {
                                        kind: expected_kind(TokenType::RightParen),
                                        message: "Expected ')' after arguments list"@,
                                        token: token_at(toks, pos2),
                                    },
                                ),
                                pos2,
                            )
                        }
                    },
                }
            }
        } else if kind == TokenType::LeftBrace {
            let (r, pos2) = spec_parse_table_constructor(toks, pos);
            match r {
                Err(e) => (Err(e), pos2),
                Ok(fields) => (Ok(Some(ArgsModel::TableConstructor(fields))), pos2),
            }
        } else if kind == TokenType::LiteralString {
            (Ok(Some(ArgsModel::LiteralString(toks[pos as int]))), pos + 1)
        } else {
            (Ok(None), pos)
        }
    }
}

/// A comma-separated expression list (a trailing comma is not permitted).
pub open spec fn spec_parse_args_list(
    toks: Seq<TokenModel>,
    pos: nat,
    acc: Seq<ExpressionModel>,
) -> (Result<Seq<ExpressionModel>, ParseErrorModel>, nat)
    decreases toks.len() - pos, 125int,
{
    let (r, pos2) = spec_parse_expression(toks, pos);
    match r {
        Err(e) => (Err(e), pos2),
        Ok(None) => (
            Err(
                ParseErrorModel {
                    kind: ParseErrorKind::UnexpectedToken,
                    message: "Unexpected token"@,
                    token: token_at(toks, pos2),
                },
            ),
            pos2,
        ),
        Ok(Some(e)) => {
            if pos2 < toks.len() && toks[pos2 as int].token_type == TokenType::Comma && pos2
                >= pos {
                spec_parse_args_list(toks, pos2 + 1, acc.push(e))
            } else {
                (Ok(acc.push(e)), pos2)
            }
        },
    }
}

/// The continuation of an argument list after one expression: another
/// round if a comma follows, otherwise the list so far.
pub open spec fn spec_args_tail(
    toks: Seq<TokenModel>,
    pos: nat,
    acc: Seq<ExpressionModel>,
) -> (Result<Seq<ExpressionModel>, ParseErrorModel>, nat)
    decreases toks.len() - pos, 5int,
{
    if pos < toks.len() && toks[pos as int].token_type == TokenType::Comma {
        spec_parse_args_list(toks, pos + 1, acc)
    } else {
        (Ok(acc), pos)
    }
}

/// A bare identifier starting a variable, or anything the prefix production
/// accepts.
pub open spec fn spec_parse_var_identifier(toks: Seq<TokenModel>, pos: nat) -> (Result<
    Option<ExpressionModel>,
    ParseErrorModel,
>, nat)
    decreases toks.len() - pos, 56int,
{
    if pos >= toks.len() {
        (Err(end_of_tokens_error(toks, pos)), pos)
    } else if toks[pos as int].token_type == TokenType::Identifier {
        (
            Ok(
                Some(
                    ExpressionModel::Prefix(
                        PrefixModel::Variable(VariableModel::Identifier(toks[pos as int])),
                    ),
                ),
            ),
            pos + 1,
        )
    } else {
        spec_parse_prefix(toks, pos)
    }
}

/// A prefix expression: an identifier, a parenthesized expression, or
/// whatever the table-constructor and literal productions accept.
pub open spec fn spec_parse_prefix(toks: Seq<TokenModel>, pos: nat) -> (Result<
    Option<ExpressionModel>,
    ParseErrorModel,
>, nat)
    decreases toks.len() - pos, 55int,
{
    if pos >= toks.len() {
        (Err(end_of_tokens_error(toks, pos)), pos)
    } else if toks[pos as int].token_type == TokenType::Identifier {
        (
            Ok(
                Some(
                    ExpressionModel::Prefix(
                        PrefixModel::Variable(VariableModel::Identifier(toks[pos as int])),
                    ),
                ),
            ),
            pos + 1,
        )
    } else if toks[pos as int].token_type == TokenType::LeftParen {
        let (r, pos2) = spec_parse_expression(toks, pos + 1);
        match r {
            Err(e) => (Err(e), pos2),
            Ok(None) => (
                Err(
                    ParseErrorModel {
                        kind: ParseErrorKind::UnexpectedToken,
                        message: "Unexpected token"@,
                        token: token_at(toks, pos2),
                    },
                ),
                pos2,
            ),
            Ok(Some(e)) => {
                if pos2 < toks.len() && toks[pos2 as int].token_type == TokenType::RightParen {
                    (
                        Ok(Some(ExpressionModel::Prefix(PrefixModel::Group(Box::new(e))))),
                        pos2 + 1,
                    )
                } else {
                    (
                        Err(
                            ParseErrorModel {
                                kind: expected_kind(TokenType::RightParen),
                                message: "Expected `)` after expression"@,
                                token: token_at(toks, pos2),
                            },
                        ),
                        pos2,
                    )
                }
            },
        }
    } else {
        spec_parse_maybe_table_constructor(toks, pos)
    }
}

/// A table constructor where one may start, or whatever the literal
/// production accepts.
pub open spec fn spec_parse_maybe_table_constructor(toks: Seq<TokenModel>, pos: nat) -> (Result<
    Option<ExpressionModel>,
    ParseErrorModel,
>, nat)
    decreases toks.len() - pos, 54int,
{
    if pos >= toks.len() {
        (Err(end_of_tokens_error(toks, pos)), pos)
    } else if toks[pos as int].token_type == TokenType::LeftBrace {
        let (r, pos2) = spec_parse_table_constructor(toks, pos);
        match r {
            Err(e) => (Err(e), pos2),
            Ok(fields) => (Ok(Some(ExpressionModel::TableConstructor(fields))), pos2),
        }
    } else {
        spec_parse_literal(toks, pos)
    }
}

/// A table constructor: `{`, zero or more fields separated by `,` or `;`
/// (either separator accepted after any field, including the last), `}`.
pub open spec fn spec_parse_table_constructor(toks: Seq<TokenModel>, pos: nat) -> (Result<
    Seq<FieldModel>,
    ParseErrorModel,
>, nat)
    decreases toks.len() - pos, 48int,
{
    if pos < toks.len() && toks[pos as int].token_type == TokenType::LeftBrace {
        let (r, pos2) = spec_parse_fields(toks, pos + 1, Seq::empty());
        match r {
            Err(e) => (Err(e), pos2),
            Ok(fields) => {
                if pos2 < toks.len() && toks[pos2 as int].token_type == TokenType::RightBrace {
                    (Ok(fields), pos2 + 1)
                } else {
                    (
                        Err(
                            ParseErrorModel {
                                kind: expected_kind(TokenType::RightBrace),
                                message: "Expected '}' after field list"@,
                                token: token_at(toks, pos2),
                            },
                        ),
                        pos2,
                    )
                }
            },
        }
    } else {
        (
            Err(
                ParseErrorModel {
                    kind: ParseErrorKind::UnexpectedToken,
                    message: "Unexpected token"@,
                    token: token_at(toks, pos),
                },
            ),
            pos,
        )
    }
}

/// The field list of a table constructor, up to (not including) the closing
/// `}`: stops early when no field starts at the current position, leaving
/// the delimiter check to the caller.
pub open spec fn spec_parse_fields(
    toks: Seq<TokenModel>,
    pos: nat,
    acc: Seq<FieldModel>,
) -> (Result<Seq<FieldModel>, ParseErrorModel>, nat)
    decreases toks.len() - pos, 135int,
{
    if pos < toks.len() && toks[pos as int].token_type == TokenType::RightBrace {
        (Ok(acc), pos)
    } else {
        let (r, pos2) = spec_parse_field(toks, pos);
        match r {
            Err(e) => (Err(e), pos2),
            Ok(None) => (Ok(acc), pos2),
            Ok(Some(field)) => {
                let pos3 = if pos2 < toks.len() && (toks[pos2 as int].token_type
                    == TokenType::Comma || toks[pos2 as int].token_type == TokenType::Semicolon) {
                    pos2 + 1
                } else {
                    pos2
                };
                if pos < pos3 <= toks.len() {
                    spec_parse_fields(toks, pos3, acc.push(field))
                } else {
                    (Ok(acc.push(field)), pos3)
                }
            },
        }
    }
}

/// One field of a table constructor: `[expr] = expr`, `name = expr`
/// (recognized by probing whether `=` follows a leading identifier), or a
/// bare expression (array style).
pub open spec fn spec_parse_field(toks: Seq<TokenModel>, pos: nat) -> (Result<
    Option<FieldModel>,
    ParseErrorModel,
>, nat)
    decreases toks.len() - pos, 130int,
{
    if pos >= toks.len() {
        (Err(end_of_tokens_error(toks, pos)), pos)
    } else if toks[pos as int].token_type == TokenType::LeftBracket {
        let (r, pos2) = spec_parse_expression(toks, pos + 1);
        match r {
            Err(e) => (Err(e), pos2),
            Ok(None) => (
                Err(
                    ParseErrorModel {
                        kind: ParseErrorKind::UnexpectedToken,
                        message: "Failed to parse key expression in field of table constructor"@,
                        token: token_at(toks, pos2),
                    },
                ),
                pos2,
            ),
            Ok(Some(key)) => {
                if !(pos2 < toks.len() && toks[pos2 as int].token_type
                    == TokenType::RightBracket) {
                    (
                        Err(
                            ParseErrorModel {
                                kind: expected_kind(TokenType::RightBracket),
                                message: "Expected ']' in field initialization"@,
                                token: token_at(toks, pos2),
                            },
                        ),
                        pos2,
                    )
                } else if !(pos2 + 1 < toks.len() && toks[pos2 as int + 1].token_type
                    == TokenType::Equal) {
                    (
                        Err(
                            ParseErrorModel {
                                kind: expected_kind(TokenType::Equal),
                                message: "Expected '=' in field initialization"@,
                                token: token_at(toks, pos2 + 1),
                            },
                        ),
                        pos2 + 1,
                    )
                } else if pos2 + 2 > pos {
                    let (vr, pos3) = spec_parse_expression(toks, pos2 + 2);
                    match vr {
                        Err(e) => (Err(e), pos3),
                        Ok(None) => (
                            Err(
                                ParseErrorModel {
                                    kind: ParseErrorKind::UnexpectedToken,
                                    message:
                                        "Failed to parse value expression in field of table constructor"@,
                                    token: token_at(toks, pos3),
                                },
                            ),
                            pos3,
                        ),
                        Ok(Some(value)) => (
                            Ok(
                                Some(
                                    FieldModel::Expression {
                                        key: Box::new(key),
                                        value: Box::new(value),
                                    },
                                ),
                            ),
                            pos3,
                        ),
                    }
                } else {
                    // Parsing never moves the cursor backwards.
                    (Ok(None), pos2)
                }
            },
        }
    } else if toks[pos as int].token_type == TokenType::Identifier && pos + 1 < toks.len()
        && toks[pos as int + 1].token_type == TokenType::Equal {
        let (vr, pos3) = spec_parse_expression(toks, pos + 2);
        match vr {
            Err(e) => (Err(e), pos3),
            Ok(None) => (
                Err(
                    ParseErrorModel {
                        kind: ParseErrorKind::UnexpectedToken,
                        message: "Failed to parse value expression in field of table constructor"@,
                        token: token_at(toks, pos3),
                    },
                ),
                pos3,
            ),
            Ok(Some(value)) => (
                Ok(
                    Some(FieldModel::Normal { key: toks[pos as int], value: Box::new(value) }),
                ),
                pos3,
            ),
        }
    } else if toks[pos as int].token_type == TokenType::Equal {
        (
            Err(
                ParseErrorModel {
                    kind: ParseErrorKind::UnexpectedToken,
                    message: "Failed to parse field of table constructor"@,
                    token: token_at(toks, pos),
                },
            ),
            pos,
        )
    } else {
        let (r, pos2) = spec_parse_expression(toks, pos);
        match r {
            Err(e) => (Err(e), pos2),
            Ok(None) => (Ok(None), pos2),
            Ok(Some(value)) => (Ok(Some(FieldModel::Anonymous { value: Box::new(value) })), pos2),
        }
    }
}

/// A literal expression: `nil`, `true`, `false`, a numeral, or a literal
/// string.
pub open spec fn spec_parse_literal(toks: Seq<TokenModel>, pos: nat) -> (Result<
    Option<ExpressionModel>,
    ParseErrorModel,
>, nat)
    decreases toks.len() - pos, 47int,
{
    if pos >= toks.len() {
        (Err(end_of_tokens_error(toks, pos)), pos)
    } else if literal_kind(toks[pos as int].token_type) {
        (Ok(Some(ExpressionModel::Literal(toks[pos as int]))), pos + 1)
    } else {
        (Ok(None), pos)
    }
}

proof fn lemma_literal_operand(toks: Seq<TokenModel>, pos: nat, level: nat)
    requires
        level <= 10,
        pos < toks.len(),
        literal_kind(toks[pos as int].token_type),
        pos + 1 < toks.len() ==> !chain_token(toks[pos as int + 1].token_type),
        pos + 1 < toks.len() ==> forall|l: int|
            (level as int) < l <= 10 ==> !#[trigger] level_op(l, toks[pos as int + 1].token_type),
    ensures
        spec_parse_binary_operand(toks, pos, level) == (
            Ok::<Option<ExpressionModel>, ParseErrorModel>(
                Some(ExpressionModel::Literal(toks[pos as int])),
            ),
            pos + 1,
        ),
    decreases 10 - level,
{
    let lit = ExpressionModel::Literal(toks[pos as int]);
    let t = toks[pos as int].token_type;
    let expected = (Ok::<Option<ExpressionModel>, ParseErrorModel>(Some(lit)), pos + 1);
    if level == 10 {
        assert(spec_parse_literal(toks, pos) == expected);
        assert(spec_parse_maybe_table_constructor(toks, pos) == expected);
        assert(spec_parse_prefix(toks, pos) == expected);
        assert(spec_parse_var_identifier(toks, pos) == expected);
        assert(spec_parse_var_access(toks, pos) == expected);
        assert(spec_parse_binary_operand(toks, pos, 10) == expected);
    } else {
        lemma_literal_operand(toks, pos, level + 1);
        if level == 9 {
            assert(spec_parse_binary(toks, pos, 10) == expected);
            assert(!unary_op(t));
            assert(spec_parse_unary(toks, pos) == expected);
        } else {
            if !right_associative(level as int + 1) {
                assert(spec_fold_binary(toks, pos + 1, (level + 1) as nat, lit) == expected);
            }
            assert(spec_parse_binary(toks, pos, (level + 1) as nat) == expected);
        }
        assert(spec_parse_binary_operand(toks, pos, level) == expected);
    }
}

proof fn lemma_binary_passthrough(toks: Seq<TokenModel>, level: nat, e: ExpressionModel, end: nat)
    requires
        level <= 10,
        end == toks.len(),
        spec_parse_binary_operand(toks, 0, level) == (
            Ok::<Option<ExpressionModel>, ParseErrorModel>(Some(e)),
            end,
        ),
    ensures
        spec_parse_binary(toks, 0, level) == (
            Ok::<Option<ExpressionModel>, ParseErrorModel>(Some(e)),
            end,
        ),
{
    if !right_associative(level as int) {
        assert(spec_fold_binary(toks, end, level, e) == (
            Ok::<Option<ExpressionModel>, ParseErrorModel>(Some(e)),
            end,
        ));
    }
}

proof fn lemma_binary_to_entry(toks: Seq<TokenModel>, level: nat, e: ExpressionModel, end: nat)
    requires
        level <= 10,
        end == toks.len(),
        toks.len() > 0,
        !unary_op(toks[0].token_type),
        spec_parse_binary(toks, 0, level) == (
            Ok::<Option<ExpressionModel>, ParseErrorModel>(Some(e)),
            end,
        ),
    ensures
        spec_parse_expression(toks, 0) == (
            Ok::<Option<ExpressionModel>, ParseErrorModel>(Some(e)),
            end,
        ),
    decreases level,
{
    let expected = (Ok::<Option<ExpressionModel>, ParseErrorModel>(Some(e)), end);
    if level == 0 {
        assert(spec_parse_function_definition(toks, 0) == expected);
        assert(spec_parse_spread(toks, 0) == expected);
        assert(spec_parse_expression(toks, 0) == expected);
    } else {
        let l = (level - 1) as nat;
        if l == 9 {
            assert(spec_parse_unary(toks, 0) == expected);
        }
        assert(spec_parse_binary_operand(toks, 0, l) == expected);
        lemma_binary_passthrough(toks, l, e, end);
        lemma_binary_to_entry(toks, l, e, end);
    }
}

/// For every left-associative binary operator level, `a OP b OP c` parses
/// as `(a OP b) OP c`: the level folds newly parsed right operands into an
/// accumulating left tree.
pub proof fn lemma_left_associative(
    level: nat,
    a: TokenModel,
    op: TokenModel,
    b: TokenModel,
    c: TokenModel,
)
    requires
        level <= 10,
        !right_associative(level as int),
        level_op(level as int, op.token_type),
        literal_kind(a.token_type),
        literal_kind(b.token_type),
        literal_kind(c.token_type),
    ensures
        spec_parse(seq![a, op, b, op, c]) == Ok::<ExpressionModel, ParseErrorModel>(
            ExpressionModel::Binary {
                left: Box::new(
                    ExpressionModel::Binary {
                        left: Box::new(ExpressionModel::Literal(a)),
                        operator: op,
                        right: Box::new(ExpressionModel::Literal(b)),
                    },
                ),
                operator: op,
                right: Box::new(ExpressionModel::Literal(c)),
            },
        ),
{
    let toks = seq![a, op, b, op, c];
    assert(toks.len() == 5 && toks[0] == a && toks[1] == op && toks[2] == b && toks[3] == op
        && toks[4] == c);
    assert(!chain_token(op.token_type));
    assert(forall|l: int|
        (level as int) < l <= 10 ==> !#[trigger] level_op(l, op.token_type));
    let la = ExpressionModel::Literal(a);
    let lb = ExpressionModel::Literal(b);
    let lc = ExpressionModel::Literal(c);
    let lab = ExpressionModel::Binary { left: Box::new(la), operator: op, right: Box::new(lb) };
    let target = ExpressionModel::Binary {
        left: Box::new(lab),
        operator: op,
        right: Box::new(lc),
    };
    lemma_literal_operand(toks, 0, level);
    lemma_literal_operand(toks, 2, level);
    lemma_literal_operand(toks, 4, level);
    assert(spec_fold_binary(toks, 5, level, target) == (
        Ok::<Option<ExpressionModel>, ParseErrorModel>(Some(target)),
        5nat,
    ));
    assert(spec_fold_binary(toks, 3, level, lab) == (
        Ok::<Option<ExpressionModel>, ParseErrorModel>(Some(target)),
        5nat,
    ));
    assert(spec_fold_binary(toks, 1, level, la) == (
        Ok::<Option<ExpressionModel>, ParseErrorModel>(Some(target)),
        5nat,
    ));
    assert(spec_parse_binary(toks, 0, level) == (
        Ok::<Option<ExpressionModel>, ParseErrorModel>(Some(target)),
        5nat,
    ));
    lemma_binary_to_entry(toks, level, target, 5);
}

/// For the right-associative levels (concatenation and exponentiation),
/// `a OP b OP c` parses as `a OP (b OP c)`: the level recurses into itself
/// once for the right operand.
pub proof fn lemma_right_associative(
    level: nat,
    a: TokenModel,
    op: TokenModel,
    b: TokenModel,
    c: TokenModel,
)
    requires
        level <= 10,
        right_associative(level as int),
        level_op(level as int, op.token_type),
        literal_kind(a.token_type),
        literal_kind(b.token_type),
        literal_kind(c.token_type),
    ensures
        spec_parse(seq![a, op, b, op, c]) == Ok::<ExpressionModel, ParseErrorModel>(
            ExpressionModel::Binary {
                left: Box::new(ExpressionModel::Literal(a)),
                operator: op,
                right: Box::new(
                    ExpressionModel::Binary {
                        left: Box::new(ExpressionModel::Literal(b)),
                        operator: op,
                        right: Box::new(ExpressionModel::Literal(c)),
                    },
                ),
            },
        ),
{
    let toks = seq![a, op, b, op, c];
    assert(toks.len() == 5 && toks[0] == a && toks[1] == op && toks[2] == b && toks[3] == op
        && toks[4] == c);
    assert(!chain_token(op.token_type));
    assert(forall|l: int|
        (level as int) < l <= 10 ==> !#[trigger] level_op(l, op.token_type));
    let la = ExpressionModel::Literal(a);
    let lb = ExpressionModel::Literal(b);
    let lc = ExpressionModel::Literal(c);
    let lbc = ExpressionModel::Binary { left: Box::new(lb), operator: op, right: Box::new(lc) };
    let target = ExpressionModel::Binary {
        left: Box::new(la),
        operator: op,
        right: Box::new(lbc),
    };
    lemma_literal_operand(toks, 0, level);
    lemma_literal_operand(toks, 2, level);
    lemma_literal_operand(toks, 4, level);
    assert(spec_parse_binary(toks, 4, level) == (
        Ok::<Option<ExpressionModel>, ParseErrorModel>(Some(lc)),
        5nat,
    ));
    assert(spec_parse_binary(toks, 2, level) == (
        Ok::<Option<ExpressionModel>, ParseErrorModel>(Some(lbc)),
        5nat,
    ));
    assert(spec_parse_binary(toks, 0, level) == (
        Ok::<Option<ExpressionModel>, ParseErrorModel>(Some(target)),
        5nat,
    ));
    lemma_binary_to_entry(toks, level, target, 5);
}

/// What the parse entry point owes from a given position: the expression
/// parsed there, or the first error; a token that starts no expression at
/// all is an error too.
pub open spec fn spec_parse_from(toks: Seq<TokenModel>, pos: nat) -> (Result<
    ExpressionModel,
    ParseErrorModel,
>, nat) {
    let (r, pos2) = spec_parse_expression(toks, pos);
    (
        match r {
            Err(e) => Err(e),
            Ok(Some(e)) => Ok(e),
            Ok(None) => Err(
                ParseErrorModel {
                    kind: ParseErrorKind::UnexpectedToken,
                    message: "Unexpected token"@,
                    token: token_at(toks, pos2),
                },
            ),
        },
        pos2,
    )
}

/// What parsing a whole token sequence owes: the expression parsed from the
/// start.
pub open spec fn spec_parse(toks: Seq<TokenModel>) -> Result<ExpressionModel, ParseErrorModel> {
    spec_parse_from(toks, 0).0
}

} // verus!
