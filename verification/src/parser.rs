//! The parser: a recursive-descent, precedence-climbing engine that consumes
//! the scanner's token sequence through a single cursor and builds one
//! abstract syntax tree per top-level expression.  Every parsing method
//! refines the matching grammar function of [`crate::parse_model`].

use vstd::prelude::*;

use crate::ast::Args;
use crate::ast::Expression;
use crate::ast::Field;
use crate::ast::FunctionCall;
use crate::ast::Identifier;
use crate::ast::Prefix;
use crate::ast::TableConstructor;
use crate::ast::Variable;
use crate::ast::{expression_view, expressions_view, fields_view, prefix_view};
use crate::ast::{ExpressionModel, PrefixModel, VariableModel};
use crate::ast::{lemma_expressions_view_push, lemma_fields_view_push};
use crate::parse_model::end_of_tokens_error;
use crate::parse_model::level_op;
use crate::parse_model::spec_args_tail;
use crate::parse_model::spec_fold_binary;
use crate::parse_model::spec_parse_args_list;
use crate::parse_model::spec_parse_binary;
use crate::parse_model::spec_parse_binary_operand;
use crate::parse_model::spec_parse_call_step;
use crate::parse_model::spec_parse_expression;
use crate::parse_model::spec_parse_field;
use crate::parse_model::spec_parse_fields;
use crate::parse_model::spec_parse_from;
use crate::parse_model::spec_parse_function_args;
use crate::parse_model::spec_parse_function_definition;
use crate::parse_model::spec_parse_literal;
use crate::parse_model::spec_parse_maybe_table_constructor;
use crate::parse_model::spec_parse_prefix;
use crate::parse_model::spec_parse_spread;
use crate::parse_model::spec_parse_table_constructor;
use crate::parse_model::spec_parse_unary;
use crate::parse_model::spec_parse_var_access;
use crate::parse_model::spec_parse_var_identifier;
use crate::parse_model::spec_parse_var_chain;
use crate::parse_model::token_at;
use crate::parsing_error::expected_kind;
use crate::parsing_error::plain_result_view;
use crate::parsing_error::result_view;
use crate::parsing_error::ParseErrorKind;
use crate::parsing_error::ParseErrorModel;
use crate::parsing_error::ParsingError;
use crate::parsing_error::ParsingResult;
use crate::token::tokens_view;
use crate::token::{Token, TokenModel, TokenType};

verus! {

/// The parser's state: the token sequence (read-only once handed over) and
/// one mutable cursor.  The scanner's output always ends with the
/// end-of-stream token, so input exhausted mid-production — the cursor
/// passing the last token, possible only on a sequence without that marker
/// — is reported as an `UnexpectedEndOfTokens` error at the last token.
pub struct Parser {
    tokens: Vec<Token>,
    current: usize,
}

impl Parser {
    /// The views of the tokens being parsed.
    pub closed spec fn toks(self) -> Seq<TokenModel> {
        tokens_view(self.tokens@)
    }

    /// The cursor position.
    pub closed spec fn pos(self) -> nat {
        self.current as nat
    }

    /// The parser's internal consistency: the cursor stays within the token
    /// sequence, which is nonempty (the scanner always emits at least the
    /// end-of-stream token).
    pub closed spec fn wf(self) -> bool {
        &&& self.current <= self.tokens@.len()
        &&& self.tokens@.len() > 0
    }

    /// Builds a parser over the given token sequence, with the cursor at the
    /// start.
    pub fn new(tokens: Vec<Token>) -> (parser: Parser)
        ensures
            parser.toks() == tokens_view(tokens@),
            parser.pos() == 0,
            tokens@.len() > 0 ==> parser.wf(),
    {
        Parser { tokens, current: 0 }
    }

    /// Parses the expression the token sequence holds, evaluating exactly
    /// the expression entry point from the current cursor.
    pub fn parse(&mut self) -> (r: Result<Expression, ParsingError>)
        requires
            old(self).wf(),
        ensures
            final(self).wf(),
            final(self).toks() == old(self).toks(),
            (plain_result_view(r), final(self).pos()) == spec_parse_from(
                old(self).toks(),
                old(self).pos(),
            ),
    {
        match self.parse_maybe_expression() {
            Err(e) => Err(e),
            Ok(Some(expression)) => Ok(expression),
            Ok(None) => Err(self.make_error(ParseErrorKind::UnexpectedToken, "Unexpected token")),
        }
    }

    fn advance_cursor(&mut self)
        requires
            old(self).wf(),
            old(self).current < old(self).tokens@.len(),
        ensures
            final(self).wf(),
            final(self).tokens == old(self).tokens,
            final(self).current == old(self).current + 1,
    {
        let length = self.tokens.len();
        proof {
            assert(self.current < length);
        }
        self.current = self.current + 1;
    }

    fn get_token(&self) -> (r: Option<&Token>)
        ensures
            match r {
                Some(t) => self.current < self.tokens@.len() && *t == self.tokens@[self.current as int],
                None => self.current >= self.tokens@.len(),
            },
    {
        if self.current >= self.tokens.len() {
            return None;
        }
        Some(&self.tokens[self.current])
    }

    fn get_last_token(&self) -> (r: &Token)
        requires
            self.tokens@.len() > 0,
        ensures
            *r == self.tokens@.last(),
    {
        let index = self.tokens.len() - 1;
        &self.tokens[index]
    }

    /// The kind of the token under the cursor, if any.
    fn peek_kind(&self) -> (r: Option<TokenType>)
        ensures
            r == (if self.current < self.tokens@.len() {
                Some(self.toks()[self.current as int].token_type)
            } else {
                None::<TokenType>
            }),
    {
        match self.get_token() {
            Some(token) => Some(token.token_type),
            None => None,
        }
    }

    /// A copy of the token under the cursor.
    fn get_token_cloned(&self) -> (t: Token)
        requires
            self.current < self.tokens@.len(),
        ensures
            t@ == self.toks()[self.current as int],
    {
        self.tokens[self.current].clone()
    }

    /// A copy of the token a failure here is reported against: the token
    /// under the cursor, or the last token if input was exhausted.
    fn error_token(&self) -> (t: Token)
        requires
            self.wf(),
        ensures
            t@ == token_at(self.toks(), self.pos()),
    {
        match self.get_token() {
            Some(_) => self.get_token_cloned(),
            None => self.get_last_token().clone(),
        }
    }

    /// An error of the given kind at the current position.
    fn make_error(&self, kind: ParseErrorKind, message: &str) -> (e: ParsingError)
        requires
            self.wf(),
        ensures
            e@ == (ParseErrorModel {
                kind,
                message: message@,
                token: token_at(self.toks(), self.pos()),
            }),
    {
        ParsingError { kind, message: message.to_owned(), token: self.error_token() }
    }

    /// Whether the token under the cursor has the given kind.
    fn is_token_of_type(&self, token_type: TokenType) -> (r: bool)
        ensures
            r == (self.current < self.tokens@.len() && self.toks()[self.current as int].token_type
                == token_type),
    {
        match self.peek_kind() {
            Some(kind) => kind == token_type,
            None => false,
        }
    }

    /// Whether the token after the one under the cursor has the given kind.
    fn next_token_is(&self, token_type: TokenType) -> (r: bool)
        requires
            self.wf(),
        ensures
            r == (self.current + 1 < self.tokens@.len() && self.toks()[self.current as int
                + 1].token_type == token_type),
    {
        if self.tokens.len() - self.current > 1 {
            self.tokens[self.current + 1].token_type == token_type
        } else {
            false
        }
    }

    /// Demands a token of the given kind under the cursor, without consuming
    /// it; a missing `)`, `]`, `}` or `=` is classified accordingly.
    fn assert_token(&self, token_type: TokenType, message: &str) -> (r: Result<(), ParsingError>)
        requires
            self.wf(),
        ensures
            if self.current < self.tokens@.len() && self.toks()[self.current as int].token_type
                == token_type {
                r is Ok
            } else {
                r is Err && r->Err_0@ == (ParseErrorModel {
                    kind: expected_kind(token_type),
                    message: message@,
                    token: token_at(self.toks(), self.pos()),
                })
            },
    {
        if self.is_token_of_type(token_type) {
            Ok(())
        } else {
            let kind = if token_type == TokenType::RightParen || token_type
                == TokenType::RightBracket || token_type == TokenType::RightBrace {
                ParseErrorKind::MissingClosingDelimiter
            } else if token_type == TokenType::Equal {
                ParseErrorKind::MissingFieldSeparator
            } else {
                ParseErrorKind::UnexpectedToken
            };
            Err(self.make_error(kind, message))
        }
    }

    /// Whether the token under the cursor is a binary operator of the given
    /// precedence level.
    fn is_level_op(&self, level: u8) -> (r: bool)
        ensures
            r == (self.current < self.tokens@.len() && level_op(
                level as int,
                self.toks()[self.current as int].token_type,
            )),
    {
        match self.peek_kind() {
            None => false,
            Some(k) => {
                if level == 0 {
                    k == TokenType::Or
                } else if level == 1 {
                    k == TokenType::And
                } else if level == 2 {
                    k == TokenType::Less || k == TokenType::LessEqual || k == TokenType::Greater
                        || k == TokenType::GreaterEqual || k == TokenType::TildeEqual || k
                        == TokenType::EqualEqual
                } else if level == 3 {
                    k == TokenType::Pipe
                } else if level == 4 {
                    k == TokenType::Tilde
                } else if level == 5 {
                    k == TokenType::Ampersand
                } else if level == 6 {
                    k == TokenType::LessLess || k == TokenType::GreaterGreater
                } else if level == 7 {
                    k == TokenType::DotDot
                } else if level == 8 {
                    k == TokenType::Plus || k == TokenType::Minus
                } else if level == 9 {
                    k == TokenType::Star || k == TokenType::Slash || k == TokenType::SlashSlash
                        || k == TokenType::Percent
                } else if level == 10 {
                    k == TokenType::Caret
                } else {
                    false
                }
            },
        }
    }

    /// Parses an identifier where one may stand: consumes it, or consumes
    /// nothing; a cursor past the last token is input exhausted
    /// mid-production.
    fn try_parse_identifier(&mut self) -> (r: ParsingResult<Identifier>)
        requires
            old(self).wf(),
        ensures
            final(self).wf(),
            final(self).tokens == old(self).tokens,
            old(self).current <= final(self).current,
            if old(self).current < old(self).tokens@.len() && old(self).toks()[old(
                self,
            ).current as int].token_type == TokenType::Identifier {
                &&& r is Ok
                &&& r->Ok_0 is Some
                &&& r->Ok_0->Some_0.token@ == old(self).toks()[old(self).current as int]
                &&& final(self).current == old(self).current + 1
            } else if old(self).current < old(self).tokens@.len() {
                &&& r == Ok::<Option<Identifier>, ParsingError>(None)
                &&& final(self).current == old(self).current
            } else {
                &&& r is Err
                &&& r->Err_0@ == end_of_tokens_error(old(self).toks(), old(self).pos())
                &&& final(self).current == old(self).current
            },
        decreases self.tokens@.len() - self.current, 50int,
    {
        match self.peek_kind() {
            None => ParsingError::end_of_tokens(self.error_token()),
            Some(kind) => {
                if kind == TokenType::Identifier {
                    let token = self.get_token_cloned();
                    self.advance_cursor();
                    Ok(Some(Identifier::new(token)))
                } else {
                    Ok(None)
                }
            },
        }
    }

    /// Parses a literal expression where one may stand: `nil`, `true`,
    /// `false`, a numeral, or a literal string.
    fn parse_maybe_literal(&mut self) -> (r: ParsingResult<Expression>)
        requires
            old(self).wf(),
        ensures
            final(self).wf(),
            final(self).tokens == old(self).tokens,
            old(self).current <= final(self).current,
            r is Ok && r->Ok_0 is Some ==> old(self).current < final(self).current,
            (result_view(r), final(self).pos()) == spec_parse_literal(
                old(self).toks(),
                old(self).pos(),
            ),
        decreases self.tokens@.len() - self.current, 470int,
    {
        match self.peek_kind() {
            None => ParsingError::end_of_tokens(self.error_token()),
            Some(kind) => {
                if kind == TokenType::False || kind == TokenType::True || kind == TokenType::Nil
                    || kind == TokenType::Numeral || kind == TokenType::LiteralString {
                    let token = self.get_token_cloned();
                    self.advance_cursor();
                    Ok(Some(Expression::Literal(token)))
                } else {
                    Ok(None)
                }
            },
        }
    }

    /// Parses an expression where one may stand: the entry production.
    fn parse_maybe_expression(&mut self) -> (r: ParsingResult<Expression>)
        requires
            old(self).wf(),
        ensures
            final(self).wf(),
            final(self).tokens == old(self).tokens,
            old(self).current <= final(self).current,
            r is Ok && r->Ok_0 is Some ==> old(self).current < final(self).current,
            (result_view(r), final(self).pos()) == spec_parse_expression(
                old(self).toks(),
                old(self).pos(),
            ),
        decreases self.tokens@.len() - self.current, 1200int,
    {
        self.parse_maybe_spread()
    }

    /// Placeholder level for `...` spread expressions (statement-level
    /// grammar is out of scope).
    fn parse_maybe_spread(&mut self) -> (r: ParsingResult<Expression>)
        requires
            old(self).wf(),
        ensures
            final(self).wf(),
            final(self).tokens == old(self).tokens,
            old(self).current <= final(self).current,
            r is Ok && r->Ok_0 is Some ==> old(self).current < final(self).current,
            (result_view(r), final(self).pos()) == spec_parse_spread(
                old(self).toks(),
                old(self).pos(),
            ),
        decreases self.tokens@.len() - self.current, 1180int,
    {
        self.parse_maybe_function_definition()
    }

    /// Placeholder level for function definition expressions (out of
    /// scope).
    fn parse_maybe_function_definition(&mut self) -> (r: ParsingResult<Expression>)
        requires
            old(self).wf(),
        ensures
            final(self).wf(),
            final(self).tokens == old(self).tokens,
            old(self).current <= final(self).current,
            r is Ok && r->Ok_0 is Some ==> old(self).current < final(self).current,
            (result_view(r), final(self).pos()) == spec_parse_function_definition(
                old(self).toks(),
                old(self).pos(),
            ),
        decreases self.tokens@.len() - self.current, 1160int,
    {
        self.parse_maybe_binary_or()
    }

    /// The `or` level.
    fn parse_maybe_binary_or(&mut self) -> (r: ParsingResult<Expression>)
        requires
            old(self).wf(),
        ensures
            final(self).wf(),
            final(self).tokens == old(self).tokens,
            old(self).current <= final(self).current,
            r is Ok && r->Ok_0 is Some ==> old(self).current < final(self).current,
            (result_view(r), final(self).pos()) == spec_parse_binary(
                old(self).toks(),
                old(self).pos(),
                0,
            ),
        decreases self.tokens@.len() - self.current, 1010int,
    {
        self.try_parse_binary_expression(0)
    }

    /// The `and` level.
    fn parse_maybe_binary_and(&mut self) -> (r: ParsingResult<Expression>)
        requires
            old(self).wf(),
        ensures
            final(self).wf(),
            final(self).tokens == old(self).tokens,
            old(self).current <= final(self).current,
            r is Ok && r->Ok_0 is Some ==> old(self).current < final(self).current,
            (result_view(r), final(self).pos()) == spec_parse_binary(
                old(self).toks(),
                old(self).pos(),
                1,
            ),
        decreases self.tokens@.len() - self.current, 970int,
    {
        self.try_parse_binary_expression(1)
    }

    /// The relational level: `< > <= >= ~= ==`.
    fn parse_maybe_binary_relation(&mut self) -> (r: ParsingResult<Expression>)
        requires
            old(self).wf(),
        ensures
            final(self).wf(),
            final(self).tokens == old(self).tokens,
            old(self).current <= final(self).current,
            r is Ok && r->Ok_0 is Some ==> old(self).current < final(self).current,
            (result_view(r), final(self).pos()) == spec_parse_binary(
                old(self).toks(),
                old(self).pos(),
                2,
            ),
        decreases self.tokens@.len() - self.current, 930int,
    {
        self.try_parse_binary_expression(2)
    }

    /// The bitwise or level: `|`.
    fn parse_maybe_binary_bitwise_or(&mut self) -> (r: ParsingResult<Expression>)
        requires
            old(self).wf(),
        ensures
            final(self).wf(),
            final(self).tokens == old(self).tokens,
            old(self).current <= final(self).current,
            r is Ok && r->Ok_0 is Some ==> old(self).current < final(self).current,
            (result_view(r), final(self).pos()) == spec_parse_binary(
                old(self).toks(),
                old(self).pos(),
                3,
            ),
        decreases self.tokens@.len() - self.current, 890int,
    {
        self.try_parse_binary_expression(3)
    }

    /// The bitwise exclusive-or level: `~`.
    fn parse_maybe_binary_bitwise_xor(&mut self) -> (r: ParsingResult<Expression>)
        requires
            old(self).wf(),
        ensures
            final(self).wf(),
            final(self).tokens == old(self).tokens,
            old(self).current <= final(self).current,
            r is Ok && r->Ok_0 is Some ==> old(self).current < final(self).current,
            (result_view(r), final(self).pos()) == spec_parse_binary(
                old(self).toks(),
                old(self).pos(),
                4,
            ),
        decreases self.tokens@.len() - self.current, 850int,
    {
        self.try_parse_binary_expression(4)
    }

    /// The bitwise and level: `&`.
    fn parse_maybe_binary_bitwise_and(&mut self) -> (r: ParsingResult<Expression>)
        requires
            old(self).wf(),
        ensures
            final(self).wf(),
            final(self).tokens == old(self).tokens,
            old(self).current <= final(self).current,
            r is Ok && r->Ok_0 is Some ==> old(self).current < final(self).current,
            (result_view(r), final(self).pos()) == spec_parse_binary(
                old(self).toks(),
                old(self).pos(),
                5,
            ),
        decreases self.tokens@.len() - self.current, 810int,
    {
        self.try_parse_binary_expression(5)
    }

    /// The shift level: `<< >>`.
    fn parse_maybe_binary_shift(&mut self) -> (r: ParsingResult<Expression>)
        requires
            old(self).wf(),
        ensures
            final(self).wf(),
            final(self).tokens == old(self).tokens,
            old(self).current <= final(self).current,
            r is Ok && r->Ok_0 is Some ==> old(self).current < final(self).current,
            (result_view(r), final(self).pos()) == spec_parse_binary(
                old(self).toks(),
                old(self).pos(),
                6,
            ),
        decreases self.tokens@.len() - self.current, 770int,
    {
        self.try_parse_binary_expression(6)
    }

    /// The concatenation level: `..`, right-associative.
    fn parse_maybe_binary_concat(&mut self) -> (r: ParsingResult<Expression>)
        requires
            old(self).wf(),
        ensures
            final(self).wf(),
            final(self).tokens == old(self).tokens,
            old(self).current <= final(self).current,
            r is Ok && r->Ok_0 is Some ==> old(self).current < final(self).current,
            (result_view(r), final(self).pos()) == spec_parse_binary(
                old(self).toks(),
                old(self).pos(),
                7,
            ),
        decreases self.tokens@.len() - self.current, 730int,
    {
        self.try_parse_binary_expression(7)
    }

    /// The additive level: `+ -`.
    fn parse_maybe_binary_arithmetic_simple(&mut self) -> (r: ParsingResult<Expression>)
        requires
            old(self).wf(),
        ensures
            final(self).wf(),
            final(self).tokens == old(self).tokens,
            old(self).current <= final(self).current,
            r is Ok && r->Ok_0 is Some ==> old(self).current < final(self).current,
            (result_view(r), final(self).pos()) == spec_parse_binary(
                old(self).toks(),
                old(self).pos(),
                8,
            ),
        decreases self.tokens@.len() - self.current, 690int,
    {
        self.try_parse_binary_expression(8)
    }

    /// The multiplicative level: `* / // %`.
    fn parse_maybe_binary_arithmetic_complex(&mut self) -> (r: ParsingResult<Expression>)
        requires
            old(self).wf(),
        ensures
            final(self).wf(),
            final(self).tokens == old(self).tokens,
            old(self).current <= final(self).current,
            r is Ok && r->Ok_0 is Some ==> old(self).current < final(self).current,
            (result_view(r), final(self).pos()) == spec_parse_binary(
                old(self).toks(),
                old(self).pos(),
                9,
            ),
        decreases self.tokens@.len() - self.current, 650int,
    {
        self.try_parse_binary_expression(9)
    }

    /// The exponentiation level: `^`, right-associative.
    fn parse_maybe_binary_exponent(&mut self) -> (r: ParsingResult<Expression>)
        requires
            old(self).wf(),
        ensures
            final(self).wf(),
            final(self).tokens == old(self).tokens,
            old(self).current <= final(self).current,
            r is Ok && r->Ok_0 is Some ==> old(self).current < final(self).current,
            (result_view(r), final(self).pos()) == spec_parse_binary(
                old(self).toks(),
                old(self).pos(),
                10,
            ),
        decreases self.tokens@.len() - self.current, 610int,
    {
        self.try_parse_binary_expression(10)
    }

    /// The operand one level tighter than the given binary level.
    fn parse_binary_operand(&mut self, level: u8) -> (r: ParsingResult<Expression>)
        requires
            old(self).wf(),
            level <= 10,
        ensures
            final(self).wf(),
            final(self).tokens == old(self).tokens,
            old(self).current <= final(self).current,
            r is Ok && r->Ok_0 is Some ==> old(self).current < final(self).current,
            (result_view(r), final(self).pos()) == spec_parse_binary_operand(
                old(self).toks(),
                old(self).pos(),
                level as nat,
            ),
        decreases self.tokens@.len() - self.current, 980int - 40 * (level as int),
    {
        if level == 0 {
            self.parse_maybe_binary_and()
        } else if level == 1 {
            self.parse_maybe_binary_relation()
        } else if level == 2 {
            self.parse_maybe_binary_bitwise_or()
        } else if level == 3 {
            self.parse_maybe_binary_bitwise_xor()
        } else if level == 4 {
            self.parse_maybe_binary_bitwise_and()
        } else if level == 5 {
            self.parse_maybe_binary_shift()
        } else if level == 6 {
            self.parse_maybe_binary_concat()
        } else if level == 7 {
            self.parse_maybe_binary_arithmetic_simple()
        } else if level == 8 {
            self.parse_maybe_binary_arithmetic_complex()
        } else if level == 9 {
            self.parse_maybe_unary()
        } else {
            self.parse_maybe_var_access()
        }
    }

    /// Utility shared by all binary levels: parses the left operand at the
    /// next-tighter level, then folds the level's operators left (or, for
    /// the right-associative levels, recurses into the same level once).
    #[verifier::rlimit(60)]
    fn try_parse_binary_expression(&mut self, level: u8) -> (r: ParsingResult<Expression>)
        requires
            old(self).wf(),
            level <= 10,
        ensures
            final(self).wf(),
            final(self).tokens == old(self).tokens,
            old(self).current <= final(self).current,
            r is Ok && r->Ok_0 is Some ==> old(self).current < final(self).current,
            (result_view(r), final(self).pos()) == spec_parse_binary(
                old(self).toks(),
                old(self).pos(),
                level as nat,
            ),
        decreases self.tokens@.len() - self.current, 1000int - 40 * (level as int),
    {
        let ghost toks0 = old(self).toks();
        let ghost pos0 = old(self).pos();
        let left = match self.parse_binary_operand(level) {
            Err(e) => {
                return Err(e);
            },
            Ok(None) => {
                return Ok(None);
            },
            Ok(Some(left)) => left,
        };
        if level == 7 || level == 10 {
            if self.is_level_op(level) {
                let op = self.get_token_cloned();
                self.advance_cursor();
                match self.try_parse_binary_expression(level) {
                    Err(e) => Err(e),
                    Ok(None) => ParsingError::new(
                        ParseErrorKind::MissingOperand,
                        "Failed to parse operand of binary expression",
                        self.error_token(),
                    ),
                    Ok(Some(right)) => Ok(
                        Some(
                            Expression::Binary {
                                left: Box::new(left),
                                operator: op,
                                right: Box::new(right),
                            },
                        ),
                    ),
                }
            } else {
                Ok(Some(left))
            }
        } else {
            let mut accumulated = left;
            while self.is_level_op(level)
                invariant
                    toks0 == old(self).toks(),
                    pos0 == old(self).pos(),
                    level <= 10,
                    !(level == 7 || level == 10),
                    self.wf(),
                    self.tokens == old(self).tokens,
                    pos0 < self.pos(),
                    spec_parse_binary(toks0, pos0, level as nat) == spec_fold_binary(
                        toks0,
                        self.pos(),
                        level as nat,
                        expression_view(accumulated),
                    ),
                decreases self.tokens@.len() - self.current, 990int,
            {
                let op = self.get_token_cloned();
                self.advance_cursor();
                let right = match self.parse_binary_operand(level) {
                    Err(e) => {
                        return Err(e);
                    },
                    Ok(None) => {
                        return ParsingError::new(
                            ParseErrorKind::MissingOperand,
                            "Failed to parse operand of binary expression",
                            self.error_token(),
                        );
                    },
                    Ok(Some(right)) => right,
                };
                accumulated = Expression::Binary {
                    left: Box::new(accumulated),
                    operator: op,
                    right: Box::new(right),
                };
            }
            Ok(Some(accumulated))
        }
    }

    /// The unary prefix level: `not # - ~`, right-recursive so operators
    /// stack.
    fn parse_maybe_unary(&mut self) -> (r: ParsingResult<Expression>)
        requires
            old(self).wf(),
        ensures
            final(self).wf(),
            final(self).tokens == old(self).tokens,
            old(self).current <= final(self).current,
            r is Ok && r->Ok_0 is Some ==> old(self).current < final(self).current,
            (result_view(r), final(self).pos()) == spec_parse_unary(
                old(self).toks(),
                old(self).pos(),
            ),
        decreases self.tokens@.len() - self.current, 615int,
    {
        match self.peek_kind() {
            None => ParsingError::end_of_tokens(self.error_token()),
            Some(kind) => {
                if kind == TokenType::Minus || kind == TokenType::Not || kind == TokenType::Hash
                    || kind == TokenType::Tilde {
                    let op = self.get_token_cloned();
                    self.advance_cursor();
                    match self.parse_maybe_unary() {
                        Err(e) => Err(e),
                        Ok(None) => ParsingError::new(
                            ParseErrorKind::MissingOperand,
                            "Failed to parse operand of unary expression",
                            self.error_token(),
                        ),
                        Ok(Some(right)) => Ok(
                            Some(Expression::Unary { operator: op, right: Box::new(right) }),
                        ),
                    }
                } else {
                    self.parse_maybe_binary_exponent()
                }
            },
        }
    }

    /// Whether the token under the cursor continues a variable access and
    /// call chain.
    fn is_chain_token(&self) -> (r: bool)
        ensures
            r == (self.current < self.tokens@.len() && crate::parse_model::chain_token(
                self.toks()[self.current as int].token_type,
            )),
    {
        match self.peek_kind() {
            None => false,
            Some(k) => k == TokenType::LeftBracket || k == TokenType::Dot || k == TokenType::Colon
                || k == TokenType::LeftParen || k == TokenType::LeftBrace || k
                == TokenType::LiteralString,
        }
    }

    /// The postfix level: starting from a variable or grouped prefix,
    /// repeatedly consumes `.name`, `[expr]`, call arguments, or `:name`
    /// plus call arguments, until the first token matching none of these.
    #[verifier::rlimit(80)]
    fn parse_maybe_var_access(&mut self) -> (r: ParsingResult<Expression>)
        requires
            old(self).wf(),
        ensures
            final(self).wf(),
            final(self).tokens == old(self).tokens,
            old(self).current <= final(self).current,
            r is Ok && r->Ok_0 is Some ==> old(self).current < final(self).current,
            (result_view(r), final(self).pos()) == spec_parse_var_access(
                old(self).toks(),
                old(self).pos(),
            ),
        decreases self.tokens@.len() - self.current, 570int,
    {
        let ghost toks0 = old(self).toks();
        let ghost pos0 = old(self).pos();
        match self.parse_maybe_var_identifier() {
            Err(e) => Err(e),
            Ok(None) => Ok(None),
            Ok(Some(expression)) => match expression {
                Expression::Prefix(prefix) => {
                    let mut current_prefix = prefix;
                    while self.is_chain_token()
                        invariant
                            toks0 == old(self).toks(),
                            pos0 == old(self).pos(),
                            self.wf(),
                            self.tokens == old(self).tokens,
                            pos0 < self.pos(),
                            spec_parse_var_access(toks0, pos0) == spec_parse_var_chain(
                                toks0,
                                self.pos(),
                                prefix_view(current_prefix),
                            ),
                        decreases self.tokens@.len() - self.current, 510int,
                    {
                        let kind = self.peek_kind().unwrap();
                        if kind == TokenType::LeftBracket {
                            self.advance_cursor();
                            let member = match self.parse_maybe_expression() {
                                Err(e) => {
                                    return Err(e);
                                },
                                Ok(None) => {
                                    return ParsingError::unexpected_token(self.error_token());
                                },
                                Ok(Some(member)) => member,
                            };
                            match self.assert_token(
                                TokenType::RightBracket,
                                "Expected `]` after expression",
                            ) {
                                Err(e) => {
                                    return Err(e);
                                },
                                Ok(()) => {},
                            }
                            self.advance_cursor();
                            current_prefix = Prefix::Variable(
                                Variable::ExpressionMemberAccess {
                                    reference: Box::new(current_prefix),
                                    member: Box::new(member),
                                },
                            );
                        } else if kind == TokenType::Dot {
                            self.advance_cursor();
                            match self.try_parse_identifier() {
                                Err(e) => {
                                    return Err(e);
                                },
                                Ok(Some(member)) => {
                                    current_prefix = Prefix::Variable(
                                        Variable::MemberAccess {
                                            reference: Box::new(current_prefix),
                                            member,
                                        },
                                    );
                                },
                                Ok(None) => {
                                    return ParsingError::new(
                                        ParseErrorKind::UnexpectedToken,
                                        "Expected identifier after `.`",
                                        self.error_token(),
                                    );
                                },
                            }
                        } else {
                            match self.parse_maybe_function_call(current_prefix) {
                                Err(e) => {
                                    return Err(e);
                                },
                                Ok(Some(chained)) => {
                                    current_prefix = chained;
                                },
                                Ok(None) => {
                                    // A chain token other than `[` or `.`
                                    // always yields a call or an error.
                                    proof {
                                        assert(false);
                                    }
                                    return ParsingError::unexpected_token(self.error_token());
                                },
                            }
                        }
                    }
                    Ok(Some(Expression::Prefix(current_prefix)))
                },
                expression => Ok(Some(expression)),
            },
        }
    }

    /// A bare identifier starting a variable, or anything the prefix
    /// production accepts.
    #[verifier::rlimit(60)]
    fn parse_maybe_var_identifier(&mut self) -> (r: ParsingResult<Expression>)
        requires
            old(self).wf(),
        ensures
            final(self).wf(),
            final(self).tokens == old(self).tokens,
            old(self).current <= final(self).current,
            r is Ok && r->Ok_0 is Some ==> old(self).current < final(self).current,
            (result_view(r), final(self).pos()) == spec_parse_var_identifier(
                old(self).toks(),
                old(self).pos(),
            ),
        decreases self.tokens@.len() - self.current, 560int,
    {
        let ghost toks0 = old(self).toks();
        let ghost pos0 = old(self).pos();
        match self.peek_kind() {
            None => ParsingError::end_of_tokens(self.error_token()),
            Some(kind) => {
                if kind == TokenType::Identifier {
                    let token = self.get_token_cloned();
                    self.advance_cursor();
                    let expression = Expression::Prefix(
                        Prefix::Variable(Variable::Identifier(Identifier::new(token))),
                    );
                    proof {
                        reveal_with_fuel(expression_view, 4);
                        assert(expression_view(expression) == ExpressionModel::Prefix(
                            PrefixModel::Variable(VariableModel::Identifier(toks0[pos0 as int])),
                        ));
                        assert(spec_parse_var_identifier(toks0, pos0) == (
                            Ok::<Option<ExpressionModel>, ParseErrorModel>(
                                Some(
                                    ExpressionModel::Prefix(
                                        PrefixModel::Variable(
                                            VariableModel::Identifier(toks0[pos0 as int]),
                                        ),
                                    ),
                                ),
                            ),
                            pos0 + 1,
                        ));
                    }
                    Ok(Some(expression))
                } else {
                    let r = self.parse_maybe_prefix();
                    proof {
                        assert(spec_parse_var_identifier(toks0, pos0) == spec_parse_prefix(
                            toks0,
                            pos0,
                        ));
                    }
                    r
                }
            },
        }
    }

    /// A prefix expression: an identifier, a parenthesized expression, or
    /// whatever the table-constructor and literal productions accept.
    #[verifier::rlimit(60)]
    fn parse_maybe_prefix(&mut self) -> (r: ParsingResult<Expression>)
        requires
            old(self).wf(),
        ensures
            final(self).wf(),
            final(self).tokens == old(self).tokens,
            old(self).current <= final(self).current,
            r is Ok && r->Ok_0 is Some ==> old(self).current < final(self).current,
            (result_view(r), final(self).pos()) == spec_parse_prefix(
                old(self).toks(),
                old(self).pos(),
            ),
        decreases self.tokens@.len() - self.current, 550int,
    {
        proof {
            reveal_with_fuel(expression_view, 4);
        }
        match self.peek_kind() {
            None => ParsingError::end_of_tokens(self.error_token()),
            Some(kind) => {
                if kind == TokenType::Identifier {
                    let token = self.get_token_cloned();
                    self.advance_cursor();
                    Ok(
                        Some(
                            Expression::Prefix(
                                Prefix::Variable(Variable::Identifier(Identifier::new(token))),
                            ),
                        ),
                    )
                } else if kind == TokenType::LeftParen {
                    self.advance_cursor();
                    match self.parse_maybe_expression() {
                        Err(e) => Err(e),
                        Ok(None) => ParsingError::unexpected_token(self.error_token()),
                        Ok(Some(expression)) => {
                            match self.assert_token(
                                TokenType::RightParen,
                                "Expected `)` after expression",
                            ) {
                                Err(e) => Err(e),
                                Ok(()) => {
                                    self.advance_cursor();
                                    Ok(
                                        Some(
                                            Expression::Prefix(
                                                Prefix::Group(Box::new(expression)),
                                            ),
                                        ),
                                    )
                                },
                            }
                        },
                    }
                } else {
                    self.parse_maybe_table_constructor()
                }
            },
        }
    }

    /// One call in the chain: `:name` followed by call arguments makes a
    /// method call; call arguments alone make a function call on the given
    /// prefix.
    fn parse_maybe_function_call(&mut self, prefix: Prefix) -> (r: ParsingResult<Prefix>)
        requires
            old(self).wf(),
        ensures
            final(self).wf(),
            final(self).tokens == old(self).tokens,
            old(self).current <= final(self).current,
            r is Ok && r->Ok_0 is Some ==> old(self).current < final(self).current,
            (result_view(r), final(self).pos()) == spec_parse_call_step(
                old(self).toks(),
                old(self).pos(),
                prefix_view(prefix),
            ),
        decreases self.tokens@.len() - self.current, 500int,
    {
        if self.is_token_of_type(TokenType::Colon) {
            self.advance_cursor();
            match self.try_parse_identifier() {
                Err(e) => Err(e),
                Ok(Some(method)) => {
                    match self.try_parse_function_args() {
                        Err(e) => Err(e),
                        Ok(Some(args)) => Ok(
                            Some(
                                Prefix::FunctionCall(
                                    FunctionCall::MethodCall {
                                        callee: Box::new(prefix),
                                        method,
                                        args,
                                    },
                                ),
                            ),
                        ),
                        Ok(None) => ParsingError::new(
                            ParseErrorKind::UnexpectedToken,
                            "Expected arguments in method call",
                            self.error_token(),
                        ),
                    }
                },
                Ok(None) => ParsingError::new(
                    ParseErrorKind::UnexpectedToken,
                    "Expected identifier after `:` in method call",
                    self.error_token(),
                ),
            }
        } else {
            match self.try_parse_function_args() {
                Err(e) => Err(e),
                Ok(Some(args)) => Ok(
                    Some(
                        Prefix::FunctionCall(
                            FunctionCall::FunctionCall { callee: Box::new(prefix), args },
                        ),
                    ),
                ),
                Ok(None) => Ok(None),
            }
        }
    }

    /// Call arguments where they may stand: `()`, a parenthesized expression
    /// list, a table constructor used directly, or a bare literal string.
    #[verifier::rlimit(80)]
    fn try_parse_function_args(&mut self) -> (r: ParsingResult<Args>)
        requires
            old(self).wf(),
        ensures
            final(self).wf(),
            final(self).tokens == old(self).tokens,
            old(self).current <= final(self).current,
            r is Ok && r->Ok_0 is Some ==> old(self).current < final(self).current,
            (result_view(r), final(self).pos()) == spec_parse_function_args(
                old(self).toks(),
                old(self).pos(),
            ),
        decreases self.tokens@.len() - self.current, 490int,
    {
        let ghost toks0 = old(self).toks();
        let ghost pos0 = old(self).pos();
        match self.peek_kind() {
            None => ParsingError::end_of_tokens(self.error_token()),
            Some(kind) => {
                if kind == TokenType::LeftParen {
                    self.advance_cursor();
                    if self.is_token_of_type(TokenType::RightParen) {
                        self.advance_cursor();
                        return Ok(Some(Args::ExpressionList(Vec::new())));
                    }
                    let ghost posl = self.pos();
                    let mut args: Vec<Expression> = Vec::new();
                    let first = match self.parse_maybe_expression() {
                        Err(e) => {
                            return Err(e);
                        },
                        Ok(None) => {
                            return ParsingError::unexpected_token(self.error_token());
                        },
                        Ok(Some(expression)) => expression,
                    };
                    args.push(first);
                    proof {
                        lemma_expressions_view_push(Seq::<Expression>::empty(), first);
                    }
                    while self.is_token_of_type(TokenType::Comma)
                        invariant
                            toks0 == old(self).toks(),
                            pos0 == old(self).pos(),
                            posl == pos0 + 1,
                            self.wf(),
                            self.tokens == old(self).tokens,
                            pos0 < self.pos(),
                            pos0 < toks0.len(),
                            toks0[pos0 as int].token_type == TokenType::LeftParen,
                            !(pos0 + 1 < toks0.len() && toks0[pos0 as int + 1].token_type
                                == TokenType::RightParen),
                            spec_parse_args_list(toks0, posl, Seq::empty()) == spec_args_tail(
                                toks0,
                                self.pos(),
                                expressions_view(args@),
                            ),
                        decreases self.tokens@.len() - self.current, 1210int,
                    {
                        self.advance_cursor();
                        let expression = match self.parse_maybe_expression() {
                            Err(e) => {
                                return Err(e);
                            },
                            Ok(None) => {
                                return ParsingError::unexpected_token(self.error_token());
                            },
                            Ok(Some(expression)) => expression,
                        };
                        let ghost pre = args@;
                        args.push(expression);
                        proof {
                            lemma_expressions_view_push(pre, expression);
                        }
                    }
                    match self.assert_token(
                        TokenType::RightParen,
                        "Expected ')' after arguments list",
                    ) {
                        Err(e) => {
                            return Err(e);
                        },
                        Ok(()) => {},
                    }
                    self.advance_cursor();
                    Ok(Some(Args::ExpressionList(args)))
                } else if kind == TokenType::LeftBrace {
                    match self.parse_table_constructor() {
                        Err(e) => Err(e),
                        Ok(table_constructor) => Ok(
                            Some(Args::TableConstructor(table_constructor)),
                        ),
                    }
                } else if kind == TokenType::LiteralString {
                    let token = self.get_token_cloned();
                    self.advance_cursor();
                    Ok(Some(Args::LiteralString(token)))
                } else {
                    Ok(None)
                }
            },
        }
    }

    /// A table constructor where one may start, or whatever the literal
    /// production accepts.
    #[verifier::rlimit(60)]
    fn parse_maybe_table_constructor(&mut self) -> (r: ParsingResult<Expression>)
        requires
            old(self).wf(),
        ensures
            final(self).wf(),
            final(self).tokens == old(self).tokens,
            old(self).current <= final(self).current,
            r is Ok && r->Ok_0 is Some ==> old(self).current < final(self).current,
            (result_view(r), final(self).pos()) == spec_parse_maybe_table_constructor(
                old(self).toks(),
                old(self).pos(),
            ),
        decreases self.tokens@.len() - self.current, 540int,
    {
        match self.peek_kind() {
            None => ParsingError::end_of_tokens(self.error_token()),
            Some(kind) => {
                if kind == TokenType::LeftBrace {
                    match self.parse_table_constructor() {
                        Err(e) => Err(e),
                        Ok(table_constructor) => Ok(
                            Some(Expression::TableConstructor(table_constructor)),
                        ),
                    }
                } else {
                    self.parse_maybe_literal()
                }
            },
        }
    }

    /// A whole table constructor: `{`, zero or more fields separated by `,`
    /// or `;` (either separator accepted after any field, including the
    /// last), `}`.
    #[verifier::rlimit(80)]
    fn parse_table_constructor(&mut self) -> (r: Result<TableConstructor, ParsingError>)
        requires
            old(self).wf(),
        ensures
            final(self).wf(),
            final(self).tokens == old(self).tokens,
            old(self).current <= final(self).current,
            r is Ok ==> old(self).current < final(self).current,
            ({
                let view = match r {
                    Ok(tc) => Ok::<Seq<crate::ast::FieldModel>, ParseErrorModel>(
                        fields_view(tc.fields@),
                    ),
                    Err(e) => Err(e@),
                };
                (view, final(self).pos()) == spec_parse_table_constructor(
                    old(self).toks(),
                    old(self).pos(),
                )
            }),
        decreases self.tokens@.len() - self.current, 480int,
    {
        let ghost toks0 = old(self).toks();
        let ghost pos0 = old(self).pos();
        if !self.is_token_of_type(TokenType::LeftBrace) {
            return Err(self.make_error(ParseErrorKind::UnexpectedToken, "Unexpected token"));
        }
        self.advance_cursor();
        let ghost posf = self.pos();
        let mut fields: Vec<Field> = Vec::new();
        let mut done = false;
        while !done && !self.is_token_of_type(TokenType::RightBrace)
            invariant
                toks0 == old(self).toks(),
                pos0 == old(self).pos(),
                posf == pos0 + 1,
                self.wf(),
                self.tokens == old(self).tokens,
                pos0 < self.pos(),
                pos0 < toks0.len(),
                toks0[pos0 as int].token_type == TokenType::LeftBrace,
                !done ==> spec_parse_fields(toks0, posf, Seq::empty()) == spec_parse_fields(
                    toks0,
                    self.pos(),
                    fields_view(fields@),
                ),
                done ==> spec_parse_fields(toks0, posf, Seq::empty()) == (
                    Ok::<Seq<crate::ast::FieldModel>, ParseErrorModel>(fields_view(fields@)),
                    self.pos(),
                ),
            decreases self.tokens@.len() - self.current, (if done {
                0int
            } else {
                1int
            }),
        {
            match self.parse_field() {
                Err(e) => {
                    return Err(e);
                },
                Ok(None) => {
                    done = true;
                },
                Ok(Some(field)) => {
                    let ghost pre = fields@;
                    fields.push(field);
                    proof {
                        lemma_fields_view_push(pre, field);
                    }
                    if self.is_token_of_type(TokenType::Comma) || self.is_token_of_type(
                        TokenType::Semicolon,
                    ) {
                        self.advance_cursor();
                    }
                },
            }
        }
        match self.assert_token(TokenType::RightBrace, "Expected '}' after field list") {
            Err(e) => {
                return Err(e);
            },
            Ok(()) => {},
        }
        self.advance_cursor();
        Ok(TableConstructor { fields })
    }

    /// One field of a table constructor: `[expr] = expr`, `name = expr`
    /// (recognized by probing whether `=` follows a leading identifier), or
    /// a bare expression (array style).
    #[verifier::rlimit(80)]
    fn parse_field(&mut self) -> (r: ParsingResult<Field>)
        requires
            old(self).wf(),
        ensures
            final(self).wf(),
            final(self).tokens == old(self).tokens,
            old(self).current <= final(self).current,
            r is Ok && r->Ok_0 is Some ==> old(self).current < final(self).current,
            (result_view(r), final(self).pos()) == spec_parse_field(
                old(self).toks(),
                old(self).pos(),
            ),
        decreases self.tokens@.len() - self.current, 1300int,
    {
        match self.peek_kind() {
            None => ParsingError::end_of_tokens(self.error_token()),
            Some(kind) => {
                if kind == TokenType::LeftBracket {
                    self.advance_cursor();
                    let key = match self.parse_maybe_expression() {
                        Err(e) => {
                            return Err(e);
                        },
                        Ok(None) => {
                            return ParsingError::new(
                                ParseErrorKind::UnexpectedToken,
                                "Failed to parse key expression in field of table constructor",
                                self.error_token(),
                            );
                        },
                        Ok(Some(key)) => key,
                    };
                    match self.assert_token(
                        TokenType::RightBracket,
                        "Expected ']' in field initialization",
                    ) {
                        Err(e) => {
                            return Err(e);
                        },
                        Ok(()) => {},
                    }
                    self.advance_cursor();
                    match self.assert_token(
                        TokenType::Equal,
                        "Expected '=' in field initialization",
                    ) {
                        Err(e) => {
                            return Err(e);
                        },
                        Ok(()) => {},
                    }
                    self.advance_cursor();
                    match self.parse_maybe_expression() {
                        Err(e) => Err(e),
                        Ok(None) => ParsingError::new(
                            ParseErrorKind::UnexpectedToken,
                            "Failed to parse value expression in field of table constructor",
                            self.error_token(),
                        ),
                        Ok(Some(value)) => Ok(Some(Field::Expression { key, value })),
                    }
                } else if kind == TokenType::Identifier && self.next_token_is(TokenType::Equal) {
                    let key = Identifier::new(self.get_token_cloned());
                    self.advance_cursor();
                    self.advance_cursor();
                    match self.parse_maybe_expression() {
                        Err(e) => Err(e),
                        Ok(None) => ParsingError::new(
                            ParseErrorKind::UnexpectedToken,
                            "Failed to parse value expression in field of table constructor",
                            self.error_token(),
                        ),
                        Ok(Some(value)) => Ok(Some(Field::Normal { key, value })),
                    }
                } else if kind == TokenType::Equal {
                    ParsingError::new(
                        ParseErrorKind::UnexpectedToken,
                        "Failed to parse field of table constructor",
                        self.error_token(),
                    )
                } else {
                    match self.parse_maybe_expression() {
                        Err(e) => Err(e),
                        Ok(None) => Ok(None),
                        Ok(Some(value)) => Ok(Some(Field::Anonymous { value })),
                    }
                }
            },
        }
    }
}

} // verus!
