//! Parse errors: a structured kind, a human-readable message, and the
//! offending token, so every failure is tied to a source position.

use vstd::prelude::*;

use crate::token::{Token, TokenModel, TokenType};

verus! {

/// The closed set of parse error kinds.
#[derive(Clone, Copy, Debug, PartialEq, Eq, Structural)]
pub enum ParseErrorKind {
    /// A token was present but matched no expected alternative.
    UnexpectedToken,
    /// Input was exhausted in the middle of a production.
    UnexpectedEndOfTokens,
    /// A closing `)`, `]` or `}` was expected.
    MissingClosingDelimiter,
    /// A unary or binary operator had no right-hand expression.
    MissingOperand,
    /// The `=` of a named table field was expected.
    MissingFieldSeparator,
}

/// The mathematical value of a [`ParsingError`].
pub struct ParseErrorModel {
    pub kind: ParseErrorKind,
    pub message: Seq<char>,
    pub token: TokenModel,
}

/// A parse error: its kind, a human-readable message, and the token found at
/// the failure point (the end-of-stream token if input was exhausted, so a
/// line is always available).
#[derive(Debug)]
pub struct ParsingError {
    pub kind: ParseErrorKind,
    pub message: String,
    pub token: Token,
}

impl View for ParsingError {
    type V = ParseErrorModel;

    open spec fn view(&self) -> ParseErrorModel {
        ParseErrorModel { kind: self.kind, message: self.message@, token: self.token@ }
    }
}

/// What a parsing function returns: the parsed node, `None` when the
/// production does not start here (and nothing was consumed), or the first
/// error, which aborts the whole parse.
pub type ParsingResult<T> = Result<Option<T>, ParsingError>;

/// The error kind that a missing expected token stands for.
pub open spec fn expected_kind(token_type: TokenType) -> ParseErrorKind {
    if token_type == TokenType::RightParen || token_type == TokenType::RightBracket
        || token_type == TokenType::RightBrace {
        ParseErrorKind::MissingClosingDelimiter
    } else if token_type == TokenType::Equal {
        ParseErrorKind::MissingFieldSeparator
    } else {
        ParseErrorKind::UnexpectedToken
    }
}

/// The view of a parsing outcome with an optional payload.
pub open spec fn result_view<T: View>(r: ParsingResult<T>) -> Result<
    Option<<T as View>::V>,
    ParseErrorModel,
> {
    match r {
        Ok(Some(v)) => Ok(Some(v@)),
        Ok(None) => Ok(None),
        Err(e) => Err(e@),
    }
}

/// The view of a parsing outcome whose payload is owed.
pub open spec fn plain_result_view<T: View>(r: Result<T, ParsingError>) -> Result<
    <T as View>::V,
    ParseErrorModel,
> {
    match r {
        Ok(v) => Ok(v@),
        Err(e) => Err(e@),
    }
}

impl ParsingError {
    /// Builds the error result for a failure of the given kind at the given
    /// token.
    pub fn new<T>(kind: ParseErrorKind, message: &str, token: Token) -> (r: ParsingResult<T>)
        ensures
            r is Err,
            r->Err_0@ == (ParseErrorModel { kind, message: message@, token: token@ }),
    {
        Err(ParsingError { kind, message: message.to_owned(), token })
    }

    /// The error result for input exhausted mid-production, reported against
    /// the given token.
    pub fn end_of_tokens<T>(token: Token) -> (r: ParsingResult<T>)
        ensures
            r is Err,
            r->Err_0@ == (ParseErrorModel {
                kind: ParseErrorKind::UnexpectedEndOfTokens,
                message: "Unexpected end of tokens"@,
                token: token@,
            }),
    {
        ParsingError::new(
            ParseErrorKind::UnexpectedEndOfTokens,
            "Unexpected end of tokens",
            token,
        )
    }

    /// The error result for a token that matched no expected alternative.
    pub fn unexpected_token<T>(token: Token) -> (r: ParsingResult<T>)
        ensures
            r is Err,
            r->Err_0@ == (ParseErrorModel {
                kind: ParseErrorKind::UnexpectedToken,
                message: "Unexpected token"@,
                token: token@,
            }),
    {
        ParsingError::new(ParseErrorKind::UnexpectedToken, "Unexpected token", token)
    }
}

} // verus!
