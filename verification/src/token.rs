//! The token model: a classified, positioned lexical unit produced by the
//! scanner and consumed by the parser.

use vstd::prelude::*;

verus! {

/// The closed set of token kinds: punctuation, operators, brackets, literal
/// markers, the Lua reserved words, and an end-of-stream marker.
#[derive(Clone, Copy, Debug, PartialEq, Eq, Structural)]
pub enum TokenType {
    Dot,       // .
    Comma,     // ,
    Colon,     // :
    Semicolon, // ;

    Equal,          // =
    EqualEqual,     // ==
    TildeEqual,     // ~=
    Less,           // <
    LessEqual,      // <=
    LessLess,       // <<
    Greater,        // >
    GreaterEqual,   // >=
    GreaterGreater, // >>

    Plus,       // +
    Minus,      // -
    Star,       // *
    Slash,      // /
    SlashSlash, // //
    Caret,      // ^
    Percent,    // %
    Ampersand,  // &
    Tilde,      // ~
    Pipe,       // |
    Hash,       // #

    LeftBracket,  // [
    RightBracket, // ]
    LeftParen,    // (
    RightParen,   // )
    LeftBrace,    // {
    RightBrace,   // }

    DotDot, // ..
    Spread, // ...

    Identifier,
    LiteralString,
    Numeral,

    Or,
    And,
    End,
    Function,
    Nil,
    Not,
    False,
    True,
    Return,
    Local,
    For,
    Do,
    In,
    If,
    Else,
    Elseif,
    Then,
    Repeat,
    Until,
    While,
    Goto,
    Break,

    Eof,
}

/// The mathematical value of a [`Token`]: the same record with its text spans
/// abstracted to character sequences and its positions to unbounded integers.
pub struct TokenModel {
    pub token_type: TokenType,
    pub lexeme: Seq<char>,
    pub lexeme_start: int,
    pub literal: Option<Seq<char>>,
    pub line: int,
}

/// A token: its kind, the literal source text span it was scanned from, the
/// character offset where that span starts, an optional decoded literal
/// payload, and the 1-based source line it was found on.  Immutable once
/// produced.
#[derive(Debug, PartialEq, Eq)]
pub struct Token {
    pub token_type: TokenType,
    pub lexeme: String,
    pub lexeme_start: usize,
    pub literal: Option<String>,
    pub line: usize,
}

impl View for Token {
    type V = TokenModel;

    open spec fn view(&self) -> TokenModel {
        TokenModel {
            token_type: self.token_type,
            lexeme: self.lexeme@,
            lexeme_start: self.lexeme_start as int,
            literal: match self.literal {
                Some(s) => Some(s@),
                None => None,
            },
            line: self.line as int,
        }
    }
}

impl Token {
    /// Builds a token owning copies of the given lexeme and literal text.
    pub fn new(
        token_type: TokenType,
        lexeme: &str,
        lexeme_start: usize,
        literal: Option<&str>,
        line: usize,
    ) -> (token: Token)
        ensures
            token@ == (TokenModel {
                token_type,
                lexeme: lexeme@,
                lexeme_start: lexeme_start as int,
                literal: match literal {
                    Some(s) => Some(s@),
                    None => None,
                },
                line: line as int,
            }),
    {
        Token {
            token_type,
            lexeme: lexeme.to_owned(),
            lexeme_start,
            literal: match literal {
                Some(s) => Some(s.to_owned()),
                None => None,
            },
            line,
        }
    }
}

impl Clone for Token {
    /// The copy stands for the same token value.
    fn clone(&self) -> (token: Token)
        ensures
            token@ == self@,
    {
        Token {
            token_type: self.token_type,
            lexeme: self.lexeme.clone(),
            lexeme_start: self.lexeme_start,
            literal: match &self.literal {
                Some(s) => Some(s.clone()),
                None => None,
            },
            line: self.line,
        }
    }
}

/// The views of a sequence of tokens, in order.
pub open spec fn tokens_view(tokens: Seq<Token>) -> Seq<TokenModel> {
    tokens.map_values(|t: Token| t@)
}

pub proof fn lemma_tokens_view_push(tokens: Seq<Token>, token: Token)
    ensures
        tokens_view(tokens.push(token)) == tokens_view(tokens).push(token@),
{
    assert(tokens_view(tokens.push(token)) =~= tokens_view(tokens).push(token@));
}

pub proof fn lemma_tokens_view_replace_last(tokens: Seq<Token>, token: Token)
    requires
        tokens.len() > 0,
    ensures
        tokens_view(tokens.subrange(0, tokens.len() - 1).push(token)) == tokens_view(
            tokens,
        ).update(tokens.len() - 1, token@),
{
    assert(tokens_view(tokens.subrange(0, tokens.len() - 1).push(token)) =~= tokens_view(
        tokens,
    ).update(tokens.len() - 1, token@));
}

} // verus!
