//! The mathematical model of scanning: a total function from source text (a
//! sequence of characters) to either the token sequence the scanner owes or
//! the first lexical error, together with the helper functions that delimit
//! individual lexemes.

use vstd::prelude::*;

use crate::scanner::ScanError;
use crate::token::{TokenModel, TokenType};

verus! {

/// A decimal digit.
pub open spec fn is_numeric_char(c: char) -> bool {
    '0' <= c && c <= '9'
}

/// A letter or underscore: what may start an identifier.
pub open spec fn is_alpha_char(c: char) -> bool {
    ('a' <= c && c <= 'z') || ('A' <= c && c <= 'Z') || c == '_'
}

/// What may continue an identifier.
pub open spec fn is_alphanumeric_char(c: char) -> bool {
    is_numeric_char(c) || is_alpha_char(c)
}

/// The first position at or after `i` holding no decimal digit.
pub open spec fn numeric_run_end(s: Seq<char>, i: nat) -> nat
    decreases s.len() - i,
{
    if i < s.len() && is_numeric_char(s[i as int]) {
        numeric_run_end(s, i + 1)
    } else {
        i
    }
}

/// The first position at or after `i` holding no identifier character.
pub open spec fn alphanumeric_run_end(s: Seq<char>, i: nat) -> nat
    decreases s.len() - i,
{
    if i < s.len() && is_alphanumeric_char(s[i as int]) {
        alphanumeric_run_end(s, i + 1)
    } else {
        i
    }
}

/// Where a numeral that starts at `i` ends: a run of digits, optionally
/// followed by one fractional part `'.' digits`.
pub open spec fn numeral_end(s: Seq<char>, i: nat) -> nat {
    let j = numeric_run_end(s, i);
    if j + 1 < s.len() && s[j as int] == '.' && is_numeric_char(s[j as int + 1]) {
        numeric_run_end(s, j + 1)
    } else {
        j
    }
}

/// The position of the closing delimiter of a short literal string whose
/// contents start at `i`, or `None` if the string is unterminated: a newline
/// or the end of input comes first.  A backslash consumes the following
/// character verbatim without terminating the string.
pub open spec fn short_string_close(s: Seq<char>, i: nat, delimiter: char) -> Option<nat>
    decreases s.len() + 1 - i,
{
    if i >= s.len() {
        None
    } else if s[i as int] == delimiter {
        Some(i)
    } else if s[i as int] == '\n' {
        None
    } else if s[i as int] == '\\' {
        short_string_close(s, i + 2, delimiter)
    } else {
        short_string_close(s, i + 1, delimiter)
    }
}

/// The position of the first `]]` pair at or after `i`, or `None` if there is
/// none before the end of input.
pub open spec fn long_close(s: Seq<char>, i: nat) -> Option<nat>
    decreases s.len() - i,
{
    if i + 2 > s.len() {
        None
    } else if s[i as int] == ']' && s[i as int + 1] == ']' {
        Some(i)
    } else {
        long_close(s, i + 1)
    }
}

/// The position of the first newline at or after `i`, or the end of input.
pub open spec fn line_end(s: Seq<char>, i: nat) -> nat
    decreases s.len() - i,
{
    if i >= s.len() {
        i
    } else if s[i as int] == '\n' {
        i
    } else {
        line_end(s, i + 1)
    }
}

/// How many newline characters `s[i..j)` holds.
pub open spec fn newline_count(s: Seq<char>, i: nat, j: nat) -> nat
    decreases j - i,
{
    if i >= j || i >= s.len() {
        0
    } else {
        (if s[i as int] == '\n' {
            1nat
        } else {
            0nat
        }) + newline_count(s, i + 1, j)
    }
}

/// The token kind an identifier lexeme stands for: the matching reserved
/// word, or `Identifier` if it matches none exactly.
pub open spec fn keyword_kind(lexeme: Seq<char>) -> TokenType {
    if lexeme == "or"@ {
        TokenType::Or
    } else if lexeme == "and"@ {
        TokenType::And
    } else if lexeme == "end"@ {
        TokenType::End
    } else if lexeme == "function"@ {
        TokenType::Function
    } else if lexeme == "nil"@ {
        TokenType::Nil
    } else if lexeme == "not"@ {
        TokenType::Not
    } else if lexeme == "false"@ {
        TokenType::False
    } else if lexeme == "true"@ {
        TokenType::True
    } else if lexeme == "return"@ {
        TokenType::Return
    } else if lexeme == "local"@ {
        TokenType::Local
    } else if lexeme == "for"@ {
        TokenType::For
    } else if lexeme == "do"@ {
        TokenType::Do
    } else if lexeme == "in"@ {
        TokenType::In
    } else if lexeme == "if"@ {
        TokenType::If
    } else if lexeme == "else"@ {
        TokenType::Else
    } else if lexeme == "elseif"@ {
        TokenType::Elseif
    } else if lexeme == "then"@ {
        TokenType::Then
    } else if lexeme == "repeat"@ {
        TokenType::Repeat
    } else if lexeme == "until"@ {
        TokenType::Until
    } else if lexeme == "while"@ {
        TokenType::While
    } else if lexeme == "goto"@ {
        TokenType::Goto
    } else if lexeme == "break"@ {
        TokenType::Break
    } else {
        TokenType::Identifier
    }
}

/// A token without a decoded literal payload, spanning `s[start..end)`.
pub open spec fn plain_token(
    s: Seq<char>,
    start: nat,
    end: nat,
    kind: TokenType,
    line: nat,
) -> TokenModel {
    TokenModel {
        token_type: kind,
        lexeme: s.subrange(start as int, end as int),
        lexeme_start: start as int,
        literal: None,
        line: line as int,
    }
}

pub proof fn lemma_numeric_run_end_bounds(s: Seq<char>, i: nat)
    requires
        i <= s.len(),
    ensures
        i <= numeric_run_end(s, i) <= s.len(),
    decreases s.len() - i,
{
    if i < s.len() && is_numeric_char(s[i as int]) {
        lemma_numeric_run_end_bounds(s, i + 1);
    }
}

pub proof fn lemma_alphanumeric_run_end_bounds(s: Seq<char>, i: nat)
    requires
        i <= s.len(),
    ensures
        i <= alphanumeric_run_end(s, i) <= s.len(),
    decreases s.len() - i,
{
    if i < s.len() && is_alphanumeric_char(s[i as int]) {
        lemma_alphanumeric_run_end_bounds(s, i + 1);
    }
}

pub proof fn lemma_numeral_end_bounds(s: Seq<char>, i: nat)
    requires
        i <= s.len(),
    ensures
        i <= numeral_end(s, i) <= s.len(),
{
    lemma_numeric_run_end_bounds(s, i);
    let j = numeric_run_end(s, i);
    if j + 1 < s.len() && s[j as int] == '.' && is_numeric_char(s[j as int + 1]) {
        lemma_numeric_run_end_bounds(s, j + 1);
    }
}

pub proof fn lemma_short_string_close_bounds(s: Seq<char>, i: nat, delimiter: char)
    requires
        short_string_close(s, i, delimiter) is Some,
    ensures
        i <= short_string_close(s, i, delimiter)->Some_0 < s.len(),
        s[short_string_close(s, i, delimiter)->Some_0 as int] == delimiter,
    decreases s.len() + 1 - i,
{
    if i >= s.len() {
    } else if s[i as int] == delimiter {
    } else if s[i as int] == '\n' {
    } else if s[i as int] == '\\' {
        lemma_short_string_close_bounds(s, i + 2, delimiter);
    } else {
        lemma_short_string_close_bounds(s, i + 1, delimiter);
    }
}

pub proof fn lemma_long_close_bounds(s: Seq<char>, i: nat)
    requires
        long_close(s, i) is Some,
    ensures
        i <= long_close(s, i)->Some_0,
        long_close(s, i)->Some_0 + 2 <= s.len(),
    decreases s.len() - i,
{
    if i + 2 > s.len() {
    } else if s[i as int] == ']' && s[i as int + 1] == ']' {
    } else {
        lemma_long_close_bounds(s, i + 1);
    }
}

pub proof fn lemma_line_end_bounds(s: Seq<char>, i: nat)
    requires
        i <= s.len(),
    ensures
        i <= line_end(s, i) <= s.len(),
    decreases s.len() - i,
{
    if i < s.len() && s[i as int] != '\n' {
        lemma_line_end_bounds(s, i + 1);
    }
}

pub proof fn lemma_newline_count_le(s: Seq<char>, i: nat, j: nat)
    requires
        i <= j,
    ensures
        newline_count(s, i, j) <= j - i,
    decreases j - i,
{
    if i < j && i < s.len() {
        lemma_newline_count_le(s, i + 1, j);
    }
}

pub proof fn lemma_newline_count_snoc(s: Seq<char>, i: nat, j: nat)
    requires
        i <= j < s.len(),
    ensures
        newline_count(s, i, j + 1) == newline_count(s, i, j) + (if s[j as int] == '\n' {
            1int
        } else {
            0int
        }),
    decreases j - i,
{
    if i < j {
        lemma_newline_count_snoc(s, i + 1, j);
    } else {
        assert(newline_count(s, j + 1, j + 1) == 0);
    }
}

/// One scanning step from position `i` on line `line`, with `acc` the tokens
/// already emitted: either extends `acc` and continues, or stops with the
/// first lexical error.  At the end of input an end-of-stream token whose
/// offset is the source length is appended.
pub open spec fn spec_scan_from(
    s: Seq<char>,
    i: nat,
    line: nat,
    acc: Seq<TokenModel>,
) -> Result<Seq<TokenModel>, ScanError>
    decreases s.len() - i,
        via spec_scan_from_decreases
{
    if i >= s.len() {
        Ok(
            acc.push(
                TokenModel {
                    token_type: TokenType::Eof,
                    lexeme: Seq::empty(),
                    lexeme_start: s.len() as int,
                    literal: None,
                    line: line as int,
                },
            ),
        )
    } else {
        let c = s[i as int];
        if c == '.' {
            if i + 1 < s.len() && s[i as int + 1] == '.' {
                if i + 2 < s.len() && s[i as int + 2] == '.' {
                    spec_scan_from(
                        s,
                        i + 3,
                        line,
                        acc.push(plain_token(s, i, i + 3, TokenType::Spread, line)),
                    )
                } else {
                    spec_scan_from(
                        s,
                        i + 2,
                        line,
                        acc.push(plain_token(s, i, i + 2, TokenType::DotDot, line)),
                    )
                }
            } else {
                spec_scan_from(
                    s,
                    i + 1,
                    line,
                    acc.push(plain_token(s, i, i + 1, TokenType::Dot, line)),
                )
            }
        } else if c == ',' {
            spec_scan_from(
                s,
                i + 1,
                line,
                acc.push(plain_token(s, i, i + 1, TokenType::Comma, line)),
            )
        } else if c == ':' {
            spec_scan_from(
                s,
                i + 1,
                line,
                acc.push(plain_token(s, i, i + 1, TokenType::Colon, line)),
            )
        } else if c == ';' {
            spec_scan_from(
                s,
                i + 1,
                line,
                acc.push(plain_token(s, i, i + 1, TokenType::Semicolon, line)),
            )
        } else if c == '=' {
            if i + 1 < s.len() && s[i as int + 1] == '=' {
                spec_scan_from(
                    s,
                    i + 2,
                    line,
                    acc.push(plain_token(s, i, i + 2, TokenType::EqualEqual, line)),
                )
            } else {
                spec_scan_from(
                    s,
                    i + 1,
                    line,
                    acc.push(plain_token(s, i, i + 1, TokenType::Equal, line)),
                )
            }
        } else if c == '<' {
            if i + 1 < s.len() && s[i as int + 1] == '=' {
                spec_scan_from(
                    s,
                    i + 2,
                    line,
                    acc.push(plain_token(s, i, i + 2, TokenType::LessEqual, line)),
                )
            } else if i + 1 < s.len() && s[i as int + 1] == '<' {
                spec_scan_from(
                    s,
                    i + 2,
                    line,
                    acc.push(plain_token(s, i, i + 2, TokenType::LessLess, line)),
                )
            } else {
                spec_scan_from(
                    s,
                    i + 1,
                    line,
                    acc.push(plain_token(s, i, i + 1, TokenType::Less, line)),
                )
            }
        } else if c == '>' {
            if i + 1 < s.len() && s[i as int + 1] == '=' {
                spec_scan_from(
                    s,
                    i + 2,
                    line,
                    acc.push(plain_token(s, i, i + 2, TokenType::GreaterEqual, line)),
                )
            } else if i + 1 < s.len() && s[i as int + 1] == '>' {
                spec_scan_from(
                    s,
                    i + 2,
                    line,
                    acc.push(plain_token(s, i, i + 2, TokenType::GreaterGreater, line)),
                )
            } else {
                spec_scan_from(
                    s,
                    i + 1,
                    line,
                    acc.push(plain_token(s, i, i + 1, TokenType::Greater, line)),
                )
            }
        } else if c == '~' {
            if i + 1 < s.len() && s[i as int + 1] == '=' {
                spec_scan_from(
                    s,
                    i + 2,
                    line,
                    acc.push(plain_token(s, i, i + 2, TokenType::TildeEqual, line)),
                )
            } else {
                spec_scan_from(
                    s,
                    i + 1,
                    line,
                    acc.push(plain_token(s, i, i + 1, TokenType::Tilde, line)),
                )
            }
        } else if c == '/' {
            if i + 1 < s.len() && s[i as int + 1] == '/' {
                spec_scan_from(
                    s,
                    i + 2,
                    line,
                    acc.push(plain_token(s, i, i + 2, TokenType::SlashSlash, line)),
                )
            } else {
                spec_scan_from(
                    s,
                    i + 1,
                    line,
                    acc.push(plain_token(s, i, i + 1, TokenType::Slash, line)),
                )
            }
        } else if c == '+' {
            spec_scan_from(
                s,
                i + 1,
                line,
                acc.push(plain_token(s, i, i + 1, TokenType::Plus, line)),
            )
        } else if c == '-' {
            if i + 1 < s.len() && s[i as int + 1] == '-' {
                if i + 3 < s.len() && s[i as int + 2] == '[' && s[i as int + 3] == '[' {
                    // Block comment: consumed with line counting until the
                    // matching `]]`, or to the end of input if there is none.
                    if long_close(s, i + 4) is Some {
                        let j = long_close(s, i + 4)->Some_0;
                        spec_scan_from(s, j + 2, line + newline_count(s, i + 4, j), acc)
                    } else {
                        spec_scan_from(
                            s,
                            s.len(),
                            line + newline_count(s, i + 4, s.len()),
                            acc,
                        )
                    }
                } else {
                    // Line comment: consumed up to (not including) the next
                    // newline.
                    spec_scan_from(s, line_end(s, i + 2), line, acc)
                }
            } else {
                spec_scan_from(
                    s,
                    i + 1,
                    line,
                    acc.push(plain_token(s, i, i + 1, TokenType::Minus, line)),
                )
            }
        } else if c == '*' {
            spec_scan_from(
                s,
                i + 1,
                line,
                acc.push(plain_token(s, i, i + 1, TokenType::Star, line)),
            )
        } else if c == '^' {
            spec_scan_from(
                s,
                i + 1,
                line,
                acc.push(plain_token(s, i, i + 1, TokenType::Caret, line)),
            )
        } else if c == '%' {
            spec_scan_from(
                s,
                i + 1,
                line,
                acc.push(plain_token(s, i, i + 1, TokenType::Percent, line)),
            )
        } else if c == '&' {
            spec_scan_from(
                s,
                i + 1,
                line,
                acc.push(plain_token(s, i, i + 1, TokenType::Ampersand, line)),
            )
        } else if c == '|' {
            spec_scan_from(
                s,
                i + 1,
                line,
                acc.push(plain_token(s, i, i + 1, TokenType::Pipe, line)),
            )
        } else if c == '#' {
            spec_scan_from(
                s,
                i + 1,
                line,
                acc.push(plain_token(s, i, i + 1, TokenType::Hash, line)),
            )
        } else if c == '[' {
            if i + 1 < s.len() && s[i as int + 1] == '[' {
                // Long-bracket literal string, spanning lines, consumed until
                // the first `]]`.
                if long_close(s, i + 2) is Some {
                    let j = long_close(s, i + 2)->Some_0;
                    let new_line = line + newline_count(s, i + 2, j);
                    spec_scan_from(
                        s,
                        j + 2,
                        new_line,
                        acc.push(
                            TokenModel {
                                token_type: TokenType::LiteralString,
                                lexeme: s.subrange(i as int, j as int + 2),
                                lexeme_start: i as int,
                                literal: Some(s.subrange(i as int + 2, j as int)),
                                line: new_line as int,
                            },
                        ),
                    )
                } else {
                    Err(
                        ScanError::UnterminatedLongString {
                            line: (line + newline_count(s, i + 2, s.len())) as usize,
                        },
                    )
                }
            } else {
                spec_scan_from(
                    s,
                    i + 1,
                    line,
                    acc.push(plain_token(s, i, i + 1, TokenType::LeftBracket, line)),
                )
            }
        } else if c == ']' {
            spec_scan_from(
                s,
                i + 1,
                line,
                acc.push(plain_token(s, i, i + 1, TokenType::RightBracket, line)),
            )
        } else if c == '(' {
            spec_scan_from(
                s,
                i + 1,
                line,
                acc.push(plain_token(s, i, i + 1, TokenType::LeftParen, line)),
            )
        } else if c == ')' {
            spec_scan_from(
                s,
                i + 1,
                line,
                acc.push(plain_token(s, i, i + 1, TokenType::RightParen, line)),
            )
        } else if c == '{' {
            spec_scan_from(
                s,
                i + 1,
                line,
                acc.push(plain_token(s, i, i + 1, TokenType::LeftBrace, line)),
            )
        } else if c == '}' {
            spec_scan_from(
                s,
                i + 1,
                line,
                acc.push(plain_token(s, i, i + 1, TokenType::RightBrace, line)),
            )
        } else if c == '\'' || c == '"' {
            if short_string_close(s, i + 1, c) is Some {
                let j = short_string_close(s, i + 1, c)->Some_0;
                // Any newline inside the string sits behind an escape (an
                // unescaped one is an error), and the counter is incremented
                // on every newline; the token reports its opening line.
                spec_scan_from(
                    s,
                    j + 1,
                    line + newline_count(s, i + 1, j),
                    acc.push(
                        TokenModel {
                            token_type: TokenType::LiteralString,
                            lexeme: s.subrange(i as int, j as int + 1),
                            lexeme_start: i as int,
                            literal: Some(s.subrange(i as int + 1, j as int)),
                            line: line as int,
                        },
                    ),
                )
            } else {
                Err(ScanError::UnterminatedString { line: line as usize })
            }
        } else if c == ' ' || c == '\r' || c == '\t' {
            spec_scan_from(s, i + 1, line, acc)
        } else if c == '\n' {
            spec_scan_from(s, i + 1, line + 1, acc)
        } else if is_numeric_char(c) {
            let j = numeral_end(s, i);
            spec_scan_from(
                s,
                j,
                line,
                acc.push(
                    TokenModel {
                        token_type: TokenType::Numeral,
                        lexeme: s.subrange(i as int, j as int),
                        lexeme_start: i as int,
                        literal: Some(s.subrange(i as int, j as int)),
                        line: line as int,
                    },
                ),
            )
        } else if is_alpha_char(c) {
            let j = alphanumeric_run_end(s, i);
            let kind = keyword_kind(s.subrange(i as int, j as int));
            if kind == TokenType::If && acc.len() > 0 && acc.last().token_type
                == TokenType::Else {
                // Keyword merge: an `if` scanned right after an emitted
                // `else` replaces it with one `Elseif` token spanning both
                // words.
                let merged = TokenModel {
                    token_type: TokenType::Elseif,
                    lexeme: s.subrange(acc.last().lexeme_start, j as int),
                    lexeme_start: acc.last().lexeme_start,
                    literal: None,
                    line: line as int,
                };
                spec_scan_from(s, j, line, acc.update(acc.len() - 1, merged))
            } else {
                spec_scan_from(s, j, line, acc.push(plain_token(s, i, j, kind, line)))
            }
        } else {
            Err(ScanError::UnknownCharacter { character: c, line: line as usize })
        }
    }
}

#[via_fn]
proof fn spec_scan_from_decreases(s: Seq<char>, i: nat, line: nat, acc: Seq<TokenModel>) {
    if i < s.len() {
        let c = s[i as int];
        if c == '-' && i + 1 < s.len() && s[i as int + 1] == '-' {
            if i + 3 < s.len() && s[i as int + 2] == '[' && s[i as int + 3] == '[' {
                if long_close(s, i + 4) is Some {
                    lemma_long_close_bounds(s, i + 4);
                }
            } else {
                lemma_line_end_bounds(s, i + 2);
            }
        } else if c == '[' && i + 1 < s.len() && s[i as int + 1] == '[' {
            if long_close(s, i + 2) is Some {
                lemma_long_close_bounds(s, i + 2);
            }
        } else if c == '\'' || c == '"' {
            if short_string_close(s, i + 1, c) is Some {
                lemma_short_string_close_bounds(s, i + 1, c);
            }
        } else if is_numeric_char(c) {
            lemma_numeric_run_end_bounds(s, i + 1);
            assert(numeric_run_end(s, i) == numeric_run_end(s, i + 1));
            let j = numeric_run_end(s, i);
            if j + 1 < s.len() && s[j as int] == '.' && is_numeric_char(s[j as int + 1]) {
                lemma_numeric_run_end_bounds(s, j + 1);
            }
        } else if is_alpha_char(c) {
            lemma_alphanumeric_run_end_bounds(s, i + 1);
            assert(alphanumeric_run_end(s, i) == alphanumeric_run_end(s, i + 1));
        }
    }
}

/// What scanning a whole source owes: tokens from the first character, line
/// counting starting at 1, nothing emitted yet.
pub open spec fn spec_scan(s: Seq<char>) -> Result<Seq<TokenModel>, ScanError> {
    spec_scan_from(s, 0, 1, Seq::empty())
}

} // verus!
