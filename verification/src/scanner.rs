//! The scanner: consumes source text character by character and produces the
//! ordered token sequence the parser reads, owning all lexical
//! disambiguation and line tracking.

use vstd::prelude::*;
use vstd::string::StrSliceExecFns;

use crate::scan_model::alphanumeric_run_end;
use crate::scan_model::is_alpha_char;
use crate::scan_model::is_alphanumeric_char;
use crate::scan_model::is_numeric_char;
use crate::scan_model::keyword_kind;
use crate::scan_model::lemma_newline_count_le;
use crate::scan_model::lemma_newline_count_snoc;
use crate::scan_model::line_end;
use crate::scan_model::long_close;
use crate::scan_model::newline_count;
use crate::scan_model::numeral_end;
use crate::scan_model::numeric_run_end;
use crate::scan_model::plain_token;
use crate::scan_model::short_string_close;
use crate::scan_model::spec_scan;
use crate::scan_model::spec_scan_from;
use crate::token::lemma_tokens_view_push;
use crate::token::lemma_tokens_view_replace_last;
use crate::token::tokens_view;
use crate::token::{Token, TokenModel, TokenType};

verus! {

/// A lexical error: each variant carries the 1-based source line it was
/// found on.
#[derive(Clone, Copy, Debug, PartialEq, Eq, Structural)]
pub enum ScanError {
    /// A short literal string ran into a newline or the end of input before
    /// its closing delimiter.
    UnterminatedString { line: usize },
    /// A long-bracket literal string ran to the end of input with no `]]`.
    UnterminatedLongString { line: usize },
    /// The delimiter of a literal string could not be determined.
    UndeterminedStringDelimiter { line: usize },
    /// A character matched by no lexical rule.
    UnknownCharacter { character: char, line: usize },
}

impl ScanError {
    /// The source line the error was found on.
    pub fn line(&self) -> (line: usize)
        ensures
            line == match *self {
                ScanError::UnterminatedString { line } => line,
                ScanError::UnterminatedLongString { line } => line,
                ScanError::UndeterminedStringDelimiter { line } => line,
                ScanError::UnknownCharacter { line, .. } => line,
            },
    {
        match self {
            ScanError::UnterminatedString { line } => *line,
            ScanError::UnterminatedLongString { line } => *line,
            ScanError::UndeterminedStringDelimiter { line } => *line,
            ScanError::UnknownCharacter { line, .. } => *line,
        }
    }

    /// A human-readable phrase naming the error.
    pub fn describe(&self) -> (message: &'static str)
        ensures
            self is UnterminatedString ==> message@ == "unterminated string"@,
            self is UnterminatedLongString ==> message@ == "unterminated long string"@,
            self is UndeterminedStringDelimiter ==> message@
                == "cannot detect literal string delimiter"@,
            self is UnknownCharacter ==> message@ == "unexpected character"@,
    {
        match self {
            ScanError::UnterminatedString { .. } => "unterminated string",
            ScanError::UnterminatedLongString { .. } => "unterminated long string",
            ScanError::UndeterminedStringDelimiter { .. } => "cannot detect literal string delimiter",
            ScanError::UnknownCharacter { .. } => "unexpected character",
        }
    }
}

/// Compares two string slices character by character.
fn str_eq(a: &str, b: &str) -> (r: bool)
    ensures
        r == (a@ == b@),
{
    let a_len = a.unicode_len();
    let b_len = b.unicode_len();
    if a_len != b_len {
        return false;
    }
    let mut i: usize = 0;
    while i < a_len
        invariant
            a_len == a@.len(),
            a@.len() == b@.len(),
            i <= a_len,
            forall|k: int| 0 <= k < i ==> a@[k] == b@[k],
        decreases a_len - i,
    {
        if a.get_char(i) != b.get_char(i) {
            return false;
        }
        i = i + 1;
    }
    proof {
        assert(a@ =~= b@);
    }
    true
}

/// The token kind an identifier lexeme stands for: exact match against the
/// reserved words, otherwise an identifier.
fn keyword_lookup(lexeme: &str) -> (kind: TokenType)
    ensures
        kind == keyword_kind(lexeme@),
{
    if str_eq(lexeme, "or") {
        TokenType::Or
    } else if str_eq(lexeme, "and") {
        TokenType::And
    } else if str_eq(lexeme, "end") {
        TokenType::End
    } else if str_eq(lexeme, "function") {
        TokenType::Function
    } else if str_eq(lexeme, "nil") {
        TokenType::Nil
    } else if str_eq(lexeme, "not") {
        TokenType::Not
    } else if str_eq(lexeme, "false") {
        TokenType::False
    } else if str_eq(lexeme, "true") {
        TokenType::True
    } else if str_eq(lexeme, "return") {
        TokenType::Return
    } else if str_eq(lexeme, "local") {
        TokenType::Local
    } else if str_eq(lexeme, "for") {
        TokenType::For
    } else if str_eq(lexeme, "do") {
        TokenType::Do
    } else if str_eq(lexeme, "in") {
        TokenType::In
    } else if str_eq(lexeme, "if") {
        TokenType::If
    } else if str_eq(lexeme, "else") {
        TokenType::Else
    } else if str_eq(lexeme, "elseif") {
        TokenType::Elseif
    } else if str_eq(lexeme, "then") {
        TokenType::Then
    } else if str_eq(lexeme, "repeat") {
        TokenType::Repeat
    } else if str_eq(lexeme, "until") {
        TokenType::Until
    } else if str_eq(lexeme, "while") {
        TokenType::While
    } else if str_eq(lexeme, "goto") {
        TokenType::Goto
    } else if str_eq(lexeme, "break") {
        TokenType::Break
    } else {
        TokenType::Identifier
    }
}

/// The scanner's state: the source text, the start of the lexeme being
/// scanned, the cursor, and the 1-based line counter.
pub struct Scanner {
    source: String,
    start: usize,
    current: usize,
    line: usize,
}

impl Scanner {
    /// The source text being scanned.
    pub closed spec fn src(self) -> Seq<char> {
        self.source@
    }

    /// The scanner's internal consistency: the cursor stays within the
    /// source, and the line counter never exceeds what the consumed text
    /// could hold.
    pub closed spec fn wf(self) -> bool {
        &&& self.current <= self.src().len()
        &&& self.src().len() < usize::MAX
        &&& 1 <= self.line
        &&& self.line <= self.current + 1
    }

    /// A scanner that has consumed nothing yet.
    pub closed spec fn fresh(self) -> bool {
        &&& self.current == 0
        &&& self.start == 0
        &&& self.line == 1
        &&& self.src().len() < usize::MAX
    }

    /// Builds a fresh scanner over a copy of the given source text.
    pub fn new(source: &str) -> (scanner: Scanner)
        requires
            source@.len() < usize::MAX,
        ensures
            scanner.fresh(),
            scanner.src() == source@,
    {
        Scanner { source: source.to_owned(), start: 0, current: 0, line: 1 }
    }

    fn is_eof(&self) -> (r: bool)
        ensures
            r == (self.current >= self.src().len()),
    {
        self.current >= self.source.as_str().unicode_len()
    }

    fn is_numeric(&self, c: char) -> (r: bool)
        ensures
            r == is_numeric_char(c),
    {
        '0' <= c && c <= '9'
    }

    fn is_alpha(&self, c: char) -> (r: bool)
        ensures
            r == is_alpha_char(c),
    {
        ('a' <= c && c <= 'z') || ('A' <= c && c <= 'Z') || c == '_'
    }

    fn is_alphanumeric(&self, c: char) -> (r: bool)
        ensures
            r == is_alphanumeric_char(c),
    {
        self.is_numeric(c) || self.is_alpha(c)
    }

    fn char_at(&self, index: usize) -> (r: Option<char>)
        ensures
            r == (if index < self.src().len() {
                Some(self.src()[index as int])
            } else {
                None::<char>
            }),
    {
        if index < self.source.as_str().unicode_len() {
            Some(self.source.as_str().get_char(index))
        } else {
            None
        }
    }

    /// Consumes the character under the cursor when it is the expected one:
    /// the greedy half of longest-match operator disambiguation.
    fn consume_matching(&mut self, expected: char) -> (r: bool)
        requires
            old(self).wf(),
        ensures
            final(self).wf(),
            final(self).src() == old(self).src(),
            final(self).start == old(self).start,
            final(self).line == old(self).line,
            if old(self).current < old(self).src().len() && old(self).src()[old(
                self,
            ).current as int] == expected {
                r && final(self).current == old(self).current + 1
            } else {
                !r && final(self).current == old(self).current
            },
    {
        match self.char_at(self.current) {
            Some(c) => {
                if c == expected {
                    self.current = self.current + 1;
                    true
                } else {
                    false
                }
            },
            None => false,
        }
    }

    /// Emits a token without a literal payload spanning the current lexeme.
    fn add_token(&self, tokens: &mut Vec<Token>, token_type: TokenType)
        requires
            self.wf(),
            self.start <= self.current,
        ensures
            final(tokens)@.len() == old(tokens)@.len() + 1,
            tokens_view(final(tokens)@) == tokens_view(old(tokens)@).push(
                plain_token(
                    self.src(),
                    self.start as nat,
                    self.current as nat,
                    token_type,
                    self.line as nat,
                ),
            ),
            final(tokens)@.last().lexeme_start == self.start,
    {
        let lexeme = self.source.as_str().substring_char(self.start, self.current);
        let token = Token::new(token_type, lexeme, self.start, None, self.line);
        tokens.push(token);
        proof {
            lemma_tokens_view_push(old(tokens)@, token);
        }
    }

    /// Scans a short literal string: the opening delimiter has just been
    /// consumed, and the string runs to the matching delimiter, an escape
    /// consuming its following character verbatim.  An unescaped newline
    /// makes the string unterminated; an escaped one is consumed and still
    /// advances the line counter, while the token reports its opening line.
    fn scan_literal_string(&mut self, tokens: &mut Vec<Token>) -> (r: Result<(), ScanError>)
        requires
            old(self).wf(),
            old(self).start + 1 == old(self).current,
        ensures
            final(self).src() == old(self).src(),
            final(self).start == old(self).start,
            ({
                let s = old(self).src();
                let d = s[old(self).start as int];
                match short_string_close(s, old(self).current as nat, d) {
                    Some(j) => {
                        &&& r is Ok
                        &&& final(self).wf()
                        &&& old(self).start < final(self).current
                        &&& final(self).current == j + 1
                        &&& final(self).line == old(self).line + newline_count(
                            s,
                            old(self).current as nat,
                            j,
                        )
                        &&& final(tokens)@.len() == old(tokens)@.len() + 1
                        &&& tokens_view(final(tokens)@) == tokens_view(old(tokens)@).push(
                            TokenModel {
                                token_type: TokenType::LiteralString,
                                lexeme: s.subrange(old(self).start as int, j as int + 1),
                                lexeme_start: old(self).start as int,
                                literal: Some(s.subrange(old(self).start as int + 1, j as int)),
                                line: old(self).line as int,
                            },
                        )
                        &&& final(tokens)@.last().lexeme_start == old(self).start
                    },
                    None => {
                        &&& r == Err::<(), ScanError>(
                            ScanError::UnterminatedString { line: old(self).line },
                        )
                        &&& final(tokens)@ == old(tokens)@
                    },
                }
            }),
    {
        let ghost s = self.src();
        let ghost start0 = self.start as nat;
        let ghost cur0 = self.current as nat;
        // The token reports the line its opening delimiter sits on; an
        // unterminated string is reported against that line too.
        let opening_line = self.line;
        match self.char_at(self.current - 1) {
            None => {
                // The cursor always sits right after the delimiter, so the
                // delimiter character is always there to be read.
                Err(ScanError::UndeterminedStringDelimiter { line: self.line })
            },
            Some(delimiter) => {
                let n = self.source.as_str().unicode_len();
                loop
                    invariant
                        s == old(self).src(),
                        cur0 == old(self).current as nat,
                        old(self).start + 1 == old(self).current,
                        opening_line == old(self).line,
                        self.src() == s,
                        self.start == old(self).start,
                        n == s.len(),
                        s.len() < usize::MAX,
                        1 <= self.line,
                        self.line <= self.current + 1,
                        old(self).current <= self.current <= s.len() + 1,
                        delimiter == s[old(self).start as int],
                        short_string_close(s, self.current as nat, delimiter)
                            == short_string_close(s, cur0, delimiter),
                        self.current <= s.len() ==> self.line == old(self).line + newline_count(
                            s,
                            cur0,
                            self.current as nat,
                        ),
                    ensures
                        self.src() == s,
                        self.start == old(self).start,
                        self.current < s.len(),
                        self.line == old(self).line + newline_count(s, cur0, self.current as nat),
                        short_string_close(s, cur0, delimiter) == Some(self.current as nat),
                    decreases s.len() + 1 - self.current,
                {
                    if self.current >= n {
                        return Err(ScanError::UnterminatedString { line: opening_line });
                    }
                    let c = self.source.as_str().get_char(self.current);
                    if c == delimiter {
                        break ;
                    }
                    if c == '\n' {
                        return Err(ScanError::UnterminatedString { line: opening_line });
                    }
                    if c == '\\' {
                        // The escaped character is consumed verbatim; an
                        // escaped newline still advances the line counter.
                        if self.current + 1 < n {
                            proof {
                                lemma_newline_count_snoc(s, cur0, self.current as nat);
                                lemma_newline_count_snoc(s, cur0, self.current as nat + 1);
                            }
                            if self.source.as_str().get_char(self.current + 1) == '\n' {
                                self.line = self.line + 1;
                            }
                            self.current = self.current + 2;
                        } else {
                            // The escape runs past the end of input; the
                            // next iteration reports the unterminated
                            // string.
                            self.current = self.current + 2;
                        }
                    } else {
                        proof {
                            lemma_newline_count_snoc(s, cur0, self.current as nat);
                        }
                        self.current = self.current + 1;
                    }
                }
                let ghost j = self.current as nat;
                self.current = self.current + 1;
                let lexeme = self.source.as_str().substring_char(self.start, self.current);
                let literal = self.source.as_str().substring_char(
                    self.start + 1,
                    self.current - 1,
                );
                let token = Token::new(
                    TokenType::LiteralString,
                    lexeme,
                    self.start,
                    Some(literal),
                    opening_line,
                );
                tokens.push(token);
                proof {
                    lemma_tokens_view_push(old(tokens)@, token);
                }
                Ok(())
            },
        }
    }

    /// Scans a long-bracket literal string: `[[` has just been consumed, and
    /// the string runs, across lines, to the first `]]`.
    fn scan_multiline_literal_string(&mut self, tokens: &mut Vec<Token>) -> (r: Result<
        (),
        ScanError,
    >)
        requires
            old(self).wf(),
            old(self).start + 2 == old(self).current,
        ensures
            final(self).src() == old(self).src(),
            final(self).start == old(self).start,
            ({
                let s = old(self).src();
                match long_close(s, old(self).current as nat) {
                    Some(j) => {
                        &&& r is Ok
                        &&& final(self).wf()
                        &&& old(self).start < final(self).current
                        &&& final(self).current == j + 2
                        &&& final(self).line == old(self).line + newline_count(
                            s,
                            old(self).current as nat,
                            j,
                        )
                        &&& final(tokens)@.len() == old(tokens)@.len() + 1
                        &&& tokens_view(final(tokens)@) == tokens_view(old(tokens)@).push(
                            TokenModel {
                                token_type: TokenType::LiteralString,
                                lexeme: s.subrange(old(self).start as int, j as int + 2),
                                lexeme_start: old(self).start as int,
                                literal: Some(s.subrange(old(self).start as int + 2, j as int)),
                                line: final(self).line as int,
                            },
                        )
                        &&& final(tokens)@.last().lexeme_start == old(self).start
                    },
                    None => {
                        &&& r == Err::<(), ScanError>(
                            ScanError::UnterminatedLongString { line: final(self).line },
                        )
                        &&& final(self).line == old(self).line + newline_count(
                            s,
                            old(self).current as nat,
                            s.len(),
                        )
                        &&& final(tokens)@ == old(tokens)@
                    },
                }
            }),
    {
        let ghost s = self.src();
        let ghost cur0 = self.current as nat;
        let ghost line0 = self.line as nat;
        let n = self.source.as_str().unicode_len();
        loop
            invariant
                s == old(self).src(),
                cur0 == old(self).current as nat,
                line0 == old(self).line as nat,
                old(self).start + 2 == old(self).current,
                self.src() == s,
                self.start == old(self).start,
                n == s.len(),
                s.len() < usize::MAX,
                1 <= self.line,
                self.line <= self.current + 1,
                old(self).current <= self.current <= s.len(),
                self.line == line0 + newline_count(s, cur0, self.current as nat),
                long_close(s, self.current as nat) == long_close(s, cur0),
            ensures
                self.src() == s,
                self.start == old(self).start,
                1 <= self.line,
                self.line <= self.current + 1,
                old(self).current <= self.current,
                self.current + 2 <= s.len(),
                self.line == line0 + newline_count(s, cur0, self.current as nat),
                long_close(s, cur0) == Some(self.current as nat),
            decreases s.len() - self.current,
        {
            if self.current >= n {
                proof {
                    lemma_newline_count_le(s, cur0, s.len());
                }
                return Err(ScanError::UnterminatedLongString { line: self.line });
            }
            let c = self.source.as_str().get_char(self.current);
            if c == ']' && self.current + 1 < n {
                if self.source.as_str().get_char(self.current + 1) == ']' {
                    break ;
                }
            }
            proof {
                lemma_newline_count_snoc(s, cur0, self.current as nat);
            }
            if c == '\n' {
                self.line = self.line + 1;
            }
            self.current = self.current + 1;
        }
        let ghost j = self.current as nat;
        self.current = self.current + 2;
        let lexeme = self.source.as_str().substring_char(self.start, self.current);
        let literal = self.source.as_str().substring_char(self.start + 2, self.current - 2);
        let token = Token::new(
            TokenType::LiteralString,
            lexeme,
            self.start,
            Some(literal),
            self.line,
        );
        tokens.push(token);
        proof {
            lemma_tokens_view_push(old(tokens)@, token);
        }
        Ok(())
    }

    /// Consumes a comment: `--` has just been consumed.  `[[` starts a block
    /// comment running, with line counting, to the matching `]]` (or the end
    /// of input); anything else is a line comment running to the end of the
    /// line.
    fn consume_comment(&mut self)
        requires
            old(self).wf(),
        ensures
            final(self).wf(),
            final(self).src() == old(self).src(),
            final(self).start == old(self).start,
            old(self).current <= final(self).current,
            ({
                let s = old(self).src();
                let cur0 = old(self).current as nat;
                if cur0 + 1 < s.len() && s[cur0 as int] == '[' && s[cur0 as int + 1] == '[' {
                    match long_close(s, cur0 + 2) {
                        Some(j) => final(self).current == j + 2 && final(self).line == old(
                            self,
                        ).line + newline_count(s, cur0 + 2, j),
                        None => final(self).current == s.len() && final(self).line == old(
                            self,
                        ).line + newline_count(s, cur0 + 2, s.len()),
                    }
                } else {
                    final(self).current == line_end(s, cur0) && final(self).line == old(self).line
                }
            }),
    {
        let ghost s = self.src();
        let ghost cur0 = self.current as nat;
        let n = self.source.as_str().unicode_len();
        let mut is_block = false;
        if self.current + 1 < n {
            if self.source.as_str().get_char(self.current) == '[' {
                if self.source.as_str().get_char(self.current + 1) == '[' {
                    is_block = true;
                }
            }
        }
        if is_block {
            self.current = self.current + 2;
            let ghost body0 = self.current as nat;
            let ghost line0 = self.line as nat;
            loop
                invariant
                    s == old(self).src(),
                    cur0 == old(self).current as nat,
                    body0 == cur0 + 2,
                    line0 == old(self).line as nat,
                    self.src() == s,
                    self.start == old(self).start,
                    n == s.len(),
                    s.len() < usize::MAX,
                    1 <= self.line,
                    self.line <= self.current + 1,
                    body0 <= self.current <= s.len(),
                    self.line == line0 + newline_count(s, body0, self.current as nat),
                    long_close(s, self.current as nat) == long_close(s, body0),
                ensures
                    self.src() == s,
                    self.start == old(self).start,
                    n == s.len(),
                    1 <= self.line,
                    self.line <= self.current + 1,
                    body0 <= self.current <= s.len(),
                    self.line == line0 + newline_count(s, body0, self.current as nat),
                    if self.current == s.len() {
                        long_close(s, body0) is None
                    } else {
                        long_close(s, body0) == Some(self.current as nat) && self.current + 2
                            <= s.len()
                    },
                decreases s.len() - self.current,
            {
                if self.current >= n {
                    break ;
                }
                let c = self.source.as_str().get_char(self.current);
                if c == ']' && self.current + 1 < n {
                    if self.source.as_str().get_char(self.current + 1) == ']' {
                        break ;
                    }
                }
                proof {
                    lemma_newline_count_snoc(s, body0, self.current as nat);
                }
                if c == '\n' {
                    self.line = self.line + 1;
                }
                self.current = self.current + 1;
            }
            if self.current < n {
                self.current = self.current + 2;
            }
        } else {
            loop
                invariant
                    s == old(self).src(),
                    cur0 == old(self).current as nat,
                    self.src() == s,
                    self.start == old(self).start,
                    self.line == old(self).line,
                    n == s.len(),
                    s.len() < usize::MAX,
                    1 <= self.line,
                    self.line <= self.current + 1,
                    cur0 <= self.current <= s.len(),
                    line_end(s, self.current as nat) == line_end(s, cur0),
                ensures
                    self.src() == s,
                    self.start == old(self).start,
                    self.line == old(self).line,
                    self.current == line_end(s, cur0),
                decreases s.len() - self.current,
            {
                if self.current >= n {
                    break ;
                }
                if self.source.as_str().get_char(self.current) == '\n' {
                    break ;
                }
                self.current = self.current + 1;
            }
        }
    }

    /// Scans a numeral: the first digit has just been consumed, and the
    /// numeral runs over consecutive digits with at most one fractional
    /// part.
    fn scan_numeral(&mut self, tokens: &mut Vec<Token>)
        requires
            old(self).wf(),
            old(self).start + 1 == old(self).current,
            is_numeric_char(old(self).src()[old(self).start as int]),
        ensures
            final(self).wf(),
            final(self).src() == old(self).src(),
            final(self).start == old(self).start,
            final(self).line == old(self).line,
            final(self).current == numeral_end(old(self).src(), old(self).start as nat),
            old(self).start < final(self).current,
            final(tokens)@.len() == old(tokens)@.len() + 1,
            ({
                let s = old(self).src();
                let j = numeral_end(s, old(self).start as nat);
                tokens_view(final(tokens)@) == tokens_view(old(tokens)@).push(
                    TokenModel {
                        token_type: TokenType::Numeral,
                        lexeme: s.subrange(old(self).start as int, j as int),
                        lexeme_start: old(self).start as int,
                        literal: Some(s.subrange(old(self).start as int, j as int)),
                        line: old(self).line as int,
                    },
                )
            }),
            final(tokens)@.last().lexeme_start == old(self).start,
    {
        let ghost s = self.src();
        let ghost start0 = self.start as nat;
        let n = self.source.as_str().unicode_len();
        loop
            invariant
                s == old(self).src(),
                start0 == old(self).start as nat,
                self.src() == s,
                self.start == old(self).start,
                self.line == old(self).line,
                n == s.len(),
                s.len() < usize::MAX,
                1 <= self.line,
                self.line <= self.current + 1,
                old(self).start < self.current <= s.len(),
                numeric_run_end(s, self.current as nat) == numeric_run_end(s, start0),
            ensures
                self.src() == s,
                self.start == old(self).start,
                self.line == old(self).line,
                old(self).start < self.current <= s.len(),
                self.current == numeric_run_end(s, start0),
            decreases s.len() - self.current,
        {
            if self.current >= n {
                break ;
            }
            if !self.is_numeric(self.source.as_str().get_char(self.current)) {
                break ;
            }
            self.current = self.current + 1;
        }
        let ghost j1 = self.current as nat;
        if self.current + 1 < n {
            let dot = self.source.as_str().get_char(self.current);
            let after = self.source.as_str().get_char(self.current + 1);
            if dot == '.' && self.is_numeric(after) {
                self.current = self.current + 1;
                loop
                    invariant
                        s == old(self).src(),
                        start0 == old(self).start as nat,
                        j1 == numeric_run_end(s, start0),
                        j1 + 1 < s.len(),
                        s[j1 as int] == '.',
                        is_numeric_char(s[j1 as int + 1]),
                        self.src() == s,
                        self.start == old(self).start,
                        self.line == old(self).line,
                        n == s.len(),
                        s.len() < usize::MAX,
                        1 <= self.line,
                        self.line <= self.current + 1,
                        old(self).start < self.current <= s.len(),
                        numeric_run_end(s, self.current as nat) == numeric_run_end(s, j1 + 1),
                    ensures
                        self.src() == s,
                        self.start == old(self).start,
                        self.line == old(self).line,
                        old(self).start < self.current <= s.len(),
                        self.current == numeric_run_end(s, j1 + 1),
                    decreases s.len() - self.current,
                {
                    if self.current >= n {
                        break ;
                    }
                    if !self.is_numeric(self.source.as_str().get_char(self.current)) {
                        break ;
                    }
                    self.current = self.current + 1;
                }
            }
        }
        let lexeme = self.source.as_str().substring_char(self.start, self.current);
        let literal = self.source.as_str().substring_char(self.start, self.current);
        let token = Token::new(TokenType::Numeral, lexeme, self.start, Some(literal), self.line);
        tokens.push(token);
        proof {
            lemma_tokens_view_push(old(tokens)@, token);
        }
    }

    /// Scans an identifier or reserved word: the first character has just
    /// been consumed.  An `if` scanned right after an emitted `else` merges
    /// with it into a single `Elseif` token spanning both words.
    fn scan_identifier(&mut self, tokens: &mut Vec<Token>)
        requires
            old(self).wf(),
            old(self).start + 1 == old(self).current,
            is_alpha_char(old(self).src()[old(self).start as int]),
            old(tokens)@.len() > 0 ==> old(tokens)@.last().lexeme_start <= old(self).start,
        ensures
            final(self).wf(),
            final(self).src() == old(self).src(),
            final(self).start == old(self).start,
            final(self).line == old(self).line,
            final(self).current == alphanumeric_run_end(old(self).src(), old(self).start as nat),
            old(self).start < final(self).current,
            ({
                let s = old(self).src();
                let j = alphanumeric_run_end(s, old(self).start as nat);
                let kind = keyword_kind(s.subrange(old(self).start as int, j as int));
                let acc = tokens_view(old(tokens)@);
                if kind == TokenType::If && acc.len() > 0 && acc.last().token_type
                    == TokenType::Else {
                    tokens_view(final(tokens)@) == acc.update(
                        acc.len() - 1,
                        TokenModel {
                            token_type: TokenType::Elseif,
                            lexeme: s.subrange(acc.last().lexeme_start, j as int),
                            lexeme_start: acc.last().lexeme_start,
                            literal: None,
                            line: old(self).line as int,
                        },
                    )
                } else {
                    tokens_view(final(tokens)@) == acc.push(
                        plain_token(s, old(self).start as nat, j, kind, old(self).line as nat),
                    )
                }
            }),
            final(tokens)@.len() > 0,
            final(tokens)@.last().lexeme_start <= old(self).start,
    {
        let ghost s = self.src();
        let ghost start0 = self.start as nat;
        let n = self.source.as_str().unicode_len();
        loop
            invariant
                s == old(self).src(),
                start0 == old(self).start as nat,
                self.src() == s,
                self.start == old(self).start,
                self.line == old(self).line,
                n == s.len(),
                s.len() < usize::MAX,
                1 <= self.line,
                self.line <= self.current + 1,
                old(self).start < self.current <= s.len(),
                alphanumeric_run_end(s, self.current as nat) == alphanumeric_run_end(s, start0),
            ensures
                self.src() == s,
                self.start == old(self).start,
                self.line == old(self).line,
                old(self).start < self.current <= s.len(),
                self.current == alphanumeric_run_end(s, start0),
            decreases s.len() - self.current,
        {
            if self.current >= n {
                break ;
            }
            if !self.is_alphanumeric(self.source.as_str().get_char(self.current)) {
                break ;
            }
            self.current = self.current + 1;
        }
        let kind = {
            let lexeme = self.source.as_str().substring_char(self.start, self.current);
            keyword_lookup(lexeme)
        };
        if kind == TokenType::If && tokens.len() > 0 {
            let prev_type = tokens[tokens.len() - 1].token_type;
            if prev_type == TokenType::Else {
                let prev_start = tokens[tokens.len() - 1].lexeme_start;
                let merged_lexeme = self.source.as_str().substring_char(
                    prev_start,
                    self.current,
                );
                let merged = Token::new(
                    TokenType::Elseif,
                    merged_lexeme,
                    prev_start,
                    None,
                    self.line,
                );
                tokens.pop();
                tokens.push(merged);
                proof {
                    lemma_tokens_view_replace_last(old(tokens)@, merged);
                }
                return ;
            }
        }
        self.add_token(tokens, kind);
    }

    /// Scans the whole source left to right and returns its token sequence,
    /// always ending with an end-of-stream token whose offset is the length
    /// of the source, or the first lexical error: exactly what
    /// [`spec_scan`] assigns to the source text.
    #[verifier::rlimit(60)]
    pub fn scan_tokens(&mut self) -> (r: Result<Vec<Token>, ScanError>)
        requires
            old(self).fresh(),
        ensures
            final(self).src() == old(self).src(),
            scan_result_view(r) == spec_scan(old(self).src()),
    {
        let ghost s = self.src();
        let mut tokens: Vec<Token> = Vec::new();
        let n = self.source.as_str().unicode_len();
        proof {
            assert(tokens_view(tokens@) =~= Seq::<TokenModel>::empty());
        }
        loop
            invariant
                s == old(self).src(),
                self.src() == s,
                n == s.len(),
                self.wf(),
                tokens@.len() > 0 ==> tokens@.last().lexeme_start <= self.current,
                spec_scan_from(s, self.current as nat, self.line as nat, tokens_view(tokens@))
                    == spec_scan(s),
            ensures
                self.src() == s,
                self.wf(),
                self.current >= s.len(),
                spec_scan_from(s, self.current as nat, self.line as nat, tokens_view(tokens@))
                    == spec_scan(s),
            decreases s.len() - self.current,
        {
            if self.is_eof() {
                break ;
            }
            self.start = self.current;
            let c = self.source.as_str().get_char(self.current);
            self.current = self.current + 1;
            match c {
                '.' => {
                    if self.consume_matching('.') {
                        if self.consume_matching('.') {
                            self.add_token(&mut tokens, TokenType::Spread);
                        } else {
                            self.add_token(&mut tokens, TokenType::DotDot);
                        }
                    } else {
                        self.add_token(&mut tokens, TokenType::Dot);
                    }
                },
                ',' => self.add_token(&mut tokens, TokenType::Comma),
                ':' => self.add_token(&mut tokens, TokenType::Colon),
                ';' => self.add_token(&mut tokens, TokenType::Semicolon),
                '=' => {
                    if self.consume_matching('=') {
                        self.add_token(&mut tokens, TokenType::EqualEqual);
                    } else {
                        self.add_token(&mut tokens, TokenType::Equal);
                    }
                },
                '<' => {
                    if self.consume_matching('=') {
                        self.add_token(&mut tokens, TokenType::LessEqual);
                    } else if self.consume_matching('<') {
                        self.add_token(&mut tokens, TokenType::LessLess);
                    } else {
                        self.add_token(&mut tokens, TokenType::Less);
                    }
                },
                '>' => {
                    if self.consume_matching('=') {
                        self.add_token(&mut tokens, TokenType::GreaterEqual);
                    } else if self.consume_matching('>') {
                        self.add_token(&mut tokens, TokenType::GreaterGreater);
                    } else {
                        self.add_token(&mut tokens, TokenType::Greater);
                    }
                },
                '+' => self.add_token(&mut tokens, TokenType::Plus),
                '-' => {
                    if self.consume_matching('-') {
                        self.consume_comment();
                    } else {
                        self.add_token(&mut tokens, TokenType::Minus);
                    }
                },
                '*' => self.add_token(&mut tokens, TokenType::Star),
                '/' => {
                    if self.consume_matching('/') {
                        self.add_token(&mut tokens, TokenType::SlashSlash);
                    } else {
                        self.add_token(&mut tokens, TokenType::Slash);
                    }
                },
                '^' => self.add_token(&mut tokens, TokenType::Caret),
                '%' => self.add_token(&mut tokens, TokenType::Percent),
                '&' => self.add_token(&mut tokens, TokenType::Ampersand),
                '~' => {
                    if self.consume_matching('=') {
                        self.add_token(&mut tokens, TokenType::TildeEqual);
                    } else {
                        self.add_token(&mut tokens, TokenType::Tilde);
                    }
                },
                '|' => self.add_token(&mut tokens, TokenType::Pipe),
                '#' => self.add_token(&mut tokens, TokenType::Hash),
                '[' => {
                    if self.consume_matching('[') {
                        match self.scan_multiline_literal_string(&mut tokens) {
                            Ok(()) => {},
                            Err(error) => {
                                return Err(error);
                            },
                        }
                    } else {
                        self.add_token(&mut tokens, TokenType::LeftBracket);
                    }
                },
                ']' => self.add_token(&mut tokens, TokenType::RightBracket),
                '(' => self.add_token(&mut tokens, TokenType::LeftParen),
                ')' => self.add_token(&mut tokens, TokenType::RightParen),
                '{' => self.add_token(&mut tokens, TokenType::LeftBrace),
                '}' => self.add_token(&mut tokens, TokenType::RightBrace),
                '\'' | '"' => {
                    match self.scan_literal_string(&mut tokens) {
                        Ok(()) => {},
                        Err(error) => {
                            return Err(error);
                        },
                    }
                },
                ' ' | '\r' | '\t' => {
                    // Whitespace is discarded without token emission.
                },
                '\n' => {
                    self.line = self.line + 1;
                },
                _ => {
                    if self.is_numeric(c) {
                        self.scan_numeral(&mut tokens);
                    } else if self.is_alpha(c) {
                        self.scan_identifier(&mut tokens);
                    } else {
                        return Err(ScanError::UnknownCharacter { character: c, line: self.line });
                    }
                },
            }
        }
        let ghost scanned = tokens@;
        let token = Token::new(TokenType::Eof, "", self.current, None, self.line);
        tokens.push(token);
        proof {
            reveal_strlit("");
            assert(""@ =~= Seq::<char>::empty());
            lemma_tokens_view_push(scanned, token);
        }
        Ok(tokens)
    }
}

/// The view of a scan outcome: the views of the tokens on success, the error
/// itself on failure.
pub open spec fn scan_result_view(r: Result<Vec<Token>, ScanError>) -> Result<
    Seq<TokenModel>,
    ScanError,
> {
    match r {
        Ok(tokens) => Ok(tokens_view(tokens@)),
        Err(e) => Err(e),
    }
}

/// Scanning carries no hidden state between runs: what a fresh scanner
/// returns is a function of its source text alone, so scanning the same
/// source twice yields identical token sequences.
pub proof fn lemma_scan_deterministic(a: Scanner, b: Scanner)
    requires
        a.src() == b.src(),
    ensures
        spec_scan(a.src()) == spec_scan(b.src()),
{
}

} // verus!
