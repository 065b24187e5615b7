//! The lexer: from source text to tokens, one token per request.

use vstd::prelude::*;
use crate::diagnostic::LexError;
use crate::diagnostic::LexErrorKind;
use crate::diagnostic::Span;
use crate::scan;
use crate::scan::Cursor;
use crate::scan::Lexed;
use crate::text::collect;
use crate::text::spells;
pub use crate::token::Token;
pub use crate::token::TokenKind;

verus! {

/// A lexer over a source text. It reads forward only; each call of
/// [`Lexer::next`] hands out one token or one error.
pub struct Lexer {
    input: Vec<char>,
    position: usize,
    current_line: usize,
    current_column: usize,
}

/// The mathematical model of a [`Lexer`]: the whole source and the place
/// that the lexer has reached in it.
pub struct LexerView {
    pub source: Seq<char>,
    pub cursor: Cursor,
}

impl View for Lexer {
    type V = LexerView;

    closed spec fn view(&self) -> LexerView {
        LexerView {
            source: self.input@,
            cursor: Cursor {
                position: self.position as int,
                line: self.current_line as int,
                column: self.current_column as int,
            },
        }
    }
}

/// The model of what [`Lexer::next`] hands out.
pub open spec fn lexed_view(item: Result<Token, LexError>) -> Lexed {
    match item {
        Ok(token) => Ok(token@),
        Err(error) => Err(error@),
    }
}

impl Lexer {
    /// The cursor lies within the input, and the input is short enough for
    /// every counter to fit.
    #[verifier::type_invariant]
    spec fn well_formed(&self) -> bool {
        &&& self.input@.len() < usize::MAX
        &&& self@.cursor.within(self.input@)
    }

    /// A lexer at the start of `input`. The input must be short enough for
    /// the place behind its last character to be counted.
    pub fn new(input: &str) -> (r: Lexer)
        requires
            input@.len() < usize::MAX,
        ensures
            r@.source == input@,
            r@.cursor == Cursor::start(),
            r@.cursor.within(r@.source),
    {
        broadcast use vstd::string::group_string_axioms;

        let mut chars: Vec<char> = Vec::new();
        for c in it: input.chars()
            invariant
                chars@ == it.history(),
                it.seq() == input@,
        {
            chars.push(c);
        }
        assert(chars@ =~= input@);
        Lexer { input: chars, position: 0, current_line: 1, current_column: 1 }
    }

    /// The end of the run of digits that begins at `start`.
    fn digits_end(&self, start: usize) -> (end: usize)
        requires
            start <= self@.source.len(),
        ensures
            end == scan::digits_end(self@.source, start as int),
            start <= end <= self@.source.len(),
    {
        let mut end = start;
        while end < self.input.len() && self.input[end] >= '0' && self.input[end] <= '9'
            invariant
                start <= end <= self.input@.len(),
                scan::digits_end(self.input@, end as int) == scan::digits_end(self.input@, start as int),
            decreases self.input@.len() - end,
        {
            end += 1;
        }
        end
    }

    /// The end of the run of word characters that begins at `start`.
    fn word_end(&self, start: usize) -> (end: usize)
        requires
            start <= self@.source.len(),
        ensures
            end == scan::word_end(self@.source, start as int),
            start <= end <= self@.source.len(),
    {
        let mut end = start;
        while end < self.input.len() && (self.input[end].is_alphanumeric() || self.input[end]
            == '_')
            invariant
                start <= end <= self.input@.len(),
                scan::word_end(self.input@, end as int) == scan::word_end(self.input@, start as int),
            decreases self.input@.len() - end,
        {
            end += 1;
        }
        end
    }

    /// The end of the run of spaces that begins at `start`.
    fn spaces_end(&self, start: usize) -> (end: usize)
        requires
            start <= self@.source.len(),
        ensures
            end == scan::spaces_end(self@.source, start as int),
            start <= end <= self@.source.len(),
    {
        let mut end = start;
        while end < self.input.len() && self.input[end] == ' '
            invariant
                start <= end <= self.input@.len(),
                scan::spaces_end(self.input@, end as int) == scan::spaces_end(self.input@, start as int),
            decreases self.input@.len() - end,
        {
            end += 1;
        }
        end
    }

    /// The end of the line comment that is being read at `start`.
    fn comment_end(&self, start: usize) -> (end: usize)
        requires
            start <= self@.source.len(),
        ensures
            end == scan::comment_end(self@.source, start as int),
            start <= end <= self@.source.len(),
            start < self@.source.len() ==> start < end,
    {
        let mut end = start;
        while end < self.input.len() && self.input[end] != '\n'
            invariant
                start <= end <= self.input@.len(),
                scan::comment_end(self.input@, end as int) == scan::comment_end(self.input@, start as int),
            decreases self.input@.len() - end,
        {
            end += 1;
        }
        if end < self.input.len() {
            end += 1;
        }
        end
    }
    /// Moves over spaces and line comments.
    fn skip_blank(&mut self)
        ensures
            final(self)@.source == old(self)@.source,
            final(self)@.cursor == scan::skip_blank(old(self)@.source, old(self)@.cursor),
    {
        proof {
            use_type_invariant(&*self);
        }
        loop
            invariant
                self.well_formed(),
                self@.source == old(self)@.source,
                scan::skip_blank(self@.source, self@.cursor) == scan::skip_blank(
                    old(self)@.source,
                    old(self)@.cursor,
                ),
            ensures
                self@.source == old(self)@.source,
                self@.cursor == scan::skip_blank(old(self)@.source, old(self)@.cursor),
            decreases self.input@.len() - self.position,
        {
            let p = self.position;
            if p < self.input.len() && self.input[p] == ' ' {
                self.position = p + 1;
                self.current_column = self.current_column + 1;
            } else if p + 1 < self.input.len() && self.input[p] == '/' && self.input[p + 1]
                == '/' {
                let end = self.comment_end(p + 1);
                self.position = end;
                self.current_line = self.current_line + 1;
                self.current_column = 1;
            } else {
                break ;
            }
        }
    }

    /// Reads a line break.
    fn scan_newline(&mut self) -> (token: Token)
        requires
            old(self)@.cursor.position < old(self)@.source.len(),
        ensures
            final(self)@.source == old(self)@.source,
            Ok::<crate::token::TokenView, crate::diagnostic::LexErrorView>(token@)
                == scan::scan_newline(old(self)@.source, old(self)@.cursor).item,
            final(self)@.cursor == scan::scan_newline(old(self)@.source, old(self)@.cursor).next,
    {
        proof {
            use_type_invariant(&*self);
        }
        let p = self.position;
        let end = if self.input[p] == '\r' && p + 1 < self.input.len() && self.input[p + 1]
            == '\n' {
            p + 2
        } else {
            p + 1
        };
        self.position = end;
        self.current_line = self.current_line + 1;
        self.current_column = 2;
        Token { kind: TokenKind::NewLine, row: self.current_line, column: 1, index: end + 1 }
    }

    /// Reads an operator, with the `=` that may follow it.
    fn scan_operator(&mut self) -> (token: Token)
        requires
            old(self)@.cursor.position < old(self)@.source.len(),
            scan::is_operator_start(old(self)@.source[old(self)@.cursor.position]),
        ensures
            final(self)@.source == old(self)@.source,
            Ok::<crate::token::TokenView, crate::diagnostic::LexErrorView>(token@)
                == scan::scan_operator(old(self)@.source, old(self)@.cursor).item,
            final(self)@.cursor == scan::scan_operator(old(self)@.source, old(self)@.cursor).next,
    {
        proof {
            use_type_invariant(&*self);
        }
        let p = self.position;
        let c = self.input[p];
        let s = self.spaces_end(p + 1);
        let doubled = s < self.input.len() && self.input[s] == '=';
        let end = if doubled {
            s + 1
        } else {
            s
        };
        let kind = if c == '=' {
            if doubled {
                TokenKind::EqualEqual
            } else {
                TokenKind::Equal
            }
        } else if c == '!' {
            if doubled {
                TokenKind::BangEqual
            } else {
                TokenKind::Bang
            }
        } else if c == '<' {
            if doubled {
                TokenKind::LessEqual
            } else {
                TokenKind::Less
            }
        } else {
            if doubled {
                TokenKind::GreaterEqual
            } else {
                TokenKind::Greater
            }
        };
        let token = Token {
            kind,
            row: self.current_line,
            column: self.current_column,
            index: end + 1,
        };
        self.position = end;
        self.current_column = self.current_column + 1;
        token
    }

    /// Reads a string literal from its opening quote on.
    fn scan_string(&mut self) -> (item: Result<Token, LexError>)
        requires
            old(self)@.cursor.position < old(self)@.source.len(),
        ensures
            final(self)@.source == old(self)@.source,
            lexed_view(item) == scan::scan_string(old(self)@.source, old(self)@.cursor).item,
            final(self)@.cursor == scan::scan_string(old(self)@.source, old(self)@.cursor).next,
    {
        proof {
            use_type_invariant(&*self);
        }
        let p = self.position;
        let mut q = p + 1;
        let mut line = self.current_line;
        let mut column = self.current_column;
        while q < self.input.len() && self.input[q] != '"'
            invariant
                self.input@.len() < usize::MAX,
                p < q <= self.input@.len(),
                1 <= line <= q,
                1 <= column <= q,
                scan::string_end(
                    self.input@,
                    Cursor { position: q as int, line: line as int, column: column as int },
                ) == scan::string_end(
                    self.input@,
                    Cursor {
                        position: p + 1,
                        line: old(self)@.cursor.line,
                        column: old(self)@.cursor.column,
                    },
                ),
            decreases self.input@.len() - q,
        {
            if self.input[q] == '\n' {
                line = line + 1;
                column = 1;
            } else {
                column = column + 1;
            }
            q = q + 1;
        }
        if q < self.input.len() {
            let text = collect(&self.input, p + 1, q);
            self.position = q + 1;
            self.current_line = line;
            self.current_column = column + 1;
            Ok(Token { kind: TokenKind::String(text), row: line, column: column + 1, index: q + 2 })
        } else {
            let length = self.input.len() - p;
            self.position = q;
            self.current_line = line;
            self.current_column = column + 1;
            Err(
                LexError {
                    kind: LexErrorKind::UnterminatedString,
                    span: Span { offset: p, length },
                    line,
                    column,
                    character: '"',
                },
            )
        }
    }

    /// Reads a number.
    fn scan_number(&mut self) -> (token: Token)
        requires
            old(self)@.cursor.position < old(self)@.source.len(),
        ensures
            final(self)@.source == old(self)@.source,
            Ok::<crate::token::TokenView, crate::diagnostic::LexErrorView>(token@)
                == scan::scan_number(old(self)@.source, old(self)@.cursor).item,
            final(self)@.cursor == scan::scan_number(old(self)@.source, old(self)@.cursor).next,
    {
        proof {
            use_type_invariant(&*self);
        }
        let p = self.position;
        let whole = self.digits_end(p + 1);
        let end = if whole + 1 < self.input.len() && self.input[whole] == '.' && self.input[whole
            + 1] >= '0' && self.input[whole + 1] <= '9' {
            self.digits_end(whole + 2)
        } else {
            whole
        };
        let text = collect(&self.input, p, end);
        let token = Token {
            kind: TokenKind::Number(text),
            row: self.current_line,
            column: self.current_column + (end - p - 1),
            index: end + 1,
        };
        self.position = end;
        self.current_column = self.current_column + (end - p);
        token
    }

    /// The keyword that the characters from `start` up to `end` spell.
    fn keyword(&self, start: usize, end: usize) -> (r: Option<TokenKind>)
        requires
            start <= end <= self@.source.len(),
        ensures
            match r {
                Some(kind) => scan::keyword(self@.source.subrange(start as int, end as int))
                    == Some(kind@),
                None => scan::keyword(self@.source.subrange(start as int, end as int)) is None,
            },
    {
        if spells(&self.input, start, end, "and") {
            Some(TokenKind::And)
        } else if spells(&self.input, start, end, "class") {
            Some(TokenKind::Class)
        } else if spells(&self.input, start, end, "else") {
            Some(TokenKind::Else)
        } else if spells(&self.input, start, end, "false") {
            Some(TokenKind::False)
        } else if spells(&self.input, start, end, "func") {
            Some(TokenKind::Fun)
        } else if spells(&self.input, start, end, "for") {
            Some(TokenKind::For)
        } else if spells(&self.input, start, end, "if") {
            Some(TokenKind::If)
        } else if spells(&self.input, start, end, "nil") {
            Some(TokenKind::Nil)
        } else if spells(&self.input, start, end, "or") {
            Some(TokenKind::Or)
        } else if spells(&self.input, start, end, "return") {
            Some(TokenKind::Return)
        } else if spells(&self.input, start, end, "super") {
            Some(TokenKind::Super)
        } else if spells(&self.input, start, end, "this") {
            Some(TokenKind::This)
        } else if spells(&self.input, start, end, "true") {
            Some(TokenKind::True)
        } else if spells(&self.input, start, end, "let") {
            Some(TokenKind::Let)
        } else if spells(&self.input, start, end, "while") {
            Some(TokenKind::While)
        } else {
            None
        }
    }

    /// Reads an identifier or a keyword.
    fn scan_word(&mut self) -> (token: Token)
        requires
            old(self)@.cursor.position < old(self)@.source.len(),
        ensures
            final(self)@.source == old(self)@.source,
            Ok::<crate::token::TokenView, crate::diagnostic::LexErrorView>(token@)
                == scan::scan_word(old(self)@.source, old(self)@.cursor).item,
            final(self)@.cursor == scan::scan_word(old(self)@.source, old(self)@.cursor).next,
    {
        proof {
            use_type_invariant(&*self);
        }
        let p = self.position;
        let end = self.word_end(p + 1);
        let column = self.current_column + (end - p - 1);
        match self.keyword(p, end) {
            Some(kind) => {
                let token = Token { kind, row: self.current_line, column, index: end + 1 };
                self.position = end;
                self.current_column = column;
                token
            },
            None => {
                let text = collect(&self.input, p, end);
                let token = Token {
                    kind: TokenKind::Identifier(text),
                    row: self.current_line,
                    column,
                    index: end + 1,
                };
                self.position = end;
                self.current_column = column + 1;
                token
            },
        }
    }

    /// The next token, or the error that stands in its place; `None` when
    /// nothing but spaces and comments is left.
    pub fn next(&mut self) -> (r: Option<Result<Token, LexError>>)
        ensures
            final(self)@.source == old(self)@.source,
            match scan::lex(old(self)@.source, old(self)@.cursor) {
                Some(step) => r matches Some(item) && lexed_view(item) == step.item
                    && final(self)@.cursor == step.next,
                None => r is None && final(self)@.cursor == scan::skip_blank(
                    old(self)@.source,
                    old(self)@.cursor,
                ),
            },
            r is Some ==> old(self)@.cursor.position < final(self)@.cursor.position,
            final(self)@.cursor.within(final(self)@.source),
    {
        proof {
            use_type_invariant(&*self);
            scan::lemma_lex_advances(self@.source, self@.cursor);
        }
        self.skip_blank();
        proof {
            use_type_invariant(&*self);
        }
        let p = self.position;
        if p >= self.input.len() {
            return None;
        }
        let c = self.input[p];
        let item = match punctuation(c) {
            Some(kind) => {
                let token = Token {
                    kind,
                    row: self.current_line,
                    column: self.current_column,
                    index: p + 2,
                };
                self.position = p + 1;
                self.current_column = self.current_column + 1;
                Ok(token)
            },
            None => {
                if c == '\n' || c == '\r' {
                    Ok(self.scan_newline())
                } else if c == '=' || c == '!' || c == '<' || c == '>' {
                    Ok(self.scan_operator())
                } else if c == '"' {
                    self.scan_string()
                } else if c >= '0' && c <= '9' {
                    Ok(self.scan_number())
                } else if (c >= 'a' && c <= 'z') || (c >= 'A' && c <= 'Z') || c == '_' {
                    Ok(self.scan_word())
                } else {
                    let error = LexError {
                        kind: LexErrorKind::UnexpectedCharacter,
                        span: Span { offset: p, length: 1 },
                        line: self.current_line,
                        column: self.current_column,
                        character: c,
                    };
                    self.position = p + 1;
                    self.current_column = self.current_column + 1;
                    Err(error)
                }
            },
        };
        proof {
            use_type_invariant(&*self);
        }
        Some(item)
    }
}

/// The kind of a token that is one character and needs no lookahead.
fn punctuation(c: char) -> (r: Option<TokenKind>)
    ensures
        match r {
            Some(kind) => scan::punctuation(c) == Some(kind@),
            None => scan::punctuation(c) is None,
        },
{
    if c == '(' {
        Some(TokenKind::LeftParen)
    } else if c == ')' {
        Some(TokenKind::RightParen)
    } else if c == '{' {
        Some(TokenKind::LeftBrace)
    } else if c == '}' {
        Some(TokenKind::RightBrace)
    } else if c == '[' {
        Some(TokenKind::LeftBracket)
    } else if c == ']' {
        Some(TokenKind::RightBracket)
    } else if c == ',' {
        Some(TokenKind::Comma)
    } else if c == '.' {
        Some(TokenKind::Dot)
    } else if c == '-' {
        Some(TokenKind::Minus)
    } else if c == '+' {
        Some(TokenKind::Plus)
    } else if c == ';' {
        Some(TokenKind::Semicolon)
    } else if c == '*' {
        Some(TokenKind::Star)
    } else if c == '/' {
        Some(TokenKind::Slash)
    } else {
        None
    }
}

} // verus!
