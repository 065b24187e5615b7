//! The lexical grammar, as functions on a sequence of characters.
//!
//! A [`Cursor`] says how far the input has been read and which line and
//! column the lexer counts there. [`lex`] gives the next token from a cursor
//! and the cursor behind it; [`tokens`] gives everything that is left.

use vstd::prelude::*;
use crate::diagnostic::LexErrorKind;
use crate::diagnostic::LexErrorView;
use crate::diagnostic::SpanView;
use crate::text::is_alphanumeric_char;
use crate::token::TokenKindView;
use crate::token::TokenView;

verus! {

/// A place in the input: the number of characters read, and the line and
/// column that the lexer counts there.
pub struct Cursor {
    pub position: int,
    pub line: int,
    pub column: int,
}

/// What the lexer hands out for one request: a token, or an error.
pub type Lexed = Result<TokenView, LexErrorView>;

/// One step of the lexer: what it produced, and where it stands afterwards.
pub struct Step {
    pub item: Lexed,
    pub next: Cursor,
}

impl Cursor {
    /// The cursor before anything is read: line 1, column 1.
    pub open spec fn start() -> Cursor {
        Cursor { position: 0, line: 1, column: 1 }
    }

    /// A cursor that lies within `input` and whose counters cannot have
    /// grown faster than the position.
    pub open spec fn within(self, input: Seq<char>) -> bool {
        &&& 0 <= self.position <= input.len()
        &&& 1 <= self.line <= self.position + 1
        &&& 1 <= self.column <= self.position + 1
    }
}

pub open spec fn is_digit(c: char) -> bool {
    '0' <= c && c <= '9'
}

/// A character that may begin an identifier or keyword.
pub open spec fn is_word_start(c: char) -> bool {
    ('a' <= c && c <= 'z') || ('A' <= c && c <= 'Z') || c == '_'
}

/// A character that may continue an identifier or keyword.
pub open spec fn is_word_part(c: char) -> bool {
    is_alphanumeric_char(c) || c == '_'
}

/// The end of the longest run of digits that begins at `start`.
pub open spec fn digits_end(input: Seq<char>, start: int) -> int
    decreases input.len() - start,
{
    if 0 <= start < input.len() && is_digit(input[start]) {
        digits_end(input, start + 1)
    } else {
        start
    }
}

/// The end of the longest run of word characters that begins at `start`.
pub open spec fn word_end(input: Seq<char>, start: int) -> int
    decreases input.len() - start,
{
    if 0 <= start < input.len() && is_word_part(input[start]) {
        word_end(input, start + 1)
    } else {
        start
    }
}

/// The end of the longest run of spaces that begins at `start`.
pub open spec fn spaces_end(input: Seq<char>, start: int) -> int
    decreases input.len() - start,
{
    if 0 <= start < input.len() && input[start] == ' ' {
        spaces_end(input, start + 1)
    } else {
        start
    }
}

/// Where a line comment that is being read at `start` ends: just behind the
/// next line feed, or at the end of the input.
pub open spec fn comment_end(input: Seq<char>, start: int) -> int
    decreases input.len() - start,
{
    if 0 <= start < input.len() {
        if input[start] == '\n' {
            start + 1
        } else {
            comment_end(input, start + 1)
        }
    } else {
        start
    }
}

pub proof fn lemma_digits_end(input: Seq<char>, start: int)
    requires
        0 <= start <= input.len(),
    ensures
        start <= digits_end(input, start) <= input.len(),
        forall|i: int| start <= i < digits_end(input, start) ==> is_digit(input[i]),
        digits_end(input, start) < input.len() ==> !is_digit(input[digits_end(input, start)]),
    decreases input.len() - start,
{
    if start < input.len() && is_digit(input[start]) {
        lemma_digits_end(input, start + 1);
    }
}

pub proof fn lemma_word_end(input: Seq<char>, start: int)
    requires
        0 <= start <= input.len(),
    ensures
        start <= word_end(input, start) <= input.len(),
        forall|i: int| start <= i < word_end(input, start) ==> is_word_part(input[i]),
        word_end(input, start) < input.len() ==> !is_word_part(input[word_end(input, start)]),
    decreases input.len() - start,
{
    if start < input.len() && is_word_part(input[start]) {
        lemma_word_end(input, start + 1);
    }
}

pub proof fn lemma_spaces_end(input: Seq<char>, start: int)
    requires
        0 <= start <= input.len(),
    ensures
        start <= spaces_end(input, start) <= input.len(),
        forall|i: int| start <= i < spaces_end(input, start) ==> input[i] == ' ',
        spaces_end(input, start) < input.len() ==> input[spaces_end(input, start)] != ' ',
    decreases input.len() - start,
{
    if start < input.len() && input[start] == ' ' {
        lemma_spaces_end(input, start + 1);
    }
}

pub proof fn lemma_comment_end(input: Seq<char>, start: int)
    requires
        0 <= start <= input.len(),
    ensures
        start <= comment_end(input, start) <= input.len(),
        start < input.len() ==> start < comment_end(input, start),
    decreases input.len() - start,
{
    if start < input.len() && input[start] != '\n' {
        lemma_comment_end(input, start + 1);
    }
}

/// Skips what yields no token: spaces, each of which counts as a column, and
/// line comments. A comment runs from `//` through the next line feed; it
/// counts as one line and leaves the column at 1.
pub open spec fn skip_blank(input: Seq<char>, cur: Cursor) -> Cursor
    decreases input.len() - cur.position,
{
    let p = cur.position;
    if 0 <= p < input.len() && input[p] == ' ' {
        skip_blank(input, Cursor { position: p + 1, line: cur.line, column: cur.column + 1 })
    } else if 0 <= p && p + 1 < input.len() && input[p] == '/' && input[p + 1] == '/' {
        proof {
            lemma_comment_end(input, p + 1);
        }
        skip_blank(
            input,
            Cursor { position: comment_end(input, p + 1), line: cur.line + 1, column: 1 },
        )
    } else {
        cur
    }
}

/// The kind of a token that is one character and needs no lookahead.
pub open spec fn punctuation(c: char) -> Option<TokenKindView> {
    if c == '(' {
        Some(TokenKindView::LeftParen)
    } else if c == ')' {
        Some(TokenKindView::RightParen)
    } else if c == '{' {
        Some(TokenKindView::LeftBrace)
    } else if c == '}' {
        Some(TokenKindView::RightBrace)
    } else if c == '[' {
        Some(TokenKindView::LeftBracket)
    } else if c == ']' {
        Some(TokenKindView::RightBracket)
    } else if c == ',' {
        Some(TokenKindView::Comma)
    } else if c == '.' {
        Some(TokenKindView::Dot)
    } else if c == '-' {
        Some(TokenKindView::Minus)
    } else if c == '+' {
        Some(TokenKindView::Plus)
    } else if c == ';' {
        Some(TokenKindView::Semicolon)
    } else if c == '*' {
        Some(TokenKindView::Star)
    } else if c == '/' {
        Some(TokenKindView::Slash)
    } else {
        None
    }
}

/// A character that begins a comparison or an assignment.
pub open spec fn is_operator_start(c: char) -> bool {
    c == '=' || c == '!' || c == '<' || c == '>'
}

/// The kind of the operator that begins with `c`, alone or followed by `=`.
pub open spec fn operator(c: char, doubled: bool) -> TokenKindView {
    if c == '=' {
        if doubled {
            TokenKindView::EqualEqual
        } else {
            TokenKindView::Equal
        }
    } else if c == '!' {
        if doubled {
            TokenKindView::BangEqual
        } else {
            TokenKindView::Bang
        }
    } else if c == '<' {
        if doubled {
            TokenKindView::LessEqual
        } else {
            TokenKindView::Less
        }
    } else {
        if doubled {
            TokenKindView::GreaterEqual
        } else {
            TokenKindView::Greater
        }
    }
}

/// The keyword that `word` spells, if it spells one. Keywords are matched
/// letter for letter; the keyword that begins a function definition is
/// spelled `func`.
pub open spec fn keyword(word: Seq<char>) -> Option<TokenKindView> {
    if word == "and"@ {
        Some(TokenKindView::And)
    } else if word == "class"@ {
        Some(TokenKindView::Class)
    } else if word == "else"@ {
        Some(TokenKindView::Else)
    } else if word == "false"@ {
        Some(TokenKindView::False)
    } else if word == "func"@ {
        Some(TokenKindView::Fun)
    } else if word == "for"@ {
        Some(TokenKindView::For)
    } else if word == "if"@ {
        Some(TokenKindView::If)
    } else if word == "nil"@ {
        Some(TokenKindView::Nil)
    } else if word == "or"@ {
        Some(TokenKindView::Or)
    } else if word == "return"@ {
        Some(TokenKindView::Return)
    } else if word == "super"@ {
        Some(TokenKindView::Super)
    } else if word == "this"@ {
        Some(TokenKindView::This)
    } else if word == "true"@ {
        Some(TokenKindView::True)
    } else if word == "let"@ {
        Some(TokenKindView::Let)
    } else if word == "while"@ {
        Some(TokenKindView::While)
    } else {
        None
    }
}

/// A token of `kind` that ends at `end`, placed at `line` and `column`.
pub open spec fn token_at(kind: TokenKindView, line: int, column: int, end: int) -> Lexed {
    Ok(TokenView { kind, row: line, column, index: end + 1 })
}

/// A line break at `cur`: a line feed, or a carriage return with the line
/// feed that follows it, if one does. The token is placed at the start of
/// the new line.
pub open spec fn scan_newline(input: Seq<char>, cur: Cursor) -> Step {
    let p = cur.position;
    let end = if input[p] == '\r' && p + 1 < input.len() && input[p + 1] == '\n' {
        p + 2
    } else {
        p + 1
    };
    Step {
        item: token_at(TokenKindView::NewLine, cur.line + 1, 1, end),
        next: Cursor { position: end, line: cur.line + 1, column: 2 },
    }
}

/// An operator at `cur`. Spaces behind its first character are read over;
/// if `=` follows them, it belongs to the operator.
pub open spec fn scan_operator(input: Seq<char>, cur: Cursor) -> Step {
    let p = cur.position;
    let s = spaces_end(input, p + 1);
    let doubled = s < input.len() && input[s] == '=';
    let end = if doubled {
        s + 1
    } else {
        s
    };
    Step {
        item: token_at(operator(input[p], doubled), cur.line, cur.column, end),
        next: Cursor { position: end, line: cur.line, column: cur.column + 1 },
    }
}

/// Reads the inside of a string literal from `at` on and stops before the
/// closing quote or at the end of the input. Every character counts as a
/// column; a line feed begins a new line at column 1.
pub open spec fn string_end(input: Seq<char>, at: Cursor) -> Cursor
    decreases input.len() - at.position,
{
    let q = at.position;
    if 0 <= q < input.len() && input[q] != '"' {
        if input[q] == '\n' {
            string_end(input, Cursor { position: q + 1, line: at.line + 1, column: 1 })
        } else {
            string_end(input, Cursor { position: q + 1, line: at.line, column: at.column + 1 })
        }
    } else {
        at
    }
}

/// A string literal whose opening quote is at `cur`. If the input ends
/// before the closing quote, the error's span runs from the opening quote to
/// the end of the input.
pub open spec fn scan_string(input: Seq<char>, cur: Cursor) -> Step {
    let p = cur.position;
    let at = string_end(input, Cursor { position: p + 1, line: cur.line, column: cur.column });
    let q = at.position;
    if q < input.len() {
        Step {
            item: token_at(
                TokenKindView::String(input.subrange(p + 1, q)),
                at.line,
                at.column + 1,
                q + 1,
            ),
            next: Cursor { position: q + 1, line: at.line, column: at.column + 1 },
        }
    } else {
        Step {
            item: Err(
                LexErrorView {
                    kind: LexErrorKind::UnterminatedString,
                    span: SpanView { offset: p, length: input.len() - p },
                    line: at.line,
                    column: at.column,
                    character: '"',
                },
            ),
            next: Cursor { position: q, line: at.line, column: at.column + 1 },
        }
    }
}

/// Where the number that begins at `start` ends: behind its digits, and
/// behind a decimal point with the digits after it if at least one digit
/// follows the point. A point that no digit follows is not part of the
/// number.
pub open spec fn number_end(input: Seq<char>, start: int) -> int {
    let whole = digits_end(input, start + 1);
    if whole + 1 < input.len() && input[whole] == '.' && is_digit(input[whole + 1]) {
        digits_end(input, whole + 2)
    } else {
        whole
    }
}

/// A number at `cur`. The token is placed at the column of its last
/// character.
pub open spec fn scan_number(input: Seq<char>, cur: Cursor) -> Step {
    let p = cur.position;
    let end = number_end(input, p);
    Step {
        item: token_at(
            TokenKindView::Number(input.subrange(p, end)),
            cur.line,
            cur.column + (end - p - 1),
            end,
        ),
        next: Cursor { position: end, line: cur.line, column: cur.column + (end - p) },
    }
}

/// An identifier or keyword at `cur`. The token is placed at the column of
/// its last character; behind a keyword the column stays there.
pub open spec fn scan_word(input: Seq<char>, cur: Cursor) -> Step {
    let p = cur.position;
    let end = word_end(input, p + 1);
    let word = input.subrange(p, end);
    let column = cur.column + (end - p - 1);
    match keyword(word) {
        Some(kind) => Step {
            item: token_at(kind, cur.line, column, end),
            next: Cursor { position: end, line: cur.line, column },
        },
        None => Step {
            item: token_at(TokenKindView::Identifier(word), cur.line, column, end),
            next: Cursor { position: end, line: cur.line, column: column + 1 },
        },
    }
}

/// The token that begins at `cur`, where `cur` stands on a character that is
/// neither a space nor the start of a comment.
pub open spec fn scan_token(input: Seq<char>, cur: Cursor) -> Step {
    let p = cur.position;
    let c = input[p];
    if punctuation(c) is Some {
        Step {
            item: token_at(punctuation(c)->0, cur.line, cur.column, p + 1),
            next: Cursor { position: p + 1, line: cur.line, column: cur.column + 1 },
        }
    } else if c == '\n' || c == '\r' {
        scan_newline(input, cur)
    } else if is_operator_start(c) {
        scan_operator(input, cur)
    } else if c == '"' {
        scan_string(input, cur)
    } else if is_digit(c) {
        scan_number(input, cur)
    } else if is_word_start(c) {
        scan_word(input, cur)
    } else {
        Step {
            item: Err(
                LexErrorView {
                    kind: LexErrorKind::UnexpectedCharacter,
                    span: SpanView { offset: p, length: 1 },
                    line: cur.line,
                    column: cur.column,
                    character: c,
                },
            ),
            next: Cursor { position: p + 1, line: cur.line, column: cur.column + 1 },
        }
    }
}

/// The next step of the lexer from `cur`: `None` when nothing but spaces
/// and comments is left.
pub open spec fn lex(input: Seq<char>, cur: Cursor) -> Option<Step> {
    let at = skip_blank(input, cur);
    if 0 <= at.position < input.len() {
        Some(scan_token(input, at))
    } else {
        None
    }
}

/// Everything the lexer hands out from `cur` to the end of the input, in
/// order.
pub open spec fn tokens(input: Seq<char>, cur: Cursor) -> Seq<Lexed>
    decreases input.len() - cur.position,
{
    match lex(input, cur) {
        Some(step) => if cur.position < step.next.position <= input.len() {
            seq![step.item] + tokens(input, step.next)
        } else {
            seq![step.item]
        },
        None => Seq::empty(),
    }
}

pub proof fn lemma_skip_blank(input: Seq<char>, cur: Cursor)
    requires
        cur.within(input),
    ensures
        skip_blank(input, cur).within(input),
        cur.position <= skip_blank(input, cur).position,
    decreases input.len() - cur.position,
{
    let p = cur.position;
    if p < input.len() && input[p] == ' ' {
        lemma_skip_blank(input, Cursor { position: p + 1, line: cur.line, column: cur.column + 1 });
    } else if p + 1 < input.len() && input[p] == '/' && input[p + 1] == '/' {
        lemma_comment_end(input, p + 1);
        lemma_skip_blank(
            input,
            Cursor { position: comment_end(input, p + 1), line: cur.line + 1, column: 1 },
        );
    }
}

pub proof fn lemma_string_end(input: Seq<char>, at: Cursor)
    requires
        0 <= at.position <= input.len(),
        1 <= at.line <= at.position,
        1 <= at.column <= at.position,
    ensures
        at.position <= string_end(input, at).position <= input.len(),
        1 <= string_end(input, at).line <= string_end(input, at).position,
        1 <= string_end(input, at).column <= string_end(input, at).position,
        string_end(input, at).position < input.len() ==> input[string_end(input, at).position]
            == '"',
        forall|i: int| at.position <= i < string_end(input, at).position ==> input[i] != '"',
    decreases input.len() - at.position,
{
    let q = at.position;
    if q < input.len() && input[q] != '"' {
        if input[q] == '\n' {
            lemma_string_end(input, Cursor { position: q + 1, line: at.line + 1, column: 1 });
        } else {
            lemma_string_end(
                input,
                Cursor { position: q + 1, line: at.line, column: at.column + 1 },
            );
        }
    }
}

/// Each step of the lexer reads at least one character and stays within the
/// input; when it yields nothing, the whole input has been read.
pub proof fn lemma_lex_advances(input: Seq<char>, cur: Cursor)
    requires
        cur.within(input),
    ensures
        match lex(input, cur) {
            Some(step) => cur.position < step.next.position && step.next.within(input),
            None => skip_blank(input, cur).position == input.len(),
        },
{
    lemma_skip_blank(input, cur);
    let at = skip_blank(input, cur);
    let p = at.position;
    if p < input.len() {
        lemma_spaces_end(input, p + 1);
        lemma_string_end(input, Cursor { position: p + 1, line: at.line, column: at.column });
        lemma_digits_end(input, p + 1);
        let whole = digits_end(input, p + 1);
        if whole + 1 < input.len() {
            lemma_digits_end(input, whole + 2);
        }
        lemma_word_end(input, p + 1);
    }
}

} // verus!
