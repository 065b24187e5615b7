//! Tokens and their kinds.

use vstd::prelude::*;
use vstd::string::*;

verus! {

/// What a token is. The three literal-carrying kinds own their text.
#[derive(Debug, PartialEq, Eq)]
pub enum TokenKind {
    LeftParen,
    RightParen,
    LeftBrace,
    RightBrace,
    LeftBracket,
    RightBracket,
    Comma,
    Dot,
    Minus,
    Plus,
    Semicolon,
    Star,
    Slash,
    EOF,
    NewLine,
    String(String),
    Number(String),
    Identifier(String),
    Equal,
    Bang,
    BangEqual,
    EqualEqual,
    Greater,
    GreaterEqual,
    Less,
    LessEqual,
    Fun,
    Let,
    And,
    Class,
    If,
    Else,
    False,
    For,
    Nil,
    Or,
    Return,
    Super,
    This,
    True,
    While,
}

/// The mathematical model of a [`TokenKind`]: the same kinds, with the text
/// of a literal as a sequence of characters.
pub enum TokenKindView {
    LeftParen,
    RightParen,
    LeftBrace,
    RightBrace,
    LeftBracket,
    RightBracket,
    Comma,
    Dot,
    Minus,
    Plus,
    Semicolon,
    Star,
    Slash,
    EOF,
    NewLine,
    String(Seq<char>),
    Number(Seq<char>),
    Identifier(Seq<char>),
    Equal,
    Bang,
    BangEqual,
    EqualEqual,
    Greater,
    GreaterEqual,
    Less,
    LessEqual,
    Fun,
    Let,
    And,
    Class,
    If,
    Else,
    False,
    For,
    Nil,
    Or,
    Return,
    Super,
    This,
    True,
    While,
}

impl View for TokenKind {
    type V = TokenKindView;

    open spec fn view(&self) -> TokenKindView {
        match self {
            TokenKind::LeftParen => TokenKindView::LeftParen,
            TokenKind::RightParen => TokenKindView::RightParen,
            TokenKind::LeftBrace => TokenKindView::LeftBrace,
            TokenKind::RightBrace => TokenKindView::RightBrace,
            TokenKind::LeftBracket => TokenKindView::LeftBracket,
            TokenKind::RightBracket => TokenKindView::RightBracket,
            TokenKind::Comma => TokenKindView::Comma,
            TokenKind::Dot => TokenKindView::Dot,
            TokenKind::Minus => TokenKindView::Minus,
            TokenKind::Plus => TokenKindView::Plus,
            TokenKind::Semicolon => TokenKindView::Semicolon,
            TokenKind::Star => TokenKindView::Star,
            TokenKind::Slash => TokenKindView::Slash,
            TokenKind::EOF => TokenKindView::EOF,
            TokenKind::NewLine => TokenKindView::NewLine,
            TokenKind::String(s) => TokenKindView::String(s@),
            TokenKind::Number(s) => TokenKindView::Number(s@),
            TokenKind::Identifier(s) => TokenKindView::Identifier(s@),
            TokenKind::Equal => TokenKindView::Equal,
            TokenKind::Bang => TokenKindView::Bang,
            TokenKind::BangEqual => TokenKindView::BangEqual,
            TokenKind::EqualEqual => TokenKindView::EqualEqual,
            TokenKind::Greater => TokenKindView::Greater,
            TokenKind::GreaterEqual => TokenKindView::GreaterEqual,
            TokenKind::Less => TokenKindView::Less,
            TokenKind::LessEqual => TokenKindView::LessEqual,
            TokenKind::Fun => TokenKindView::Fun,
            TokenKind::Let => TokenKindView::Let,
            TokenKind::And => TokenKindView::And,
            TokenKind::Class => TokenKindView::Class,
            TokenKind::If => TokenKindView::If,
            TokenKind::Else => TokenKindView::Else,
            TokenKind::False => TokenKindView::False,
            TokenKind::For => TokenKindView::For,
            TokenKind::Nil => TokenKindView::Nil,
            TokenKind::Or => TokenKindView::Or,
            TokenKind::Return => TokenKindView::Return,
            TokenKind::Super => TokenKindView::Super,
            TokenKind::This => TokenKindView::This,
            TokenKind::True => TokenKindView::True,
            TokenKind::While => TokenKindView::While,
        }
    }
}

impl TokenKindView {
    /// The text that [`TokenKind::to_string`] gives for this kind: the kind's
    /// name, with the text of a string or a number in round brackets behind
    /// it; an identifier is written as its bare name.
    pub open spec fn name(self) -> Seq<char> {
        match self {
            TokenKindView::LeftParen => "LeftParen"@,
            TokenKindView::RightParen => "RightParen"@,
            TokenKindView::LeftBrace => "LeftBrace"@,
            TokenKindView::RightBrace => "RightBrace"@,
            TokenKindView::LeftBracket => "LeftBracket"@,
            TokenKindView::RightBracket => "RightBracket"@,
            TokenKindView::Comma => "Comma"@,
            TokenKindView::Dot => "Dot"@,
            TokenKindView::Minus => "Minus"@,
            TokenKindView::Plus => "Plus"@,
            TokenKindView::Semicolon => "Semicolon"@,
            TokenKindView::Star => "Star"@,
            TokenKindView::Slash => "Slash"@,
            TokenKindView::EOF => "EOF"@,
            TokenKindView::NewLine => "NewLine"@,
            TokenKindView::String(s) => "String("@ + s + ")"@,
            TokenKindView::Number(s) => "Number("@ + s + ")"@,
            TokenKindView::Identifier(s) => s,
            TokenKindView::Equal => "Equal"@,
            TokenKindView::Bang => "Bang"@,
            TokenKindView::BangEqual => "BangEqual"@,
            TokenKindView::EqualEqual => "EqualEqual"@,
            TokenKindView::Greater => "Greater"@,
            TokenKindView::GreaterEqual => "GreaterEqual"@,
            TokenKindView::Less => "Less"@,
            TokenKindView::LessEqual => "LessEqual"@,
            TokenKindView::Fun => "Fun"@,
            TokenKindView::Let => "Let"@,
            TokenKindView::And => "And"@,
            TokenKindView::Class => "Class"@,
            TokenKindView::If => "If"@,
            TokenKindView::Else => "Else"@,
            TokenKindView::False => "False"@,
            TokenKindView::For => "For"@,
            TokenKindView::Nil => "Nil"@,
            TokenKindView::Or => "Or"@,
            TokenKindView::Return => "Return"@,
            TokenKindView::Super => "Super"@,
            TokenKindView::This => "This"@,
            TokenKindView::True => "True"@,
            TokenKindView::While => "While"@,
        }
    }
}

impl Clone for TokenKind {
    fn clone(&self) -> (r: Self)
        ensures
            r@ == self@,
    {
        match self {
            TokenKind::LeftParen => TokenKind::LeftParen,
            TokenKind::RightParen => TokenKind::RightParen,
            TokenKind::LeftBrace => TokenKind::LeftBrace,
            TokenKind::RightBrace => TokenKind::RightBrace,
            TokenKind::LeftBracket => TokenKind::LeftBracket,
            TokenKind::RightBracket => TokenKind::RightBracket,
            TokenKind::Comma => TokenKind::Comma,
            TokenKind::Dot => TokenKind::Dot,
            TokenKind::Minus => TokenKind::Minus,
            TokenKind::Plus => TokenKind::Plus,
            TokenKind::Semicolon => TokenKind::Semicolon,
            TokenKind::Star => TokenKind::Star,
            TokenKind::Slash => TokenKind::Slash,
            TokenKind::EOF => TokenKind::EOF,
            TokenKind::NewLine => TokenKind::NewLine,
            TokenKind::String(s) => TokenKind::String(s.clone()),
            TokenKind::Number(s) => TokenKind::Number(s.clone()),
            TokenKind::Identifier(s) => TokenKind::Identifier(s.clone()),
            TokenKind::Equal => TokenKind::Equal,
            TokenKind::Bang => TokenKind::Bang,
            TokenKind::BangEqual => TokenKind::BangEqual,
            TokenKind::EqualEqual => TokenKind::EqualEqual,
            TokenKind::Greater => TokenKind::Greater,
            TokenKind::GreaterEqual => TokenKind::GreaterEqual,
            TokenKind::Less => TokenKind::Less,
            TokenKind::LessEqual => TokenKind::LessEqual,
            TokenKind::Fun => TokenKind::Fun,
            TokenKind::Let => TokenKind::Let,
            TokenKind::And => TokenKind::And,
            TokenKind::Class => TokenKind::Class,
            TokenKind::If => TokenKind::If,
            TokenKind::Else => TokenKind::Else,
            TokenKind::False => TokenKind::False,
            TokenKind::For => TokenKind::For,
            TokenKind::Nil => TokenKind::Nil,
            TokenKind::Or => TokenKind::Or,
            TokenKind::Return => TokenKind::Return,
            TokenKind::Super => TokenKind::Super,
            TokenKind::This => TokenKind::This,
            TokenKind::True => TokenKind::True,
            TokenKind::While => TokenKind::While,
        }
    }
}

impl TokenKind {
    /// Renders the kind as text.
    pub fn to_string(&self) -> (r: String)
        ensures
            r@ == self@.name(),
    {
        match self {
            TokenKind::LeftParen => String::from_str("LeftParen"),
            TokenKind::RightParen => String::from_str("RightParen"),
            TokenKind::LeftBrace => String::from_str("LeftBrace"),
            TokenKind::RightBrace => String::from_str("RightBrace"),
            TokenKind::LeftBracket => String::from_str("LeftBracket"),
            TokenKind::RightBracket => String::from_str("RightBracket"),
            TokenKind::Comma => String::from_str("Comma"),
            TokenKind::Dot => String::from_str("Dot"),
            TokenKind::Minus => String::from_str("Minus"),
            TokenKind::Plus => String::from_str("Plus"),
            TokenKind::Semicolon => String::from_str("Semicolon"),
            TokenKind::Star => String::from_str("Star"),
            TokenKind::Slash => String::from_str("Slash"),
            TokenKind::EOF => String::from_str("EOF"),
            TokenKind::NewLine => String::from_str("NewLine"),
            TokenKind::String(s) => {
                let mut r = String::from_str("String(");
                r.append(s.as_str());
                r.append(")");
                r
            },
            TokenKind::Number(s) => {
                let mut r = String::from_str("Number(");
                r.append(s.as_str());
                r.append(")");
                r
            },
            TokenKind::Identifier(s) => s.clone(),
            TokenKind::Equal => String::from_str("Equal"),
            TokenKind::Bang => String::from_str("Bang"),
            TokenKind::BangEqual => String::from_str("BangEqual"),
            TokenKind::EqualEqual => String::from_str("EqualEqual"),
            TokenKind::Greater => String::from_str("Greater"),
            TokenKind::GreaterEqual => String::from_str("GreaterEqual"),
            TokenKind::Less => String::from_str("Less"),
            TokenKind::LessEqual => String::from_str("LessEqual"),
            TokenKind::Fun => String::from_str("Fun"),
            TokenKind::Let => String::from_str("Let"),
            TokenKind::And => String::from_str("And"),
            TokenKind::Class => String::from_str("Class"),
            TokenKind::If => String::from_str("If"),
            TokenKind::Else => String::from_str("Else"),
            TokenKind::False => String::from_str("False"),
            TokenKind::For => String::from_str("For"),
            TokenKind::Nil => String::from_str("Nil"),
            TokenKind::Or => String::from_str("Or"),
            TokenKind::Return => String::from_str("Return"),
            TokenKind::Super => String::from_str("Super"),
            TokenKind::This => String::from_str("This"),
            TokenKind::True => String::from_str("True"),
            TokenKind::While => String::from_str("While"),
        }
    }
}

/// A token with its place in the source: the line and column that the lexer
/// had reached when it produced the token, and `index`, one more than the
/// number of characters read up to the token's end.
#[derive(Debug, PartialEq, Eq)]
pub struct Token {
    pub kind: TokenKind,
    pub row: usize,
    pub column: usize,
    pub index: usize,
}

/// The mathematical model of a [`Token`].
pub struct TokenView {
    pub kind: TokenKindView,
    pub row: int,
    pub column: int,
    pub index: int,
}

impl View for Token {
    type V = TokenView;

    open spec fn view(&self) -> TokenView {
        TokenView {
            kind: self.kind@,
            row: self.row as int,
            column: self.column as int,
            index: self.index as int,
        }
    }
}

impl Clone for Token {
    fn clone(&self) -> (r: Self)
        ensures
            r@ == self@,
    {
        Token { kind: self.kind.clone(), row: self.row, column: self.column, index: self.index }
    }
}

impl Token {
    /// Renders the token as the text of its kind.
    pub fn to_string(&self) -> (r: String)
        ensures
            r@ == self@.kind.name(),
    {
        self.kind.to_string()
    }
}

/// The token that stands for the end of the input where a token is needed
/// and none is left. It has no place in the source.
pub open spec fn end_marker() -> TokenView {
    TokenView { kind: TokenKindView::EOF, row: 0, column: 0, index: 0 }
}

/// The text that the derived `Debug` form of a token kind has.
pub uninterp spec fn kind_debug_text(kind: TokenKindView) -> Seq<char>;

/// The text that the derived `Debug` form of a token has.
pub uninterp spec fn token_debug_text(token: TokenView) -> Seq<char>;

/// Formats a token kind with `{:?}`, through `std::fmt`. The text depends on
/// the kind and its literal text alone; the contract gives it a name and
/// says nothing of what it holds.
#[verifier::external_body]
pub(crate) fn kind_debug(kind: &TokenKind) -> (r: String)
    ensures
        r@ == kind_debug_text(kind@),
{
    format!("{:?}", kind)
}

/// Formats a token with `{:?}`, through `std::fmt`. The text depends on the
/// token's kind and place alone; the contract gives it a name and says
/// nothing of what it holds.
#[verifier::external_body]
pub(crate) fn token_debug(token: &Token) -> (r: String)
    ensures
        r@ == token_debug_text(token@),
{
    format!("{:?}", token)
}

impl TokenKind {
    /// Whether two kinds are the same kind with the same text.
    pub fn same(&self, other: &TokenKind) -> (r: bool)
        ensures
            r == (self@ == other@),
    {
        match (self, other) {
            (TokenKind::LeftParen, TokenKind::LeftParen) => true,
            (TokenKind::RightParen, TokenKind::RightParen) => true,
            (TokenKind::LeftBrace, TokenKind::LeftBrace) => true,
            (TokenKind::RightBrace, TokenKind::RightBrace) => true,
            (TokenKind::LeftBracket, TokenKind::LeftBracket) => true,
            (TokenKind::RightBracket, TokenKind::RightBracket) => true,
            (TokenKind::Comma, TokenKind::Comma) => true,
            (TokenKind::Dot, TokenKind::Dot) => true,
            (TokenKind::Minus, TokenKind::Minus) => true,
            (TokenKind::Plus, TokenKind::Plus) => true,
            (TokenKind::Semicolon, TokenKind::Semicolon) => true,
            (TokenKind::Star, TokenKind::Star) => true,
            (TokenKind::Slash, TokenKind::Slash) => true,
            (TokenKind::EOF, TokenKind::EOF) => true,
            (TokenKind::NewLine, TokenKind::NewLine) => true,
            (TokenKind::String(a), TokenKind::String(b)) => *a == *b,
            (TokenKind::Number(a), TokenKind::Number(b)) => *a == *b,
            (TokenKind::Identifier(a), TokenKind::Identifier(b)) => *a == *b,
            (TokenKind::Equal, TokenKind::Equal) => true,
            (TokenKind::Bang, TokenKind::Bang) => true,
            (TokenKind::BangEqual, TokenKind::BangEqual) => true,
            (TokenKind::EqualEqual, TokenKind::EqualEqual) => true,
            (TokenKind::Greater, TokenKind::Greater) => true,
            (TokenKind::GreaterEqual, TokenKind::GreaterEqual) => true,
            (TokenKind::Less, TokenKind::Less) => true,
            (TokenKind::LessEqual, TokenKind::LessEqual) => true,
            (TokenKind::Fun, TokenKind::Fun) => true,
            (TokenKind::Let, TokenKind::Let) => true,
            (TokenKind::And, TokenKind::And) => true,
            (TokenKind::Class, TokenKind::Class) => true,
            (TokenKind::If, TokenKind::If) => true,
            (TokenKind::Else, TokenKind::Else) => true,
            (TokenKind::False, TokenKind::False) => true,
            (TokenKind::For, TokenKind::For) => true,
            (TokenKind::Nil, TokenKind::Nil) => true,
            (TokenKind::Or, TokenKind::Or) => true,
            (TokenKind::Return, TokenKind::Return) => true,
            (TokenKind::Super, TokenKind::Super) => true,
            (TokenKind::This, TokenKind::This) => true,
            (TokenKind::True, TokenKind::True) => true,
            (TokenKind::While, TokenKind::While) => true,
            _ => false,
        }
    }
}

} // verus!
