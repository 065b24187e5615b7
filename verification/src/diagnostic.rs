//! Structured errors of the lexer and the parser, with the text that a front
//! end shows.

use vstd::prelude::*;
use vstd::string::*;
use crate::text::decimal_text;
use crate::text::push_decimal;
use crate::token::kind_debug;
use crate::token::kind_debug_text;
use crate::token::token_debug;
use crate::token::token_debug_text;
use crate::token::Token;
use crate::token::TokenView;

verus! {

/// How serious a diagnostic is.
#[derive(Debug, Clone, Copy, PartialEq, Eq, Structural)]
pub enum Severity {
    Advice,
    Warning,
    Error,
}

/// A stretch of the source, counted in characters from its start.
#[derive(Debug, Clone, Copy, PartialEq, Eq, Structural)]
pub struct Span {
    pub offset: usize,
    pub length: usize,
}

/// The mathematical model of a [`Span`].
pub struct SpanView {
    pub offset: int,
    pub length: int,
}

impl View for Span {
    type V = SpanView;

    open spec fn view(&self) -> SpanView {
        SpanView { offset: self.offset as int, length: self.length as int }
    }
}

/// Why the lexer could not produce a token.
#[derive(Debug, Clone, Copy, PartialEq, Eq, Structural)]
pub enum LexErrorKind {
    /// A string literal was opened and the input ended before it was closed.
    UnterminatedString,
    /// A character that begins no token.
    UnexpectedCharacter,
}

/// A lexing failure: what went wrong, the stretch of source it concerns, the
/// line and column that the lexer had reached, and the character at fault
/// (for an unterminated string, the quote that opened it).
#[derive(Debug, Clone, Copy, PartialEq, Eq, Structural)]
pub struct LexError {
    pub kind: LexErrorKind,
    pub span: Span,
    pub line: usize,
    pub column: usize,
    pub character: char,
}

/// The mathematical model of a [`LexError`].
pub struct LexErrorView {
    pub kind: LexErrorKind,
    pub span: SpanView,
    pub line: int,
    pub column: int,
    pub character: char,
}

impl View for LexError {
    type V = LexErrorView;

    open spec fn view(&self) -> LexErrorView {
        LexErrorView {
            kind: self.kind,
            span: self.span@,
            line: self.line as int,
            column: self.column as int,
            character: self.character,
        }
    }
}

impl LexErrorKind {
    /// The short text that labels the span.
    pub open spec fn label_text(self) -> Seq<char> {
        match self {
            LexErrorKind::UnterminatedString => "Unterminated string"@,
            LexErrorKind::UnexpectedCharacter => "Unexpected character"@,
        }
    }

    /// The advice that goes with the error.
    pub open spec fn help_text(self) -> Seq<char> {
        match self {
            LexErrorKind::UnterminatedString => "this string is not terminated"@,
            LexErrorKind::UnexpectedCharacter => "Please use valid characters"@,
        }
    }
}

impl LexErrorView {
    /// The message: the label, then where the lexer stood and the character
    /// at fault.
    pub open spec fn message_text(self) -> Seq<char> {
        self.kind.label_text() + ": at line: "@ + decimal_text(self.line as nat) + " column: "@
            + decimal_text(self.column as nat) + " character: "@ + seq![self.character]
    }
}

impl LexError {
    /// The short text that labels the span.
    pub fn label(&self) -> (r: String)
        ensures
            r@ == self.kind.label_text(),
    {
        match self.kind {
            LexErrorKind::UnterminatedString => String::from_str("Unterminated string"),
            LexErrorKind::UnexpectedCharacter => String::from_str("Unexpected character"),
        }
    }

    /// The advice that goes with the error.
    pub fn help(&self) -> (r: String)
        ensures
            r@ == self.kind.help_text(),
    {
        match self.kind {
            LexErrorKind::UnterminatedString => String::from_str("this string is not terminated"),
            LexErrorKind::UnexpectedCharacter => String::from_str("Please use valid characters"),
        }
    }

    /// Every lexing failure is an error.
    pub fn severity(&self) -> (r: Severity)
        ensures
            r == Severity::Error,
    {
        Severity::Error
    }

    /// The message of the error.
    pub fn message(&self) -> (r: String)
        ensures
            r@ == self@.message_text(),
    {
        let mut r = self.label();
        r.append(": at line: ");
        push_decimal(&mut r, self.line);
        r.append(" column: ");
        push_decimal(&mut r, self.column);
        r.append(" character: ");
        r.push(self.character);
        r
    }
}

/// What the parser needed where it found something else.
#[derive(Debug, Clone, Copy, PartialEq, Eq, Structural)]
pub enum Expectation {
    Identifier,
    Equal,
    RightParen,
    CommaOrRightParen,
}

/// A parsing failure.
#[derive(Debug, PartialEq, Eq)]
pub enum ParseError {
    /// A token that begins no statement, or that ends the input where an
    /// expression must begin.
    UnexpectedToken(Token),
    /// The grammar asked for one thing and `found` stood there. Where the
    /// input had ended or the lexer had failed, `found` is the end marker.
    Expected { expected: Expectation, found: Token },
    /// The lexer failed where the parser needed a token.
    Lex(LexError),
}

/// The mathematical model of a [`ParseError`].
pub enum ParseErrorView {
    UnexpectedToken(TokenView),
    Expected { expected: Expectation, found: TokenView },
    Lex(LexErrorView),
}

impl View for ParseError {
    type V = ParseErrorView;

    open spec fn view(&self) -> ParseErrorView {
        match self {
            ParseError::UnexpectedToken(token) => ParseErrorView::UnexpectedToken(token@),
            ParseError::Expected { expected, found } => ParseErrorView::Expected {
                expected: *expected,
                found: found@,
            },
            ParseError::Lex(error) => ParseErrorView::Lex(error@),
        }
    }
}

/// The two characters that end at a token's index, or as many as there are.
pub open spec fn token_span(token: TokenView) -> SpanView {
    if token.index >= 2 {
        SpanView { offset: token.index - 2, length: 2 }
    } else {
        SpanView { offset: 0, length: token.index }
    }
}

impl Expectation {
    /// How a message begins that names what was expected.
    pub open spec fn lead_text(self) -> Seq<char> {
        match self {
            Expectation::Identifier => "Expected Identifier, got "@,
            Expectation::Equal => "Expected Equal, got "@,
            Expectation::RightParen => "Expected RightParen, got "@,
            Expectation::CommaOrRightParen => "Expected ',' or ')', Got: "@,
        }
    }
}

impl ParseErrorView {
    /// The `Debug` form of what was found: of the token where a comma or a
    /// closing bracket was expected, and else of the token's kind. A lexing
    /// failure has none.
    pub open spec fn found_text(self) -> Seq<char> {
        match self {
            ParseErrorView::UnexpectedToken(token) => kind_debug_text(token.kind),
            ParseErrorView::Expected { expected, found } => match expected {
                Expectation::CommaOrRightParen => token_debug_text(found),
                _ => kind_debug_text(found.kind),
            },
            ParseErrorView::Lex(error) => Seq::empty(),
        }
    }

    /// The message, given the text that names what was found: what was
    /// expected, and what was found; for a lexing failure, the lexer's
    /// message.
    pub open spec fn message_with(self, found: Seq<char>) -> Seq<char> {
        match self {
            ParseErrorView::UnexpectedToken(token) => "Unexpected token: "@ + found,
            ParseErrorView::Expected { expected, found: token } => expected.lead_text() + found,
            ParseErrorView::Lex(error) => error.message_text(),
        }
    }

    /// The message, which names what was found by its `Debug` form.
    pub open spec fn message_text(self) -> Seq<char> {
        self.message_with(self.found_text())
    }

    /// The advice that goes with the error, given the text that names what
    /// was found.
    pub open spec fn help_with(self, found: Seq<char>) -> Seq<char> {
        match self {
            ParseErrorView::UnexpectedToken(token) => "use "@ + found,
            ParseErrorView::Expected { expected, found: token } => "use"@,
            ParseErrorView::Lex(error) => error.kind.help_text(),
        }
    }

    /// The advice that goes with the error.
    pub open spec fn help_text(self) -> Seq<char> {
        self.help_with(self.found_text())
    }

    /// The stretch of source that the error concerns.
    pub open spec fn span(self) -> SpanView {
        match self {
            ParseErrorView::UnexpectedToken(token) => token_span(token),
            ParseErrorView::Expected { expected, found } => token_span(found),
            ParseErrorView::Lex(error) => error.span,
        }
    }
}

fn span_of(token: &Token) -> (r: Span)
    ensures
        r@ == token_span(token@),
{
    if token.index >= 2 {
        Span { offset: token.index - 2, length: 2 }
    } else {
        Span { offset: 0, length: token.index }
    }
}

impl ParseError {
    /// The `Debug` form of what was found.
    fn found_debug(&self) -> (r: String)
        ensures
            r@ == self@.found_text(),
    {
        match self {
            ParseError::UnexpectedToken(token) => kind_debug(&token.kind),
            ParseError::Expected { expected, found } => match expected {
                Expectation::CommaOrRightParen => token_debug(found),
                _ => kind_debug(&found.kind),
            },
            ParseError::Lex(error) => String::new(),
        }
    }

    /// The message of the error, with `found` as the text that names what
    /// was found.
    pub fn message_with(&self, found: &str) -> (r: String)
        ensures
            r@ == self@.message_with(found@),
    {
        match self {
            ParseError::UnexpectedToken(token) => {
                let mut r = String::from_str("Unexpected token: ");
                r.append(found);
                r
            },
            ParseError::Expected { expected, found: token } => {
                let mut r = match expected {
                    Expectation::Identifier => String::from_str("Expected Identifier, got "),
                    Expectation::Equal => String::from_str("Expected Equal, got "),
                    Expectation::RightParen => String::from_str("Expected RightParen, got "),
                    Expectation::CommaOrRightParen => String::from_str(
                        "Expected ',' or ')', Got: ",
                    ),
                };
                r.append(found);
                r
            },
            ParseError::Lex(error) => error.message(),
        }
    }

    /// The message of the error. It also labels the span.
    pub fn message(&self) -> (r: String)
        ensures
            r@ == self@.message_text(),
    {
        let found = self.found_debug();
        self.message_with(found.as_str())
    }

    /// The advice that goes with the error, with `found` as the text that
    /// names what was found.
    pub fn help_with(&self, found: &str) -> (r: String)
        ensures
            r@ == self@.help_with(found@),
    {
        match self {
            ParseError::UnexpectedToken(token) => {
                let mut r = String::from_str("use ");
                r.append(found);
                r
            },
            ParseError::Expected { expected, found: token } => String::from_str("use"),
            ParseError::Lex(error) => error.help(),
        }
    }

    /// The advice that goes with the error.
    pub fn help(&self) -> (r: String)
        ensures
            r@ == self@.help_text(),
    {
        let found = self.found_debug();
        self.help_with(found.as_str())
    }

    /// The stretch of source that the error concerns.
    pub fn span(&self) -> (r: Span)
        ensures
            r@ == self@.span(),
    {
        match self {
            ParseError::UnexpectedToken(token) => span_of(token),
            ParseError::Expected { expected, found } => span_of(found),
            ParseError::Lex(error) => error.span,
        }
    }

    /// Every parsing failure is an error.
    pub fn severity(&self) -> (r: Severity)
        ensures
            r == Severity::Error,
    {
        Severity::Error
    }
}

/// An operation that takes two numbers, and addition two strings as well.
#[derive(Debug, Clone, Copy, PartialEq, Eq, Structural)]
pub enum Operation {
    Addition,
    Subtraction,
    Multiplication,
    Division,
    LessThan,
    LessOrEqual,
    GreaterThan,
    GreaterOrEqual,
}

/// An evaluation failure.
#[derive(Debug, PartialEq, Eq)]
pub enum EvalError {
    /// A name that nothing binds was read.
    UndefinedVariable(String),
    /// An atom whose token is neither a literal nor a name.
    InvalidAtom(Token),
    /// A `let` whose first operand is an atom that is no name.
    ExpectedIdentifierInLet,
    /// A `let` that does not hold an atom and a value.
    InvalidLet,
    /// A `return` that does not hold one operand.
    InvalidReturn,
    /// A `while` that does not hold a condition and a body.
    InvalidWhile,
    /// An operator form that does not hold two operands.
    BinaryArity,
    /// A form with two operands whose head is no known operator.
    UnknownOperator(Token),
    /// An operation on values that it does not take.
    InvalidOperands(Operation),
    /// A division whose divisor is zero.
    DivisionByZero,
    /// An `if` whose condition is no boolean.
    ConditionNotBoolean,
    /// A function definition with a parameter that is no name.
    ParameterNotIdentifier,
    /// A definition or a call whose name position holds no name.
    FunctionNameNotIdentifier,
    /// A call with another number of arguments than the function has
    /// parameters.
    WrongArity { expected: usize, actual: usize },
    /// A call of a name that is bound to no function and is no built-in.
    NotAFunction(String),
}

/// The mathematical model of an [`EvalError`].
pub enum EvalErrorView {
    UndefinedVariable(Seq<char>),
    InvalidAtom(TokenView),
    ExpectedIdentifierInLet,
    InvalidLet,
    InvalidReturn,
    InvalidWhile,
    BinaryArity,
    UnknownOperator(TokenView),
    InvalidOperands(Operation),
    DivisionByZero,
    ConditionNotBoolean,
    ParameterNotIdentifier,
    FunctionNameNotIdentifier,
    WrongArity { expected: int, actual: int },
    NotAFunction(Seq<char>),
}

impl View for EvalError {
    type V = EvalErrorView;

    open spec fn view(&self) -> EvalErrorView {
        match self {
            EvalError::UndefinedVariable(name) => EvalErrorView::UndefinedVariable(name@),
            EvalError::InvalidAtom(token) => EvalErrorView::InvalidAtom(token@),
            EvalError::ExpectedIdentifierInLet => EvalErrorView::ExpectedIdentifierInLet,
            EvalError::InvalidLet => EvalErrorView::InvalidLet,
            EvalError::InvalidReturn => EvalErrorView::InvalidReturn,
            EvalError::InvalidWhile => EvalErrorView::InvalidWhile,
            EvalError::BinaryArity => EvalErrorView::BinaryArity,
            EvalError::UnknownOperator(token) => EvalErrorView::UnknownOperator(token@),
            EvalError::InvalidOperands(operation) => EvalErrorView::InvalidOperands(*operation),
            EvalError::DivisionByZero => EvalErrorView::DivisionByZero,
            EvalError::ConditionNotBoolean => EvalErrorView::ConditionNotBoolean,
            EvalError::ParameterNotIdentifier => EvalErrorView::ParameterNotIdentifier,
            EvalError::FunctionNameNotIdentifier => EvalErrorView::FunctionNameNotIdentifier,
            EvalError::WrongArity { expected, actual } => EvalErrorView::WrongArity {
                expected: *expected as int,
                actual: *actual as int,
            },
            EvalError::NotAFunction(name) => EvalErrorView::NotAFunction(name@),
        }
    }
}

impl Operation {
    /// How a message names the operation.
    pub open spec fn name_text(self) -> Seq<char> {
        match self {
            Operation::Addition => "addition"@,
            Operation::Subtraction => "subtraction"@,
            Operation::Multiplication => "multiplication"@,
            Operation::Division => "division"@,
            Operation::LessThan => "less than comparison"@,
            Operation::LessOrEqual => "less than or equal comparison"@,
            Operation::GreaterThan => "greater than comparison"@,
            Operation::GreaterOrEqual => "greater than or equal comparison"@,
        }
    }
}

impl EvalErrorView {
    /// The `Debug` form of the token that the error holds, if it holds one.
    pub open spec fn token_text(self) -> Seq<char> {
        match self {
            EvalErrorView::InvalidAtom(token) => token_debug_text(token),
            EvalErrorView::UnknownOperator(token) => token_debug_text(token),
            _ => Seq::empty(),
        }
    }

    /// The message of the error, given the text that names the token that it
    /// holds.
    pub open spec fn message_with(self, token: Seq<char>) -> Seq<char> {
        match self {
            EvalErrorView::UndefinedVariable(name) => "Undefined variable: "@ + name,
            EvalErrorView::InvalidAtom(_) => "Invalid atomic expression: "@ + token,
            EvalErrorView::ExpectedIdentifierInLet => "Expected identifier in let binding"@,
            EvalErrorView::InvalidLet => "Invalid let expression"@,
            EvalErrorView::InvalidReturn => "Invalid return expression"@,
            EvalErrorView::InvalidWhile => "Invalid while expression"@,
            EvalErrorView::BinaryArity => "Binary operation requires exactly two operands"@,
            EvalErrorView::UnknownOperator(_) => "Unknown binary operator: "@ + token,
            EvalErrorView::InvalidOperands(operation) => "Invalid operands for "@
                + operation.name_text(),
            EvalErrorView::DivisionByZero => "Division by zero"@,
            EvalErrorView::ConditionNotBoolean => "If condition must be a boolean"@,
            EvalErrorView::ParameterNotIdentifier => "Function parameters must be identifiers"@,
            EvalErrorView::FunctionNameNotIdentifier => "Function name must be an identifier"@,
            EvalErrorView::WrongArity { expected, actual } => "Wrong number of arguments: expected "@
                + decimal_text(expected as nat) + ", got "@ + decimal_text(actual as nat),
            EvalErrorView::NotAFunction(name) => "'"@ + name + "' is not a function"@,
        }
    }

    /// The message of the error, which names a token by its `Debug` form.
    pub open spec fn message_text(self) -> Seq<char> {
        self.message_with(self.token_text())
    }
}

impl Operation {
    fn name(&self) -> (r: &'static str)
        ensures
            r@ == self.name_text(),
    {
        match self {
            Operation::Addition => "addition",
            Operation::Subtraction => "subtraction",
            Operation::Multiplication => "multiplication",
            Operation::Division => "division",
            Operation::LessThan => "less than comparison",
            Operation::LessOrEqual => "less than or equal comparison",
            Operation::GreaterThan => "greater than comparison",
            Operation::GreaterOrEqual => "greater than or equal comparison",
        }
    }
}

impl EvalError {
    /// The `Debug` form of the token that the error holds, if it holds one.
    fn token_debug(&self) -> (r: String)
        ensures
            r@ == self@.token_text(),
    {
        match self {
            EvalError::InvalidAtom(token) => token_debug(token),
            EvalError::UnknownOperator(token) => token_debug(token),
            _ => String::new(),
        }
    }

    /// The message of the error, with `token` as the text that names the
    /// token that it holds.
    pub fn message_with(&self, token: &str) -> (r: String)
        ensures
            r@ == self@.message_with(token@),
    {
        match self {
            EvalError::UndefinedVariable(name) => {
                let mut r = String::from_str("Undefined variable: ");
                r.append(name.as_str());
                r
            },
            EvalError::InvalidAtom(_) => {
                let mut r = String::from_str("Invalid atomic expression: ");
                r.append(token);
                r
            },
            EvalError::ExpectedIdentifierInLet => String::from_str(
                "Expected identifier in let binding",
            ),
            EvalError::InvalidLet => String::from_str("Invalid let expression"),
            EvalError::InvalidReturn => String::from_str("Invalid return expression"),
            EvalError::InvalidWhile => String::from_str("Invalid while expression"),
            EvalError::BinaryArity => String::from_str(
                "Binary operation requires exactly two operands",
            ),
            EvalError::UnknownOperator(_) => {
                let mut r = String::from_str("Unknown binary operator: ");
                r.append(token);
                r
            },
            EvalError::InvalidOperands(operation) => {
                let mut r = String::from_str("Invalid operands for ");
                r.append(operation.name());
                r
            },
            EvalError::DivisionByZero => String::from_str("Division by zero"),
            EvalError::ConditionNotBoolean => String::from_str("If condition must be a boolean"),
            EvalError::ParameterNotIdentifier => String::from_str(
                "Function parameters must be identifiers",
            ),
            EvalError::FunctionNameNotIdentifier => String::from_str(
                "Function name must be an identifier",
            ),
            EvalError::WrongArity { expected, actual } => {
                let mut r = String::from_str("Wrong number of arguments: expected ");
                push_decimal(&mut r, *expected);
                r.append(", got ");
                push_decimal(&mut r, *actual);
                r
            },
            EvalError::NotAFunction(name) => {
                let mut r = String::from_str("'");
                r.append(name.as_str());
                r.append("' is not a function");
                r
            },
        }
    }

    /// The message of the error.
    pub fn message(&self) -> (r: String)
        ensures
            r@ == self@.message_text(),
    {
        let token = self.token_debug();
        self.message_with(token.as_str())
    }
}

impl Clone for ParseError {
    fn clone(&self) -> (r: Self)
        ensures
            r@ == self@,
    {
        match self {
            ParseError::UnexpectedToken(token) => ParseError::UnexpectedToken(token.clone()),
            ParseError::Expected { expected, found } => ParseError::Expected {
                expected: *expected,
                found: found.clone(),
            },
            ParseError::Lex(error) => ParseError::Lex(*error),
        }
    }
}

impl Clone for EvalError {
    fn clone(&self) -> (r: Self)
        ensures
            r@ == self@,
    {
        match self {
            EvalError::UndefinedVariable(name) => EvalError::UndefinedVariable(name.clone()),
            EvalError::InvalidAtom(token) => EvalError::InvalidAtom(token.clone()),
            EvalError::ExpectedIdentifierInLet => EvalError::ExpectedIdentifierInLet,
            EvalError::InvalidLet => EvalError::InvalidLet,
            EvalError::InvalidReturn => EvalError::InvalidReturn,
            EvalError::InvalidWhile => EvalError::InvalidWhile,
            EvalError::BinaryArity => EvalError::BinaryArity,
            EvalError::UnknownOperator(token) => EvalError::UnknownOperator(token.clone()),
            EvalError::InvalidOperands(operation) => EvalError::InvalidOperands(*operation),
            EvalError::DivisionByZero => EvalError::DivisionByZero,
            EvalError::ConditionNotBoolean => EvalError::ConditionNotBoolean,
            EvalError::ParameterNotIdentifier => EvalError::ParameterNotIdentifier,
            EvalError::FunctionNameNotIdentifier => EvalError::FunctionNameNotIdentifier,
            EvalError::WrongArity { expected, actual } => EvalError::WrongArity {
                expected: *expected,
                actual: *actual,
            },
            EvalError::NotAFunction(name) => EvalError::NotAFunction(name.clone()),
        }
    }
}

} // verus!
