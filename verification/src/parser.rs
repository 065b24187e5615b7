//! The parser: from tokens to syntax trees, one statement per request.

use vstd::prelude::*;
use crate::diagnostic::Expectation;
use crate::diagnostic::LexError;
use crate::diagnostic::ParseError;
use crate::grammar;
use crate::grammar::Outcome;
use crate::grammar::Outcomes;
use crate::lexer::lexed_view;
use crate::lexer::Lexer;
use crate::scan;
use crate::scan::Cursor;
use crate::scan::Lexed;
pub use crate::syntax::Op;
pub use crate::syntax::S;
use crate::syntax::views;
use crate::syntax::SView;
use crate::token::end_marker;
use crate::token::Token;
use crate::token::TokenKind;
use crate::token::TokenKindView;
use crate::token::TokenView;

verus! {

/// A parser over a source text. It holds the lexer and the one item that it
/// has looked at without reading it.
pub struct Parser {
    lexer: Lexer,
    peeked: Option<Result<Token, LexError>>,
}

/// The model of a parsed tree or its error.
pub open spec fn outcome_view(r: Result<S, ParseError>) -> Outcome {
    match r {
        Ok(tree) => Ok(tree@),
        Err(error) => Err(error@),
    }
}

/// The model of a parsed list of trees or its error.
pub open spec fn outcomes_view(r: Result<Vec<S>, ParseError>) -> Outcomes {
    match r {
        Ok(trees) => Ok(views(trees@)),
        Err(error) => Err(error@),
    }
}

/// The model of what [`Parser::parse_statement`] returns.
pub open spec fn statement_view(r: Option<Result<S, ParseError>>) -> Option<Outcome> {
    match r {
        Some(outcome) => Some(outcome_view(outcome)),
        None => None,
    }
}

/// The model of what the parser reads or looks at: one item of the stream.
pub open spec fn item_view(r: Option<Result<Token, LexError>>) -> Option<Lexed> {
    match r {
        Some(item) => Some(lexed_view(item)),
        None => None,
    }
}

/// The first item of a stream, if it has one.
pub open spec fn first(s: Seq<Lexed>) -> Option<Lexed> {
    if s.len() > 0 {
        Some(s[0])
    } else {
        None
    }
}

/// The model of the token that [`Parser::match_tokens`] returns, matching or
/// not.
pub open spec fn match_view(r: Result<Token, Token>) -> Result<TokenView, TokenView> {
    match r {
        Ok(token) => Ok(token@),
        Err(token) => Err(token@),
    }
}

fn clone_item(item: &Result<Token, LexError>) -> (r: Result<Token, LexError>)
    ensures
        lexed_view(r) == lexed_view(*item),
{
    match item {
        Ok(token) => Ok(token.clone()),
        Err(error) => Err(*error),
    }
}

fn marker() -> (r: Token)
    ensures
        r@ == end_marker(),
{
    Token { kind: TokenKind::EOF, row: 0, column: 0, index: 0 }
}

impl View for Parser {
    type V = Seq<Lexed>;

    /// The stream that is left: the item that was looked at, if any, and
    /// everything that the lexer has yet to hand out.
    closed spec fn view(&self) -> Seq<Lexed> {
        match self.peeked {
            Some(item) => seq![lexed_view(item)] + scan::tokens(
                self.lexer@.source,
                self.lexer@.cursor,
            ),
            None => scan::tokens(self.lexer@.source, self.lexer@.cursor),
        }
    }
}

impl Parser {
    /// A parser at the start of `input`.
    pub fn new(input: &str) -> (r: Parser)
        requires
            input@.len() < usize::MAX,
        ensures
            r@ == scan::tokens(input@, Cursor::start()),
    {
        Parser { lexer: Lexer::new(input), peeked: None }
    }

    /// Looks at the next item, if there is one, unless that has been done.
    fn fill(&mut self)
        ensures
            final(self)@ == old(self)@,
            match final(self).peeked {
                Some(item) => old(self)@.len() > 0 && lexed_view(item) == old(self)@[0],
                None => old(self)@.len() == 0,
            },
    {
        if self.peeked.is_none() {
            self.peeked = self.lexer.next();
        }
    }

    /// The next item of the stream, which stays unread.
    pub fn peek_token(&mut self) -> (r: Option<Result<Token, LexError>>)
        ensures
            final(self)@ == old(self)@,
            item_view(r) == first(old(self)@),
    {
        self.fill();
        match &self.peeked {
            Some(item) => Some(clone_item(item)),
            None => None,
        }
    }

    /// Reads the next item of the stream.
    pub fn eat_token(&mut self) -> (r: Option<Result<Token, LexError>>)
        ensures
            item_view(r) == first(old(self)@),
            final(self)@ == grammar::eat(old(self)@),
    {
        self.fill();
        let item = self.peeked.take();
        proof {
            if item is Some {
                assert(self@ =~= old(self)@.drop_first());
            }
        }
        item
    }

    /// Holds the next item against `expected` without reading it: the token
    /// if it matches, and else the token that stands in its place, which is
    /// the end marker where the input has ended or the lexer has failed.
    pub fn match_tokens(&mut self, expected: TokenKind) -> (r: Result<Token, Token>)
        ensures
            final(self)@ == old(self)@,
            match_view(r) == grammar::expect(old(self)@, expected@),
    {
        match self.peek_token() {
            Some(Ok(token)) => {
                if token.kind.same(&expected) || match_token_kind(&token.kind, &expected) {
                    Ok(token)
                } else {
                    Err(token)
                }
            },
            _ => Err(marker()),
        }
    }

    /// Whether a token of `kind` is the next item.
    fn at(&mut self, kind: TokenKind) -> (r: bool)
        ensures
            final(self)@ == old(self)@,
            r == grammar::starts_with(old(self)@, kind@),
    {
        match self.peek_token() {
            Some(Ok(token)) => token.kind.same(&kind),
            _ => false,
        }
    }

    /// Parses an expression whose operators bind at least as tightly as
    /// `min_bp`.
    pub fn parse_expression(&mut self, min_bp: u8) -> (r: Result<S, ParseError>)
        ensures
            outcome_view(r) == grammar::expression(old(self)@, min_bp).value,
            final(self)@ == grammar::expression(old(self)@, min_bp).rest,
            final(self)@.len() <= old(self)@.len(),
        decreases old(self)@.len(), 1int,
    {
        let mut left = match self.peek_token() {
            None => {
                return Ok(S::Atom(marker()));
            },
            Some(Err(error)) => {
                self.eat_token();
                return Err(ParseError::Lex(error));
            },
            Some(Ok(token)) => match token.kind {
                TokenKind::EOF => {
                    return Err(ParseError::UnexpectedToken(token));
                },
                TokenKind::NewLine => {
                    self.eat_token();
                    return self.parse_expression(0);
                },
                TokenKind::Plus | TokenKind::Minus => {
                    self.eat_token();
                    let (_, r_bp) = get_prefix_binding_power(&token);
                    match self.parse_equality(r_bp) {
                        Ok(operand) => S::unary(token, operand),
                        Err(error) => {
                            return Err(error);
                        },
                    }
                },
                TokenKind::LeftParen => {
                    self.eat_token();
                    match self.parse_equality(0) {
                        Ok(tree) => {
                            match self.match_tokens(TokenKind::RightParen) {
                                Ok(_) => {
                                    self.eat_token();
                                    tree
                                },
                                Err(other) => {
                                    return Err(
                                        ParseError::Expected {
                                            expected: Expectation::RightParen,
                                            found: other,
                                        },
                                    );
                                },
                            }
                        },
                        Err(error) => {
                            return Err(error);
                        },
                    }
                },
                _ => {
                    self.eat_token();
                    if self.at(TokenKind::LeftParen) {
                        match self.parse_arguments() {
                            Ok(args) => S::call(token, args),
                            Err(error) => {
                                return Err(error);
                            },
                        }
                    } else {
                        S::Atom(token)
                    }
                },
            },
        };
        loop
            invariant
                self@.len() <= old(self)@.len(),
                grammar::operators(self@, left@, min_bp) == grammar::expression(
                    old(self)@,
                    min_bp,
                ),
            ensures
                self@.len() <= old(self)@.len(),
                grammar::expression(old(self)@, min_bp) == (grammar::Parsed::<Outcome> {
                    value: Ok(left@),
                    rest: self@,
                }),
            decreases self@.len(),
        {
            let operator = match self.peek_token() {
                None => {
                    break ;
                },
                Some(Err(error)) => {
                    self.eat_token();
                    return Err(ParseError::Lex(error));
                },
                Some(Ok(token)) => token,
            };
            match operator.kind {
                TokenKind::EOF => {
                    break ;
                },
                _ => {},
            }
            match get_postfix_binding_power(&operator) {
                Some((l_bp, _)) => {
                    if l_bp < min_bp {
                        break ;
                    }
                    self.eat_token();
                    left = S::unary(operator, left);
                },
                None => {
                    match get_infix_binding_power(&operator) {
                        Some((l_bp, r_bp)) => {
                            if l_bp < min_bp {
                                break ;
                            }
                            self.eat_token();
                            match self.parse_expression(r_bp) {
                                Ok(operand) => {
                                    left = S::binary(operator, left, operand);
                                },
                                Err(error) => {
                                    return Err(error);
                                },
                            }
                        },
                        None => {
                            break ;
                        },
                    }
                },
            }
        }
        Ok(left)
    }

    /// Parses an expression; another name for [`Parser::parse_expression`].
    pub fn parse_equality(&mut self, min_bp: u8) -> (r: Result<S, ParseError>)
        ensures
            outcome_view(r) == grammar::expression(old(self)@, min_bp).value,
            final(self)@ == grammar::expression(old(self)@, min_bp).rest,
            final(self)@.len() <= old(self)@.len(),
        decreases old(self)@.len(), 2int,
    {
        self.parse_expression(min_bp)
    }

    /// Parses a list of arguments in round brackets. The next item is taken
    /// for the opening bracket and read without being looked at.
    pub fn parse_arguments(&mut self) -> (r: Result<Vec<S>, ParseError>)
        ensures
            outcomes_view(r) == grammar::arguments(old(self)@).value,
            final(self)@ == grammar::arguments(old(self)@).rest,
            final(self)@.len() <= old(self)@.len(),
        decreases old(self)@.len(), 3int,
    {
        self.eat_token();
        let mut args: Vec<S> = Vec::new();
        if self.at(TokenKind::RightParen) {
            self.eat_token();
            assert(views(args@) =~= Seq::<SView>::empty());
            return Ok(args);
        }
        assert(views(args@) =~= Seq::<SView>::empty());
        loop
            invariant_except_break
                grammar::argument_list(self@, views(args@)) == grammar::arguments(old(self)@),
            invariant
                self@.len() <= old(self)@.len(),
            ensures
                self@.len() <= old(self)@.len(),
                grammar::arguments(old(self)@) == (grammar::Parsed::<Outcomes> {
                    value: Ok(views(args@)),
                    rest: self@,
                }),
            decreases self@.len(),
        {
            let ghost before = views(args@);
            match self.parse_expression(0) {
                Ok(argument) => {
                    args.push(argument);
                    assert(views(args@) =~= before.push(argument@));
                },
                Err(error) => {
                    return Err(error);
                },
            }
            match self.eat_token() {
                Some(Ok(token)) => match token.kind {
                    TokenKind::Comma => {},
                    TokenKind::RightParen => {
                        break ;
                    },
                    _ => {
                        return Err(
                            ParseError::Expected {
                                expected: Expectation::CommaOrRightParen,
                                found: token,
                            },
                        );
                    },
                },
                Some(Err(error)) => {
                    return Err(ParseError::Lex(error));
                },
                None => {
                    break ;
                },
            }
        }
        Ok(args)
    }

    /// Parses the statements of a block whose opening brace has been read,
    /// up to its closing brace.
    fn parse_block_body(&mut self) -> (r: Result<Vec<S>, ParseError>)
        ensures
            outcomes_view(r) == grammar::block_body(old(self)@, Seq::empty()).value,
            final(self)@ == grammar::block_body(old(self)@, Seq::empty()).rest,
            final(self)@.len() <= old(self)@.len(),
        decreases old(self)@.len(), 5int,
    {
        let mut block: Vec<S> = Vec::new();
        assert(views(block@) =~= Seq::<SView>::empty());
        loop
            invariant
                self@.len() <= old(self)@.len(),
                grammar::block_body(self@, views(block@)) == grammar::block_body(
                    old(self)@,
                    Seq::empty(),
                ),
            decreases self@.len(),
        {
            match self.peek_token() {
                None => {
                    return Ok(block);
                },
                Some(Err(error)) => {
                    self.eat_token();
                    return Err(ParseError::Lex(error));
                },
                Some(Ok(token)) => match token.kind {
                    TokenKind::NewLine => {
                        self.eat_token();
                    },
                    TokenKind::EOF => {
                        return Ok(block);
                    },
                    TokenKind::RightBrace => {
                        self.eat_token();
                        return Ok(block);
                    },
                    _ => {
                        let ghost before = views(block@);
                        match self.parse_statement() {
                            Some(Ok(tree)) => {
                                block.push(tree);
                                assert(views(block@) =~= before.push(tree@));
                            },
                            Some(Err(error)) => {
                                return Err(error);
                            },
                            None => {},
                        }
                    },
                },
            }
        }
    }

    /// Parses a block. The next item is taken for the opening brace and
    /// read without being looked at.
    pub fn parse_block(&mut self) -> (r: Result<Vec<S>, ParseError>)
        ensures
            outcomes_view(r) == grammar::block(old(self)@).value,
            final(self)@ == grammar::block(old(self)@).rest,
            final(self)@.len() <= old(self)@.len(),
        decreases old(self)@.len(), 6int,
    {
        self.eat_token();
        self.parse_block_body()
    }

    /// Parses what follows the keyword `let`.
    fn parse_let_statement(&mut self, keyword: Token) -> (r: Result<S, ParseError>)
        ensures
            outcome_view(r) == grammar::let_statement(keyword@, old(self)@).value,
            final(self)@ == grammar::let_statement(keyword@, old(self)@).rest,
            final(self)@.len() <= old(self)@.len(),
        decreases old(self)@.len(), 7int,
    {
        let name = match self.match_tokens(TokenKind::Identifier(String::new())) {
            Ok(name) => name,
            Err(other) => {
                return Err(
                    ParseError::Expected { expected: Expectation::Identifier, found: other },
                );
            },
        };
        self.eat_token();
        match self.match_tokens(TokenKind::Equal) {
            Ok(_) => {},
            Err(other) => {
                return Err(ParseError::Expected { expected: Expectation::Equal, found: other });
            },
        }
        self.eat_token();
        if self.at(TokenKind::LeftBrace) {
            match self.parse_block() {
                Ok(statements) => Ok(S::binary(keyword, S::Atom(name), S::block(statements))),
                Err(error) => Err(error),
            }
        } else {
            match self.parse_expression(0) {
                Ok(tree) => Ok(S::binary(keyword, S::Atom(name), tree)),
                Err(error) => Err(error),
            }
        }
    }

    /// Parses what follows the keyword `if`.
    pub fn parse_if_expression(&mut self) -> (r: Result<S, ParseError>)
        ensures
            outcome_view(r) == grammar::if_expression(old(self)@).value,
            final(self)@ == grammar::if_expression(old(self)@).rest,
            final(self)@.len() <= old(self)@.len(),
        decreases old(self)@.len(), 7int,
    {
        let cond = match self.parse_expression(0) {
            Ok(tree) => tree,
            Err(error) => {
                return Err(error);
            },
        };
        let then_branch = match self.parse_block() {
            Ok(statements) => statements,
            Err(error) => {
                return Err(error);
            },
        };
        let ghost behind = self@;
        loop
            invariant
                self@.len() <= old(self)@.len(),
                grammar::skip_newlines(self@) == grammar::skip_newlines(behind),
            ensures
                self@.len() <= old(self)@.len(),
                self@ == grammar::skip_newlines(behind),
            decreases self@.len(),
        {
            if self.at(TokenKind::NewLine) {
                self.eat_token();
            } else {
                break ;
            }
        }
        let mut else_branch: Option<Box<S>> = None;
        if self.at(TokenKind::Else) {
            self.eat_token();
            match self.parse_block() {
                Ok(statements) => {
                    if statements.len() > 0 {
                        else_branch = Some(Box::new(S::block(statements)));
                    }
                },
                Err(error) => {
                    return Err(error);
                },
            }
        }
        Ok(
            S::IfExpr {
                cond: Box::new(cond),
                then_branch: Box::new(S::block(then_branch)),
                else_branch,
            },
        )
    }

    /// Parses what follows the keyword `while`, which stood at `row`,
    /// `column` and `index`.
    pub fn parse_while_expression(&mut self, row: usize, column: usize, index: usize) -> (r:
        Result<S, ParseError>)
        ensures
            outcome_view(r) == grammar::while_expression(
                TokenView {
                    kind: TokenKindView::While,
                    row: row as int,
                    column: column as int,
                    index: index as int,
                },
                old(self)@,
            ).value,
            final(self)@ == grammar::while_expression(
                TokenView {
                    kind: TokenKindView::While,
                    row: row as int,
                    column: column as int,
                    index: index as int,
                },
                old(self)@,
            ).rest,
            final(self)@.len() <= old(self)@.len(),
        decreases old(self)@.len(), 7int,
    {
        let cond = match self.parse_expression(0) {
            Ok(tree) => tree,
            Err(error) => {
                return Err(error);
            },
        };
        match self.parse_block() {
            Ok(statements) => Ok(
                S::binary(
                    Token { kind: TokenKind::While, row, column, index },
                    cond,
                    S::block(statements),
                ),
            ),
            Err(error) => Err(error),
        }
    }

    /// Parses what follows the keyword `func`.
    pub fn parse_function_definition(&mut self) -> (r: Result<S, ParseError>)
        ensures
            outcome_view(r) == grammar::function_definition(old(self)@).value,
            final(self)@ == grammar::function_definition(old(self)@).rest,
            final(self)@.len() <= old(self)@.len(),
        decreases old(self)@.len(), 7int,
    {
        let name = match self.match_tokens(TokenKind::Identifier(String::new())) {
            Ok(name) => name,
            Err(other) => {
                return Err(
                    ParseError::Expected { expected: Expectation::Identifier, found: other },
                );
            },
        };
        self.eat_token();
        let args = match self.parse_arguments() {
            Ok(args) => args,
            Err(error) => {
                return Err(error);
            },
        };
        match self.parse_block() {
            Ok(body) => Ok(S::definition(name, args, body)),
            Err(error) => Err(error),
        }
    }

    /// Parses one statement; `None` when the input is exhausted.
    pub fn parse_statement(&mut self) -> (r: Option<Result<S, ParseError>>)
        ensures
            statement_view(r) == grammar::statement(old(self)@).value,
            final(self)@ == grammar::statement(old(self)@).rest,
            final(self)@.len() <= old(self)@.len(),
            old(self)@.len() > 0 ==> final(self)@.len() < old(self)@.len(),
        decreases old(self)@.len(), 4int,
    {
        let token = match self.eat_token() {
            None => {
                return None;
            },
            Some(Err(error)) => {
                return Some(Err(ParseError::Lex(error)));
            },
            Some(Ok(token)) => token,
        };
        match token.kind {
            TokenKind::EOF => None,
            TokenKind::NewLine => self.parse_statement(),
            TokenKind::Let => Some(self.parse_let_statement(token)),
            TokenKind::LeftBrace => {
                match self.parse_block_body() {
                    Ok(statements) => Some(Ok(S::block(statements))),
                    Err(error) => Some(Err(error)),
                }
            },
            TokenKind::Fun => Some(self.parse_function_definition()),
            TokenKind::If => Some(self.parse_if_expression()),
            TokenKind::Return => {
                match self.parse_expression(0) {
                    Ok(tree) => Some(Ok(S::unary(token, tree))),
                    Err(error) => Some(Err(error)),
                }
            },
            TokenKind::Identifier(_) => {
                if self.at(TokenKind::LeftParen) {
                    match self.parse_arguments() {
                        Ok(args) => Some(Ok(S::call(token, args))),
                        Err(error) => Some(Err(error)),
                    }
                } else {
                    Some(Ok(S::Atom(token)))
                }
            },
            TokenKind::While => self.parse_while_statement(token),
            _ => Some(Err(ParseError::UnexpectedToken(token))),
        }
    }

    /// Parses what follows the keyword `while`, given as its token.
    fn parse_while_statement(&mut self, keyword: Token) -> (r: Option<Result<S, ParseError>>)
        requires
            keyword@.kind is While,
        ensures
            r matches Some(outcome) && outcome_view(outcome) == grammar::while_expression(
                keyword@,
                old(self)@,
            ).value,
            final(self)@ == grammar::while_expression(keyword@, old(self)@).rest,
            final(self)@.len() <= old(self)@.len(),
        decreases old(self)@.len(), 8int,
    {
        Some(self.parse_while_expression(keyword.row, keyword.column, keyword.index))
    }
}

/// How tightly a prefix operator binds the operand on its right: 1 for `+`
/// and `-`, 8 for `(`. No other token is a prefix operator.
pub fn get_prefix_binding_power(token: &Token) -> (r: ((), u8))
    requires
        token@.kind is Plus || token@.kind is Minus || token@.kind is LeftParen,
    ensures
        r.1 == grammar::prefix_binding_power(token@.kind),
{
    match token.kind {
        TokenKind::Plus | TokenKind::Minus => ((), 1),
        _ => ((), 8),
    }
}

/// How tightly an infix operator binds on its left and on its right; `None`
/// for a token that is no infix operator.
pub fn get_infix_binding_power(token: &Token) -> (r: Option<(u8, u8)>)
    ensures
        r == grammar::infix_binding_power(token@.kind),
{
    match token.kind {
        TokenKind::Plus | TokenKind::Minus => Some((1, 2)),
        TokenKind::Star | TokenKind::Slash => Some((3, 4)),
        TokenKind::EqualEqual
        | TokenKind::BangEqual
        | TokenKind::Less
        | TokenKind::LessEqual
        | TokenKind::Greater
        | TokenKind::GreaterEqual => Some((5, 5)),
        TokenKind::Or | TokenKind::And => Some((6, 7)),
        _ => None,
    }
}

/// How tightly a postfix operator binds the operand on its left; `None` for
/// a token that is no postfix operator.
pub fn get_postfix_binding_power(token: &Token) -> (r: Option<(u8, ())>)
    ensures
        match r {
            Some(power) => grammar::postfix_binding_power(token@.kind) == Some(power.0),
            None => grammar::postfix_binding_power(token@.kind) is None,
        },
{
    match token.kind {
        TokenKind::Bang | TokenKind::LeftBracket => Some((6, ())),
        TokenKind::LeftParen => Some((8, ())),
        _ => None,
    }
}

/// Whether both kinds are identifiers: any name is accepted where a name is
/// asked for.
pub fn match_token_kind(token: &TokenKind, expected: &TokenKind) -> (r: bool)
    ensures
        r == (token@ is Identifier && expected@ is Identifier),
{
    match (token, expected) {
        (TokenKind::Identifier(_), TokenKind::Identifier(_)) => true,
        _ => false,
    }
}

} // verus!
