//! The grammar, as functions on the stream of what the lexer hands out.
//!
//! Each function takes the stream that is left and gives what it parsed
//! together with the stream behind it. Statements are told apart by their
//! first token; expressions are parsed by precedence climbing over the table
//! of binding powers below.

use vstd::prelude::*;
use crate::diagnostic::Expectation;
use crate::diagnostic::ParseErrorView;
use crate::scan::Lexed;
use crate::syntax::SView;
use crate::token::end_marker;
use crate::token::TokenKindView;
use crate::token::TokenView;

verus! {

/// What a grammar function parsed, and the stream behind it.
pub struct Parsed<T> {
    pub value: T,
    pub rest: Seq<Lexed>,
}

/// A tree, or the reason why there is none.
pub type Outcome = Result<SView, ParseErrorView>;

/// A list of trees, or the reason why there is none.
pub type Outcomes = Result<Seq<SView>, ParseErrorView>;

/// The stream behind its first item; the empty stream stays empty.
pub open spec fn eat(s: Seq<Lexed>) -> Seq<Lexed> {
    if s.len() > 0 {
        s.drop_first()
    } else {
        s
    }
}

/// Whether a token of `kind` stands at the head of the stream.
pub open spec fn starts_with(s: Seq<Lexed>, kind: TokenKindView) -> bool {
    s.len() > 0 && s[0] is Ok && s[0]->Ok_0.kind == kind
}

/// The token at the head of the stream; the end marker where the stream is
/// empty or the lexer failed.
pub open spec fn found(s: Seq<Lexed>) -> TokenView {
    if s.len() > 0 && s[0] is Ok {
        s[0]->Ok_0
    } else {
        end_marker()
    }
}

/// Whether a token of kind `kind` is accepted where `expected` is asked for:
/// the kinds are equal, or both are identifiers, whatever their names.
pub open spec fn kind_matches(kind: TokenKindView, expected: TokenKindView) -> bool {
    kind == expected || (kind is Identifier && expected is Identifier)
}

/// Holds the head of the stream against `expected` without reading it: the
/// token on a match, and else what was found in its place.
pub open spec fn expect(s: Seq<Lexed>, expected: TokenKindView) -> Result<TokenView, TokenView> {
    if s.len() > 0 && s[0] is Ok && kind_matches(s[0]->Ok_0.kind, expected) {
        Ok(found(s))
    } else {
        Err(found(s))
    }
}

/// `rest`, cut to the length of `bound` if it were longer. No grammar
/// function hands back a longer stream than it was given (see the laws at the
/// end of this file), so nothing is ever cut off; the cut lets the
/// recursion of the grammar be seen to end.
pub open spec fn within(rest: Seq<Lexed>, bound: Seq<Lexed>) -> Seq<Lexed> {
    if rest.len() <= bound.len() {
        rest
    } else {
        bound
    }
}

/// How tightly a prefix operator binds the operand on its right.
pub open spec fn prefix_binding_power(kind: TokenKindView) -> u8 {
    match kind {
        TokenKindView::Plus | TokenKindView::Minus => 1,
        _ => 8,
    }
}

/// How tightly an infix operator binds on its left and on its right.
pub open spec fn infix_binding_power(kind: TokenKindView) -> Option<(u8, u8)> {
    match kind {
        TokenKindView::Plus | TokenKindView::Minus => Some((1, 2)),
        TokenKindView::Star | TokenKindView::Slash => Some((3, 4)),
        TokenKindView::EqualEqual
        | TokenKindView::BangEqual
        | TokenKindView::Less
        | TokenKindView::LessEqual
        | TokenKindView::Greater
        | TokenKindView::GreaterEqual => Some((5, 5)),
        TokenKindView::Or | TokenKindView::And => Some((6, 7)),
        _ => None,
    }
}

/// How tightly a postfix operator binds the operand on its left.
pub open spec fn postfix_binding_power(kind: TokenKindView) -> Option<u8> {
    match kind {
        TokenKindView::Bang | TokenKindView::LeftBracket => Some(6),
        TokenKindView::LeftParen => Some(8),
        _ => None,
    }
}

/// The stream behind the line breaks at its head.
pub open spec fn skip_newlines(s: Seq<Lexed>) -> Seq<Lexed>
    decreases s.len(),
{
    if starts_with(s, TokenKindView::NewLine) {
        skip_newlines(s.drop_first())
    } else {
        s
    }
}

pub proof fn lemma_skip_newlines(s: Seq<Lexed>)
    ensures
        skip_newlines(s).len() <= s.len(),
        !starts_with(skip_newlines(s), TokenKindView::NewLine),
    decreases s.len(),
{
    if starts_with(s, TokenKindView::NewLine) {
        lemma_skip_newlines(s.drop_first());
    }
}

/// Continues an expression whose left operand `left` has been parsed: takes
/// postfix and infix operators that bind at least as tightly as `min_bp`,
/// each infix operator with its right operand.
pub open spec fn operators(s: Seq<Lexed>, left: SView, min_bp: u8) -> Parsed<Outcome>
    decreases s.len(), 0int,
{
    if s.len() == 0 {
        Parsed { value: Ok(left), rest: s }
    } else {
        match s[0] {
            Err(error) => Parsed { value: Err(ParseErrorView::Lex(error)), rest: s.drop_first() },
            Ok(op) => {
                let rest = s.drop_first();
                if op.kind is EOF {
                    Parsed { value: Ok(left), rest: s }
                } else if let Some(l_bp) = postfix_binding_power(op.kind) {
                    if l_bp < min_bp {
                        Parsed { value: Ok(left), rest: s }
                    } else {
                        operators(rest, SView::Cons(op, seq![left]), min_bp)
                    }
                } else if let Some(bp) = infix_binding_power(op.kind) {
                    if bp.0 < min_bp {
                        Parsed { value: Ok(left), rest: s }
                    } else {
                        let right = expression(rest, bp.1);
                        match right.value {
                            Ok(operand) => operators(
                                within(right.rest, rest),
                                SView::Cons(op, seq![left, operand]),
                                min_bp,
                            ),
                            Err(_) => right,
                        }
                    }
                } else {
                    Parsed { value: Ok(left), rest: s }
                }
            },
        }
    }
}

/// An expression whose operators bind at least as tightly as `min_bp`.
///
/// The left operand is a prefix operator with its operand, an expression in
/// round brackets, or any other token as an atom, which is a call if `(`
/// follows it. Line breaks before the expression are read over. At the end
/// of the input the expression is the end marker as an atom.
pub open spec fn expression(s: Seq<Lexed>, min_bp: u8) -> Parsed<Outcome>
    decreases s.len(), 1int,
{
    if s.len() == 0 {
        Parsed { value: Ok(SView::Atom(end_marker())), rest: s }
    } else {
        match s[0] {
            Err(error) => Parsed { value: Err(ParseErrorView::Lex(error)), rest: s.drop_first() },
            Ok(token) => {
                let rest = s.drop_first();
                match token.kind {
                    TokenKindView::EOF => Parsed {
                        value: Err(ParseErrorView::UnexpectedToken(token)),
                        rest: s,
                    },
                    TokenKindView::NewLine => expression(rest, 0),
                    TokenKindView::Plus | TokenKindView::Minus => {
                        let right = expression(rest, prefix_binding_power(token.kind));
                        match right.value {
                            Ok(operand) => operators(
                                within(right.rest, rest),
                                SView::Cons(token, seq![operand]),
                                min_bp,
                            ),
                            Err(_) => right,
                        }
                    },
                    TokenKindView::LeftParen => {
                        let inner = expression(rest, 0);
                        match inner.value {
                            Ok(tree) => {
                                let after = within(inner.rest, rest);
                                if starts_with(after, TokenKindView::RightParen) {
                                    operators(after.drop_first(), tree, min_bp)
                                } else {
                                    Parsed {
                                        value: Err(
                                            ParseErrorView::Expected {
                                                expected: Expectation::RightParen,
                                                found: found(after),
                                            },
                                        ),
                                        rest: after,
                                    }
                                }
                            },
                            Err(_) => inner,
                        }
                    },
                    _ => {
                        if starts_with(rest, TokenKindView::LeftParen) {
                            let call = arguments(rest);
                            match call.value {
                                Ok(args) => operators(
                                    within(call.rest, rest),
                                    SView::FunCall { name: Box::new(SView::Atom(token)), args },
                                    min_bp,
                                ),
                                Err(error) => Parsed { value: Err(error), rest: call.rest },
                            }
                        } else {
                            operators(rest, SView::Atom(token), min_bp)
                        }
                    },
                }
            },
        }
    }
}

/// The arguments that follow `before` in a list, from the first of them to
/// the closing bracket. The end of the input closes the list too.
pub open spec fn argument_list(s: Seq<Lexed>, before: Seq<SView>) -> Parsed<Outcomes>
    decreases s.len(), 2int,
{
    let first = expression(s, 0);
    match first.value {
        Err(error) => Parsed { value: Err(error), rest: first.rest },
        Ok(argument) => {
            let args = before.push(argument);
            let rest = within(first.rest, s);
            if rest.len() == 0 {
                Parsed { value: Ok(args), rest }
            } else {
                match rest[0] {
                    Err(error) => Parsed {
                        value: Err(ParseErrorView::Lex(error)),
                        rest: rest.drop_first(),
                    },
                    Ok(token) => match token.kind {
                        TokenKindView::Comma => argument_list(rest.drop_first(), args),
                        TokenKindView::RightParen => Parsed {
                            value: Ok(args),
                            rest: rest.drop_first(),
                        },
                        _ => Parsed {
                            value: Err(
                                ParseErrorView::Expected {
                                    expected: Expectation::CommaOrRightParen,
                                    found: token,
                                },
                            ),
                            rest: rest.drop_first(),
                        },
                    },
                }
            }
        },
    }
}

/// A list of arguments in round brackets. The stream begins with the
/// opening bracket, which is read without being looked at.
pub open spec fn arguments(s: Seq<Lexed>) -> Parsed<Outcomes>
    decreases s.len(), 3int,
{
    let rest = eat(s);
    if starts_with(rest, TokenKindView::RightParen) {
        Parsed { value: Ok(Seq::empty()), rest: rest.drop_first() }
    } else {
        argument_list(rest, Seq::empty())
    }
}

/// One statement; `None` when the input is exhausted. Line breaks before
/// the statement are read over.
pub open spec fn statement(s: Seq<Lexed>) -> Parsed<Option<Outcome>>
    decreases s.len(), 4int,
{
    if s.len() == 0 {
        Parsed { value: None, rest: s }
    } else {
        match s[0] {
            Err(error) => Parsed {
                value: Some(Err(ParseErrorView::Lex(error))),
                rest: s.drop_first(),
            },
            Ok(token) => {
                let rest = s.drop_first();
                match token.kind {
                    TokenKindView::EOF => Parsed { value: None, rest },
                    TokenKindView::NewLine => statement(rest),
                    TokenKindView::Let => {
                        let parsed = let_statement(token, rest);
                        Parsed { value: Some(parsed.value), rest: parsed.rest }
                    },
                    TokenKindView::LeftBrace => {
                        let body = block_body(rest, Seq::empty());
                        Parsed {
                            value: Some(
                                match body.value {
                                    Ok(statements) => Ok(SView::Block(statements)),
                                    Err(error) => Err(error),
                                },
                            ),
                            rest: body.rest,
                        }
                    },
                    TokenKindView::Fun => {
                        let parsed = function_definition(rest);
                        Parsed { value: Some(parsed.value), rest: parsed.rest }
                    },
                    TokenKindView::If => {
                        let parsed = if_expression(rest);
                        Parsed { value: Some(parsed.value), rest: parsed.rest }
                    },
                    TokenKindView::Return => {
                        let parsed = expression(rest, 0);
                        Parsed {
                            value: Some(
                                match parsed.value {
                                    Ok(tree) => Ok(SView::Cons(token, seq![tree])),
                                    Err(error) => Err(error),
                                },
                            ),
                            rest: parsed.rest,
                        }
                    },
                    TokenKindView::Identifier(_) => {
                        if starts_with(rest, TokenKindView::LeftParen) {
                            let call = arguments(rest);
                            Parsed {
                                value: Some(
                                    match call.value {
                                        Ok(args) => Ok(
                                            SView::FunCall {
                                                name: Box::new(SView::Atom(token)),
                                                args,
                                            },
                                        ),
                                        Err(error) => Err(error),
                                    },
                                ),
                                rest: call.rest,
                            }
                        } else {
                            Parsed { value: Some(Ok(SView::Atom(token))), rest }
                        }
                    },
                    TokenKindView::While => {
                        let parsed = while_expression(token, rest);
                        Parsed { value: Some(parsed.value), rest: parsed.rest }
                    },
                    _ => Parsed {
                        value: Some(Err(ParseErrorView::UnexpectedToken(token))),
                        rest,
                    },
                }
            },
        }
    }
}

/// The statements that follow `before` in a block, up to the closing brace,
/// which is read. The end of the input closes the block too.
pub open spec fn block_body(s: Seq<Lexed>, before: Seq<SView>) -> Parsed<Outcomes>
    decreases s.len(), 5int,
{
    if s.len() == 0 {
        Parsed { value: Ok(before), rest: s }
    } else {
        match s[0] {
            Err(error) => Parsed { value: Err(ParseErrorView::Lex(error)), rest: s.drop_first() },
            Ok(token) => match token.kind {
                TokenKindView::NewLine => block_body(s.drop_first(), before),
                TokenKindView::EOF => Parsed { value: Ok(before), rest: s },
                TokenKindView::RightBrace => Parsed { value: Ok(before), rest: s.drop_first() },
                _ => {
                    let parsed = statement(s);
                    let rest = within(parsed.rest, s.drop_first());
                    match parsed.value {
                        Some(Ok(tree)) => block_body(rest, before.push(tree)),
                        Some(Err(error)) => Parsed { value: Err(error), rest: parsed.rest },
                        None => block_body(rest, before),
                    }
                },
            },
        }
    }
}

/// A block. The stream begins with the opening brace, which is read without
/// being looked at.
pub open spec fn block(s: Seq<Lexed>) -> Parsed<Outcomes>
    decreases s.len(), 6int,
{
    block_body(eat(s), Seq::empty())
}

/// What follows the keyword `let`: a name, `=`, and a block or an
/// expression. The tree is headed by the keyword and holds the name and the
/// value.
pub open spec fn let_statement(keyword: TokenView, s: Seq<Lexed>) -> Parsed<Outcome>
    decreases s.len(), 7int,
{
    match expect(s, TokenKindView::Identifier(Seq::empty())) {
        Err(other) => Parsed {
            value: Err(
                ParseErrorView::Expected { expected: Expectation::Identifier, found: other },
            ),
            rest: s,
        },
        Ok(name) => {
            let s1 = s.drop_first();
            match expect(s1, TokenKindView::Equal) {
                Err(other) => Parsed {
                    value: Err(
                        ParseErrorView::Expected { expected: Expectation::Equal, found: other },
                    ),
                    rest: s1,
                },
                Ok(_) => {
                    let s2 = s1.drop_first();
                    if starts_with(s2, TokenKindView::LeftBrace) {
                        let body = block(s2);
                        Parsed {
                            value: match body.value {
                                Ok(statements) => Ok(
                                    SView::Cons(
                                        keyword,
                                        seq![SView::Atom(name), SView::Block(statements)],
                                    ),
                                ),
                                Err(error) => Err(error),
                            },
                            rest: body.rest,
                        }
                    } else {
                        let parsed = expression(s2, 0);
                        Parsed {
                            value: match parsed.value {
                                Ok(tree) => Ok(
                                    SView::Cons(keyword, seq![SView::Atom(name), tree]),
                                ),
                                Err(error) => Err(error),
                            },
                            rest: parsed.rest,
                        }
                    }
                },
            }
        },
    }
}

/// What follows the keyword `func`: a name, the parameters in round
/// brackets, and the body.
pub open spec fn function_definition(s: Seq<Lexed>) -> Parsed<Outcome>
    decreases s.len(), 7int,
{
    match expect(s, TokenKindView::Identifier(Seq::empty())) {
        Err(other) => Parsed {
            value: Err(
                ParseErrorView::Expected { expected: Expectation::Identifier, found: other },
            ),
            rest: s,
        },
        Ok(name) => {
            let s1 = s.drop_first();
            let params = arguments(s1);
            match params.value {
                Err(error) => Parsed { value: Err(error), rest: params.rest },
                Ok(args) => {
                    let body = block(within(params.rest, s1));
                    Parsed {
                        value: match body.value {
                            Ok(statements) => Ok(
                                SView::FunDef {
                                    name: Box::new(SView::Atom(name)),
                                    args,
                                    body: Box::new(SView::Block(statements)),
                                },
                            ),
                            Err(error) => Err(error),
                        },
                        rest: body.rest,
                    }
                },
            }
        },
    }
}

/// What follows the keyword `if`: the condition, the block to take when it
/// holds, and after any line breaks, `else` with the other block. An empty
/// `else` block counts as none.
pub open spec fn if_expression(s: Seq<Lexed>) -> Parsed<Outcome>
    decreases s.len(), 7int,
{
    let cond = expression(s, 0);
    match cond.value {
        Err(_) => cond,
        Ok(condition) => {
            let then_block = block(within(cond.rest, s));
            match then_block.value {
                Err(error) => Parsed { value: Err(error), rest: then_block.rest },
                Ok(then_statements) => {
                    let after = skip_newlines(within(then_block.rest, s));
                    if starts_with(after, TokenKindView::Else) {
                        proof {
                            lemma_skip_newlines(within(then_block.rest, s));
                        }
                        let else_block = block(after.drop_first());
                        Parsed {
                            value: match else_block.value {
                                Ok(else_statements) => Ok(
                                    SView::IfExpr {
                                        cond: Box::new(condition),
                                        then_branch: Box::new(SView::Block(then_statements)),
                                        else_branch: if else_statements.len() == 0 {
                                            None
                                        } else {
                                            Some(Box::new(SView::Block(else_statements)))
                                        },
                                    },
                                ),
                                Err(error) => Err(error),
                            },
                            rest: else_block.rest,
                        }
                    } else {
                        Parsed {
                            value: Ok(
                                SView::IfExpr {
                                    cond: Box::new(condition),
                                    then_branch: Box::new(SView::Block(then_statements)),
                                    else_branch: None,
                                },
                            ),
                            rest: after,
                        }
                    }
                },
            }
        },
    }
}

/// What follows the keyword `while`: the condition and the body. The tree is
/// headed by the keyword and holds both.
pub open spec fn while_expression(keyword: TokenView, s: Seq<Lexed>) -> Parsed<Outcome>
    decreases s.len(), 7int,
{
    let cond = expression(s, 0);
    match cond.value {
        Err(_) => cond,
        Ok(condition) => {
            let body = block(within(cond.rest, s));
            Parsed {
                value: match body.value {
                    Ok(statements) => Ok(
                        SView::Cons(keyword, seq![condition, SView::Block(statements)]),
                    ),
                    Err(error) => Err(error),
                },
                rest: body.rest,
            }
        },
    }
}

/// Continuing an expression hands back no more of the stream than it was
/// given.
pub proof fn law_operators_rest(s: Seq<Lexed>, left: SView, min_bp: u8)
    ensures
        operators(s, left, min_bp).rest.len() <= s.len(),
    decreases s.len(), 0int,
{
    if s.len() > 0 && s[0] is Ok {
        let op = s[0]->Ok_0;
        let rest = s.drop_first();
        if op.kind is EOF {
        } else if let Some(l_bp) = postfix_binding_power(op.kind) {
            if l_bp >= min_bp {
                law_operators_rest(rest, SView::Cons(op, seq![left]), min_bp);
            }
        } else if let Some(bp) = infix_binding_power(op.kind) {
            if bp.0 >= min_bp {
                law_expression_rest(rest, bp.1);
                let right = expression(rest, bp.1);
                if let Ok(operand) = right.value {
                    law_operators_rest(
                        within(right.rest, rest),
                        SView::Cons(op, seq![left, operand]),
                        min_bp,
                    );
                }
            }
        }
    }
}

/// An expression hands back no more of the stream than it was given.
pub proof fn law_expression_rest(s: Seq<Lexed>, min_bp: u8)
    ensures
        expression(s, min_bp).rest.len() <= s.len(),
    decreases s.len(), 1int,
{
    if s.len() > 0 && s[0] is Ok {
        let token = s[0]->Ok_0;
        let rest = s.drop_first();
        match token.kind {
            TokenKindView::EOF => {},
            TokenKindView::NewLine => {
                law_expression_rest(rest, 0);
            },
            TokenKindView::Plus | TokenKindView::Minus => {
                let power = prefix_binding_power(token.kind);
                law_expression_rest(rest, power);
                let right = expression(rest, power);
                if let Ok(operand) = right.value {
                    law_operators_rest(
                        within(right.rest, rest),
                        SView::Cons(token, seq![operand]),
                        min_bp,
                    );
                }
            },
            TokenKindView::LeftParen => {
                law_expression_rest(rest, 0);
                let inner = expression(rest, 0);
                if let Ok(tree) = inner.value {
                    let after = within(inner.rest, rest);
                    if starts_with(after, TokenKindView::RightParen) {
                        law_operators_rest(after.drop_first(), tree, min_bp);
                    }
                }
            },
            _ => {
                if starts_with(rest, TokenKindView::LeftParen) {
                    law_arguments_rest(rest);
                    let call = arguments(rest);
                    if let Ok(args) = call.value {
                        law_operators_rest(
                            within(call.rest, rest),
                            SView::FunCall { name: Box::new(SView::Atom(token)), args },
                            min_bp,
                        );
                    }
                } else {
                    law_operators_rest(rest, SView::Atom(token), min_bp);
                }
            },
        }
    }
}

/// The rest of a list of arguments hands back no more of the stream than it
/// was given.
pub proof fn law_argument_list_rest(s: Seq<Lexed>, before: Seq<SView>)
    ensures
        argument_list(s, before).rest.len() <= s.len(),
    decreases s.len(), 2int,
{
    law_expression_rest(s, 0);
    let first = expression(s, 0);
    if let Ok(argument) = first.value {
        let rest = within(first.rest, s);
        if rest.len() > 0 && rest[0] is Ok && rest[0]->Ok_0.kind is Comma {
            law_argument_list_rest(rest.drop_first(), before.push(argument));
        }
    }
}

/// A list of arguments hands back no more of the stream than it was given.
pub proof fn law_arguments_rest(s: Seq<Lexed>)
    ensures
        arguments(s).rest.len() <= s.len(),
    decreases s.len(), 3int,
{
    let rest = eat(s);
    if !starts_with(rest, TokenKindView::RightParen) {
        law_argument_list_rest(rest, Seq::empty());
    }
}

/// A statement hands back no more of the stream than it was given, and less
/// where the stream was not empty.
pub proof fn law_statement_rest(s: Seq<Lexed>)
    ensures
        statement(s).rest.len() <= s.len(),
        s.len() > 0 ==> statement(s).rest.len() < s.len(),
    decreases s.len(), 4int,
{
    if s.len() > 0 && s[0] is Ok {
        let token = s[0]->Ok_0;
        let rest = s.drop_first();
        match token.kind {
            TokenKindView::NewLine => {
                law_statement_rest(rest);
            },
            TokenKindView::Let => {
                law_let_statement_rest(token, rest);
            },
            TokenKindView::LeftBrace => {
                law_block_body_rest(rest, Seq::empty());
            },
            TokenKindView::Fun => {
                law_function_definition_rest(rest);
            },
            TokenKindView::If => {
                law_if_expression_rest(rest);
            },
            TokenKindView::Return => {
                law_expression_rest(rest, 0);
            },
            TokenKindView::Identifier(_) => {
                if starts_with(rest, TokenKindView::LeftParen) {
                    law_arguments_rest(rest);
                }
            },
            TokenKindView::While => {
                law_while_expression_rest(token, rest);
            },
            _ => {},
        }
    }
}

/// The rest of a block hands back no more of the stream than it was given.
pub proof fn law_block_body_rest(s: Seq<Lexed>, before: Seq<SView>)
    ensures
        block_body(s, before).rest.len() <= s.len(),
    decreases s.len(), 5int,
{
    if s.len() > 0 && s[0] is Ok {
        match s[0]->Ok_0.kind {
            TokenKindView::NewLine => {
                law_block_body_rest(s.drop_first(), before);
            },
            TokenKindView::EOF => {},
            TokenKindView::RightBrace => {},
            _ => {
                law_statement_rest(s);
                let parsed = statement(s);
                let rest = within(parsed.rest, s.drop_first());
                match parsed.value {
                    Some(Ok(tree)) => {
                        law_block_body_rest(rest, before.push(tree));
                    },
                    Some(Err(_)) => {},
                    None => {
                        law_block_body_rest(rest, before);
                    },
                }
            },
        }
    }
}

/// A block hands back no more of the stream than it was given.
pub proof fn law_block_rest(s: Seq<Lexed>)
    ensures
        block(s).rest.len() <= s.len(),
    decreases s.len(), 6int,
{
    law_block_body_rest(eat(s), Seq::empty());
}

/// What follows `let` hands back no more of the stream than it was given.
pub proof fn law_let_statement_rest(keyword: TokenView, s: Seq<Lexed>)
    ensures
        let_statement(keyword, s).rest.len() <= s.len(),
    decreases s.len(), 7int,
{
    if expect(s, TokenKindView::Identifier(Seq::empty())) is Ok {
        let s1 = s.drop_first();
        if expect(s1, TokenKindView::Equal) is Ok {
            let s2 = s1.drop_first();
            if starts_with(s2, TokenKindView::LeftBrace) {
                law_block_rest(s2);
            } else {
                law_expression_rest(s2, 0);
            }
        }
    }
}

/// What follows `func` hands back no more of the stream than it was given.
pub proof fn law_function_definition_rest(s: Seq<Lexed>)
    ensures
        function_definition(s).rest.len() <= s.len(),
    decreases s.len(), 7int,
{
    if expect(s, TokenKindView::Identifier(Seq::empty())) is Ok {
        let s1 = s.drop_first();
        law_arguments_rest(s1);
        law_block_rest(within(arguments(s1).rest, s1));
    }
}

/// What follows `if` hands back no more of the stream than it was given.
pub proof fn law_if_expression_rest(s: Seq<Lexed>)
    ensures
        if_expression(s).rest.len() <= s.len(),
    decreases s.len(), 7int,
{
    law_expression_rest(s, 0);
    let then_block = block(within(expression(s, 0).rest, s));
    law_block_rest(within(expression(s, 0).rest, s));
    lemma_skip_newlines(within(then_block.rest, s));
    let after = skip_newlines(within(then_block.rest, s));
    if starts_with(after, TokenKindView::Else) {
        law_block_rest(after.drop_first());
    }
}

/// What follows `while` hands back no more of the stream than it was given.
pub proof fn law_while_expression_rest(keyword: TokenView, s: Seq<Lexed>)
    ensures
        while_expression(keyword, s).rest.len() <= s.len(),
    decreases s.len(), 7int,
{
    law_expression_rest(s, 0);
    law_block_rest(within(expression(s, 0).rest, s));
}

} // verus!
