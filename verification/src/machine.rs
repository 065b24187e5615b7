//! The evaluator, as a machine that takes one step at a time.
//!
//! The machine holds the variables, a stack of frames, each of which waits
//! for the value of the tree that was entered from it, and a focus: what the
//! next step deals with. A step yields an action for the host. The host
//! performs it and calls for the next step, with the answer where the action
//! asked for one. What the machine cannot compute, it asks for: the value of
//! a numeric literal, arithmetic and comparison on numbers, and output.

use vstd::prelude::*;
use crate::diagnostic::EvalErrorView;
use crate::diagnostic::Operation;
use crate::diagnostic::ParseErrorView;
use crate::grammar;
use crate::scan::Lexed;
use crate::syntax::Op;
use crate::syntax::SView;
use crate::token::TokenKindView;
use crate::token::TokenView;
use crate::value::is_zero;
use crate::value::PieceView;
use crate::value::ValueView;

verus! {

/// A comparison of two numbers.
#[derive(Debug, Clone, Copy, PartialEq, Eq, Structural)]
pub enum Comparison {
    Equal,
    Less,
    LessEqual,
    Greater,
    GreaterEqual,
}

/// What the host hands to a step: nothing, or the answer to a request.
#[derive(Debug, Clone, Copy, PartialEq, Eq, Structural)]
pub enum Event {
    /// Nothing to report; the machine goes on.
    Resume,
    /// The bits of the number that was asked for.
    Number(u64),
    /// The truth of the comparison that was asked for.
    Boolean(bool),
    /// The line that was to be written has been written.
    Printed,
}

/// Work that the machine asks the host to do.
pub enum RequestView {
    /// Read `text` as a number and answer with its bits.
    ParseNumber(Seq<char>),
    /// Apply `op` to the numbers with these bits and answer with the bits of
    /// the result.
    Arithmetic { op: Op, lhs: u64, rhs: u64 },
    /// Compare the numbers with these bits and answer with the truth.
    Compare { comparison: Comparison, lhs: u64, rhs: u64 },
    /// Write the pieces as one line, nothing between them.
    Print(Seq<PieceView>),
}

/// What waits on the stack for a value.
pub enum FrameView {
    /// Binds the value to `name`.
    Let { name: Seq<char> },
    /// A loop whose condition is being evaluated.
    WhileCondition { condition: SView, body: SView },
    /// A loop whose body is being evaluated.
    WhileBody { condition: SView, body: SView },
    /// An operation whose left operand is being evaluated.
    Left { operator: TokenView, right: SView },
    /// An operation whose right operand is being evaluated.
    Right { operator: TokenView, left: ValueView },
    /// Turns the truth of a comparison into its opposite.
    Negate,
    /// A conditional whose condition is being evaluated.
    If { then_branch: SView, else_branch: Option<SView> },
    /// A block; `next` is the place of the statement to evaluate next.
    Block { statements: Seq<SView>, next: int },
    /// A call whose arguments are being evaluated in the caller's
    /// environment. The value that arrives is bound to `name` in `bound`;
    /// `next` is the place of the argument to evaluate next.
    Arguments {
        name: Seq<char>,
        params: Seq<Seq<char>>,
        args: Seq<SView>,
        next: int,
        body: SView,
        bound: Map<Seq<char>, ValueView>,
    },
    /// A call whose body is being evaluated; `saved` is the caller's
    /// environment.
    Call { saved: Map<Seq<char>, ValueView> },
    /// The built-in `print` whose arguments are being evaluated.
    Print { args: Seq<SView>, next: int, pieces: Seq<PieceView> },
}

/// What the next step deals with.
pub enum FocusView {
    /// Between statements: the next step takes a statement from the parser.
    Idle,
    /// A tree that is to be entered.
    Evaluate(SView),
    /// A value on its way to the frame on top of the stack.
    Deliver(ValueView),
    /// An error on its way out, frame by frame.
    Raise(EvalErrorView),
    /// A request that the host has yet to answer.
    Await(RequestView),
}

/// What a step tells the host.
pub enum ActionView {
    /// Nothing for the host to do.
    Continue,
    /// The host is to do the work and hand the answer to the next step.
    Ask(RequestView),
    /// A statement could not be parsed.
    ParseFailed(ParseErrorView),
    /// The evaluation of a statement has ended, with its value or its error.
    Done(Result<ValueView, EvalErrorView>),
    /// The input is exhausted.
    Finished,
}

/// The state of the machine.
pub struct State {
    /// The stream that the parser has yet to read.
    pub tokens: Seq<Lexed>,
    pub variables: Map<Seq<char>, ValueView>,
    pub stack: Seq<FrameView>,
    pub focus: FocusView,
}

/// A step: the state behind it and the action that it yields.
pub struct Transition {
    pub state: State,
    pub action: ActionView,
}

/// What an operation on two values comes to.
pub enum ReplyView {
    Value(ValueView),
    Error(EvalErrorView),
    /// The host is to compute the result.
    Ask(RequestView),
    /// The host is to compute the opposite of the result.
    AskNegated(RequestView),
}

/// Goes on with another focus.
pub open spec fn turn(state: State, focus: FocusView) -> Transition {
    Transition { state: State { focus, ..state }, action: ActionView::Continue }
}

/// Asks the host and waits for the answer.
pub open spec fn ask(state: State, request: RequestView) -> Transition {
    Transition {
        state: State { focus: FocusView::Await(request), ..state },
        action: ActionView::Ask(request),
    }
}

/// Pushes `frame` and goes on to evaluate `tree`, whose value the frame
/// waits for.
pub open spec fn descend(state: State, frame: FrameView, tree: SView) -> Transition {
    Transition {
        state: State { stack: state.stack.push(frame), focus: FocusView::Evaluate(tree), ..state },
        action: ActionView::Continue,
    }
}

/// Begins the body of a call: the caller's environment is saved on the
/// stack, and `bound`, which holds the arguments alone, takes its place.
pub open spec fn invoke(state: State, bound: Map<Seq<char>, ValueView>, body: SView) -> Transition {
    Transition {
        state: State {
            stack: state.stack.push(FrameView::Call { saved: state.variables }),
            variables: bound,
            focus: FocusView::Evaluate(body),
            ..state
        },
        action: ActionView::Continue,
    }
}

pub open spec fn add(left: ValueView, right: ValueView) -> ReplyView {
    match (left, right) {
        (ValueView::Number(a), ValueView::Number(b)) => ReplyView::Ask(
            RequestView::Arithmetic { op: Op::Plus, lhs: a, rhs: b },
        ),
        (ValueView::String(a), ValueView::String(b)) => ReplyView::Value(ValueView::String(a + b)),
        _ => ReplyView::Error(EvalErrorView::InvalidOperands(Operation::Addition)),
    }
}

pub open spec fn subtract(left: ValueView, right: ValueView) -> ReplyView {
    match (left, right) {
        (ValueView::Number(a), ValueView::Number(b)) => ReplyView::Ask(
            RequestView::Arithmetic { op: Op::Minus, lhs: a, rhs: b },
        ),
        _ => ReplyView::Error(EvalErrorView::InvalidOperands(Operation::Subtraction)),
    }
}

pub open spec fn multiply(left: ValueView, right: ValueView) -> ReplyView {
    match (left, right) {
        (ValueView::Number(a), ValueView::Number(b)) => ReplyView::Ask(
            RequestView::Arithmetic { op: Op::Star, lhs: a, rhs: b },
        ),
        _ => ReplyView::Error(EvalErrorView::InvalidOperands(Operation::Multiplication)),
    }
}

pub open spec fn divide(left: ValueView, right: ValueView) -> ReplyView {
    match (left, right) {
        (ValueView::Number(a), ValueView::Number(b)) => if is_zero(b) {
            ReplyView::Error(EvalErrorView::DivisionByZero)
        } else {
            ReplyView::Ask(RequestView::Arithmetic { op: Op::Slash, lhs: a, rhs: b })
        },
        _ => ReplyView::Error(EvalErrorView::InvalidOperands(Operation::Division)),
    }
}

/// Equality: of two numbers, strings or booleans, of nil with nil; values of
/// different sorts are unequal, and so is a function to anything.
pub open spec fn equals(left: ValueView, right: ValueView) -> ReplyView {
    match (left, right) {
        (ValueView::Number(a), ValueView::Number(b)) => ReplyView::Ask(
            RequestView::Compare { comparison: Comparison::Equal, lhs: a, rhs: b },
        ),
        (ValueView::String(a), ValueView::String(b)) => ReplyView::Value(ValueView::Boolean(a == b)),
        (ValueView::Boolean(a), ValueView::Boolean(b)) => ReplyView::Value(
            ValueView::Boolean(a == b),
        ),
        (ValueView::Nil, ValueView::Nil) => ReplyView::Value(ValueView::Boolean(true)),
        _ => ReplyView::Value(ValueView::Boolean(false)),
    }
}

/// The opposite of [`equals`].
pub open spec fn not_equals(left: ValueView, right: ValueView) -> ReplyView {
    match equals(left, right) {
        ReplyView::Value(ValueView::Boolean(b)) => ReplyView::Value(ValueView::Boolean(!b)),
        ReplyView::Ask(request) => ReplyView::AskNegated(request),
        other => other,
    }
}

/// An ordering comparison, which takes numbers only.
pub open spec fn order(
    comparison: Comparison,
    operation: Operation,
    left: ValueView,
    right: ValueView,
) -> ReplyView {
    match (left, right) {
        (ValueView::Number(a), ValueView::Number(b)) => ReplyView::Ask(
            RequestView::Compare { comparison, lhs: a, rhs: b },
        ),
        _ => ReplyView::Error(EvalErrorView::InvalidOperands(operation)),
    }
}

/// Applies the operator that `operator` stands for to two values. A token
/// that is none of the ten operators is an error; `and` and `or` are among
/// those, though the grammar takes them.
pub open spec fn apply(operator: TokenView, left: ValueView, right: ValueView) -> ReplyView {
    match operator.kind {
        TokenKindView::Plus => self::add(left, right),
        TokenKindView::Minus => subtract(left, right),
        TokenKindView::Star => multiply(left, right),
        TokenKindView::Slash => divide(left, right),
        TokenKindView::EqualEqual => equals(left, right),
        TokenKindView::BangEqual => not_equals(left, right),
        TokenKindView::Less => order(Comparison::Less, Operation::LessThan, left, right),
        TokenKindView::LessEqual => order(
            Comparison::LessEqual,
            Operation::LessOrEqual,
            left,
            right,
        ),
        TokenKindView::Greater => order(Comparison::Greater, Operation::GreaterThan, left, right),
        TokenKindView::GreaterEqual => order(
            Comparison::GreaterEqual,
            Operation::GreaterOrEqual,
            left,
            right,
        ),
        _ => ReplyView::Error(EvalErrorView::UnknownOperator(operator)),
    }
}

/// The token that stands for an arithmetic operator. It has no place in the
/// source.
pub open spec fn operator_token(op: Op) -> TokenView {
    TokenView {
        kind: match op {
            Op::Plus => TokenKindView::Plus,
            Op::Minus => TokenKindView::Minus,
            Op::Star => TokenKindView::Star,
            Op::Slash => TokenKindView::Slash,
        },
        row: 0,
        column: 0,
        index: 0,
    }
}

/// Whether the tree is an atom that is a name.
pub open spec fn is_name(tree: SView) -> bool {
    tree is Atom && tree->Atom_0.kind is Identifier
}

/// The name that the tree is, where it is one.
pub open spec fn name_of(tree: SView) -> Seq<char> {
    tree->Atom_0.kind->Identifier_0
}

/// The names of the parameters, if every one of them is a name.
pub open spec fn parameter_names(args: Seq<SView>) -> Option<Seq<Seq<char>>> {
    if forall|i: int| 0 <= i < args.len() ==> is_name(#[trigger] args[i]) {
        Some(Seq::new(args.len(), |i: int| name_of(args[i])))
    } else {
        None
    }
}

/// Enters an atom. A literal is its value, and a numeric literal is what
/// the host reads its text as; a name is the value that it is bound to.
pub open spec fn enter_atom(state: State, token: TokenView) -> Transition {
    match token.kind {
        TokenKindView::Number(text) => ask(state, RequestView::ParseNumber(text)),
        TokenKindView::String(text) => turn(state, FocusView::Deliver(ValueView::String(text))),
        TokenKindView::True => turn(state, FocusView::Deliver(ValueView::Boolean(true))),
        TokenKindView::False => turn(state, FocusView::Deliver(ValueView::Boolean(false))),
        TokenKindView::Nil => turn(state, FocusView::Deliver(ValueView::Nil)),
        TokenKindView::Identifier(name) => if state.variables.contains_key(name) {
            turn(state, FocusView::Deliver(state.variables[name]))
        } else {
            turn(state, FocusView::Raise(EvalErrorView::UndefinedVariable(name)))
        },
        _ => turn(state, FocusView::Raise(EvalErrorView::InvalidAtom(token))),
    }
}

/// Enters an operation on two operands: the left one is evaluated first.
pub open spec fn enter_operation(state: State, operator: TokenView, args: Seq<SView>) -> Transition {
    if args.len() == 2 {
        descend(state, FrameView::Left { operator, right: args[1] }, args[0])
    } else {
        turn(state, FocusView::Raise(EvalErrorView::BinaryArity))
    }
}

/// Enters a form headed by a token: `let`, `return`, `while`, or else an
/// operation on two operands.
///
/// `return` is the value of its operand and nothing more: it does not leave
/// the block that it stands in, so it ends a function only as the last
/// statement of the body.
pub open spec fn enter_cons(state: State, token: TokenView, args: Seq<SView>) -> Transition {
    match token.kind {
        TokenKindView::Let => if args.len() == 2 && args[0] is Atom {
            if is_name(args[0]) {
                descend(state, FrameView::Let { name: name_of(args[0]) }, args[1])
            } else {
                turn(state, FocusView::Raise(EvalErrorView::ExpectedIdentifierInLet))
            }
        } else {
            turn(state, FocusView::Raise(EvalErrorView::InvalidLet))
        },
        TokenKindView::Return => if args.len() == 1 {
            turn(state, FocusView::Evaluate(args[0]))
        } else {
            turn(state, FocusView::Raise(EvalErrorView::InvalidReturn))
        },
        TokenKindView::While => if args.len() == 2 {
            descend(
                state,
                FrameView::WhileCondition { condition: args[0], body: args[1] },
                args[0],
            )
        } else {
            turn(state, FocusView::Raise(EvalErrorView::InvalidWhile))
        },
        _ => enter_operation(state, token, args),
    }
}

/// Enters a block: its first statement is evaluated, and an empty block is
/// nil.
pub open spec fn enter_block(state: State, statements: Seq<SView>) -> Transition {
    if statements.len() == 0 {
        turn(state, FocusView::Deliver(ValueView::Nil))
    } else {
        descend(state, FrameView::Block { statements, next: 1 }, statements[0])
    }
}

/// Enters a function definition: binds the function to its name and yields
/// it.
pub open spec fn enter_definition(state: State, name: SView, args: Seq<SView>, body: SView) -> Transition {
    if is_name(name) {
        match parameter_names(args) {
            Some(params) => {
                let function = ValueView::Function { name: name_of(name), params, body };
                Transition {
                    state: State {
                        variables: state.variables.insert(name_of(name), function),
                        focus: FocusView::Deliver(function),
                        ..state
                    },
                    action: ActionView::Continue,
                }
            },
            None => turn(state, FocusView::Raise(EvalErrorView::ParameterNotIdentifier)),
        }
    } else {
        turn(state, FocusView::Raise(EvalErrorView::FunctionNameNotIdentifier))
    }
}

/// Enters a call. If the name is bound to a function, the number of
/// arguments is held against the number of parameters and the arguments are
/// evaluated in order. If not, the name `print` is the built-in; any other
/// name is an error.
pub open spec fn enter_call(state: State, name: SView, args: Seq<SView>) -> Transition {
    if is_name(name) {
        let callee = name_of(name);
        if state.variables.contains_key(callee) && state.variables[callee] is Function {
            let params = state.variables[callee]->params;
            let body = state.variables[callee]->body;
            if args.len() != params.len() {
                turn(
                    state,
                    FocusView::Raise(
                        EvalErrorView::WrongArity {
                            expected: params.len() as int,
                            actual: args.len() as int,
                        },
                    ),
                )
            } else if args.len() == 0 {
                invoke(state, Map::empty(), body)
            } else {
                descend(
                    state,
                    FrameView::Arguments {
                        name: params[0],
                        params,
                        args,
                        next: 1,
                        body,
                        bound: Map::empty(),
                    },
                    args[0],
                )
            }
        } else if callee == "print"@ {
            if args.len() == 0 {
                ask(state, RequestView::Print(Seq::empty()))
            } else {
                descend(state, FrameView::Print { args, next: 1, pieces: Seq::empty() }, args[0])
            }
        } else {
            turn(state, FocusView::Raise(EvalErrorView::NotAFunction(callee)))
        }
    } else {
        turn(state, FocusView::Raise(EvalErrorView::FunctionNameNotIdentifier))
    }
}

/// Enters a tree.
pub open spec fn enter(state: State, tree: SView) -> Transition {
    match tree {
        SView::Atom(token) => enter_atom(state, token),
        SView::Cons(token, args) => enter_cons(state, token, args),
        SView::BinaryExpr { op, lhs, rhs } => descend(
            state,
            FrameView::Left { operator: operator_token(op), right: *rhs },
            *lhs,
        ),
        SView::IfExpr { cond, then_branch, else_branch } => descend(
            state,
            FrameView::If {
                then_branch: *then_branch,
                else_branch: match else_branch {
                    Some(branch) => Some(*branch),
                    None => None,
                },
            },
            *cond,
        ),
        SView::Block(statements) => enter_block(state, statements),
        SView::FunDef { name, args, body } => enter_definition(state, *name, args, *body),
        SView::FunCall { name, args } => enter_call(state, *name, args),
    }
}

/// Hands `value` to `frame`, which has been taken off the stack of `below`.
pub open spec fn resume_frame(below: State, frame: FrameView, value: ValueView) -> Transition {
    match frame {
        FrameView::Let { name } => Transition {
            state: State {
                variables: below.variables.insert(name, value),
                focus: FocusView::Deliver(value),
                ..below
            },
            action: ActionView::Continue,
        },
        // Any value but `true` ends the loop, a value that is no boolean too.
        FrameView::WhileCondition { condition, body } => if value == ValueView::Boolean(true) {
            descend(below, FrameView::WhileBody { condition, body }, body)
        } else {
            turn(below, FocusView::Deliver(ValueView::Nil))
        },
        FrameView::WhileBody { condition, body } => descend(
            below,
            FrameView::WhileCondition { condition, body },
            condition,
        ),
        FrameView::Left { operator, right } => descend(
            below,
            FrameView::Right { operator, left: value },
            right,
        ),
        FrameView::Right { operator, left } => match apply(operator, left, value) {
            ReplyView::Value(result) => turn(below, FocusView::Deliver(result)),
            ReplyView::Error(error) => turn(below, FocusView::Raise(error)),
            ReplyView::Ask(request) => ask(below, request),
            ReplyView::AskNegated(request) => ask(
                State { stack: below.stack.push(FrameView::Negate), ..below },
                request,
            ),
        },
        FrameView::Negate => turn(
            below,
            FocusView::Deliver(
                match value {
                    ValueView::Boolean(b) => ValueView::Boolean(!b),
                    _ => value,
                },
            ),
        ),
        FrameView::If { then_branch, else_branch } => match value {
            ValueView::Boolean(true) => turn(below, FocusView::Evaluate(then_branch)),
            ValueView::Boolean(false) => match else_branch {
                Some(branch) => turn(below, FocusView::Evaluate(branch)),
                None => turn(below, FocusView::Deliver(ValueView::Nil)),
            },
            _ => turn(below, FocusView::Raise(EvalErrorView::ConditionNotBoolean)),
        },
        FrameView::Block { statements, next } => if 0 <= next < statements.len() {
            descend(below, FrameView::Block { statements, next: next + 1 }, statements[next])
        } else {
            turn(below, FocusView::Deliver(value))
        },
        FrameView::Arguments { name, params, args, next, body, bound } => {
            let bound = bound.insert(name, value);
            if 0 <= next < args.len() && next < params.len() {
                descend(
                    below,
                    FrameView::Arguments {
                        name: params[next],
                        params,
                        args,
                        next: next + 1,
                        body,
                        bound,
                    },
                    args[next],
                )
            } else {
                invoke(below, bound, body)
            }
        },
        FrameView::Call { saved } => Transition {
            state: State { variables: saved, focus: FocusView::Deliver(value), ..below },
            action: ActionView::Continue,
        },
        FrameView::Print { args, next, pieces } => {
            let pieces = pieces.push(value.display());
            if 0 <= next < args.len() {
                descend(below, FrameView::Print { args, next: next + 1, pieces }, args[next])
            } else {
                ask(below, RequestView::Print(pieces))
            }
        },
    }
}

/// Hands `value` to the frame on top of the stack. With no frame left, the
/// statement has been evaluated.
pub open spec fn resume(state: State, value: ValueView) -> Transition {
    if state.stack.len() == 0 {
        Transition {
            state: State { focus: FocusView::Idle, ..state },
            action: ActionView::Done(Ok(value)),
        }
    } else {
        resume_frame(State { stack: state.stack.drop_last(), ..state }, state.stack.last(), value)
    }
}

/// Passes `error` out of the frame on top of the stack. A call's frame puts
/// the caller's environment back. With no frame left, the statement has
/// failed.
pub open spec fn unwind(state: State, error: EvalErrorView) -> Transition {
    if state.stack.len() == 0 {
        Transition {
            state: State { focus: FocusView::Idle, ..state },
            action: ActionView::Done(Err(error)),
        }
    } else {
        let below = State { stack: state.stack.drop_last(), ..state };
        match state.stack.last() {
            FrameView::Call { saved } => turn(
                State { variables: saved, ..below },
                FocusView::Raise(error),
            ),
            _ => turn(below, FocusView::Raise(error)),
        }
    }
}

/// The value that `event` gives as the answer to `request`, if it answers
/// it.
pub open spec fn answered(request: RequestView, event: Event) -> Option<ValueView> {
    match (request, event) {
        (RequestView::ParseNumber(_), Event::Number(bits)) => Some(ValueView::Number(bits)),
        (RequestView::Arithmetic { .. }, Event::Number(bits)) => Some(ValueView::Number(bits)),
        (RequestView::Compare { .. }, Event::Boolean(truth)) => Some(ValueView::Boolean(truth)),
        (RequestView::Print(_), Event::Printed) => Some(ValueView::Nil),
        _ => None,
    }
}

/// Takes the host's answer to `request`. An event that does not answer it
/// changes nothing, and the request is made again.
pub open spec fn answer(state: State, request: RequestView, event: Event) -> Transition {
    match answered(request, event) {
        Some(value) => turn(state, FocusView::Deliver(value)),
        None => ask(state, request),
    }
}

/// Takes the next statement from the parser. A statement that cannot be
/// parsed is reported, and the machine stays between statements.
pub open spec fn pull(state: State) -> Transition {
    let parsed = grammar::statement(state.tokens);
    match parsed.value {
        Some(Ok(tree)) => Transition {
            state: State { tokens: parsed.rest, focus: FocusView::Evaluate(tree), ..state },
            action: ActionView::Continue,
        },
        Some(Err(error)) => Transition {
            state: State { tokens: parsed.rest, focus: FocusView::Idle, ..state },
            action: ActionView::ParseFailed(error),
        },
        None => Transition {
            state: State { tokens: parsed.rest, focus: FocusView::Idle, ..state },
            action: ActionView::Finished,
        },
    }
}

/// One step of the machine: the focus is taken up and dealt with. Only a
/// pending request looks at the event.
pub open spec fn step(state: State, event: Event) -> Transition {
    let rest = State { focus: FocusView::Idle, ..state };
    match state.focus {
        FocusView::Idle => pull(rest),
        FocusView::Evaluate(tree) => enter(rest, tree),
        FocusView::Deliver(value) => resume(rest, value),
        FocusView::Raise(error) => unwind(rest, error),
        FocusView::Await(request) => answer(rest, request, event),
    }
}

/// Steps until a step yields something for the host, or until `limit` steps
/// have been taken; at least one step is taken. The first step takes
/// `event`, the others [`Event::Resume`]. Where the limit ends the run, the
/// action is [`ActionView::Continue`].
pub open spec fn run(state: State, event: Event, limit: nat) -> Transition
    decreases limit,
{
    let first = step(state, event);
    if limit <= 1 || first.action != ActionView::Continue {
        first
    } else {
        run(first.state, Event::Resume, (limit - 1) as nat)
    }
}

} // verus!
