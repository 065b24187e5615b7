//! The interpreter: the machine of [`crate::machine`], in executable form.

use vstd::prelude::*;
use vstd::string::*;
use crate::diagnostic::EvalError;
use crate::diagnostic::Operation;
use crate::diagnostic::ParseError;
use crate::machine;
use crate::machine::ActionView;
use crate::machine::Comparison;
use crate::machine::Event;
use crate::machine::FocusView;
use crate::machine::FrameView;
use crate::machine::ReplyView;
use crate::machine::RequestView;
use crate::machine::State;
use crate::parser::Parser;
use crate::syntax::views;
use crate::syntax::Op;
use crate::syntax::S;
use crate::token::Token;
use crate::token::TokenKind;
use crate::value::clone_names;
use crate::value::clone_pieces;
use crate::value::pieces_view;
use crate::value::texts;
use crate::value::Environment;
use crate::value::Piece;
use crate::value::Value;

verus! {

/// Work that the machine asks the host to do.
#[derive(Debug, PartialEq, Eq)]
pub enum Request {
    /// Read the text as a number and answer with its bits.
    ParseNumber(String),
    /// Apply `op` to the numbers with these bits and answer with the bits of
    /// the result.
    Arithmetic { op: Op, lhs: u64, rhs: u64 },
    /// Compare the numbers with these bits and answer with the truth.
    Compare { comparison: Comparison, lhs: u64, rhs: u64 },
    /// Write the pieces as one line, nothing between them.
    Print(Vec<Piece>),
}

impl View for Request {
    type V = RequestView;

    open spec fn view(&self) -> RequestView {
        match self {
            Request::ParseNumber(text) => RequestView::ParseNumber(text@),
            Request::Arithmetic { op, lhs, rhs } => RequestView::Arithmetic {
                op: *op,
                lhs: *lhs,
                rhs: *rhs,
            },
            Request::Compare { comparison, lhs, rhs } => RequestView::Compare {
                comparison: *comparison,
                lhs: *lhs,
                rhs: *rhs,
            },
            Request::Print(pieces) => RequestView::Print(pieces_view(pieces@)),
        }
    }
}

impl Clone for Request {
    fn clone(&self) -> (r: Self)
        ensures
            r@ == self@,
    {
        match self {
            Request::ParseNumber(text) => Request::ParseNumber(text.clone()),
            Request::Arithmetic { op, lhs, rhs } => Request::Arithmetic {
                op: *op,
                lhs: *lhs,
                rhs: *rhs,
            },
            Request::Compare { comparison, lhs, rhs } => Request::Compare {
                comparison: *comparison,
                lhs: *lhs,
                rhs: *rhs,
            },
            Request::Print(pieces) => Request::Print(clone_pieces(pieces)),
        }
    }
}

/// What waits on the stack for a value.
#[derive(Debug, PartialEq)]
pub enum Frame {
    Let { name: String },
    WhileCondition { condition: S, body: S },
    WhileBody { condition: S, body: S },
    Left { operator: Token, right: S },
    Right { operator: Token, left: Value },
    Negate,
    If { then_branch: S, else_branch: Option<S> },
    Block { statements: Vec<S>, next: usize },
    Arguments {
        name: String,
        params: Vec<String>,
        args: Vec<S>,
        next: usize,
        body: S,
        bound: Environment,
    },
    Call { saved: Environment },
    Print { args: Vec<S>, next: usize, pieces: Vec<Piece> },
}

impl View for Frame {
    type V = FrameView;

    open spec fn view(&self) -> FrameView {
        match self {
            Frame::Let { name } => FrameView::Let { name: name@ },
            Frame::WhileCondition { condition, body } => FrameView::WhileCondition {
                condition: condition@,
                body: body@,
            },
            Frame::WhileBody { condition, body } => FrameView::WhileBody {
                condition: condition@,
                body: body@,
            },
            Frame::Left { operator, right } => FrameView::Left {
                operator: operator@,
                right: right@,
            },
            Frame::Right { operator, left } => FrameView::Right {
                operator: operator@,
                left: left@,
            },
            Frame::Negate => FrameView::Negate,
            Frame::If { then_branch, else_branch } => FrameView::If {
                then_branch: then_branch@,
                else_branch: match else_branch {
                    Some(branch) => Some(branch@),
                    None => None,
                },
            },
            Frame::Block { statements, next } => FrameView::Block {
                statements: views(statements@),
                next: *next as int,
            },
            Frame::Arguments { name, params, args, next, body, bound } => FrameView::Arguments {
                name: name@,
                params: texts(params@),
                args: views(args@),
                next: *next as int,
                body: body@,
                bound: bound@,
            },
            Frame::Call { saved } => FrameView::Call { saved: saved@ },
            Frame::Print { args, next, pieces } => FrameView::Print {
                args: views(args@),
                next: *next as int,
                pieces: pieces_view(pieces@),
            },
        }
    }
}

/// The models of the frames of a stack, bottom first.
pub open spec fn frames_view(stack: Seq<Frame>) -> Seq<FrameView> {
    Seq::new(stack.len(), |i: int| stack[i]@)
}

/// What the next step deals with.
#[derive(Debug, PartialEq)]
pub enum Focus {
    Idle,
    Evaluate(S),
    Deliver(Value),
    Raise(EvalError),
    Await(Request),
}

impl View for Focus {
    type V = FocusView;

    open spec fn view(&self) -> FocusView {
        match self {
            Focus::Idle => FocusView::Idle,
            Focus::Evaluate(tree) => FocusView::Evaluate(tree@),
            Focus::Deliver(value) => FocusView::Deliver(value@),
            Focus::Raise(error) => FocusView::Raise(error@),
            Focus::Await(request) => FocusView::Await(request@),
        }
    }
}

/// What a step tells the host.
#[derive(Debug, PartialEq)]
pub enum Action {
    /// Nothing for the host to do.
    Continue,
    /// The host is to do the work and hand the answer to the next step.
    Ask(Request),
    /// A statement could not be parsed.
    ParseFailed(ParseError),
    /// The evaluation of a statement has ended, with its value or its error.
    Done(Result<Value, EvalError>),
    /// The input is exhausted.
    Finished,
}

impl View for Action {
    type V = ActionView;

    open spec fn view(&self) -> ActionView {
        match self {
            Action::Continue => ActionView::Continue,
            Action::Ask(request) => ActionView::Ask(request@),
            Action::ParseFailed(error) => ActionView::ParseFailed(error@),
            Action::Done(result) => ActionView::Done(
                match result {
                    Ok(value) => Ok(value@),
                    Err(error) => Err(error@),
                },
            ),
            Action::Finished => ActionView::Finished,
        }
    }
}

/// What an operation on two values comes to.
pub enum Reply {
    Value(Value),
    Error(EvalError),
    /// The host is to compute the result.
    Ask(Request),
    /// The host is to compute the opposite of the result.
    AskNegated(Request),
}

impl View for Reply {
    type V = ReplyView;

    open spec fn view(&self) -> ReplyView {
        match self {
            Reply::Value(value) => ReplyView::Value(value@),
            Reply::Error(error) => ReplyView::Error(error@),
            Reply::Ask(request) => ReplyView::Ask(request@),
            Reply::AskNegated(request) => ReplyView::AskNegated(request@),
        }
    }
}

/// An interpreter: a parser, the variables, and the state of the machine
/// that evaluates one statement after another.
pub struct Interpreter {
    parser: Parser,
    variables: Environment,
    stack: Vec<Frame>,
    focus: Focus,
}

impl View for Interpreter {
    type V = State;

    closed spec fn view(&self) -> State {
        State {
            tokens: self.parser@,
            variables: self.variables@,
            stack: frames_view(self.stack@),
            focus: self.focus@,
        }
    }
}

impl Interpreter {
    /// An interpreter that will evaluate what `parser` has yet to parse. It
    /// binds nothing and stands between statements.
    pub fn new(parser: Parser) -> (r: Interpreter)
        ensures
            r@ == (State {
                tokens: parser@,
                variables: Map::empty(),
                stack: Seq::empty(),
                focus: FocusView::Idle,
            }),
    {
        let r = Interpreter {
            parser,
            variables: Environment::new(),
            stack: Vec::new(),
            focus: Focus::Idle,
        };
        assert(frames_view(r.stack@) =~= Seq::<FrameView>::empty());
        r
    }

    /// Puts `db` in the place of the variables.
    pub fn replace_db(&mut self, db: Environment)
        ensures
            final(self)@ == (State { variables: db@, ..old(self)@ }),
    {
        self.variables = db;
    }

    /// The variables.
    pub fn variables(&self) -> (r: &Environment)
        ensures
            r@ == self@.variables,
    {
        &self.variables
    }

    /// Whether the interpreter stands between statements.
    pub fn is_idle(&self) -> (r: bool)
        ensures
            r == (self@.focus is Idle),
    {
        match self.focus {
            Focus::Idle => true,
            _ => false,
        }
    }
}

/// The name that the tree is, if it is an atom that is a name.
fn name_in(tree: &S) -> (r: Option<String>)
    ensures
        match r {
            Some(name) => machine::is_name(tree@) && name@ == machine::name_of(tree@),
            None => !machine::is_name(tree@),
        },
{
    match tree {
        S::Atom(token) => match &token.kind {
            TokenKind::Identifier(name) => Some(name.clone()),
            _ => None,
        },
        _ => None,
    }
}

fn is_atom(tree: &S) -> (r: bool)
    ensures
        r == (tree@ is Atom),
{
    match tree {
        S::Atom(_) => true,
        _ => false,
    }
}

/// Takes the last tree off a sequence.
fn take_last(trees: &mut Vec<S>) -> (r: S)
    requires
        old(trees).len() > 0,
    ensures
        r@ == views(old(trees)@).last(),
        views(final(trees)@) == views(old(trees)@).drop_last(),
        final(trees).len() == old(trees).len() - 1,
{
    let r = trees.pop().unwrap();
    assert(views(trees@) =~= views(old(trees)@).drop_last());
    r
}

/// The token that stands for an arithmetic operator.
fn operator_token(op: Op) -> (r: Token)
    ensures
        r@ == machine::operator_token(op),
{
    Token {
        kind: match op {
            Op::Plus => TokenKind::Plus,
            Op::Minus => TokenKind::Minus,
            Op::Star => TokenKind::Star,
            Op::Slash => TokenKind::Slash,
        },
        row: 0,
        column: 0,
        index: 0,
    }
}

impl Interpreter {
    /// Goes on with another focus.
    fn turn(&mut self, focus: Focus) -> (action: Action)
        ensures
            (machine::Transition { state: final(self)@, action: action@ }) == machine::turn(
                old(self)@,
                focus@,
            ),
    {
        self.focus = focus;
        Action::Continue
    }

    /// Lets an error begin its way out.
    fn raise(&mut self, error: EvalError) -> (action: Action)
        ensures
            (machine::Transition { state: final(self)@, action: action@ }) == machine::turn(
                old(self)@,
                FocusView::Raise(error@),
            ),
    {
        self.focus = Focus::Raise(error);
        Action::Continue
    }

    /// Asks the host and waits for the answer.
    fn ask(&mut self, request: Request) -> (action: Action)
        ensures
            (machine::Transition { state: final(self)@, action: action@ }) == machine::ask(
                old(self)@,
                request@,
            ),
    {
        let copy = request.clone();
        self.focus = Focus::Await(request);
        Action::Ask(copy)
    }

    /// Pushes `frame` and goes on to evaluate `tree`.
    fn descend(&mut self, frame: Frame, tree: S) -> (action: Action)
        ensures
            (machine::Transition { state: final(self)@, action: action@ }) == machine::descend(
                old(self)@,
                frame@,
                tree@,
            ),
    {
        self.stack.push(frame);
        self.focus = Focus::Evaluate(tree);
        assert(frames_view(self.stack@) =~= frames_view(old(self).stack@).push(frame@));
        Action::Continue
    }

    /// Begins the body of a call with `bound` as the environment.
    fn invoke(&mut self, bound: Environment, body: S) -> (action: Action)
        ensures
            (machine::Transition { state: final(self)@, action: action@ }) == machine::invoke(
                old(self)@,
                bound@,
                body@,
            ),
    {
        let mut saved = bound;
        core::mem::swap(&mut self.variables, &mut saved);
        let frame = Frame::Call { saved };
        self.stack.push(frame);
        self.focus = Focus::Evaluate(body);
        assert(frames_view(self.stack@) =~= frames_view(old(self).stack@).push(frame@));
        Action::Continue
    }

    /// Enters an atom.
    fn evaluate_atom(&mut self, token: Token) -> (action: Action)
        ensures
            (machine::Transition { state: final(self)@, action: action@ })
                == machine::enter_atom(old(self)@, token@),
    {
        match &token.kind {
            TokenKind::Number(text) => {
                let request = Request::ParseNumber(text.clone());
                self.ask(request)
            },
            TokenKind::String(text) => {
                let value = Value::String(text.clone());
                self.turn(Focus::Deliver(value))
            },
            TokenKind::True => self.turn(Focus::Deliver(Value::Boolean(true))),
            TokenKind::False => self.turn(Focus::Deliver(Value::Boolean(false))),
            TokenKind::Nil => self.turn(Focus::Deliver(Value::Nil)),
            TokenKind::Identifier(name) => {
                let found = match self.variables.get(name) {
                    Some(value) => Some(value.clone()),
                    None => None,
                };
                match found {
                    Some(value) => self.turn(Focus::Deliver(value)),
                    None => {
                        let error = EvalError::UndefinedVariable(name.clone());
                        self.raise(error)
                    },
                }
            },
            _ => {
                let error = EvalError::InvalidAtom(token.clone());
                self.raise(error)
            },
        }
    }

    /// Enters an operation on two operands.
    fn evaluate_binary_operation(&mut self, token: Token, args: Vec<S>) -> (action: Action)
        ensures
            (machine::Transition { state: final(self)@, action: action@ })
                == machine::enter_operation(old(self)@, token@, views(args@)),
    {
        let mut args = args;
        if args.len() == 2 {
            let right = take_last(&mut args);
            let left = take_last(&mut args);
            self.descend(Frame::Left { operator: token, right }, left)
        } else {
            self.raise(EvalError::BinaryArity)
        }
    }

    /// Enters a form headed by a token.
    fn evaluate_cons(&mut self, token: Token, args: Vec<S>) -> (action: Action)
        ensures
            (machine::Transition { state: final(self)@, action: action@ })
                == machine::enter_cons(old(self)@, token@, views(args@)),
    {
        let mut args = args;
        match token.kind {
            TokenKind::Let => {
                if args.len() == 2 && is_atom(&args[0]) {
                    match name_in(&args[0]) {
                        Some(name) => {
                            let value = take_last(&mut args);
                            self.descend(Frame::Let { name }, value)
                        },
                        None => self.raise(EvalError::ExpectedIdentifierInLet),
                    }
                } else {
                    self.raise(EvalError::InvalidLet)
                }
            },
            TokenKind::Return => {
                if args.len() == 1 {
                    let value = take_last(&mut args);
                    self.turn(Focus::Evaluate(value))
                } else {
                    self.raise(EvalError::InvalidReturn)
                }
            },
            TokenKind::While => {
                if args.len() == 2 {
                    let body = take_last(&mut args);
                    let condition = take_last(&mut args);
                    let first = condition.clone();
                    self.descend(Frame::WhileCondition { condition, body }, first)
                } else {
                    self.raise(EvalError::InvalidWhile)
                }
            },
            _ => self.evaluate_binary_operation(token, args),
        }
    }

    /// Enters an arithmetic operation.
    fn evaluate_binary_expr(&mut self, op: Op, lhs: S, rhs: S) -> (action: Action)
        ensures
            (machine::Transition { state: final(self)@, action: action@ }) == machine::descend(
                old(self)@,
                FrameView::Left { operator: machine::operator_token(op), right: rhs@ },
                lhs@,
            ),
    {
        self.descend(Frame::Left { operator: operator_token(op), right: rhs }, lhs)
    }

    /// Enters a conditional.
    fn evaluate_if_expr(&mut self, cond: S, then_branch: S, else_branch: Option<S>) -> (action:
        Action)
        ensures
            (machine::Transition { state: final(self)@, action: action@ }) == machine::descend(
                old(self)@,
                FrameView::If {
                    then_branch: then_branch@,
                    else_branch: match else_branch {
                        Some(branch) => Some(branch@),
                        None => None,
                    },
                },
                cond@,
            ),
    {
        self.descend(Frame::If { then_branch, else_branch }, cond)
    }

    /// Enters a block.
    fn evaluate_block(&mut self, statements: Vec<S>) -> (action: Action)
        ensures
            (machine::Transition { state: final(self)@, action: action@ })
                == machine::enter_block(old(self)@, views(statements@)),
    {
        if statements.len() == 0 {
            self.turn(Focus::Deliver(Value::Nil))
        } else {
            let first = statements[0].clone();
            self.descend(Frame::Block { statements, next: 1 }, first)
        }
    }

    /// Enters a function definition.
    fn evaluate_function_def(&mut self, name: S, args: Vec<S>, body: S) -> (action: Action)
        ensures
            (machine::Transition { state: final(self)@, action: action@ })
                == machine::enter_definition(old(self)@, name@, views(args@), body@),
    {
        match name_in(&name) {
            Some(called) => {
                let mut params: Vec<String> = Vec::new();
                let mut i: usize = 0;
                while i < args.len()
                    invariant
                        i <= args.len(),
                        params.len() == i,
                        forall|j: int|
                            0 <= j < i ==> machine::is_name(#[trigger] views(args@)[j])
                                && params[j]@ == machine::name_of(views(args@)[j]),
                        self@ == old(self)@,
                        machine::is_name(name@),
                    decreases args.len() - i,
                {
                    match name_in(&args[i]) {
                        Some(param) => {
                            params.push(param);
                        },
                        None => {
                            assert(!machine::is_name(views(args@)[i as int]));
                            return self.raise(EvalError::ParameterNotIdentifier);
                        },
                    }
                    i += 1;
                }
                assert(machine::parameter_names(views(args@)) == Some(texts(params@))) by {
                    assert(texts(params@) =~= Seq::new(
                        views(args@).len(),
                        |i: int| machine::name_of(views(args@)[i]),
                    ));
                }
                let function = Value::Function {
                    name: called.clone(),
                    params,
                    body: Box::new(body),
                };
                let copy = function.clone();
                self.variables.insert(called, function);
                self.focus = Focus::Deliver(copy);
                Action::Continue
            },
            None => self.raise(EvalError::FunctionNameNotIdentifier),
        }
    }

    /// Enters a call.
    fn evaluate_function_call(&mut self, name: S, args: Vec<S>) -> (action: Action)
        ensures
            (machine::Transition { state: final(self)@, action: action@ })
                == machine::enter_call(old(self)@, name@, views(args@)),
    {
        let callee = match name_in(&name) {
            Some(callee) => callee,
            None => {
                return self.raise(EvalError::FunctionNameNotIdentifier);
            },
        };
        let function = match self.variables.get(&callee) {
            Some(Value::Function { name, params, body }) => Some(
                (clone_names(params), (&**body).clone()),
            ),
            _ => None,
        };
        match function {
            Some((params, body)) => {
                if args.len() != params.len() {
                    let error = EvalError::WrongArity {
                        expected: params.len(),
                        actual: args.len(),
                    };
                    self.raise(error)
                } else if args.len() == 0 {
                    self.invoke(Environment::new(), body)
                } else {
                    let first = args[0].clone();
                    let name = params[0].clone();
                    let frame = Frame::Arguments {
                        name,
                        params,
                        args,
                        next: 1,
                        body,
                        bound: Environment::new(),
                    };
                    self.descend(frame, first)
                }
            },
            None => {
                if callee == String::from_str("print") {
                    if args.len() == 0 {
                        let pieces: Vec<Piece> = Vec::new();
                        assert(pieces_view(pieces@) =~= Seq::<crate::value::PieceView>::empty());
                        self.ask(Request::Print(pieces))
                    } else {
                        let first = args[0].clone();
                        let pieces: Vec<Piece> = Vec::new();
                        assert(pieces_view(pieces@) =~= Seq::<crate::value::PieceView>::empty());
                        self.descend(Frame::Print { args, next: 1, pieces }, first)
                    }
                } else {
                    self.raise(EvalError::NotAFunction(callee))
                }
            },
        }
    }

    /// Enters a tree.
    fn evaluate(&mut self, tree: S) -> (action: Action)
        ensures
            (machine::Transition { state: final(self)@, action: action@ }) == machine::enter(
                old(self)@,
                tree@,
            ),
    {
        match tree {
            S::Atom(token) => self.evaluate_atom(token),
            S::Cons(token, args) => {
                proof {
                    S::lemma_models(&args);
                }
                self.evaluate_cons(token, args)
            },
            S::BinaryExpr { op, lhs, rhs } => self.evaluate_binary_expr(op, *lhs, *rhs),
            S::IfExpr { cond, then_branch, else_branch } => {
                let else_branch = match else_branch {
                    Some(branch) => Some(*branch),
                    None => None,
                };
                self.evaluate_if_expr(*cond, *then_branch, else_branch)
            },
            S::Block(statements) => {
                proof {
                    S::lemma_models(&statements);
                }
                self.evaluate_block(statements)
            },
            S::FunDef { name, args, body } => {
                proof {
                    S::lemma_models(&args);
                }
                self.evaluate_function_def(*name, args, *body)
            },
            S::FunCall { name, args } => {
                proof {
                    S::lemma_models(&args);
                }
                self.evaluate_function_call(*name, args)
            },
        }
    }
}

fn zero(bits: u64) -> (r: bool)
    ensures
        r == crate::value::is_zero(bits),
{
    bits == 0 || bits == 0x8000_0000_0000_0000
}

impl Interpreter {
    /// Addition of numbers, and concatenation of strings.
    pub fn add(left: Value, right: Value) -> (r: Reply)
        ensures
            r@ == machine::add(left@, right@),
    {
        match (left, right) {
            (Value::Number(a), Value::Number(b)) => Reply::Ask(
                Request::Arithmetic { op: Op::Plus, lhs: a, rhs: b },
            ),
            (Value::String(a), Value::String(b)) => {
                let mut text = a;
                text.append(b.as_str());
                Reply::Value(Value::String(text))
            },
            _ => Reply::Error(EvalError::InvalidOperands(Operation::Addition)),
        }
    }

    /// Subtraction of numbers.
    pub fn subtract(left: Value, right: Value) -> (r: Reply)
        ensures
            r@ == machine::subtract(left@, right@),
    {
        match (left, right) {
            (Value::Number(a), Value::Number(b)) => Reply::Ask(
                Request::Arithmetic { op: Op::Minus, lhs: a, rhs: b },
            ),
            _ => Reply::Error(EvalError::InvalidOperands(Operation::Subtraction)),
        }
    }

    /// Multiplication of numbers.
    pub fn multiply(left: Value, right: Value) -> (r: Reply)
        ensures
            r@ == machine::multiply(left@, right@),
    {
        match (left, right) {
            (Value::Number(a), Value::Number(b)) => Reply::Ask(
                Request::Arithmetic { op: Op::Star, lhs: a, rhs: b },
            ),
            _ => Reply::Error(EvalError::InvalidOperands(Operation::Multiplication)),
        }
    }

    /// Division of numbers; a divisor that is zero is an error.
    pub fn divide(left: Value, right: Value) -> (r: Reply)
        ensures
            r@ == machine::divide(left@, right@),
    {
        match (left, right) {
            (Value::Number(a), Value::Number(b)) => {
                if zero(b) {
                    Reply::Error(EvalError::DivisionByZero)
                } else {
                    Reply::Ask(Request::Arithmetic { op: Op::Slash, lhs: a, rhs: b })
                }
            },
            _ => Reply::Error(EvalError::InvalidOperands(Operation::Division)),
        }
    }

    /// Equality of two values.
    pub fn equals(left: Value, right: Value) -> (r: Reply)
        ensures
            r@ == machine::equals(left@, right@),
    {
        match (left, right) {
            (Value::Number(a), Value::Number(b)) => Reply::Ask(
                Request::Compare { comparison: Comparison::Equal, lhs: a, rhs: b },
            ),
            (Value::String(a), Value::String(b)) => Reply::Value(Value::Boolean(a == b)),
            (Value::Boolean(a), Value::Boolean(b)) => Reply::Value(Value::Boolean(a == b)),
            (Value::Nil, Value::Nil) => Reply::Value(Value::Boolean(true)),
            _ => Reply::Value(Value::Boolean(false)),
        }
    }

    /// The opposite of equality.
    pub fn not_equals(left: Value, right: Value) -> (r: Reply)
        ensures
            r@ == machine::not_equals(left@, right@),
    {
        match Self::equals(left, right) {
            Reply::Value(Value::Boolean(b)) => Reply::Value(Value::Boolean(!b)),
            Reply::Ask(request) => Reply::AskNegated(request),
            other => other,
        }
    }

    /// An ordering comparison of numbers.
    fn order(comparison: Comparison, operation: Operation, left: Value, right: Value) -> (r:
        Reply)
        ensures
            r@ == machine::order(comparison, operation, left@, right@),
    {
        match (left, right) {
            (Value::Number(a), Value::Number(b)) => Reply::Ask(
                Request::Compare { comparison, lhs: a, rhs: b },
            ),
            _ => Reply::Error(EvalError::InvalidOperands(operation)),
        }
    }

    /// Whether the left number is less than the right one.
    pub fn less_than(left: Value, right: Value) -> (r: Reply)
        ensures
            r@ == machine::order(Comparison::Less, Operation::LessThan, left@, right@),
    {
        Self::order(Comparison::Less, Operation::LessThan, left, right)
    }

    /// Whether the left number is at most the right one.
    pub fn less_equal(left: Value, right: Value) -> (r: Reply)
        ensures
            r@ == machine::order(Comparison::LessEqual, Operation::LessOrEqual, left@, right@),
    {
        Self::order(Comparison::LessEqual, Operation::LessOrEqual, left, right)
    }

    /// Whether the left number is greater than the right one.
    pub fn greater_than(left: Value, right: Value) -> (r: Reply)
        ensures
            r@ == machine::order(Comparison::Greater, Operation::GreaterThan, left@, right@),
    {
        Self::order(Comparison::Greater, Operation::GreaterThan, left, right)
    }

    /// Whether the left number is at least the right one.
    pub fn greater_equal(left: Value, right: Value) -> (r: Reply)
        ensures
            r@ == machine::order(
                Comparison::GreaterEqual,
                Operation::GreaterOrEqual,
                left@,
                right@,
            ),
    {
        Self::order(Comparison::GreaterEqual, Operation::GreaterOrEqual, left, right)
    }

    /// Applies the operator that `operator` stands for to two values.
    pub fn apply(operator: Token, left: Value, right: Value) -> (r: Reply)
        ensures
            r@ == machine::apply(operator@, left@, right@),
    {
        match operator.kind {
            TokenKind::Plus => Self::add(left, right),
            TokenKind::Minus => Self::subtract(left, right),
            TokenKind::Star => Self::multiply(left, right),
            TokenKind::Slash => Self::divide(left, right),
            TokenKind::EqualEqual => Self::equals(left, right),
            TokenKind::BangEqual => Self::not_equals(left, right),
            TokenKind::Less => Self::less_than(left, right),
            TokenKind::LessEqual => Self::less_equal(left, right),
            TokenKind::Greater => Self::greater_than(left, right),
            TokenKind::GreaterEqual => Self::greater_equal(left, right),
            _ => Reply::Error(EvalError::UnknownOperator(operator)),
        }
    }

    /// Hands `value` to `frame`, which has been taken off the stack.
    fn resume_frame(&mut self, frame: Frame, value: Value) -> (action: Action)
        ensures
            (machine::Transition { state: final(self)@, action: action@ })
                == machine::resume_frame(old(self)@, frame@, value@),
    {
        match frame {
            Frame::Let { name } => {
                let copy = value.clone();
                self.variables.insert(name, value);
                self.focus = Focus::Deliver(copy);
                Action::Continue
            },
            Frame::WhileCondition { condition, body } => {
                let holds = match value {
                    Value::Boolean(true) => true,
                    _ => false,
                };
                if holds {
                    let first = body.clone();
                    self.descend(Frame::WhileBody { condition, body }, first)
                } else {
                    self.turn(Focus::Deliver(Value::Nil))
                }
            },
            Frame::WhileBody { condition, body } => {
                let first = condition.clone();
                self.descend(Frame::WhileCondition { condition, body }, first)
            },
            Frame::Left { operator, right } => self.descend(
                Frame::Right { operator, left: value },
                right,
            ),
            Frame::Right { operator, left } => match Self::apply(operator, left, value) {
                Reply::Value(result) => self.turn(Focus::Deliver(result)),
                Reply::Error(error) => self.raise(error),
                Reply::Ask(request) => self.ask(request),
                Reply::AskNegated(request) => {
                    self.stack.push(Frame::Negate);
                    assert(frames_view(self.stack@) =~= frames_view(old(self).stack@).push(
                        FrameView::Negate,
                    ));
                    self.ask(request)
                },
            },
            Frame::Negate => {
                let result = match value {
                    Value::Boolean(b) => Value::Boolean(!b),
                    other => other,
                };
                self.turn(Focus::Deliver(result))
            },
            Frame::If { then_branch, else_branch } => match value {
                Value::Boolean(true) => self.turn(Focus::Evaluate(then_branch)),
                Value::Boolean(false) => match else_branch {
                    Some(branch) => self.turn(Focus::Evaluate(branch)),
                    None => self.turn(Focus::Deliver(Value::Nil)),
                },
                _ => self.raise(EvalError::ConditionNotBoolean),
            },
            Frame::Block { statements, next } => {
                if next < statements.len() {
                    let tree = statements[next].clone();
                    self.descend(Frame::Block { statements, next: next + 1 }, tree)
                } else {
                    self.turn(Focus::Deliver(value))
                }
            },
            Frame::Arguments { name, params, args, next, body, bound } => {
                let mut bound = bound;
                bound.insert(name, value);
                if next < args.len() && next < params.len() {
                    let tree = args[next].clone();
                    let name = params[next].clone();
                    let frame = Frame::Arguments {
                        name,
                        params,
                        args,
                        next: next + 1,
                        body,
                        bound,
                    };
                    self.descend(frame, tree)
                } else {
                    self.invoke(bound, body)
                }
            },
            Frame::Call { saved } => {
                self.variables = saved;
                self.focus = Focus::Deliver(value);
                Action::Continue
            },
            Frame::Print { args, next, pieces } => {
                let mut pieces = pieces;
                let ghost before = pieces_view(pieces@);
                let piece = value.display();
                pieces.push(piece);
                assert(pieces_view(pieces@) =~= before.push(value@.display()));
                if next < args.len() {
                    let tree = args[next].clone();
                    self.descend(Frame::Print { args, next: next + 1, pieces }, tree)
                } else {
                    self.ask(Request::Print(pieces))
                }
            },
        }
    }

    /// Hands `value` to the frame on top of the stack.
    fn resume(&mut self, value: Value) -> (action: Action)
        requires
            old(self)@.focus is Idle,
        ensures
            (machine::Transition { state: final(self)@, action: action@ }) == machine::resume(
                old(self)@,
                value@,
            ),
    {
        match self.stack.pop() {
            Some(frame) => {
                assert(frames_view(self.stack@) =~= frames_view(old(self).stack@).drop_last());
                self.resume_frame(frame, value)
            },
            None => Action::Done(Ok(value)),
        }
    }

    /// Passes `error` out of the frame on top of the stack.
    fn unwind(&mut self, error: EvalError) -> (action: Action)
        requires
            old(self)@.focus is Idle,
        ensures
            (machine::Transition { state: final(self)@, action: action@ }) == machine::unwind(
                old(self)@,
                error@,
            ),
    {
        match self.stack.pop() {
            Some(frame) => {
                assert(frames_view(self.stack@) =~= frames_view(old(self).stack@).drop_last());
                match frame {
                    Frame::Call { saved } => {
                        self.variables = saved;
                    },
                    _ => {},
                }
                self.raise(error)
            },
            None => Action::Done(Err(error)),
        }
    }

    /// Takes the host's answer to `request`.
    fn answer(&mut self, request: Request, event: Event) -> (action: Action)
        ensures
            (machine::Transition { state: final(self)@, action: action@ }) == machine::answer(
                old(self)@,
                request@,
                event,
            ),
    {
        let value = match (&request, event) {
            (Request::ParseNumber(_), Event::Number(bits)) => Some(Value::Number(bits)),
            (Request::Arithmetic { .. }, Event::Number(bits)) => Some(Value::Number(bits)),
            (Request::Compare { .. }, Event::Boolean(truth)) => Some(Value::Boolean(truth)),
            (Request::Print(_), Event::Printed) => Some(Value::Nil),
            _ => None,
        };
        match value {
            Some(value) => self.turn(Focus::Deliver(value)),
            None => self.ask(request),
        }
    }

    /// Takes the next statement from the parser.
    fn pull(&mut self) -> (action: Action)
        requires
            old(self)@.focus is Idle,
        ensures
            (machine::Transition { state: final(self)@, action: action@ }) == machine::pull(
                old(self)@,
            ),
    {
        match self.parser.parse_statement() {
            Some(Ok(tree)) => {
                self.focus = Focus::Evaluate(tree);
                Action::Continue
            },
            Some(Err(error)) => Action::ParseFailed(error),
            None => Action::Finished,
        }
    }

    /// Takes one step. The host performs the action that comes back and
    /// calls again, with the answer where the action asked for one and with
    /// [`Event::Resume`] where it did not.
    pub fn step(&mut self, event: Event) -> (action: Action)
        ensures
            (machine::Transition { state: final(self)@, action: action@ }) == machine::step(
                old(self)@,
                event,
            ),
    {
        let mut focus = Focus::Idle;
        core::mem::swap(&mut self.focus, &mut focus);
        match focus {
            Focus::Idle => self.pull(),
            Focus::Evaluate(tree) => self.evaluate(tree),
            Focus::Deliver(value) => self.resume(value),
            Focus::Raise(error) => self.unwind(error),
            Focus::Await(request) => self.answer(request, event),
        }
    }

    /// Runs the machine until it has something for the host, or until
    /// `limit` steps have been taken; at least one step is taken. The first
    /// step takes `event`. An action other than [`Action::Continue`] is for
    /// the host to perform; [`Action::Continue`] says that the limit ended
    /// the run and that the machine can go on.
    pub fn run(&mut self, event: Event, limit: usize) -> (action: Action)
        ensures
            (machine::Transition { state: final(self)@, action: action@ }) == machine::run(
                old(self)@,
                event,
                limit as nat,
            ),
    {
        let mut action = self.step(event);
        let mut taken: usize = 1;
        loop
            invariant
                1 <= taken,
                machine::run(old(self)@, event, limit as nat) == (if limit <= taken || action@
                    != ActionView::Continue {
                    machine::Transition { state: self@, action: action@ }
                } else {
                    machine::run(self@, Event::Resume, (limit - taken) as nat)
                }),
            ensures
                (machine::Transition { state: self@, action: action@ }) == machine::run(
                    old(self)@,
                    event,
                    limit as nat,
                ),
            decreases limit - taken,
        {
            let goes_on = match action {
                Action::Continue => true,
                _ => false,
            };
            if taken >= limit || !goes_on {
                break ;
            }
            action = self.step(Event::Resume);
            taken = taken + 1;
        }
        action
    }

    /// Makes `tree` the next thing to evaluate, if the interpreter stands
    /// between statements, and says whether it did.
    pub fn load(&mut self, tree: S) -> (r: bool)
        ensures
            r == (old(self)@.focus is Idle),
            final(self)@ == if r {
                State { focus: FocusView::Evaluate(tree@), ..old(self)@ }
            } else {
                old(self)@
            },
    {
        if self.is_idle() {
            self.focus = Focus::Evaluate(tree);
            true
        } else {
            false
        }
    }
}

} // verus!
