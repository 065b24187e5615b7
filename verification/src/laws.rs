//! Laws of the language, proved from the lexical grammar, the grammar and
//! the machine.

use vstd::prelude::*;
use crate::diagnostic::EvalErrorView;
use crate::diagnostic::LexErrorKind;
use crate::diagnostic::Operation;
use crate::grammar;
use crate::grammar::Outcome;
use crate::grammar::Parsed;
use crate::scan::Lexed;
use crate::diagnostic::SpanView;
use crate::machine::enter;
use crate::machine::step;
use crate::machine::ActionView;
use crate::machine::Event;
use crate::machine::FocusView;
use crate::machine::FrameView;
use crate::machine::RequestView;
use crate::machine::State;
use crate::scan;
use crate::scan::Cursor;
use crate::syntax::Op;
use crate::syntax::SView;
use crate::token::TokenKindView;
use crate::token::TokenView;
use crate::value::is_zero;
use crate::value::ValueView;

verus! {

/// A string literal that is never closed is an error whose span runs from
/// the opening quote to the end of the input, and nothing is left to lex
/// behind it.
pub proof fn law_unterminated_string(input: Seq<char>, cur: Cursor)
    requires
        cur.within(input),
        cur.position < input.len(),
        input[cur.position] == '"',
        forall|i: int| cur.position < i < input.len() ==> input[i] != '"',
    ensures
        scan::lex(input, cur) is Some,
        scan::lex(input, cur)->0.item is Err,
        scan::lex(input, cur)->0.item->Err_0.kind == LexErrorKind::UnterminatedString,
        scan::lex(input, cur)->0.item->Err_0.span == (SpanView {
            offset: cur.position,
            length: input.len() - cur.position,
        }),
        scan::lex(input, cur)->0.next.position == input.len(),
        scan::lex(input, scan::lex(input, cur)->0.next) is None,
{
    let p = cur.position;
    scan::lemma_string_end(input, Cursor { position: p + 1, line: cur.line, column: cur.column });
    let behind = scan::lex(input, cur)->0.next;
    assert(scan::skip_blank(input, behind) == behind);
}

/// A decimal point that no digit follows is not part of the number before
/// it: the number ends before the point, and the point is the next token.
pub proof fn law_trailing_point(input: Seq<char>, cur: Cursor)
    requires
        cur.within(input),
        cur.position < input.len(),
        scan::is_digit(input[cur.position]),
        scan::digits_end(input, cur.position + 1) < input.len(),
        input[scan::digits_end(input, cur.position + 1)] == '.',
        scan::digits_end(input, cur.position + 1) + 1 < input.len() ==> !scan::is_digit(
            input[scan::digits_end(input, cur.position + 1) + 1],
        ),
    ensures
        scan::lex(input, cur) is Some,
        scan::lex(input, cur)->0.item is Ok,
        scan::lex(input, cur)->0.item->Ok_0.kind == TokenKindView::Number(
            input.subrange(cur.position, scan::digits_end(input, cur.position + 1)),
        ),
        scan::lex(input, cur)->0.next.position == scan::digits_end(input, cur.position + 1),
        scan::lex(input, scan::lex(input, cur)->0.next) is Some,
        scan::lex(input, scan::lex(input, cur)->0.next)->0.item is Ok,
        scan::lex(input, scan::lex(input, cur)->0.next)->0.item->Ok_0.kind == TokenKindView::Dot,
{
    scan::lemma_digits_end(input, cur.position + 1);
}

/// A numeric literal evaluates to the number that the host reads its text
/// as: the machine asks for exactly the literal's text, and the answer is
/// the value that it delivers.
pub proof fn law_number_literal(state: State, token: TokenView, bits: u64)
    requires
        token.kind is Number,
        state.focus == FocusView::Evaluate(SView::Atom(token)),
    ensures
        step(state, Event::Resume).action == ActionView::Ask(
            RequestView::ParseNumber(token.kind->Number_0),
        ),
        step(step(state, Event::Resume).state, Event::Number(bits)).action
            == ActionView::Continue,
        step(step(state, Event::Resume).state, Event::Number(bits)).state == (State {
            focus: FocusView::Deliver(ValueView::Number(bits)),
            ..state
        }),
{
}

/// A binding overwrites: once `let` has bound a name to a value, the name
/// evaluates to that value, whatever it was bound to before, and every other
/// name is bound as it was.
pub proof fn law_let_overwrites(state: State, name: Seq<char>, value: ValueView, token: TokenView)
    requires
        state.stack.len() > 0,
        state.stack.last() == (FrameView::Let { name }),
        state.focus == FocusView::Deliver(value),
        token.kind == TokenKindView::Identifier(name),
    ensures
        step(state, Event::Resume).state.variables == state.variables.insert(name, value),
        enter(step(state, Event::Resume).state, SView::Atom(token)).state.focus
            == FocusView::Deliver(value),
{
}

/// A loop whose condition is not true ends with nil and does not evaluate
/// its body: the loop's frame is taken off the stack and nothing is put in
/// its place.
pub proof fn law_while_stops(state: State, condition: SView, body: SView, value: ValueView)
    requires
        state.stack.len() > 0,
        state.stack.last() == (FrameView::WhileCondition { condition, body }),
        state.focus == FocusView::Deliver(value),
        value != ValueView::Boolean(true),
    ensures
        step(state, Event::Resume) == (crate::machine::Transition {
            state: State {
                stack: state.stack.drop_last(),
                focus: FocusView::Deliver(ValueView::Nil),
                ..state
            },
            action: ActionView::Continue,
        }),
{
}

/// A loop whose condition is the literal `false` is nil after three steps,
/// none of which asks anything of the host; the variables and the stack are
/// as before.
pub proof fn law_while_false(state: State, keyword: TokenView, condition: TokenView, body: SView)
    requires
        keyword.kind is While,
        condition.kind is False,
        state.focus == FocusView::Evaluate(
            SView::Cons(keyword, seq![SView::Atom(condition), body]),
        ),
    ensures
        ({
            let first = step(state, Event::Resume);
            let second = step(first.state, Event::Resume);
            let third = step(second.state, Event::Resume);
            &&& first.action == ActionView::Continue
            &&& second.action == ActionView::Continue
            &&& third.action == ActionView::Continue
            &&& first.state.focus == FocusView::Evaluate(SView::Atom(condition))
            &&& second.state.focus == FocusView::Deliver(ValueView::Boolean(false))
            &&& third.state == (State { focus: FocusView::Deliver(ValueView::Nil), ..state })
        }),
{
    let first = step(state, Event::Resume);
    let second = step(first.state, Event::Resume);
    let third = step(second.state, Event::Resume);
    assert(first.state.stack.drop_last() =~= state.stack);
}

/// The state after the machine has taken one step for each of `events`, in
/// order.
pub open spec fn after(state: State, events: Seq<Event>) -> State
    decreases events.len(),
{
    if events.len() == 0 {
        state
    } else {
        step(after(state, events.drop_last()), events.last()).state
    }
}

/// A step takes at most one frame off the stack and changes nothing below
/// the frame on top. A call's frame is changed by no step; the step that
/// takes it off puts the environment that it saved in force.
pub proof fn law_step_keeps_call(
    state: State,
    event: Event,
    depth: int,
    saved: Map<Seq<char>, ValueView>,
)
    requires
        0 <= depth < state.stack.len(),
        state.stack[depth] == (FrameView::Call { saved }),
    ensures
        step(state, event).state.stack.len() >= depth,
        step(state, event).state.stack.len() > depth ==> step(state, event).state.stack.take(
            depth + 1,
        ) == state.stack.take(depth + 1),
        step(state, event).state.stack.len() == depth ==> {
            &&& step(state, event).state.stack == state.stack.take(depth)
            &&& step(state, event).state.variables == saved
        },
{
    let after = step(state, event).state;
    let below = state.stack.drop_last();
    if after.stack.len() > depth {
        assert(after.stack.take(depth + 1) =~= state.stack.take(depth + 1));
    } else {
        assert(after.stack =~= state.stack.take(depth));
    }
}

/// As long as a call's frame is on the stack, it and what lies below it
/// stay as they are.
pub proof fn law_call_frame_stays(
    state: State,
    events: Seq<Event>,
    depth: int,
    saved: Map<Seq<char>, ValueView>,
)
    requires
        0 <= depth < state.stack.len(),
        state.stack[depth] == (FrameView::Call { saved }),
        forall|k: int| 0 <= k <= events.len() ==> after(state, #[trigger] events.take(k)).stack.len()
            > depth,
    ensures
        after(state, events).stack.take(depth + 1) == state.stack.take(depth + 1),
    decreases events.len(),
{
    if events.len() > 0 {
        let before = events.drop_last();
        assert forall|k: int| 0 <= k <= before.len() implies after(
            state,
            #[trigger] before.take(k),
        ).stack.len() > depth by {
            assert(before.take(k) =~= events.take(k));
        }
        law_call_frame_stays(state, before, depth, saved);
        let middle = after(state, before);
        assert(middle.stack[depth] == middle.stack.take(depth + 1)[depth]);
        assert(state.stack[depth] == state.stack.take(depth + 1)[depth]);
        law_step_keeps_call(middle, events.last(), depth, saved);
        assert(events.take(events.len() as int) =~= events);
        assert(events.take(events.len() - 1) =~= before);
    }
}

/// A call gives the caller its environment back: when the frame of a call
/// leaves the stack, with a value or with an error, the environment that was
/// in force when the body began is in force again, and the stack below the
/// frame is as it was. What the body bound is gone with it.
pub proof fn law_call_restores_environment(
    state: State,
    events: Seq<Event>,
    depth: int,
    saved: Map<Seq<char>, ValueView>,
)
    requires
        0 <= depth < state.stack.len(),
        state.stack[depth] == (FrameView::Call { saved }),
        events.len() > 0,
        forall|k: int| 0 <= k < events.len() ==> after(state, #[trigger] events.take(k)).stack.len()
            > depth,
        after(state, events).stack.len() <= depth,
    ensures
        after(state, events).variables == saved,
        after(state, events).stack == state.stack.take(depth),
{
    let before = events.drop_last();
    assert forall|k: int| 0 <= k <= before.len() implies after(
        state,
        #[trigger] before.take(k),
    ).stack.len() > depth by {
        assert(before.take(k) =~= events.take(k));
    }
    law_call_frame_stays(state, before, depth, saved);
    let middle = after(state, before);
    assert(events.take(events.len() - 1) =~= before);
    assert(middle.stack[depth] == middle.stack.take(depth + 1)[depth]);
    assert(state.stack[depth] == state.stack.take(depth + 1)[depth]);
    law_step_keeps_call(middle, events.last(), depth, saved);
    assert(middle.stack.take(depth) =~= middle.stack.take(depth + 1).take(depth));
    assert(state.stack.take(depth) =~= state.stack.take(depth + 1).take(depth));
}

/// The body of a call begins with the arguments alone in force, and the
/// caller's environment saved in the frame on top of the stack.
pub proof fn law_call_begins(state: State, bound: Map<Seq<char>, ValueView>, body: SView)
    ensures
        crate::machine::invoke(state, bound, body).state.variables == bound,
        crate::machine::invoke(state, bound, body).state.stack.last() == (FrameView::Call {
            saved: state.variables,
        }),
        crate::machine::invoke(state, bound, body).state.stack.drop_last() == state.stack,
{
    assert(crate::machine::invoke(state, bound, body).state.stack.drop_last() =~= state.stack);
}

/// A token that stands for a value: a number, a string or a name.
pub open spec fn is_operand(token: TokenView) -> bool {
    token.kind is Number || token.kind is String || token.kind is Identifier
}

/// An operand alone, with nothing behind it that continues an expression,
/// is an atom.
proof fn lemma_single_operand(c: TokenView, min_bp: u8)
    requires
        is_operand(c),
    ensures
        grammar::expression(seq![Ok::<TokenView, crate::diagnostic::LexErrorView>(c)], min_bp)
            == (Parsed::<Outcome> { value: Ok(SView::Atom(c)), rest: Seq::<Lexed>::empty() }),
{
    let s: Seq<Lexed> = seq![Ok(c)];
    assert(s.drop_first() =~= Seq::<Lexed>::empty());
    assert(grammar::operators(Seq::<Lexed>::empty(), SView::Atom(c), min_bp) == (Parsed::<
        Outcome,
    > { value: Ok(SView::Atom(c)), rest: Seq::<Lexed>::empty() }));
}

/// Multiplication binds tighter than addition: in `a + b * c` the sum has
/// the product as its right operand.
pub proof fn law_product_binds_tighter(
    a: TokenView,
    plus: TokenView,
    b: TokenView,
    star: TokenView,
    c: TokenView,
)
    requires
        is_operand(a),
        is_operand(b),
        is_operand(c),
        plus.kind is Plus,
        star.kind is Star,
    ensures
        grammar::expression(seq![Ok(a), Ok(plus), Ok(b), Ok(star), Ok(c)], 0) == (Parsed::<
            Outcome,
        > {
            value: Ok(
                SView::Cons(
                    plus,
                    seq![SView::Atom(a), SView::Cons(star, seq![SView::Atom(b), SView::Atom(c)])],
                ),
            ),
            rest: Seq::<Lexed>::empty(),
        }),
{
    let none = Seq::<Lexed>::empty();
    let s5: Seq<Lexed> = seq![Ok(a), Ok(plus), Ok(b), Ok(star), Ok(c)];
    let s4: Seq<Lexed> = seq![Ok(plus), Ok(b), Ok(star), Ok(c)];
    let s3: Seq<Lexed> = seq![Ok(b), Ok(star), Ok(c)];
    let s2: Seq<Lexed> = seq![Ok(star), Ok(c)];
    let s1: Seq<Lexed> = seq![Ok(c)];
    assert(s5.drop_first() =~= s4);
    assert(s4.drop_first() =~= s3);
    assert(s3.drop_first() =~= s2);
    assert(s2.drop_first() =~= s1);
    let product = SView::Cons(star, seq![SView::Atom(b), SView::Atom(c)]);
    let sum = SView::Cons(plus, seq![SView::Atom(a), product]);
    lemma_single_operand(c, 4);
    assert(grammar::operators(none, product, 2) == (Parsed::<Outcome> {
        value: Ok(product),
        rest: none,
    }));
    assert(grammar::operators(s2, SView::Atom(b), 2) == (Parsed::<Outcome> {
        value: Ok(product),
        rest: none,
    }));
    assert(grammar::expression(s3, 2) == (Parsed::<Outcome> { value: Ok(product), rest: none }));
    assert(grammar::operators(none, sum, 0) == (Parsed::<Outcome> { value: Ok(sum), rest: none }));
    assert(grammar::operators(s4, SView::Atom(a), 0) == (Parsed::<Outcome> {
        value: Ok(sum),
        rest: none,
    }));
}

/// Round brackets group: in `(a + b) * c` the product has the sum as its
/// left operand.
pub proof fn law_brackets_group(
    open: TokenView,
    a: TokenView,
    plus: TokenView,
    b: TokenView,
    close: TokenView,
    star: TokenView,
    c: TokenView,
)
    requires
        is_operand(a),
        is_operand(b),
        is_operand(c),
        open.kind is LeftParen,
        close.kind is RightParen,
        plus.kind is Plus,
        star.kind is Star,
    ensures
        grammar::expression(
            seq![Ok(open), Ok(a), Ok(plus), Ok(b), Ok(close), Ok(star), Ok(c)],
            0,
        ) == (Parsed::<Outcome> {
            value: Ok(
                SView::Cons(
                    star,
                    seq![SView::Cons(plus, seq![SView::Atom(a), SView::Atom(b)]), SView::Atom(c)],
                ),
            ),
            rest: Seq::<Lexed>::empty(),
        }),
{
    let none = Seq::<Lexed>::empty();
    let s7: Seq<Lexed> = seq![Ok(open), Ok(a), Ok(plus), Ok(b), Ok(close), Ok(star), Ok(c)];
    let s6: Seq<Lexed> = seq![Ok(a), Ok(plus), Ok(b), Ok(close), Ok(star), Ok(c)];
    let s5: Seq<Lexed> = seq![Ok(plus), Ok(b), Ok(close), Ok(star), Ok(c)];
    let s4: Seq<Lexed> = seq![Ok(b), Ok(close), Ok(star), Ok(c)];
    let s3: Seq<Lexed> = seq![Ok(close), Ok(star), Ok(c)];
    let s2: Seq<Lexed> = seq![Ok(star), Ok(c)];
    let s1: Seq<Lexed> = seq![Ok(c)];
    assert(s7.drop_first() =~= s6);
    assert(s6.drop_first() =~= s5);
    assert(s5.drop_first() =~= s4);
    assert(s4.drop_first() =~= s3);
    assert(s3.drop_first() =~= s2);
    assert(s2.drop_first() =~= s1);
    let sum = SView::Cons(plus, seq![SView::Atom(a), SView::Atom(b)]);
    let product = SView::Cons(star, seq![sum, SView::Atom(c)]);
    lemma_single_operand(c, 4);
    assert(grammar::operators(s3, SView::Atom(b), 2) == (Parsed::<Outcome> {
        value: Ok(SView::Atom(b)),
        rest: s3,
    }));
    assert(grammar::expression(s4, 2) == (Parsed::<Outcome> {
        value: Ok(SView::Atom(b)),
        rest: s3,
    }));
    assert(grammar::operators(s3, sum, 0) == (Parsed::<Outcome> { value: Ok(sum), rest: s3 }));
    assert(grammar::operators(s5, SView::Atom(a), 0) == (Parsed::<Outcome> {
        value: Ok(sum),
        rest: s3,
    }));
    assert(grammar::expression(s6, 0) == (Parsed::<Outcome> { value: Ok(sum), rest: s3 }));
    assert(grammar::operators(none, product, 0) == (Parsed::<Outcome> {
        value: Ok(product),
        rest: none,
    }));
    assert(grammar::operators(s2, sum, 0) == (Parsed::<Outcome> {
        value: Ok(product),
        rest: none,
    }));
}

/// Addition joins two strings; of a number and a string, either way round,
/// it is an error. Only the sum of two numbers is asked of the host.
pub proof fn law_addition(state: State, plus: TokenView, left: ValueView, right: ValueView)
    requires
        plus.kind is Plus,
        state.stack.len() > 0,
        state.stack.last() == (FrameView::Right { operator: plus, left }),
        state.focus == FocusView::Deliver(right),
    ensures
        !(left is Number && right is Number) ==> step(state, Event::Resume).action
            == ActionView::Continue,
        left is String && right is String ==> step(state, Event::Resume).state.focus
            == FocusView::Deliver(ValueView::String(left->String_0 + right->String_0)),
        (left is Number && right is String) || (left is String && right is Number) ==> step(
            state,
            Event::Resume,
        ).state.focus == FocusView::Raise(EvalErrorView::InvalidOperands(Operation::Addition)),
        left is Number && right is Number ==> step(state, Event::Resume).action
            == ActionView::Ask(
            RequestView::Arithmetic {
                op: Op::Plus,
                lhs: left->Number_0,
                rhs: right->Number_0,
            },
        ),
        step(state, Event::Resume).state.stack == state.stack.drop_last(),
        step(state, Event::Resume).state.variables == state.variables,
{
    assert(step(state, Event::Resume).state.stack =~= state.stack.drop_last());
}

/// Division by zero is an error, and the host is not asked; any other
/// quotient of two numbers is the host's to compute.
pub proof fn law_division(state: State, slash: TokenView, dividend: u64, divisor: u64)
    requires
        slash.kind is Slash,
        state.stack.len() > 0,
        state.stack.last() == (FrameView::Right {
            operator: slash,
            left: ValueView::Number(dividend),
        }),
        state.focus == FocusView::Deliver(ValueView::Number(divisor)),
    ensures
        is_zero(divisor) ==> step(state, Event::Resume) == (crate::machine::Transition {
            state: State {
                stack: state.stack.drop_last(),
                focus: FocusView::Raise(EvalErrorView::DivisionByZero),
                ..state
            },
            action: ActionView::Continue,
        }),
        !is_zero(divisor) ==> step(state, Event::Resume).action == ActionView::Ask(
            RequestView::Arithmetic { op: Op::Slash, lhs: dividend, rhs: divisor },
        ),
        !is_zero(divisor) ==> forall|quotient: u64|
            (#[trigger] step(step(state, Event::Resume).state, Event::Number(quotient))).state.focus
                == FocusView::Deliver(ValueView::Number(quotient)),
{
}

/// A call with another number of arguments than the function has
/// parameters is an error that names both numbers. No argument is
/// evaluated, and nothing is bound.
pub proof fn law_arity(state: State, callee: TokenView, args: Seq<SView>)
    requires
        callee.kind is Identifier,
        state.variables.contains_key(callee.kind->Identifier_0),
        state.variables[callee.kind->Identifier_0] is Function,
        state.variables[callee.kind->Identifier_0]->params.len() != args.len(),
        state.focus == FocusView::Evaluate(
            SView::FunCall { name: Box::new(SView::Atom(callee)), args },
        ),
    ensures
        step(state, Event::Resume) == (crate::machine::Transition {
            state: State {
                focus: FocusView::Raise(
                    EvalErrorView::WrongArity {
                        expected: state.variables[callee.kind->Identifier_0]->params.len() as int,
                        actual: args.len() as int,
                    },
                ),
                ..state
            },
            action: ActionView::Continue,
        }),
{
}

/// A conditional takes the first branch when its condition is true and the
/// second when it is false; without a second branch it is nil. A condition
/// that is no boolean is an error.
pub proof fn law_conditional(
    state: State,
    then_branch: SView,
    else_branch: Option<SView>,
    condition: ValueView,
)
    requires
        state.stack.len() > 0,
        state.stack.last() == (FrameView::If { then_branch, else_branch }),
        state.focus == FocusView::Deliver(condition),
    ensures
        step(state, Event::Resume).action == ActionView::Continue,
        step(state, Event::Resume).state.stack == state.stack.drop_last(),
        step(state, Event::Resume).state.variables == state.variables,
        step(state, Event::Resume).state.focus == match condition {
            ValueView::Boolean(true) => FocusView::Evaluate(then_branch),
            ValueView::Boolean(false) => match else_branch {
                Some(branch) => FocusView::Evaluate(branch),
                None => FocusView::Deliver(ValueView::Nil),
            },
            _ => FocusView::Raise(EvalErrorView::ConditionNotBoolean),
        },
{
    assert(step(state, Event::Resume).state.stack =~= state.stack.drop_last());
}

/// Inequality is the opposite of equality, whatever the operands: where
/// equality has a truth, inequality has the other one, and where equality
/// asks the host, inequality asks the same and turns the answer round.
pub proof fn law_inequality(left: ValueView, right: ValueView)
    ensures
        match crate::machine::equals(left, right) {
            crate::machine::ReplyView::Value(ValueView::Boolean(truth)) =>
                crate::machine::not_equals(left, right) == crate::machine::ReplyView::Value(
                    ValueView::Boolean(!truth),
                ),
            crate::machine::ReplyView::Ask(request) => crate::machine::not_equals(left, right)
                == crate::machine::ReplyView::AskNegated(request),
            _ => false,
        },
{
}

/// Once the lexer has nothing to hand out, it never has again.
pub proof fn law_end_is_final(input: Seq<char>, cur: Cursor)
    requires
        cur.within(input),
        scan::lex(input, cur) is None,
    ensures
        scan::lex(input, scan::skip_blank(input, cur)) is None,
        scan::tokens(input, cur).len() == 0,
        scan::tokens(input, scan::skip_blank(input, cur)).len() == 0,
{
    scan::lemma_skip_blank(input, cur);
    let end = scan::skip_blank(input, cur);
    assert(scan::skip_blank(input, end) == end);
}

/// An error on its way out binds nothing and unbinds nothing: the variables
/// change only where the frame of a call puts the caller's environment back.
/// What was bound before the failure stays bound.
pub proof fn law_failure_keeps_bindings(state: State, error: EvalErrorView)
    requires
        state.focus == FocusView::Raise(error),
    ensures
        state.stack.len() > 0 && state.stack.last() is Call ==> step(
            state,
            Event::Resume,
        ).state.variables == state.stack.last()->saved,
        !(state.stack.len() > 0 && state.stack.last() is Call) ==> step(
            state,
            Event::Resume,
        ).state.variables == state.variables,
        state.stack.len() > 0 ==> step(state, Event::Resume).state.focus == FocusView::Raise(
            error,
        ),
        state.stack.len() == 0 ==> step(state, Event::Resume).action == ActionView::Done(
            Err(error),
        ),
{
}

/// The stream of what is left to lex is what the lexer hands out first,
/// followed by the stream from where that step ends; it is empty when the
/// lexer has nothing to hand out.
pub proof fn law_stream_unfolds(input: Seq<char>, cur: Cursor)
    requires
        cur.within(input),
    ensures
        match scan::lex(input, cur) {
            Some(step) => scan::tokens(input, cur) == seq![step.item] + scan::tokens(
                input,
                step.next,
            ),
            None => scan::tokens(input, cur) == Seq::<Lexed>::empty(),
        },
{
    scan::lemma_lex_advances(input, cur);
}

/// Between statements nothing waits on the stack: a step keeps it so.
pub proof fn law_idle_stack_is_empty(state: State, event: Event)
    requires
        state.focus is Idle ==> state.stack.len() == 0,
    ensures
        step(state, event).state.focus is Idle ==> step(state, event).state.stack.len() == 0,
{
}

/// `let` with a numeric literal binds the name to the number that the host
/// reads the literal as, and that number is the value of the statement:
/// five steps from a machine that stands between statements, of which one
/// asks the host.
pub proof fn law_let_binds_literal(
    state: State,
    keyword: TokenView,
    name: TokenView,
    literal: TokenView,
    bits: u64,
)
    requires
        keyword.kind is Let,
        name.kind is Identifier,
        literal.kind is Number,
        state.stack.len() == 0,
        state.focus == FocusView::Evaluate(
            SView::Cons(keyword, seq![SView::Atom(name), SView::Atom(literal)]),
        ),
    ensures
        ({
            let first = step(state, Event::Resume);
            let second = step(first.state, Event::Resume);
            let third = step(second.state, Event::Number(bits));
            let fourth = step(third.state, Event::Resume);
            let fifth = step(fourth.state, Event::Resume);
            &&& first.action == ActionView::Continue
            &&& second.action == ActionView::Ask(
                RequestView::ParseNumber(literal.kind->Number_0),
            )
            &&& third.action == ActionView::Continue
            &&& fourth.action == ActionView::Continue
            &&& fifth.action == ActionView::Done(Ok(ValueView::Number(bits)))
            &&& fifth.state == (State {
                variables: state.variables.insert(
                    name.kind->Identifier_0,
                    ValueView::Number(bits),
                ),
                focus: FocusView::Idle,
                ..state
            })
        }),
{
    let first = step(state, Event::Resume);
    let second = step(first.state, Event::Resume);
    let third = step(second.state, Event::Number(bits));
    let fourth = step(third.state, Event::Resume);
    let fifth = step(fourth.state, Event::Resume);
    assert(first.state.stack.drop_last() =~= state.stack);
    assert(fourth.state.stack =~= state.stack);
}

} // verus!
