use merc::diagnostic::EvalError;
use merc::diagnostic::Operation;
use merc::diagnostic::ParseError;
use merc::interpreter::Action;
use merc::interpreter::Reply;
use merc::interpreter::Request;
use merc::lexer::Token;
use merc::machine::Comparison;
use merc::machine::Event;
use merc::value::Environment;
use merc::value::Piece;
use merc::value::Value;
use merc::Interpreter;
use merc::Op;
use merc::Parser;
use merc::TokenKind;
use merc::S;

/// What the evaluation of one statement came to.
#[derive(Debug, PartialEq)]
enum Report {
    Parse(ParseError),
    Done(Result<Value, EvalError>),
}

fn number(x: f64) -> Value {
    Value::Number(x.to_bits())
}

fn perform(request: Request, output: &mut Vec<String>) -> Event {
    match request {
        Request::ParseNumber(text) => Event::Number(text.parse::<f64>().unwrap().to_bits()),
        Request::Arithmetic { op, lhs, rhs } => {
            let (a, b) = (f64::from_bits(lhs), f64::from_bits(rhs));
            let result = match op {
                Op::Plus => a + b,
                Op::Minus => a - b,
                Op::Star => a * b,
                Op::Slash => a / b,
            };
            Event::Number(result.to_bits())
        }
        Request::Compare { comparison, lhs, rhs } => {
            let (a, b) = (f64::from_bits(lhs), f64::from_bits(rhs));
            Event::Boolean(match comparison {
                Comparison::Equal => a == b,
                Comparison::Less => a < b,
                Comparison::LessEqual => a <= b,
                Comparison::Greater => a > b,
                Comparison::GreaterEqual => a >= b,
            })
        }
        Request::Print(pieces) => {
            let mut line = String::new();
            for piece in pieces {
                match piece {
                    Piece::Text(text) => line.push_str(&text),
                    Piece::Number(bits) => line.push_str(&format!("{}", f64::from_bits(bits))),
                }
            }
            output.push(line);
            Event::Printed
        }
    }
}

/// Steps the interpreter until the evaluation of one statement has ended or
/// the input is exhausted.
fn settle(interpreter: &mut Interpreter, output: &mut Vec<String>) -> Option<Report> {
    let mut event = Event::Resume;
    for _ in 0..1_000_000 {
        match interpreter.run(event, 64) {
            Action::Continue => event = Event::Resume,
            Action::Ask(request) => event = perform(request, output),
            Action::ParseFailed(error) => return Some(Report::Parse(error)),
            Action::Done(result) => return Some(Report::Done(result)),
            Action::Finished => return None,
        }
    }
    panic!("the evaluation did not end");
}

fn run_all(interpreter: &mut Interpreter, output: &mut Vec<String>) -> Vec<Report> {
    let mut reports = Vec::new();
    while let Some(report) = settle(interpreter, output) {
        reports.push(report);
    }
    reports
}

fn run(source: &str) -> (Vec<Report>, Vec<String>, Environment) {
    let mut interpreter = Interpreter::new(Parser::new(source));
    let mut output = Vec::new();
    let reports = run_all(&mut interpreter, &mut output);
    let variables = interpreter.variables().clone();
    (reports, output, variables)
}

fn values(source: &str) -> Vec<Result<Value, EvalError>> {
    run(source)
        .0
        .into_iter()
        .map(|report| match report {
            Report::Done(result) => result,
            Report::Parse(error) => panic!("parse error: {}", error.message()),
        })
        .collect()
}

fn last(source: &str) -> Result<Value, EvalError> {
    values(source).pop().unwrap()
}

fn evaluate(tree: S) -> Result<Value, EvalError> {
    let mut interpreter = Interpreter::new(Parser::new(""));
    assert!(interpreter.load(tree));
    let mut output = Vec::new();
    match settle(&mut interpreter, &mut output) {
        Some(Report::Done(result)) => result,
        other => panic!("unexpected report {:?}", other),
    }
}

fn token(kind: TokenKind) -> Token {
    Token { kind, row: 1, column: 1, index: 1 }
}

fn atom(kind: TokenKind) -> S {
    S::Atom(token(kind))
}

fn literal(text: &str) -> S {
    atom(TokenKind::Number(text.to_string()))
}

#[test]
fn numeric_literals_have_their_decimal_value() {
    for text in ["0", "1", "5", "42", "3.25", "0.5", "007", "123456789.125", "1.0000000000000002"] {
        let expected = text.parse::<f64>().unwrap();
        assert_eq!(evaluate(literal(text)), Ok(number(expected)), "literal {}", text);
        assert_eq!(last(&format!("return {}", text)), Ok(number(expected)));
    }
}

#[test]
fn let_binds_and_rebinding_overwrites() {
    let results = values("let x = 5\nx\nlet x = 6\nx");
    assert_eq!(
        results,
        vec![Ok(number(5.0)), Ok(number(5.0)), Ok(number(6.0)), Ok(number(6.0))]
    );
    let (_, _, variables) = run("let x = 5\nlet x = 6");
    assert_eq!(variables.len(), 1);
    assert_eq!(variables.get(&"x".to_string()), Some(&number(6.0)));
}

#[test]
fn multiplication_binds_tighter_than_addition() {
    assert_eq!(last("return 1 + 2 * 3"), Ok(number(7.0)));
    assert_eq!(last("let r = 1 + 2 * 3"), Ok(number(7.0)));
    assert_eq!(last("return (1 + 2) * 3"), Ok(number(9.0)));
}

#[test]
fn strings_concatenate_and_mixed_addition_fails() {
    assert_eq!(last("return \"a\" + \"b\""), Ok(Value::String("ab".to_string())));
    assert_eq!(
        last("return 1 + \"b\""),
        Err(EvalError::InvalidOperands(Operation::Addition))
    );
    assert_eq!(
        EvalError::InvalidOperands(Operation::Addition).message(),
        "Invalid operands for addition"
    );
}

#[test]
fn division_by_zero_fails_and_division_is_exact() {
    assert_eq!(last("return 1 / 0"), Err(EvalError::DivisionByZero));
    assert_eq!(last("return 1 / 2"), Ok(number(0.5)));
    assert_eq!(EvalError::DivisionByZero.message(), "Division by zero");
}

#[test]
fn functions_are_called_and_arity_is_checked() {
    let results = values("func add(a, b) { return a + b }\nadd(2, 3)\nadd(2)");
    assert_eq!(results.len(), 3);
    assert!(matches!(results[0], Ok(Value::Function { .. })));
    assert_eq!(results[1], Ok(number(5.0)));
    assert_eq!(results[2], Err(EvalError::WrongArity { expected: 2, actual: 1 }));
    assert_eq!(
        EvalError::WrongArity { expected: 2, actual: 1 }.message(),
        "Wrong number of arguments: expected 2, got 1"
    );
}

#[test]
fn while_with_a_false_condition_skips_its_body() {
    let (reports, output, variables) = run("while false { print(\"never\")\nlet x = 1 }");
    assert_eq!(reports, vec![Report::Done(Ok(Value::Nil))]);
    assert!(output.is_empty());
    assert!(variables.is_empty());
}

#[test]
fn if_takes_the_branch_that_the_condition_names() {
    let one = || S::Block(vec![literal("1")]);
    let two = || S::Block(vec![literal("2")]);
    let conditional = |cond: TokenKind, else_branch: Option<S>| S::IfExpr {
        cond: Box::new(atom(cond)),
        then_branch: Box::new(one()),
        else_branch: else_branch.map(Box::new),
    };
    assert_eq!(evaluate(conditional(TokenKind::True, Some(two()))), Ok(number(1.0)));
    assert_eq!(evaluate(conditional(TokenKind::False, Some(two()))), Ok(number(2.0)));
    assert_eq!(evaluate(conditional(TokenKind::False, None)), Ok(Value::Nil));
    assert_eq!(last("if true { return 1 } else { return 2 }"), Ok(number(1.0)));
    assert_eq!(last("if false { return 1 } else { return 2 }"), Ok(number(2.0)));
    assert_eq!(last("if false { return 1 }"), Ok(Value::Nil));
}

#[test]
fn parameters_are_gone_after_the_call() {
    let results = values("func add(a, b) { return a + b }\nadd(2, 3)\na");
    assert_eq!(results[1], Ok(number(5.0)));
    assert_eq!(results[2], Err(EvalError::UndefinedVariable("a".to_string())));
    let (_, _, variables) = run("func add(a, b) { return a + b }\nadd(2, 3)");
    assert_eq!(variables.len(), 1);
    assert!(variables.get(&"a".to_string()).is_none());
    assert!(variables.get(&"add".to_string()).is_some());
}

fn text(value: &str) -> Value {
    Value::String(value.to_string())
}

fn name(value: &str) -> S {
    atom(TokenKind::Identifier(value.to_string()))
}

fn cons(kind: TokenKind, args: Vec<S>) -> S {
    S::Cons(token(kind), args)
}

#[test]
fn literals_evaluate_to_themselves() {
    assert_eq!(evaluate(atom(TokenKind::String("hi".to_string()))), Ok(text("hi")));
    assert_eq!(evaluate(atom(TokenKind::True)), Ok(Value::Boolean(true)));
    assert_eq!(evaluate(atom(TokenKind::False)), Ok(Value::Boolean(false)));
    assert_eq!(evaluate(atom(TokenKind::Nil)), Ok(Value::Nil));
    assert_eq!(last("return \"hi\""), Ok(text("hi")));
    assert_eq!(last("return nil"), Ok(Value::Nil));
}

#[test]
fn an_unbound_name_is_an_error() {
    assert_eq!(last("y"), Err(EvalError::UndefinedVariable("y".to_string())));
    assert_eq!(
        EvalError::UndefinedVariable("y".to_string()).message(),
        "Undefined variable: y"
    );
}

#[test]
fn an_atom_that_is_no_value_is_an_error() {
    let plus = token(TokenKind::Plus);
    assert_eq!(evaluate(S::Atom(plus.clone())), Err(EvalError::InvalidAtom(plus.clone())));
    assert_eq!(
        EvalError::InvalidAtom(plus).message(),
        "Invalid atomic expression: Token { kind: Plus, row: 1, column: 1, index: 1 }"
    );
    assert!(matches!(last("let x ="), Err(EvalError::InvalidAtom(_))));
}

#[test]
fn malformed_forms_are_errors() {
    assert_eq!(evaluate(cons(TokenKind::Let, vec![name("x")])), Err(EvalError::InvalidLet));
    assert_eq!(
        evaluate(cons(TokenKind::Let, vec![S::Block(vec![]), literal("1")])),
        Err(EvalError::InvalidLet)
    );
    assert_eq!(
        evaluate(cons(TokenKind::Let, vec![literal("1"), literal("2")])),
        Err(EvalError::ExpectedIdentifierInLet)
    );
    assert_eq!(evaluate(cons(TokenKind::Return, vec![])), Err(EvalError::InvalidReturn));
    assert_eq!(
        evaluate(cons(TokenKind::Return, vec![literal("1"), literal("2")])),
        Err(EvalError::InvalidReturn)
    );
    assert_eq!(
        evaluate(cons(TokenKind::While, vec![atom(TokenKind::False)])),
        Err(EvalError::InvalidWhile)
    );
    assert_eq!(
        evaluate(cons(TokenKind::Plus, vec![literal("1")])),
        Err(EvalError::BinaryArity)
    );
    assert_eq!(last("return -1"), Err(EvalError::BinaryArity));
    assert_eq!(EvalError::InvalidLet.message(), "Invalid let expression");
    assert_eq!(
        EvalError::ExpectedIdentifierInLet.message(),
        "Expected identifier in let binding"
    );
    assert_eq!(EvalError::InvalidReturn.message(), "Invalid return expression");
    assert_eq!(EvalError::InvalidWhile.message(), "Invalid while expression");
    assert_eq!(
        EvalError::BinaryArity.message(),
        "Binary operation requires exactly two operands"
    );
}

#[test]
fn an_unknown_operator_fails_after_its_operands() {
    let results = values("return true and false");
    assert!(matches!(results[0], Err(EvalError::UnknownOperator(_))));
    assert_eq!(last("return y and false"), Err(EvalError::UndefinedVariable("y".to_string())));
    let and = token(TokenKind::And);
    assert_eq!(
        EvalError::UnknownOperator(and).message(),
        "Unknown binary operator: Token { kind: And, row: 1, column: 1, index: 1 }"
    );
}

#[test]
fn arithmetic_takes_numbers() {
    assert_eq!(last("return 7 - 2"), Ok(number(5.0)));
    assert_eq!(last("return 7 * 2"), Ok(number(14.0)));
    assert_eq!(last("return 7 / 2"), Ok(number(3.5)));
    assert_eq!(last("return 0.1 + 0.2"), Ok(number(0.1 + 0.2)));
    assert_eq!(last("return 10 - 2 - 3"), Ok(number(5.0)));
    assert_eq!(
        last("return \"a\" - 1"),
        Err(EvalError::InvalidOperands(Operation::Subtraction))
    );
    assert_eq!(
        last("return nil * 1"),
        Err(EvalError::InvalidOperands(Operation::Multiplication))
    );
    assert_eq!(
        last("return 1 / true"),
        Err(EvalError::InvalidOperands(Operation::Division))
    );
    assert_eq!(
        last("return \"a\" / 0"),
        Err(EvalError::InvalidOperands(Operation::Division))
    );
}

#[test]
fn a_negative_zero_divisor_is_zero_too() {
    let minus_zero = Value::Number((-0.0f64).to_bits());
    assert!(matches!(
        Interpreter::divide(number(1.0), minus_zero),
        Reply::Error(EvalError::DivisionByZero)
    ));
    assert!(matches!(
        Interpreter::divide(number(1.0), number(0.0)),
        Reply::Error(EvalError::DivisionByZero)
    ));
    assert!(matches!(
        Interpreter::divide(number(1.0), number(f64::MIN_POSITIVE)),
        Reply::Ask(Request::Arithmetic { op: Op::Slash, .. })
    ));
    assert!(matches!(
        Interpreter::divide(number(1.0), number(f64::NAN)),
        Reply::Ask(_)
    ));
}

#[test]
fn the_left_operand_is_evaluated_first() {
    assert_eq!(last("return a + b"), Err(EvalError::UndefinedVariable("a".to_string())));
    let (_, output, _) = run("return print(\"l\") == print(\"r\")");
    assert_eq!(output, vec!["l".to_string(), "r".to_string()]);
}

#[test]
fn equality_is_by_sort_and_value() {
    assert_eq!(last("return 1 == 1"), Ok(Value::Boolean(true)));
    assert_eq!(last("return 1 == 2"), Ok(Value::Boolean(false)));
    assert_eq!(last("return \"a\" == \"a\""), Ok(Value::Boolean(true)));
    assert_eq!(last("return \"a\" == \"b\""), Ok(Value::Boolean(false)));
    assert_eq!(last("return true == true"), Ok(Value::Boolean(true)));
    assert_eq!(last("return true == false"), Ok(Value::Boolean(false)));
    assert_eq!(last("return nil == nil"), Ok(Value::Boolean(true)));
    assert_eq!(last("return 1 == \"1\""), Ok(Value::Boolean(false)));
    assert_eq!(last("return nil == false"), Ok(Value::Boolean(false)));
    assert_eq!(last("func f() {}\nreturn f == f"), Ok(Value::Boolean(false)));
}

#[test]
fn inequality_is_the_opposite_of_equality() {
    assert_eq!(last("return 1 != 1"), Ok(Value::Boolean(false)));
    assert_eq!(last("return 1 != 2"), Ok(Value::Boolean(true)));
    assert_eq!(last("return \"a\" != \"a\""), Ok(Value::Boolean(false)));
    assert_eq!(last("return \"a\" != \"b\""), Ok(Value::Boolean(true)));
    assert_eq!(last("return nil != nil"), Ok(Value::Boolean(false)));
    assert_eq!(last("return 1 != \"1\""), Ok(Value::Boolean(true)));
    assert_eq!(last("return (0 / 1) != (0 / 1)"), Ok(Value::Boolean(false)));
}

#[test]
fn ordering_takes_numbers() {
    assert_eq!(last("return 1 < 2"), Ok(Value::Boolean(true)));
    assert_eq!(last("return 2 < 2"), Ok(Value::Boolean(false)));
    assert_eq!(last("return 2 <= 2"), Ok(Value::Boolean(true)));
    assert_eq!(last("return 3 > 2"), Ok(Value::Boolean(true)));
    assert_eq!(last("return 2 >= 3"), Ok(Value::Boolean(false)));
    assert_eq!(
        last("return \"a\" < \"b\""),
        Err(EvalError::InvalidOperands(Operation::LessThan))
    );
    assert_eq!(
        last("return 1 <= nil"),
        Err(EvalError::InvalidOperands(Operation::LessOrEqual))
    );
    assert_eq!(
        last("return true > 1"),
        Err(EvalError::InvalidOperands(Operation::GreaterThan))
    );
    assert_eq!(
        last("return nil >= nil"),
        Err(EvalError::InvalidOperands(Operation::GreaterOrEqual))
    );
    assert_eq!(
        EvalError::InvalidOperands(Operation::Subtraction).message(),
        "Invalid operands for subtraction"
    );
    assert_eq!(
        EvalError::InvalidOperands(Operation::Multiplication).message(),
        "Invalid operands for multiplication"
    );
    assert_eq!(
        EvalError::InvalidOperands(Operation::Division).message(),
        "Invalid operands for division"
    );
    assert_eq!(
        EvalError::InvalidOperands(Operation::LessThan).message(),
        "Invalid operands for less than comparison"
    );
    assert_eq!(
        EvalError::InvalidOperands(Operation::LessOrEqual).message(),
        "Invalid operands for less than or equal comparison"
    );
    assert_eq!(
        EvalError::InvalidOperands(Operation::GreaterThan).message(),
        "Invalid operands for greater than comparison"
    );
    assert_eq!(
        EvalError::InvalidOperands(Operation::GreaterOrEqual).message(),
        "Invalid operands for greater than or equal comparison"
    );
}

#[test]
fn arithmetic_nodes_evaluate_like_operator_forms() {
    let node = |op: Op, lhs: &str, rhs: &str| S::BinaryExpr {
        op,
        lhs: Box::new(literal(lhs)),
        rhs: Box::new(literal(rhs)),
    };
    assert_eq!(evaluate(node(Op::Plus, "1", "2")), Ok(number(3.0)));
    assert_eq!(evaluate(node(Op::Minus, "1", "2")), Ok(number(-1.0)));
    assert_eq!(evaluate(node(Op::Star, "3", "2")), Ok(number(6.0)));
    assert_eq!(evaluate(node(Op::Slash, "3", "2")), Ok(number(1.5)));
    assert_eq!(evaluate(node(Op::Slash, "3", "0")), Err(EvalError::DivisionByZero));
    assert_eq!(
        evaluate(S::BinaryExpr {
            op: Op::Plus,
            lhs: Box::new(atom(TokenKind::String("a".to_string()))),
            rhs: Box::new(atom(TokenKind::String("b".to_string()))),
        }),
        Ok(text("ab"))
    );
}

#[test]
fn a_condition_must_be_a_boolean() {
    assert_eq!(last("if 1 { return 1 }"), Err(EvalError::ConditionNotBoolean));
    assert_eq!(last("if nil { return 1 }"), Err(EvalError::ConditionNotBoolean));
    assert_eq!(EvalError::ConditionNotBoolean.message(), "If condition must be a boolean");
    assert_eq!(last("if 1 < 2 { return \"yes\" } else { return \"no\" }"), Ok(text("yes")));
}

#[test]
fn a_block_has_the_value_of_its_last_statement() {
    assert_eq!(last("{\nlet a = 1\nlet b = 2\nreturn a + b\n}"), Ok(number(3.0)));
    assert_eq!(last("{}"), Ok(Value::Nil));
    assert_eq!(evaluate(S::Block(vec![])), Ok(Value::Nil));
    assert_eq!(evaluate(S::Block(vec![literal("1"), literal("2"), literal("3")])), Ok(number(3.0)));
    let (_, _, variables) = run("{\nlet a = 1\n}");
    assert_eq!(variables.get(&"a".to_string()), Some(&number(1.0)));
    assert_eq!(last("let v = {\nlet a = 4\nreturn a * 2\n}\nv"), Ok(number(8.0)));
}

#[test]
fn a_return_in_the_middle_of_a_block_does_not_leave_it() {
    assert_eq!(last("{\nreturn 1\nreturn 2\n}"), Ok(number(2.0)));
}

#[test]
fn a_loop_runs_while_its_condition_is_true() {
    let source = "let i = 0\nlet total = 0\nwhile i < 4 {\nlet total = total + i\nlet i = i + 1\n}\ntotal";
    let results = values(source);
    assert_eq!(results.len(), 4);
    assert_eq!(results[2], Ok(Value::Nil));
    assert_eq!(results[3], Ok(number(6.0)));
}

#[test]
fn a_loop_stops_at_any_condition_that_is_not_true() {
    let (reports, output, _) = run("while 1 { print(\"never\") }");
    assert_eq!(reports, vec![Report::Done(Ok(Value::Nil))]);
    assert!(output.is_empty());
    let (reports, output, _) = run("while nil { print(\"never\") }");
    assert_eq!(reports, vec![Report::Done(Ok(Value::Nil))]);
    assert!(output.is_empty());
}

#[test]
fn an_error_in_a_loop_ends_it() {
    let results = values("let i = 0\nwhile i < 3 {\nlet i = i + 1\nlet j = i + nil\n}\ni");
    assert_eq!(results[1], Err(EvalError::InvalidOperands(Operation::Addition)));
    assert_eq!(results[2], Ok(number(1.0)));
}

#[test]
fn a_definition_binds_and_yields_the_function() {
    let results = values("func id(a) { return a }\nid");
    match (&results[0], &results[1]) {
        (Ok(Value::Function { name, params, .. }), Ok(again)) => {
            assert_eq!(name, "id");
            assert_eq!(params, &vec!["a".to_string()]);
            assert_eq!(&results[0].clone().unwrap(), again);
        }
        other => panic!("unexpected {:?}", other),
    }
}

#[test]
fn a_definition_checks_its_name_and_parameters() {
    assert_eq!(last("func f(1) {}"), Err(EvalError::ParameterNotIdentifier));
    assert_eq!(last("func f(a, b + c) {}"), Err(EvalError::ParameterNotIdentifier));
    assert_eq!(
        evaluate(S::FunDef {
            name: Box::new(literal("1")),
            args: vec![literal("2")],
            body: Box::new(S::Block(vec![])),
        }),
        Err(EvalError::FunctionNameNotIdentifier)
    );
    assert_eq!(
        EvalError::ParameterNotIdentifier.message(),
        "Function parameters must be identifiers"
    );
    assert_eq!(
        EvalError::FunctionNameNotIdentifier.message(),
        "Function name must be an identifier"
    );
}

#[test]
fn a_call_checks_its_callee() {
    assert_eq!(last("let x = 1\nx(2)"), Err(EvalError::NotAFunction("x".to_string())));
    assert_eq!(last("nothing()"), Err(EvalError::NotAFunction("nothing".to_string())));
    assert_eq!(EvalError::NotAFunction("x".to_string()).message(), "'x' is not a function");
    assert_eq!(
        evaluate(S::FunCall { name: Box::new(literal("1")), args: vec![] }),
        Err(EvalError::FunctionNameNotIdentifier)
    );
    assert_eq!(last("return 5(1)"), Err(EvalError::FunctionNameNotIdentifier));
}

#[test]
fn arity_is_checked_before_the_arguments_are_evaluated() {
    let results = values("func f(a) { return a }\nf(x, y)\nf()");
    assert_eq!(results[1], Err(EvalError::WrongArity { expected: 1, actual: 2 }));
    assert_eq!(results[2], Err(EvalError::WrongArity { expected: 1, actual: 0 }));
    assert_eq!(
        EvalError::WrongArity { expected: 10, actual: 0 }.message(),
        "Wrong number of arguments: expected 10, got 0"
    );
}

#[test]
fn arguments_are_evaluated_in_the_environment_of_the_caller() {
    let source = "let x = 10\nfunc twice(a) { return a + a }\ntwice(x + 1)";
    assert_eq!(last(source), Ok(number(22.0)));
    assert_eq!(
        last("func f(a, b) { return a }\nf(1, missing)"),
        Err(EvalError::UndefinedVariable("missing".to_string()))
    );
}

#[test]
fn a_body_sees_its_parameters_alone() {
    let results = values("let outer = 1\nfunc f(a) { return outer }\nf(2)\nouter");
    assert_eq!(results[2], Err(EvalError::UndefinedVariable("outer".to_string())));
    assert_eq!(results[3], Ok(number(1.0)));
    let results = values("func g() { return 1 }\nfunc f() { return g() }\nf()");
    assert_eq!(results[2], Err(EvalError::NotAFunction("g".to_string())));
}

#[test]
fn the_environment_comes_back_after_an_error_in_a_call() {
    let source = "let x = 1\nfunc f(a) {\nlet x = 2\nreturn a + nil\n}\nf(5)\nx\na";
    let results = values(source);
    assert_eq!(results[2], Err(EvalError::InvalidOperands(Operation::Addition)));
    assert_eq!(results[3], Ok(number(1.0)));
    assert_eq!(results[4], Err(EvalError::UndefinedVariable("a".to_string())));
}

#[test]
fn bindings_made_in_a_body_are_gone_after_the_call() {
    let results = values("func f(a) {\nlet local = a\nreturn local\n}\nf(3)\nlocal");
    assert_eq!(results[1], Ok(number(3.0)));
    assert_eq!(results[2], Err(EvalError::UndefinedVariable("local".to_string())));
}

#[test]
fn a_function_can_be_passed_and_called() {
    let source = "func inc(n) { return n + 1 }\nfunc apply(f, v) { return f(v) }\napply(inc, 4)";
    assert_eq!(last(source), Ok(number(5.0)));
}

#[test]
fn a_later_parameter_of_the_same_name_wins() {
    assert_eq!(last("func f(a, a) { return a }\nf(1, 2)"), Ok(number(2.0)));
}

#[test]
fn print_writes_one_line_of_all_its_arguments() {
    let (reports, output, _) = run("print(\"a\", 1, 2.5, true, false, nil)\nprint()");
    assert_eq!(
        reports,
        vec![Report::Done(Ok(Value::Nil)), Report::Done(Ok(Value::Nil))]
    );
    assert_eq!(output, vec!["a12.5truefalsenil".to_string(), String::new()]);
    let (_, output, _) = run("func f() {}\nprint(f)");
    assert_eq!(output, vec!["<function f>".to_string()]);
    let (_, output, _) = run("print(1 / 3, \" \", 10 / 2)");
    assert_eq!(output, vec![format!("{} {}", 1.0f64 / 3.0, 5.0f64)]);
}

#[test]
fn print_is_the_built_in_unless_a_function_is_bound_to_it() {
    let (_, output, _) = run("let print = 5\nprint(\"still\")");
    assert_eq!(output, vec!["still".to_string()]);
    let (reports, output, _) = run("func print(a) { return a }\nprint(7)");
    assert!(output.is_empty());
    assert_eq!(reports[1], Report::Done(Ok(number(7.0))));
    let (reports, output, _) = run("print(1, missing)");
    assert!(output.is_empty());
    assert_eq!(
        reports,
        vec![Report::Done(Err(EvalError::UndefinedVariable("missing".to_string())))]
    );
}

#[test]
fn a_failed_statement_keeps_what_was_bound_before_it_failed() {
    let (reports, _, variables) = run("{\nlet kept = 1\nlet lost = kept + nil\n}");
    assert_eq!(
        reports,
        vec![Report::Done(Err(EvalError::InvalidOperands(Operation::Addition)))]
    );
    assert_eq!(variables.get(&"kept".to_string()), Some(&number(1.0)));
    assert!(variables.get(&"lost".to_string()).is_none());
}

#[test]
fn evaluation_goes_on_after_a_failed_statement() {
    let (reports, _, _) = run("let a = 1\n+ 2\nlet b = nope\nlet c = a + 1");
    assert_eq!(reports.len(), 5);
    assert_eq!(reports[0], Report::Done(Ok(number(1.0))));
    assert!(matches!(reports[1], Report::Parse(ParseError::UnexpectedToken(_))));
    assert!(matches!(reports[2], Report::Parse(ParseError::UnexpectedToken(_))));
    assert_eq!(
        reports[3],
        Report::Done(Err(EvalError::UndefinedVariable("nope".to_string())))
    );
    assert_eq!(reports[4], Report::Done(Ok(number(2.0))));
}

#[test]
fn the_machine_repeats_a_request_that_was_not_answered() {
    let mut interpreter = Interpreter::new(Parser::new("return 1 + 2"));
    assert_eq!(interpreter.step(Event::Resume), Action::Continue);
    assert_eq!(interpreter.step(Event::Number(9)), Action::Continue);
    assert_eq!(interpreter.step(Event::Resume), Action::Continue);
    let ask = Action::Ask(Request::ParseNumber("1".to_string()));
    assert_eq!(interpreter.step(Event::Resume), ask);
    assert_eq!(interpreter.step(Event::Resume), ask);
    assert_eq!(interpreter.step(Event::Boolean(true)), ask);
    assert_eq!(interpreter.step(Event::Printed), ask);
    assert_eq!(interpreter.step(Event::Number(1.0f64.to_bits())), Action::Continue);
    assert_eq!(interpreter.step(Event::Resume), Action::Continue);
    assert_eq!(
        interpreter.step(Event::Resume),
        Action::Ask(Request::ParseNumber("2".to_string()))
    );
    assert_eq!(interpreter.step(Event::Number(2.0f64.to_bits())), Action::Continue);
    let sum = Action::Ask(Request::Arithmetic {
        op: Op::Plus,
        lhs: 1.0f64.to_bits(),
        rhs: 2.0f64.to_bits(),
    });
    assert_eq!(interpreter.step(Event::Resume), sum);
    assert_eq!(interpreter.step(Event::Boolean(false)), sum);
    assert_eq!(interpreter.step(Event::Number(3.0f64.to_bits())), Action::Continue);
    assert_eq!(interpreter.step(Event::Resume), Action::Done(Ok(number(3.0))));
    assert_eq!(interpreter.step(Event::Resume), Action::Finished);
    assert_eq!(interpreter.step(Event::Resume), Action::Finished);
}

#[test]
fn the_machine_asks_for_comparisons_and_output() {
    let mut interpreter = Interpreter::new(Parser::new(""));
    assert!(interpreter.load(cons(TokenKind::LessEqual, vec![literal("1"), literal("2")])));
    let mut asked = Vec::new();
    let mut event = Event::Resume;
    loop {
        match interpreter.step(event) {
            Action::Continue => event = Event::Resume,
            Action::Ask(request) => {
                asked.push(request.clone());
                event = perform(request, &mut Vec::new());
            }
            Action::Done(result) => {
                assert_eq!(result, Ok(Value::Boolean(true)));
                break;
            }
            other => panic!("unexpected {:?}", other),
        }
    }
    assert_eq!(
        asked,
        vec![
            Request::ParseNumber("1".to_string()),
            Request::ParseNumber("2".to_string()),
            Request::Compare {
                comparison: Comparison::LessEqual,
                lhs: 1.0f64.to_bits(),
                rhs: 2.0f64.to_bits()
            },
        ]
    );
    let mut interpreter = Interpreter::new(Parser::new("print(\"n=\", 2)"));
    let mut asked = Vec::new();
    let mut event = Event::Resume;
    loop {
        match interpreter.step(event) {
            Action::Continue => event = Event::Resume,
            Action::Ask(request) => {
                asked.push(request.clone());
                event = perform(request, &mut Vec::new());
            }
            Action::Done(_) => break,
            other => panic!("unexpected {:?}", other),
        }
    }
    assert_eq!(
        asked[1],
        Request::Print(vec![Piece::Text("n=".to_string()), Piece::Number(2.0f64.to_bits())])
    );
}

#[test]
fn a_tree_is_loaded_between_statements_only() {
    let mut interpreter = Interpreter::new(Parser::new(""));
    assert!(interpreter.is_idle());
    assert!(interpreter.load(literal("1")));
    assert!(!interpreter.is_idle());
    assert!(!interpreter.load(literal("2")));
    let mut output = Vec::new();
    assert_eq!(settle(&mut interpreter, &mut output), Some(Report::Done(Ok(number(1.0)))));
    assert!(interpreter.is_idle());
    assert_eq!(settle(&mut interpreter, &mut output), None);
}

#[test]
fn variables_can_be_replaced_whole() {
    let mut first = Interpreter::new(Parser::new("let x = 41"));
    let mut output = Vec::new();
    run_all(&mut first, &mut output);
    let carried = first.variables().clone();
    let mut second = Interpreter::new(Parser::new("let y = x + 1\ny"));
    second.replace_db(carried);
    let reports = run_all(&mut second, &mut output);
    assert_eq!(reports[1], Report::Done(Ok(number(42.0))));
    assert_eq!(second.variables().len(), 2);
    second.replace_db(Environment::new());
    assert!(second.variables().is_empty());
}

#[test]
fn an_environment_binds_names_in_order() {
    let mut environment = Environment::new();
    assert!(environment.is_empty());
    assert_eq!(environment.len(), 0);
    environment.insert("a".to_string(), number(1.0));
    environment.insert("b".to_string(), text("two"));
    environment.insert("a".to_string(), Value::Nil);
    assert_eq!(environment.len(), 2);
    assert!(!environment.is_empty());
    assert_eq!(environment.get(&"a".to_string()), Some(&Value::Nil));
    assert_eq!(environment.get(&"b".to_string()), Some(&text("two")));
    assert_eq!(environment.get(&"c".to_string()), None);
    assert_eq!(environment.entry(0), (&"a".to_string(), &Value::Nil));
    assert_eq!(environment.entry(1), (&"b".to_string(), &text("two")));
    assert_eq!(environment.clone(), environment);
}

#[test]
fn values_are_shown_as_pieces() {
    assert_eq!(number(2.5).display(), Piece::Number(2.5f64.to_bits()));
    assert_eq!(text("hi").display(), Piece::Text("hi".to_string()));
    assert_eq!(Value::Boolean(true).display(), Piece::Text("true".to_string()));
    assert_eq!(Value::Boolean(false).display(), Piece::Text("false".to_string()));
    assert_eq!(Value::Nil.display(), Piece::Text("nil".to_string()));
    let function = Value::Function {
        name: "f".to_string(),
        params: vec!["a".to_string()],
        body: Box::new(S::Block(vec![])),
    };
    assert_eq!(function.display(), Piece::Text("<function f>".to_string()));
    assert_eq!(function.clone(), function);
}

#[test]
fn operations_reply_with_a_value_an_error_or_a_request() {
    assert!(matches!(
        Interpreter::add(number(1.0), number(2.0)),
        Reply::Ask(Request::Arithmetic { op: Op::Plus, .. })
    ));
    assert!(matches!(Interpreter::add(text("a"), text("b")), Reply::Value(Value::String(s)) if s == "ab"));
    assert!(matches!(
        Interpreter::subtract(number(1.0), number(2.0)),
        Reply::Ask(Request::Arithmetic { op: Op::Minus, .. })
    ));
    assert!(matches!(
        Interpreter::multiply(number(1.0), number(2.0)),
        Reply::Ask(Request::Arithmetic { op: Op::Star, .. })
    ));
    assert!(matches!(
        Interpreter::equals(number(1.0), number(2.0)),
        Reply::Ask(Request::Compare { comparison: Comparison::Equal, .. })
    ));
    assert!(matches!(
        Interpreter::not_equals(number(1.0), number(2.0)),
        Reply::AskNegated(Request::Compare { comparison: Comparison::Equal, .. })
    ));
    assert!(matches!(
        Interpreter::not_equals(text("a"), text("a")),
        Reply::Value(Value::Boolean(false))
    ));
    assert!(matches!(
        Interpreter::less_than(number(1.0), number(2.0)),
        Reply::Ask(Request::Compare { comparison: Comparison::Less, .. })
    ));
    assert!(matches!(
        Interpreter::less_equal(number(1.0), number(2.0)),
        Reply::Ask(Request::Compare { comparison: Comparison::LessEqual, .. })
    ));
    assert!(matches!(
        Interpreter::greater_than(number(1.0), number(2.0)),
        Reply::Ask(Request::Compare { comparison: Comparison::Greater, .. })
    ));
    assert!(matches!(
        Interpreter::greater_equal(number(1.0), number(2.0)),
        Reply::Ask(Request::Compare { comparison: Comparison::GreaterEqual, .. })
    ));
    assert!(matches!(
        Interpreter::apply(token(TokenKind::Star), number(1.0), text("a")),
        Reply::Error(EvalError::InvalidOperands(Operation::Multiplication))
    ));
    assert!(matches!(
        Interpreter::apply(token(TokenKind::Comma), number(1.0), number(1.0)),
        Reply::Error(EvalError::UnknownOperator(_))
    ));
}

#[test]
fn deep_recursion_does_not_exhaust_the_stack() {
    let source = "func down(f, n) { if n == 0 { return 0 } else { return f(f, n - 1) } }\ndown(down, 2000)";
    assert_eq!(last(source), Ok(number(0.0)));
    let lone = "func down(n) { if n == 0 { return 0 } else { return down(n - 1) } }\ndown(3)";
    assert_eq!(last(lone), Err(EvalError::NotAFunction("down".to_string())));
}

#[test]
fn a_run_stops_at_the_first_action_for_the_host() {
    let mut interpreter = Interpreter::new(Parser::new("return 1 + 2"));
    assert_eq!(
        interpreter.run(Event::Resume, 100),
        Action::Ask(Request::ParseNumber("1".to_string()))
    );
    assert_eq!(
        interpreter.run(Event::Number(1.0f64.to_bits()), 100),
        Action::Ask(Request::ParseNumber("2".to_string()))
    );
    assert_eq!(
        interpreter.run(Event::Number(2.0f64.to_bits()), 100),
        Action::Ask(Request::Arithmetic {
            op: Op::Plus,
            lhs: 1.0f64.to_bits(),
            rhs: 2.0f64.to_bits()
        })
    );
    assert_eq!(
        interpreter.run(Event::Number(3.0f64.to_bits()), 100),
        Action::Done(Ok(number(3.0)))
    );
    assert_eq!(interpreter.run(Event::Resume, 100), Action::Finished);
}

#[test]
fn a_run_ends_at_its_limit() {
    let mut stepped = Interpreter::new(Parser::new("return \"a\" + \"b\""));
    let mut steps = 0;
    let done = loop {
        steps += 1;
        match stepped.step(Event::Resume) {
            Action::Continue => {}
            other => break other,
        }
    };
    assert_eq!(done, Action::Done(Ok(Value::String("ab".to_string()))));
    assert!(steps > 3);
    let mut limited = Interpreter::new(Parser::new("return \"a\" + \"b\""));
    assert_eq!(limited.run(Event::Resume, steps - 1), Action::Continue);
    assert_eq!(limited.run(Event::Resume, 1), done);
    let mut whole = Interpreter::new(Parser::new("return \"a\" + \"b\""));
    assert_eq!(whole.run(Event::Resume, steps), done);
    let mut none = Interpreter::new(Parser::new("return \"a\" + \"b\""));
    assert_eq!(none.run(Event::Resume, 0), Action::Continue);
    assert_eq!(none.run(Event::Resume, steps - 1), done);
}

#[test]
fn a_loop_that_never_ends_is_left_to_the_host() {
    let mut interpreter = Interpreter::new(Parser::new("while true { let x = nil }"));
    for _ in 0..100 {
        assert_eq!(interpreter.run(Event::Resume, 1000), Action::Continue);
    }
    assert!(!interpreter.is_idle());
}

#[test]
fn evaluation_messages_are_put_together_from_the_text_of_the_token() {
    let plus = token(TokenKind::Plus);
    assert_eq!(
        EvalError::InvalidAtom(plus.clone()).message_with("a token"),
        "Invalid atomic expression: a token"
    );
    assert_eq!(
        EvalError::UnknownOperator(plus).message_with("a token"),
        "Unknown binary operator: a token"
    );
    assert_eq!(EvalError::DivisionByZero.message_with("ignored"), "Division by zero");
    assert_eq!(
        EvalError::NotAFunction("f".to_string()).message_with("ignored"),
        "'f' is not a function"
    );
}
