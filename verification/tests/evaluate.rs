use mag_runtime::error::InterpreterError;
use mag_runtime::interpreter::semantics::VisitorKind;
use mag_runtime::interpreter::visitors::{
    expect_call, expect_conditional, expect_infix_expression, expect_method, expect_multimethod,
    expect_pattern, CallVisitor, ConditionalVisitor, InfixVisitor, MethodVisitor, PatternVisitor,
    ValueVisitor,
};
use mag_runtime::interpreter::{Interpreter, DEFAULT_RECURSION_LIMIT};
use mag_runtime::syntax::{
    Block, Call, Conditional, Expression, ExpressionKind, Infix, Literal, Method, Operator,
    SourcePattern,
};
use mag_runtime::types::arithmetic::Number;
use mag_runtime::types::{
    Environment, Multimethod, Obj, ObjKind, Pattern, ValuePattern, VariablePattern,
};

fn to_float(n: &Number) -> Option<f64> {
    match n {
        Number::Int(i) => Some(*i as f64),
        Number::UInt(u) => Some(*u as f64),
        Number::Float(t) => t.parse::<f64>().ok(),
    }
}

fn engine(op: Operator, a: &Number, b: &Number) -> Option<String> {
    let x = to_float(a)?;
    let y = to_float(b)?;
    let r = match op {
        Operator::Plus => x + y,
        Operator::Minus => x - y,
        Operator::Star => x * y,
        Operator::Slash => x / y,
        _ => x % y,
    };
    Some(format!("{}", r))
}

type Engine = fn(Operator, &Number, &Number) -> Option<String>;

fn interpreter() -> Interpreter<Engine> {
    Interpreter::new(engine as Engine)
}

fn node(kind: ExpressionKind, lexeme: &str) -> Expression {
    Expression { kind, lexeme: lexeme.to_string(), start_pos: 0, end_pos: lexeme.len() }
}

fn lit(kind: Literal, lexeme: &str) -> Expression {
    node(ExpressionKind::Literal(kind), lexeme)
}

fn num(n: i64) -> Expression {
    lit(Literal::Int, &n.to_string())
}

fn call(name: &str, signature: Option<SourcePattern>) -> Expression {
    node(ExpressionKind::Call(Call { name: name.to_string(), signature }), name)
}

fn method(name: &str, signature: Option<SourcePattern>, body: Expression) -> Expression {
    node(
        ExpressionKind::Method(Method { name: name.to_string(), signature, body: Box::new(body) }),
        "def",
    )
}

fn infix(left: Expression, operator: Operator, right: Expression) -> Expression {
    node(
        ExpressionKind::Infix(Infix { left: Box::new(left), operator, right: Box::new(right) }),
        "",
    )
}

fn conditional(condition: Expression, then_arm: Expression) -> Expression {
    node(
        ExpressionKind::Conditional(
            Conditional { condition: Box::new(condition), then_arm: Box::new(then_arm) },
        ),
        "if",
    )
}

fn arg(e: Expression) -> SourcePattern {
    SourcePattern::Value { expression: Box::new(e) }
}

fn var(name: &str) -> SourcePattern {
    SourcePattern::Variable { name: Some(name.to_string()), type_id: None }
}

fn key(name: &str) -> VariablePattern {
    VariablePattern::from_name(name.to_string())
}

fn run(i: &mut Interpreter<Engine>, e: Expression) -> Result<Box<Obj>, InterpreterError> {
    i.evaluate_expr(Box::new(e), None)
}

#[test]
fn literals_evaluate_to_themselves() {
    let mut i = interpreter();
    let values = vec![
        ObjKind::Int(-3),
        ObjKind::UInt(3),
        ObjKind::Float("2.50".to_string()),
        ObjKind::String("hello".to_string()),
        ObjKind::Boolean(true),
        ObjKind::Boolean(false),
    ];
    for kind in values {
        let obj = Obj::new(kind);
        let copy = obj.deep_clone();
        let once = i.evaluate(Box::new(obj), None).unwrap();
        assert!(once.content_eq(&copy));
        let twice = i.evaluate(once, None).unwrap();
        assert!(twice.content_eq(&copy));
    }
    assert_eq!(i.environment.len(), 0);
    assert_eq!(i.recursion_level, 0);
}

#[test]
fn literal_expressions_are_decoded() {
    let mut i = interpreter();
    assert!(matches!(run(&mut i, lit(Literal::Int, "-12")).unwrap().kind, ObjKind::Int(-12)));
    assert!(matches!(run(&mut i, lit(Literal::Boolean, "true")).unwrap().kind, ObjKind::Boolean(true)));
    match run(&mut i, lit(Literal::Float, "1.50")).unwrap().kind {
        ObjKind::Float(t) => assert_eq!(t, "1.50"),
        _ => panic!("not a float"),
    }
    match run(&mut i, lit(Literal::String, "hi")).unwrap().kind {
        ObjKind::String(t) => assert_eq!(t, "hi"),
        _ => panic!("not a string"),
    }
}

#[test]
fn literal_that_writes_no_value_is_a_type_error() {
    let mut i = interpreter();
    match run(&mut i, lit(Literal::Int, "12x")) {
        Err(InterpreterError::UnexpectedType { expected, found }) => {
            assert_eq!(expected, "Int");
            assert_eq!(found, Some("12x".to_string()));
        },
        _ => panic!("expected a type error"),
    }
    match run(&mut i, lit(Literal::Boolean, "yes")) {
        Err(InterpreterError::UnexpectedType { expected, found }) => {
            assert_eq!(expected, "Boolean");
            assert_eq!(found, Some("yes".to_string()));
        },
        _ => panic!("expected a type error"),
    }
}

#[test]
fn values_without_handler_are_refused() {
    let mut i = interpreter();
    let cases = vec![
        Obj::new(ObjKind::Nothing),
        Obj::new(ObjKind::Type("Int".to_string())),
        Obj::new(ObjKind::List(None)),
        Obj::new(ObjKind::Multimethod(Multimethod::from(None, Box::new(Obj::new(ObjKind::Nothing))))),
        Obj::new(ObjKind::Expression(node(ExpressionKind::Identifier, "x"))),
        Obj::new(ObjKind::Expression(node(ExpressionKind::Block(Block { children: vec![] }), ""))),
    ];
    for obj in cases {
        assert!(matches!(i.evaluate(Box::new(obj), None), Err(InterpreterError::NoMatchingVisitor)));
    }
}

#[test]
fn handlers_are_chosen_by_kind() {
    assert_eq!(
        Interpreter::<Engine>::visitor_for(&Obj::new(ObjKind::Int(1))),
        Some(VisitorKind::Value)
    );
    assert_eq!(
        Interpreter::<Engine>::visitor_for(&Obj::from(call("f", None)).unwrap()),
        Some(VisitorKind::Call)
    );
    assert_eq!(
        Interpreter::<Engine>::visitor_for(&Obj::from(method("f", None, num(1))).unwrap()),
        Some(VisitorKind::Method)
    );
    assert_eq!(
        Interpreter::<Engine>::visitor_for(
            &Obj::from(infix(num(1), Operator::Plus, num(2))).unwrap()
        ),
        Some(VisitorKind::Infix)
    );
    assert_eq!(
        Interpreter::<Engine>::visitor_for(&Obj::from(conditional(num(1), num(2))).unwrap()),
        Some(VisitorKind::Conditional)
    );
    assert_eq!(
        Interpreter::<Engine>::visitor_for(&Obj::new(ObjKind::Pattern(Pattern::Variable(key("x"))))),
        Some(VisitorKind::Pattern)
    );
    assert_eq!(Interpreter::<Engine>::visitor_for(&Obj::new(ObjKind::Nothing)), None);
}

#[test]
fn conditional_on_false_is_nothing() {
    let mut i = interpreter();
    let r = run(&mut i, conditional(lit(Literal::Boolean, "false"), num(99))).unwrap();
    assert!(matches!(r.kind, ObjKind::Nothing));
}

#[test]
fn conditional_on_true_is_the_arm() {
    let mut i = interpreter();
    let r = run(&mut i, conditional(lit(Literal::Boolean, "true"), num(99))).unwrap();
    assert!(matches!(r.kind, ObjKind::Int(99)));
}

#[test]
fn conditional_on_another_value_is_nothing() {
    let mut i = interpreter();
    let r = run(&mut i, conditional(num(1), num(99))).unwrap();
    assert!(matches!(r.kind, ObjKind::Nothing));
    let r = run(&mut i, conditional(lit(Literal::String, "true"), num(99))).unwrap();
    assert!(matches!(r.kind, ObjKind::Nothing));
}

#[test]
fn conditional_fails_with_its_condition() {
    let mut i = interpreter();
    let r = run(&mut i, conditional(call("missing", None), num(99)));
    assert!(matches!(r, Err(InterpreterError::NoMatchingMultimethod)));
}

#[test]
fn untaken_arm_is_not_evaluated() {
    let mut i = interpreter();
    let r = run(&mut i, conditional(lit(Literal::Boolean, "false"), call("missing", None)));
    assert!(matches!(r.unwrap().kind, ObjKind::Nothing));
    let r = run(&mut i, conditional(lit(Literal::Boolean, "true"), call("missing", None)));
    assert!(matches!(r, Err(InterpreterError::NoMatchingMultimethod)));
}

#[test]
fn infix_applies_the_arithmetic() {
    let mut i = interpreter();
    assert!(matches!(run(&mut i, infix(num(3), Operator::Plus, num(4))).unwrap().kind, ObjKind::Int(7)));
    assert!(matches!(run(&mut i, infix(num(3), Operator::Minus, num(4))).unwrap().kind, ObjKind::Int(-1)));
    assert!(matches!(run(&mut i, infix(num(3), Operator::Star, num(4))).unwrap().kind, ObjKind::Int(12)));
    assert!(matches!(run(&mut i, infix(num(7), Operator::Slash, num(2))).unwrap().kind, ObjKind::Int(3)));
    assert!(matches!(run(&mut i, infix(num(7), Operator::Percent, num(2))).unwrap().kind, ObjKind::Int(1)));
    let nested = infix(infix(num(1), Operator::Plus, num(2)), Operator::Star, num(5));
    assert!(matches!(run(&mut i, nested).unwrap().kind, ObjKind::Int(15)));
}

#[test]
fn infix_on_floats_asks_the_engine() {
    let mut i = interpreter();
    match run(&mut i, infix(num(3), Operator::Plus, lit(Literal::Float, "4.5"))).unwrap().kind {
        ObjKind::Float(t) => assert_eq!(t, "7.5"),
        _ => panic!("not a float"),
    }
}

#[test]
fn infix_failures() {
    let mut i = interpreter();
    assert!(matches!(
        run(&mut i, infix(num(3), Operator::Slash, num(0))),
        Err(InterpreterError::DivisionByZero)
    ));
    assert!(matches!(
        run(&mut i, infix(num(3), Operator::EqualEqual, num(3))),
        Err(InterpreterError::Unimplemented)
    ));
    assert!(matches!(
        run(&mut i, infix(num(3), Operator::Caret, num(3))),
        Err(InterpreterError::Unimplemented)
    ));
    assert!(matches!(
        run(&mut i, infix(lit(Literal::String, "a"), Operator::Plus, num(3))),
        Err(InterpreterError::UnexpectedType { .. })
    ));
    assert!(matches!(
        run(&mut i, infix(call("missing", None), Operator::Plus, num(3))),
        Err(InterpreterError::NoMatchingMultimethod)
    ));
    assert!(matches!(
        run(&mut i, infix(num(3), Operator::EqualEqual, call("missing", None))),
        Err(InterpreterError::NoMatchingMultimethod)
    ));
}

#[test]
fn definition_gives_the_method_type_and_binds_the_name() {
    let mut i = interpreter();
    let r = run(&mut i, method("f", None, num(1))).unwrap();
    match r.kind {
        ObjKind::Type(t) => assert_eq!(t, "Method"),
        _ => panic!("not a type"),
    }
    assert_eq!(i.environment.len(), 1);
    match &i.environment.get(&key("f")).unwrap().kind {
        ObjKind::Multimethod(m) => assert_eq!(m.receivers.len(), 1),
        _ => panic!("not a multimethod"),
    }
}

#[test]
fn definitions_accumulate_in_one_multimethod() {
    let mut i = interpreter();
    run(&mut i, method("f", Some(arg(num(5))), num(1))).unwrap();
    run(&mut i, method("f", Some(var("n")), num(2))).unwrap();
    run(&mut i, method("g", None, num(3))).unwrap();
    assert_eq!(i.environment.len(), 2);
    match &i.environment.get(&key("f")).unwrap().kind {
        ObjKind::Multimethod(m) => {
            assert_eq!(m.receivers.len(), 2);
            assert!(matches!(m.receivers[0].body.kind, ObjKind::Int(1)));
            assert!(matches!(m.receivers[1].body.kind, ObjKind::Int(2)));
        },
        _ => panic!("not a multimethod"),
    }
}

#[test]
fn defining_a_signature_twice_fails_and_keeps_the_first() {
    let mut i = interpreter();
    run(&mut i, method("f", Some(arg(num(5))), num(1))).unwrap();
    let second = run(&mut i, method("f", Some(arg(num(5))), num(2)));
    assert!(matches!(second, Err(InterpreterError::MethodAlreadyExists)));
    let r = run(&mut i, call("f", Some(arg(num(5))))).unwrap();
    assert!(matches!(r.kind, ObjKind::Int(1)));
}

#[test]
fn defining_over_a_value_that_is_no_multimethod_fails() {
    let mut i = interpreter();
    i.define_variable(key("f"), Obj::new(ObjKind::Int(1))).unwrap();
    match run(&mut i, method("f", None, num(1))) {
        Err(InterpreterError::UnexpectedType { expected, found }) => {
            assert_eq!(expected, "Multimethod");
            assert_eq!(found, Some("Int".to_string()));
        },
        _ => panic!("expected a type error"),
    }
}

#[test]
fn value_receiver_answers_a_call_with_that_value() {
    let mut i = interpreter();
    run(&mut i, method("f", Some(arg(num(5))), num(1))).unwrap();
    run(&mut i, method("f", Some(var("n")), num(2))).unwrap();
    let r = run(&mut i, call("f", Some(arg(num(5))))).unwrap();
    assert!(matches!(r.kind, ObjKind::Int(1)));
    let r = run(&mut i, call("f", Some(arg(num(6))))).unwrap();
    assert!(matches!(r.kind, ObjKind::Int(2)));
}

#[test]
fn earliest_receiver_wins_among_those_that_match() {
    let mut i = interpreter();
    run(&mut i, method("f", Some(var("n")), num(2))).unwrap();
    run(&mut i, method("f", Some(arg(num(5))), num(1))).unwrap();
    let r = run(&mut i, call("f", Some(arg(num(5))))).unwrap();
    assert!(matches!(r.kind, ObjKind::Int(2)));
}

#[test]
fn call_binds_its_arguments_for_the_body() {
    let mut i = interpreter();
    let body = node(ExpressionKind::Pattern(var("n")), "n");
    run(&mut i, method("id", Some(var("n")), body)).unwrap();
    let r = run(&mut i, call("id", Some(arg(num(41))))).unwrap();
    assert!(matches!(r.kind, ObjKind::Int(41)));
    assert_eq!(i.recursion_level, 0);
}

#[test]
fn call_of_an_unknown_name_fails() {
    let mut i = interpreter();
    assert!(matches!(run(&mut i, call("f", None)), Err(InterpreterError::NoMatchingMultimethod)));
    assert!(matches!(
        run(&mut i, call("f", Some(arg(num(1))))),
        Err(InterpreterError::NoMatchingMultimethod)
    ));
}

#[test]
fn call_that_matches_no_receiver_fails() {
    let mut i = interpreter();
    run(&mut i, method("f", Some(arg(num(5))), num(1))).unwrap();
    assert!(matches!(
        run(&mut i, call("f", Some(arg(num(6))))),
        Err(InterpreterError::NoMatchingReceiver)
    ));
    assert!(matches!(run(&mut i, call("f", None)), Err(InterpreterError::NoMatchingReceiver)));
    assert_eq!(i.recursion_level, 0);
}

#[test]
fn call_of_a_value_that_is_no_multimethod_fails() {
    let mut i = interpreter();
    i.define_variable(key("f"), Obj::new(ObjKind::String("s".to_string()))).unwrap();
    match run(&mut i, call("f", None)) {
        Err(InterpreterError::UnexpectedType { expected, found }) => {
            assert_eq!(expected, "Multimethod");
            assert_eq!(found, Some("String".to_string()));
        },
        _ => panic!("expected a type error"),
    }
}

#[test]
fn call_argument_that_names_no_pattern_fails() {
    let mut i = interpreter();
    run(&mut i, method("f", Some(var("n")), num(1))).unwrap();
    i.define_variable(key("x"), Obj::new(ObjKind::Int(5))).unwrap();
    match run(&mut i, call("f", Some(var("x")))) {
        Err(InterpreterError::UnexpectedType { expected, found }) => {
            assert_eq!(expected, "Pattern");
            assert_eq!(found, Some("Int".to_string()));
        },
        _ => panic!("expected a type error"),
    }
    match run(&mut i, call("f", Some(var("y")))) {
        Err(InterpreterError::NoMatchingVariable { pattern }) => {
            assert!(pattern.content_eq(&key("y")));
        },
        _ => panic!("expected a missing variable"),
    }
}

#[test]
fn runaway_recursion_is_cut_at_the_default_limit() {
    let mut i = interpreter();
    assert_eq!(i.recursion_limit, DEFAULT_RECURSION_LIMIT);
    assert_eq!(DEFAULT_RECURSION_LIMIT, 4);
    run(&mut i, method("f", None, call("f", None))).unwrap();
    assert!(matches!(run(&mut i, call("f", None)), Err(InterpreterError::TooMuchRecursion)));
    assert_eq!(i.recursion_level, 0);
    assert!(matches!(run(&mut i, call("f", None)), Err(InterpreterError::TooMuchRecursion)));
}

#[test]
fn runaway_recursion_is_cut_at_every_limit() {
    for limit in [0usize, 1, 2, 7, 50] {
        let mut i = interpreter().with_recursion_limit(limit);
        run(&mut i, method("f", None, call("f", None))).unwrap();
        assert!(matches!(run(&mut i, call("f", None)), Err(InterpreterError::TooMuchRecursion)));
        assert_eq!(i.recursion_level, 0);
        assert_eq!(i.recursion_limit, limit);
    }
}

#[test]
fn calls_nest_up_to_the_limit() {
    // f0 gives 0, and each f(k) calls f(k-1): a chain of exactly `depth` nested calls.
    let chain = |depth: usize, limit: usize| {
        let mut i = interpreter().with_recursion_limit(limit);
        run(&mut i, method("f0", None, num(0))).unwrap();
        for k in 1..depth {
            let name = format!("f{}", k);
            let callee = format!("f{}", k - 1);
            run(&mut i, method(&name, None, call(&callee, None))).unwrap();
        }
        let top = format!("f{}", depth - 1);
        let r = run(&mut i, call(&top, None));
        assert_eq!(i.recursion_level, 0);
        r
    };
    assert!(matches!(chain(4, 4).unwrap().kind, ObjKind::Int(0)));
    assert!(matches!(chain(5, 4), Err(InterpreterError::TooMuchRecursion)));
    assert!(matches!(chain(1, 1).unwrap().kind, ObjKind::Int(0)));
    assert!(matches!(chain(2, 1), Err(InterpreterError::TooMuchRecursion)));
    assert!(matches!(chain(1, 0), Err(InterpreterError::TooMuchRecursion)));
    assert!(matches!(chain(9, 9).unwrap().kind, ObjKind::Int(0)));
}

#[test]
fn pattern_handler_resolves_variables() {
    let mut i = interpreter();
    i.define_variable(key("x"), Obj::new(ObjKind::Int(5))).unwrap();
    let pattern = Obj::new(ObjKind::Pattern(Pattern::Variable(key("x"))));
    let r = i.evaluate(Box::new(pattern), None).unwrap();
    assert!(matches!(r.kind, ObjKind::Int(5)));
    let mut local = Environment::new();
    local.insert(key("x"), Obj::new(ObjKind::Int(6)));
    let pattern = Obj::new(ObjKind::Pattern(Pattern::Variable(key("x"))));
    let r = i.evaluate(Box::new(pattern), Some(local)).unwrap();
    assert!(matches!(r.kind, ObjKind::Int(6)));
}

#[test]
fn local_environment_hides_the_global_one() {
    let mut i = interpreter();
    i.define_variable(key("x"), Obj::new(ObjKind::Int(5))).unwrap();
    let pattern = Obj::new(ObjKind::Pattern(Pattern::Variable(key("x"))));
    let r = i.evaluate(Box::new(pattern), Some(Environment::new()));
    assert!(matches!(r, Err(InterpreterError::NoMatchingVariable { .. })));
}

#[test]
fn pattern_handler_evaluates_the_value_of_a_value_pattern() {
    let mut i = interpreter();
    let sum = Obj::from(infix(num(1), Operator::Plus, num(2))).unwrap();
    let pattern = Obj::new(ObjKind::Pattern(Pattern::Value(ValuePattern { obj: Box::new(sum) })));
    let r = i.evaluate(Box::new(pattern), None).unwrap();
    match r.kind {
        ObjKind::Pattern(Pattern::Value(v)) => assert!(matches!(v.obj.kind, ObjKind::Int(3))),
        _ => panic!("not a value pattern"),
    }
}

#[test]
fn other_patterns_evaluate_to_themselves() {
    let mut i = interpreter();
    let pair = Pattern::from(SourcePattern::Pair {
        left: Box::new(var("a")),
        right: Box::new(arg(num(1))),
    })
    .unwrap();
    let copy = pair.deep_clone();
    let r = i.evaluate(Box::new(Obj::new(ObjKind::Pattern(pair))), None).unwrap();
    match r.kind {
        ObjKind::Pattern(p) => assert!(p.content_eq(&copy)),
        _ => panic!("not a pattern"),
    }
}

#[test]
fn variables_are_defined_once_and_mutated_after() {
    let mut i = interpreter();
    assert!(matches!(
        i.mutate_variable(key("x"), Obj::new(ObjKind::Int(1))),
        Err(InterpreterError::NoMatchingVariable { .. })
    ));
    let defined = i.define_variable(key("x"), Obj::new(ObjKind::Int(1))).unwrap();
    match defined.kind {
        ObjKind::Pattern(Pattern::Variable(v)) => assert!(v.content_eq(&key("x"))),
        _ => panic!("not a variable pattern"),
    }
    assert!(matches!(
        i.define_variable(key("x"), Obj::new(ObjKind::Int(2))),
        Err(InterpreterError::VariableAlreadyExists)
    ));
    assert!(matches!(i.get_variable(key("x"), None).unwrap().kind, ObjKind::Int(1)));
    i.mutate_variable(key("x"), Obj::new(ObjKind::Int(3))).unwrap();
    assert!(matches!(i.get_variable(key("x"), None).unwrap().kind, ObjKind::Int(3)));
    assert_eq!(i.environment.len(), 1);
    assert!(matches!(
        i.get_variable(key("y"), None),
        Err(InterpreterError::NoMatchingVariable { .. })
    ));
}

#[test]
fn handlers_refuse_values_of_another_kind() {
    let mut i = interpreter();
    let five = || Obj::new(ObjKind::Int(5));
    let expected_of = |r: Result<Box<Obj>, InterpreterError>| match r {
        Err(InterpreterError::UnexpectedType { expected, found }) => {
            assert_eq!(found, Some("Int".to_string()));
            expected
        },
        _ => panic!("expected a type error"),
    };
    assert_eq!(expected_of(CallVisitor.evaluate(&mut i, None, five())), "CallExpression");
    assert_eq!(expected_of(MethodVisitor.evaluate(&mut i, None, five())), "MethodExpression");
    assert_eq!(expected_of(InfixVisitor.evaluate(&mut i, None, five())), "InfixExpression");
    assert_eq!(
        expected_of(ConditionalVisitor.evaluate(&mut i, None, five())),
        "ConditionalExpression"
    );
    assert_eq!(expected_of(PatternVisitor.evaluate(&mut i, None, five())), "Pattern");
    match ValueVisitor.evaluate(&mut i, None, Obj::new(ObjKind::Nothing)) {
        Err(InterpreterError::UnexpectedType { expected, found }) => {
            assert_eq!(expected, "Int | UInt | String | Float | Boolean");
            assert_eq!(found, Some("Nothing".to_string()));
        },
        _ => panic!("expected a type error"),
    }
    assert!(matches!(ValueVisitor.evaluate(&mut i, None, five()).unwrap().kind, ObjKind::Int(5)));
}

#[test]
fn expectations_take_the_node_out_of_the_value() {
    assert_eq!(expect_call(Obj::from(call("f", None)).unwrap()).unwrap().name, "f");
    assert_eq!(expect_method(Obj::from(method("g", None, num(1))).unwrap()).unwrap().name, "g");
    assert_eq!(
        expect_infix_expression(Obj::from(infix(num(1), Operator::Star, num(2))).unwrap())
            .unwrap()
            .operator,
        Operator::Star
    );
    assert_eq!(
        expect_conditional(Obj::from(conditional(num(1), num(2))).unwrap()).unwrap().then_arm.lexeme,
        "2"
    );
    assert!(expect_pattern(Obj::new(ObjKind::Pattern(Pattern::Variable(key("x"))))).is_ok());
    let m = Multimethod::from(None, Box::new(Obj::new(ObjKind::Nothing)));
    assert_eq!(expect_multimethod(Obj::new(ObjKind::Multimethod(m))).unwrap().receivers.len(), 1);
    match expect_call(Obj::from(conditional(num(1), num(2))).unwrap()) {
        Err(InterpreterError::UnexpectedType { expected, found }) => {
            assert_eq!(expected, "CallExpression");
            assert_eq!(found, Some("ConditionalExpression".to_string()));
        },
        _ => panic!("expected a type error"),
    }
}

fn through_trait<V: mag_runtime::interpreter::visitors::Visitor>(
    visitor: &V,
    i: &mut Interpreter<Engine>,
    obj: Obj,
) -> Result<Box<Obj>, InterpreterError> {
    visitor.evaluate(i, None, obj)
}

#[test]
fn every_handler_is_a_visitor() {
    let mut i = interpreter();
    assert!(matches!(
        through_trait(&ValueVisitor, &mut i, Obj::new(ObjKind::Int(5))).unwrap().kind,
        ObjKind::Int(5)
    ));
    let sum = Obj::from(infix(num(2), Operator::Plus, num(2))).unwrap();
    assert!(matches!(through_trait(&InfixVisitor, &mut i, sum).unwrap().kind, ObjKind::Int(4)));
    let test = Obj::from(conditional(lit(Literal::Boolean, "true"), num(1))).unwrap();
    assert!(matches!(
        through_trait(&ConditionalVisitor, &mut i, test).unwrap().kind,
        ObjKind::Int(1)
    ));
    let definition = Obj::from(method("f", None, num(9))).unwrap();
    assert!(matches!(
        through_trait(&MethodVisitor, &mut i, definition).unwrap().kind,
        ObjKind::Type(_)
    ));
    let invocation = Obj::from(call("f", None)).unwrap();
    assert!(matches!(
        through_trait(&CallVisitor, &mut i, invocation).unwrap().kind,
        ObjKind::Int(9)
    ));
    let pattern = Obj::new(ObjKind::Pattern(Pattern::Variable(key("f"))));
    assert!(matches!(
        through_trait(&PatternVisitor, &mut i, pattern).unwrap().kind,
        ObjKind::Multimethod(_)
    ));
}
