use mag_runtime::error::InterpreterError;
use mag_runtime::types::{
    FieldPattern, Obj, ObjKind, PairPattern, Pattern, TuplePattern, ValuePattern, VariablePattern,
};

fn value(n: i64) -> Pattern {
    Pattern::Value(ValuePattern { obj: Box::new(Obj::new(ObjKind::Int(n))) })
}

fn text_value(t: &str) -> Pattern {
    Pattern::Value(ValuePattern { obj: Box::new(Obj::new(ObjKind::String(t.to_string()))) })
}

fn variable(name: &str) -> Pattern {
    Pattern::Variable(VariablePattern { name: Some(name.to_string()), type_id: None })
}

fn typed_variable(name: &str, type_id: &str) -> Pattern {
    Pattern::Variable(
        VariablePattern { name: Some(name.to_string()), type_id: Some(type_id.to_string()) },
    )
}

fn nameless() -> Pattern {
    Pattern::Variable(VariablePattern { name: None, type_id: None })
}

fn pair(left: Pattern, right: Pattern) -> Pattern {
    Pattern::Pair(PairPattern { left: Box::new(left), right: Box::new(right) })
}

fn tuple(child: Pattern) -> Pattern {
    Pattern::Tuple(TuplePattern { child: Box::new(child) })
}

fn field(name: &str, value: Pattern) -> Pattern {
    Pattern::Field(FieldPattern { name: name.to_string(), value: Box::new(value) })
}

fn key(name: &str) -> VariablePattern {
    VariablePattern::from_name(name.to_string())
}

#[test]
fn equal_values_match_and_bind_nothing() {
    let env = value(7).linearize(value(7)).unwrap();
    assert_eq!(env.len(), 0);
    let env = text_value("a").linearize(text_value("a")).unwrap();
    assert_eq!(env.len(), 0);
}

#[test]
fn different_values_do_not_match() {
    assert!(matches!(value(7).linearize(value(8)), Err(InterpreterError::NoMatch)));
    assert!(matches!(value(7).linearize(text_value("7")), Err(InterpreterError::NoMatch)));
    assert!(!value(7).matches_with(value(8)));
    assert!(value(7).matches_with(value(7)));
}

#[test]
fn value_matches_nothing_but_a_value() {
    assert!(matches!(value(7).linearize(variable("x")), Err(InterpreterError::NoMatch)));
    assert!(matches!(value(7).linearize(tuple(value(7))), Err(InterpreterError::NoMatch)));
    assert!(matches!(value(7).linearize(pair(value(7), value(7))), Err(InterpreterError::NoMatch)));
}

#[test]
fn named_variable_binds_the_value() {
    let env = variable("x").linearize(value(3)).unwrap();
    assert_eq!(env.len(), 1);
    let bound = env.get(&key("x")).unwrap();
    assert!(bound.content_eq(&Obj::new(ObjKind::Int(3))));
}

#[test]
fn typed_variable_binds_under_the_bare_name() {
    let env = typed_variable("x", "String").linearize(value(3)).unwrap();
    assert_eq!(env.len(), 1);
    assert!(matches!(env.get(&key("x")).unwrap().kind, ObjKind::Int(3)));
    let typed_key = VariablePattern { name: Some("x".to_string()), type_id: Some("String".to_string()) };
    assert!(env.get(&typed_key).is_none());
}

#[test]
fn nameless_variable_matches_and_binds_nothing() {
    let env = nameless().linearize(value(3)).unwrap();
    assert_eq!(env.len(), 0);
}

#[test]
fn variable_matches_nothing_but_a_value() {
    assert!(matches!(variable("x").linearize(variable("y")), Err(InterpreterError::NoMatch)));
    assert!(matches!(nameless().linearize(tuple(value(1))), Err(InterpreterError::NoMatch)));
    assert!(matches!(
        variable("x").linearize(pair(value(1), value(2))),
        Err(InterpreterError::NoMatch)
    ));
}

#[test]
fn pair_binds_what_its_sides_bind() {
    let env = pair(value(1), variable("y")).linearize(pair(value(1), value(2))).unwrap();
    assert_eq!(env.len(), 1);
    assert!(matches!(env.get(&key("y")).unwrap().kind, ObjKind::Int(2)));
}

#[test]
fn pair_fails_where_its_left_side_fails() {
    assert!(matches!(
        pair(value(9), variable("y")).linearize(pair(value(1), value(2))),
        Err(InterpreterError::NoMatch)
    ));
    assert!(matches!(
        pair(value(9), nameless()).linearize(pair(value(1), text_value("anything"))),
        Err(InterpreterError::NoMatch)
    ));
}

#[test]
fn pair_fails_where_its_right_side_fails() {
    assert!(matches!(
        pair(variable("x"), value(9)).linearize(pair(value(1), value(2))),
        Err(InterpreterError::NoMatch)
    ));
    assert!(matches!(pair(value(1), value(2)).linearize(value(1)), Err(InterpreterError::NoMatch)));
}

#[test]
fn right_side_overrides_left_on_the_same_name() {
    let env = pair(variable("x"), variable("x")).linearize(pair(value(1), value(2))).unwrap();
    assert_eq!(env.len(), 1);
    assert!(matches!(env.get(&key("x")).unwrap().kind, ObjKind::Int(2)));
}

#[test]
fn nested_pairs_bind_all_names() {
    let reference = pair(variable("a"), pair(variable("b"), variable("c")));
    let given = pair(value(1), pair(value(2), value(3)));
    let env = reference.linearize(given).unwrap();
    assert_eq!(env.len(), 3);
    assert!(matches!(env.get(&key("a")).unwrap().kind, ObjKind::Int(1)));
    assert!(matches!(env.get(&key("b")).unwrap().kind, ObjKind::Int(2)));
    assert!(matches!(env.get(&key("c")).unwrap().kind, ObjKind::Int(3)));
}

#[test]
fn tuple_is_transparent() {
    let env = tuple(variable("x")).linearize(tuple(value(5))).unwrap();
    assert!(matches!(env.get(&key("x")).unwrap().kind, ObjKind::Int(5)));
    assert!(matches!(tuple(variable("x")).linearize(value(5)), Err(InterpreterError::NoMatch)));
    assert!(matches!(tuple(value(4)).linearize(tuple(value(5))), Err(InterpreterError::NoMatch)));
}

#[test]
fn field_matches_a_field_of_the_same_name() {
    let env = field("repeats", variable("n")).linearize(field("repeats", value(4))).unwrap();
    assert!(matches!(env.get(&key("n")).unwrap().kind, ObjKind::Int(4)));
    assert!(matches!(
        field("repeats", variable("n")).linearize(field("times", value(4))),
        Err(InterpreterError::NoMatch)
    ));
    assert!(matches!(
        field("repeats", variable("n")).linearize(value(4)),
        Err(InterpreterError::NoMatch)
    ));
    assert!(matches!(
        field("repeats", value(3)).linearize(field("repeats", value(4))),
        Err(InterpreterError::NoMatch)
    ));
}

#[test]
fn value_has_precedence_two_and_the_rest_one() {
    assert_eq!(value(1).get_precedence(), 2);
    assert_eq!(variable("x").get_precedence(), 1);
    assert_eq!(nameless().get_precedence(), 1);
    assert_eq!(pair(value(1), value(2)).get_precedence(), 1);
    assert_eq!(tuple(value(1)).get_precedence(), 1);
    assert_eq!(field("f", value(1)).get_precedence(), 1);
}

#[test]
fn patterns_compare_by_content() {
    assert!(pair(value(1), variable("x")).content_eq(&pair(value(1), variable("x"))));
    assert!(!pair(value(1), variable("x")).content_eq(&pair(value(1), variable("y"))));
    assert!(!variable("x").content_eq(&typed_variable("x", "Int")));
    let copy = field("f", tuple(value(1))).deep_clone();
    assert!(copy.content_eq(&field("f", tuple(value(1)))));
    assert_eq!(copy.get_type(), "FieldPattern");
}
