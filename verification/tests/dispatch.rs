use mag_runtime::error::InterpreterError;
use mag_runtime::types::dispatch::{
    get_precedence, match_pattern, match_pattern_and_extract, Candidate,
};
use mag_runtime::types::ranking::rank;
use mag_runtime::types::{
    Environment, Multimethod, Obj, ObjKind, Pattern, Receiver, ValuePattern, VariablePattern,
};

fn literal(n: i64) -> Pattern {
    Pattern::Value(ValuePattern { obj: Box::new(Obj::new(ObjKind::Int(n))) })
}

fn named(name: &str) -> Pattern {
    Pattern::Variable(VariablePattern { name: Some(name.to_string()), type_id: None })
}

fn body(n: i64) -> Box<Obj> {
    Box::new(Obj::new(ObjKind::Int(n)))
}

#[test]
fn from_makes_one_receiver() {
    let m = Multimethod::from(Some(literal(5)), body(1));
    assert_eq!(m.receivers.len(), 1);
    assert!(m.receivers[0].signature.as_ref().unwrap().content_eq(&literal(5)));
    assert!(matches!(m.receivers[0].body.kind, ObjKind::Int(1)));
    let r = Receiver::from(None, body(2));
    assert!(r.signature.is_none());
    assert!(matches!(r.body.kind, ObjKind::Int(2)));
}

#[test]
fn define_appends_in_the_order_of_definition() {
    let mut m = Multimethod::from(Some(literal(5)), body(1));
    assert!(m.define(Some(named("n")), body(2)).is_ok());
    assert!(m.define(None, body(3)).is_ok());
    assert_eq!(m.receivers.len(), 3);
    assert!(matches!(m.receivers[0].body.kind, ObjKind::Int(1)));
    assert!(matches!(m.receivers[1].body.kind, ObjKind::Int(2)));
    assert!(matches!(m.receivers[2].body.kind, ObjKind::Int(3)));
}

#[test]
fn second_definition_of_a_signature_is_refused() {
    let mut m = Multimethod::from(Some(literal(5)), body(1));
    let second = m.define(Some(literal(5)), body(2));
    assert!(matches!(second, Err(InterpreterError::MethodAlreadyExists)));
    assert_eq!(m.receivers.len(), 1);
    assert!(matches!(m.receivers[0].body.kind, ObjKind::Int(1)));
}

#[test]
fn second_definition_without_signature_is_refused() {
    let mut m = Multimethod::from(None, body(1));
    assert!(matches!(m.define(None, body(2)), Err(InterpreterError::MethodAlreadyExists)));
    assert!(m.define(Some(named("x")), body(3)).is_ok());
    assert!(matches!(
        m.define(Some(named("x")), body(4)),
        Err(InterpreterError::MethodAlreadyExists)
    ));
    assert_eq!(m.receivers.len(), 2);
}

#[test]
fn matching_receivers_come_in_the_order_of_definition() {
    let mut m = Multimethod::from(Some(literal(5)), body(1));
    m.define(Some(literal(6)), body(2)).unwrap();
    m.define(Some(named("n")), body(3)).unwrap();
    let found = m.find_matching_receivers(&Some(literal(5))).unwrap();
    assert_eq!(found.len(), 2);
    assert!(matches!(found[0].1.kind, ObjKind::Int(1)));
    assert_eq!(found[0].0.len(), 0);
    assert_eq!(found[0].2, 2);
    assert!(matches!(found[1].1.kind, ObjKind::Int(3)));
    assert_eq!(found[1].0.len(), 1);
    assert_eq!(found[1].2, 2);
    let none = m.find_matching_receivers(&None).unwrap();
    assert_eq!(none.len(), 0);
}

#[test]
fn absent_signatures_match_each_other_only() {
    assert!(match_pattern(&None, &None));
    assert!(!match_pattern(&Some(named("x")), &None));
    assert!(!match_pattern(&None, &Some(literal(1))));
    assert!(match_pattern(&Some(named("x")), &Some(literal(1))));
    assert!(!match_pattern(&Some(literal(2)), &Some(literal(1))));
    assert_eq!(match_pattern_and_extract(&None, &None).len(), 0);
    assert_eq!(match_pattern_and_extract(&Some(named("x")), &Some(literal(1))).len(), 1);
    assert_eq!(match_pattern_and_extract(&Some(literal(2)), &Some(literal(1))).len(), 0);
}

#[test]
fn precedence_of_an_optional_pattern() {
    assert_eq!(get_precedence(&None), 0);
    assert_eq!(get_precedence(&Some(literal(1))), 2);
    assert_eq!(get_precedence(&Some(named("x"))), 1);
}

fn candidate(tag: i64, precedence: usize) -> Candidate {
    (Environment::new(), body(tag), precedence)
}

fn tags(ranking: &Vec<Candidate>) -> Vec<(i64, usize)> {
    ranking
        .iter()
        .map(|c| match c.1.kind {
            ObjKind::Int(n) => (n, c.2),
            _ => panic!("not a tag"),
        })
        .collect()
}

#[test]
fn ranking_is_by_descending_precedence() {
    let ranking = rank(vec![candidate(1, 1), candidate(2, 2), candidate(3, 0), candidate(4, 3)]);
    assert_eq!(tags(&ranking), vec![(4, 3), (2, 2), (1, 1), (3, 0)]);
}

#[test]
fn ranking_keeps_the_order_of_equal_precedences() {
    let ranking = rank(vec![
        candidate(1, 1),
        candidate(2, 2),
        candidate(3, 1),
        candidate(4, 2),
        candidate(5, 1),
    ]);
    assert_eq!(tags(&ranking), vec![(2, 2), (4, 2), (1, 1), (3, 1), (5, 1)]);
    let ranking = rank(vec![candidate(1, 0), candidate(2, 0), candidate(3, 0)]);
    assert_eq!(tags(&ranking), vec![(1, 0), (2, 0), (3, 0)]);
}

#[test]
fn ranking_of_few_candidates() {
    assert_eq!(rank(vec![]).len(), 0);
    assert_eq!(tags(&rank(vec![candidate(7, 1)])), vec![(7, 1)]);
    assert_eq!(tags(&rank(vec![candidate(1, 1), candidate(2, 2)])), vec![(2, 2), (1, 1)]);
}

#[test]
fn multimethods_compare_by_content() {
    let mut a = Multimethod::from(Some(literal(5)), body(1));
    let b = a.deep_clone();
    assert!(a.content_eq(&b));
    a.define(None, body(2)).unwrap();
    assert!(!a.content_eq(&b));
    assert!(Obj::new(ObjKind::Multimethod(b)).get_type() == Some("Multimethod".to_string()));
}
