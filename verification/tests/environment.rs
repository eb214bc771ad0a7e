use mag_runtime::types::{Environment, Obj, ObjKind, VariablePattern};

fn name(n: &str) -> VariablePattern {
    VariablePattern::from_name(n.to_string())
}

fn number(n: i64) -> Obj {
    Obj::new(ObjKind::Int(n))
}

#[test]
fn new_environment_is_empty() {
    assert_eq!(Environment::new().len(), 0);
    assert_eq!(Environment::empty().len(), 0);
    assert!(Environment::new().get(&name("x")).is_none());
    assert!(!Environment::new().contains_key(&name("x")));
}

#[test]
fn insert_binds_and_replaces() {
    let mut env = Environment::new();
    env.insert(name("x"), number(1));
    env.insert(name("y"), number(2));
    assert_eq!(env.len(), 2);
    assert!(matches!(env.get(&name("x")).unwrap().kind, ObjKind::Int(1)));
    env.insert(name("x"), number(3));
    assert_eq!(env.len(), 2);
    assert!(matches!(env.get(&name("x")).unwrap().kind, ObjKind::Int(3)));
    assert!(matches!(env.get(&name("y")).unwrap().kind, ObjKind::Int(2)));
}

#[test]
fn keys_differ_by_type_tag() {
    let typed = VariablePattern { name: Some("x".to_string()), type_id: Some("Int".to_string()) };
    let mut env = Environment::new();
    env.insert(name("x"), number(1));
    env.insert(typed.deep_clone(), number(2));
    assert_eq!(env.len(), 2);
    assert!(matches!(env.get(&typed).unwrap().kind, ObjKind::Int(2)));
    assert!(matches!(env.get(&name("x")).unwrap().kind, ObjKind::Int(1)));
}

#[test]
fn remove_unbinds() {
    let mut env = Environment::new();
    env.insert(name("x"), number(1));
    env.insert(name("y"), number(2));
    env.remove(&name("x"));
    assert_eq!(env.len(), 1);
    assert!(env.get(&name("x")).is_none());
    env.remove(&name("x"));
    assert_eq!(env.len(), 1);
    assert!(env.contains_key(&name("y")));
}

#[test]
fn extend_prefers_the_other_environment() {
    let mut a = Environment::new();
    a.insert(name("x"), number(1));
    a.insert(name("y"), number(2));
    let mut b = Environment::new();
    b.insert(name("y"), number(20));
    b.insert(name("z"), number(30));
    let merged = a.extend(b);
    assert_eq!(merged.len(), 3);
    assert!(matches!(merged.get(&name("x")).unwrap().kind, ObjKind::Int(1)));
    assert!(matches!(merged.get(&name("y")).unwrap().kind, ObjKind::Int(20)));
    assert!(matches!(merged.get(&name("z")).unwrap().kind, ObjKind::Int(30)));
    assert_eq!(a.len(), 2);
    assert!(matches!(a.get(&name("y")).unwrap().kind, ObjKind::Int(2)));
}

#[test]
fn from_keeps_the_last_binding_of_a_key() {
    let env = Environment::from(vec![
        (name("x"), Box::new(number(1))),
        (name("y"), Box::new(number(2))),
        (name("x"), Box::new(number(3))),
    ]);
    assert_eq!(env.len(), 2);
    assert!(matches!(env.get(&name("x")).unwrap().kind, ObjKind::Int(3)));
    assert!(matches!(env.get(&name("y")).unwrap().kind, ObjKind::Int(2)));
}

#[test]
fn copy_has_the_same_bindings() {
    let mut env = Environment::new();
    env.insert(name("x"), number(1));
    let copy = env.deep_clone();
    assert_eq!(copy.len(), 1);
    assert!(matches!(copy.get(&name("x")).unwrap().kind, ObjKind::Int(1)));
}

#[test]
fn bindings_list_each_key_once() {
    let mut env = Environment::new();
    env.insert(name("x"), number(1));
    env.insert(name("y"), number(2));
    env.insert(name("x"), number(3));
    let listed = env.bindings();
    assert_eq!(listed.len(), 2);
    let x = listed.iter().find(|b| b.key == name("x")).unwrap();
    assert!(matches!(x.value.kind, ObjKind::Int(3)));
}
