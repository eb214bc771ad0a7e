use mag_runtime::error::InterpreterError;
use mag_runtime::syntax::Operator;
use mag_runtime::types::arithmetic::{
    arithmetic, signed_arithmetic, to_signed, to_unsigned, unsigned_arithmetic, Number,
};
use mag_runtime::types::{Obj, ObjKind};

fn as_float(n: &Number) -> Option<f64> {
    match n {
        Number::Int(i) => Some(*i as f64),
        Number::UInt(u) => Some(*u as f64),
        Number::Float(t) => t.parse::<f64>().ok(),
    }
}

fn float_engine(op: Operator, a: &Number, b: &Number) -> Option<String> {
    let x = as_float(a)?;
    let y = as_float(b)?;
    let r = match op {
        Operator::Plus => x + y,
        Operator::Minus => x - y,
        Operator::Star => x * y,
        Operator::Slash => x / y,
        _ => x % y,
    };
    Some(format!("{}", r))
}

fn int_obj(n: i64) -> Obj {
    Obj::new(ObjKind::Int(n))
}

fn uint_obj(n: u64) -> Obj {
    Obj::new(ObjKind::UInt(n))
}

fn float_obj(t: &str) -> Obj {
    Obj::new(ObjKind::Float(t.to_string()))
}

fn string_obj(t: &str) -> Obj {
    Obj::new(ObjKind::String(t.to_string()))
}

#[test]
fn add_int_to_int() {
    assert_eq!(
        (Obj::new(ObjKind::Int(32)).add(Obj::new(ObjKind::Int(32)), &float_engine)).unwrap(),
        Obj::new(ObjKind::Int(64)),
    );
}

#[test]
fn values_are_equal_by_content() {
    assert_eq!(int_obj(1), int_obj(1));
    assert_ne!(int_obj(1), int_obj(2));
    assert_ne!(int_obj(1), uint_obj(1));
    assert_eq!(float_obj("1.0"), float_obj("1.0"));
    assert_ne!(float_obj("1.0"), float_obj("1.00"));
    assert_eq!(int_obj(1).clone(), int_obj(1));
}

#[test]
fn int_plus_int_is_int() {
    assert!(matches!(int_obj(3).add(int_obj(4), &float_engine).unwrap().kind, ObjKind::Int(7)));
}

#[test]
fn int_plus_float_is_float() {
    let sum = int_obj(3).add(float_obj("4.5"), &float_engine).unwrap();
    match sum.kind {
        ObjKind::Float(t) => assert_eq!(t, "7.5"),
        _ => panic!("not a float"),
    }
}

#[test]
fn float_operands_in_every_position() {
    let cases = vec![
        (float_obj("1.5"), int_obj(2), "3.5"),
        (float_obj("1.5"), uint_obj(2), "3.5"),
        (uint_obj(2), float_obj("1.5"), "3.5"),
        (float_obj("1.25"), float_obj("1.25"), "2.5"),
    ];
    for (a, b, expected) in cases {
        match a.add(b, &float_engine).unwrap().kind {
            ObjKind::Float(t) => assert_eq!(t, expected),
            _ => panic!("not a float"),
        }
    }
}

#[test]
fn float_operations_use_the_operator() {
    match float_obj("6").sub(float_obj("1.5"), &float_engine).unwrap().kind {
        ObjKind::Float(t) => assert_eq!(t, "4.5"),
        _ => panic!("not a float"),
    }
    match float_obj("6").mul(float_obj("1.5"), &float_engine).unwrap().kind {
        ObjKind::Float(t) => assert_eq!(t, "9"),
        _ => panic!("not a float"),
    }
    match float_obj("6").div(float_obj("1.5"), &float_engine).unwrap().kind {
        ObjKind::Float(t) => assert_eq!(t, "4"),
        _ => panic!("not a float"),
    }
}

#[test]
fn float_text_that_is_no_number_is_a_type_error() {
    let r = int_obj(1).add(float_obj("one"), &float_engine);
    match r {
        Err(InterpreterError::UnexpectedType { expected, found }) => {
            assert_eq!(expected, "Float");
            assert_eq!(found, None);
        },
        _ => panic!("expected a type error"),
    }
}

#[test]
fn uint_plus_int_is_uint() {
    assert!(matches!(uint_obj(3).add(int_obj(4), &float_engine).unwrap().kind, ObjKind::UInt(7)));
}

#[test]
fn int_plus_uint_is_int() {
    assert!(matches!(int_obj(3).add(uint_obj(4), &float_engine).unwrap().kind, ObjKind::Int(7)));
}

#[test]
fn uint_plus_uint_is_uint() {
    assert!(matches!(uint_obj(3).add(uint_obj(4), &float_engine).unwrap().kind, ObjKind::UInt(7)));
}

#[test]
fn integer_division_truncates() {
    assert!(matches!(int_obj(7).div(int_obj(2), &float_engine).unwrap().kind, ObjKind::Int(3)));
    assert!(matches!(int_obj(-7).div(int_obj(2), &float_engine).unwrap().kind, ObjKind::Int(-3)));
    assert!(matches!(int_obj(7).div(int_obj(-2), &float_engine).unwrap().kind, ObjKind::Int(-3)));
    assert!(matches!(int_obj(-7).div(int_obj(-2), &float_engine).unwrap().kind, ObjKind::Int(3)));
    assert!(matches!(uint_obj(7).div(uint_obj(2), &float_engine).unwrap().kind, ObjKind::UInt(3)));
}

#[test]
fn remainder_has_the_sign_of_the_dividend() {
    assert!(matches!(int_obj(7).rem(int_obj(2), &float_engine).unwrap().kind, ObjKind::Int(1)));
    assert!(matches!(int_obj(-7).rem(int_obj(2), &float_engine).unwrap().kind, ObjKind::Int(-1)));
    assert!(matches!(int_obj(7).rem(int_obj(-2), &float_engine).unwrap().kind, ObjKind::Int(1)));
    assert!(matches!(uint_obj(7).rem(uint_obj(4), &float_engine).unwrap().kind, ObjKind::UInt(3)));
}

#[test]
fn subtraction_and_multiplication() {
    assert!(matches!(int_obj(3).sub(int_obj(4), &float_engine).unwrap().kind, ObjKind::Int(-1)));
    assert!(matches!(int_obj(3).mul(int_obj(-4), &float_engine).unwrap().kind, ObjKind::Int(-12)));
    assert!(matches!(uint_obj(6).mul(uint_obj(7), &float_engine).unwrap().kind, ObjKind::UInt(42)));
    assert!(matches!(uint_obj(9).sub(uint_obj(4), &float_engine).unwrap().kind, ObjKind::UInt(5)));
}

#[test]
fn division_by_zero_is_an_error() {
    assert!(matches!(int_obj(7).div(int_obj(0), &float_engine), Err(InterpreterError::DivisionByZero)));
    assert!(matches!(int_obj(7).rem(int_obj(0), &float_engine), Err(InterpreterError::DivisionByZero)));
    assert!(matches!(uint_obj(7).div(uint_obj(0), &float_engine), Err(InterpreterError::DivisionByZero)));
    assert!(matches!(uint_obj(7).rem(int_obj(0), &float_engine), Err(InterpreterError::DivisionByZero)));
    assert!(matches!(int_obj(7).div(uint_obj(0), &float_engine), Err(InterpreterError::DivisionByZero)));
}

#[test]
fn integers_wrap_around() {
    assert!(matches!(
        int_obj(i64::MAX).add(int_obj(1), &float_engine).unwrap().kind,
        ObjKind::Int(i64::MIN)
    ));
    assert!(matches!(
        int_obj(i64::MIN).sub(int_obj(1), &float_engine).unwrap().kind,
        ObjKind::Int(i64::MAX)
    ));
    assert!(matches!(
        int_obj(i64::MAX).mul(int_obj(2), &float_engine).unwrap().kind,
        ObjKind::Int(-2)
    ));
    assert!(matches!(
        uint_obj(0).sub(uint_obj(1), &float_engine).unwrap().kind,
        ObjKind::UInt(u64::MAX)
    ));
    assert!(matches!(
        uint_obj(u64::MAX).add(uint_obj(2), &float_engine).unwrap().kind,
        ObjKind::UInt(1)
    ));
    assert!(matches!(
        int_obj(i64::MIN).div(int_obj(-1), &float_engine).unwrap().kind,
        ObjKind::Int(i64::MIN)
    ));
    assert!(matches!(int_obj(i64::MIN).rem(int_obj(-1), &float_engine).unwrap().kind, ObjKind::Int(0)));
}

#[test]
fn right_operand_is_read_as_the_kind_of_the_left() {
    assert!(matches!(uint_obj(3).add(int_obj(-1), &float_engine).unwrap().kind, ObjKind::UInt(2)));
    assert!(matches!(
        int_obj(0).add(uint_obj(u64::MAX), &float_engine).unwrap().kind,
        ObjKind::Int(-1)
    ));
    assert_eq!(to_signed(u64::MAX), -1);
    assert_eq!(to_signed(5), 5);
    assert_eq!(to_signed(9223372036854775808), i64::MIN);
    assert_eq!(to_unsigned(-1), u64::MAX);
    assert_eq!(to_unsigned(5), 5);
    assert_eq!(to_unsigned(i64::MIN), 9223372036854775808);
}

#[test]
fn operands_that_are_no_numbers_are_a_type_error() {
    let r = string_obj("a").add(string_obj("b"), &float_engine);
    match r {
        Err(InterpreterError::UnexpectedType { expected, found }) => {
            assert_eq!(expected, "Int|UInt|Float");
            assert_eq!(found, Some("(String, String)".to_string()));
        },
        _ => panic!("expected a type error"),
    }
    let r = string_obj("a").add(float_obj("1.5"), &float_engine);
    match r {
        Err(InterpreterError::UnexpectedType { expected, found }) => {
            assert_eq!(expected, "Int|UInt|Float");
            assert_eq!(found, Some("(String, Float)".to_string()));
        },
        _ => panic!("expected a type error"),
    }
    let r = int_obj(1).mul(Obj::new(ObjKind::Nothing), &float_engine);
    match r {
        Err(InterpreterError::UnexpectedType { found, .. }) => {
            assert_eq!(found, Some("(Int, Nothing)".to_string()));
        },
        _ => panic!("expected a type error"),
    }
}

#[test]
fn operators_on_plain_integers() {
    assert_eq!(signed_arithmetic(Operator::Plus, 3, 4).unwrap(), 7);
    assert_eq!(signed_arithmetic(Operator::Minus, 3, 4).unwrap(), -1);
    assert_eq!(signed_arithmetic(Operator::Star, 3, 4).unwrap(), 12);
    assert_eq!(signed_arithmetic(Operator::Slash, 9, 4).unwrap(), 2);
    assert_eq!(signed_arithmetic(Operator::Percent, 9, 4).unwrap(), 1);
    assert_eq!(unsigned_arithmetic(Operator::Plus, 3, 4).unwrap(), 7);
    assert_eq!(unsigned_arithmetic(Operator::Slash, 9, 4).unwrap(), 2);
    assert_eq!(unsigned_arithmetic(Operator::Percent, 9, 4).unwrap(), 1);
    assert!(matches!(
        arithmetic(Operator::Star, int_obj(6), int_obj(7), &float_engine).unwrap().kind,
        ObjKind::Int(42)
    ));
}

#[test]
fn values_have_identities_of_their_own() {
    let a = int_obj(1);
    let b = a.deep_clone();
    assert!(a.content_eq(&b));
    assert_ne!(a.uuid, b.uuid);
}
