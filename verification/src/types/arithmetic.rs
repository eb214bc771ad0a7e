//! The built-in arithmetic of the infix operators.
//!
//! Integers are computed here, with the wraparound of 64-bit machine
//! arithmetic. Floating-point numbers are kept as decimal text, and what an
//! operation on them gives is asked of a float engine: a function that the
//! interpreter is built with.

use vstd::prelude::*;
use crate::error::{ErrorView, InterpreterError};
use crate::syntax::Operator;
use crate::text::{opt_text_view, text};
use crate::types::obj::{obj_type_name, Obj, ObjKind, ObjView};

verus! {

/// An operand of a floating-point operation.
#[derive(Debug, PartialEq, Eq)]
pub enum Number {
    Int(i64),
    UInt(u64),
    Float(String),
}

pub enum NumberView {
    Int(i64),
    UInt(u64),
    Float(Seq<char>),
}

impl View for Number {
    type V = NumberView;

    open spec fn view(&self) -> NumberView {
        match *self {
            Number::Int(n) => NumberView::Int(n),
            Number::UInt(n) => NumberView::UInt(n),
            Number::Float(t) => NumberView::Float(t@),
        }
    }
}

/// What a float engine computes, as a mathematical function: the text of
/// the result, or `None` where an operand's text writes no number.
pub type FloatModel = spec_fn(Operator, NumberView, NumberView) -> Option<Seq<char>>;

/// Whether the engine may answer `out` when asked for `op` on operands
/// with the contents `a` and `b`.
pub open spec fn engine_answers<F: Fn(Operator, &Number, &Number) -> Option<String>>(
    f: F,
    op: Operator,
    a: NumberView,
    b: NumberView,
    out: Option<Seq<char>>,
) -> bool {
    exists|x: Number, y: Number, r: Option<String>|
        x@ == a && y@ == b && opt_text_view(r) == out && #[trigger] call_ensures(f, (op, &x, &y), r)
}

/// An engine can be used where it accepts every request, and where its
/// answer depends on nothing but the operator and the operands' contents.
pub open spec fn engine_wf<F: Fn(Operator, &Number, &Number) -> Option<String>>(f: F) -> bool {
    &&& forall|op: Operator, x: Number, y: Number| #[trigger] call_requires(f, (op, &x, &y))
    &&& forall|op: Operator, a: NumberView, b: NumberView, o1: Option<Seq<char>>, o2: Option<
        Seq<char>,
    >|
        #[trigger] engine_answers(f, op, a, b, o1) && #[trigger] engine_answers(f, op, a, b, o2)
            ==> o1 == o2
}

/// The function that an engine computes.
pub open spec fn float_model<F: Fn(Operator, &Number, &Number) -> Option<String>>(
    f: F,
) -> FloatModel {
    |op: Operator, a: NumberView, b: NumberView|
        choose|out: Option<Seq<char>>| engine_answers(f, op, a, b, out)
}

/// A 64-bit signed integer read as unsigned, bit for bit.
pub open spec fn as_unsigned(n: i64) -> u64 {
    if n < 0 {
        (n + 0x1_0000_0000_0000_0000) as u64
    } else {
        n as u64
    }
}

/// A 64-bit unsigned integer read as signed, bit for bit.
pub open spec fn as_signed(n: u64) -> i64 {
    if n > i64::MAX {
        (n - 0x1_0000_0000_0000_0000) as i64
    } else {
        n as i64
    }
}

/// An integer, wrapped around into 64 signed bits.
pub open spec fn wrap_signed(v: int) -> i64 {
    if (v % 0x1_0000_0000_0000_0000) > (i64::MAX as int) {
        ((v % 0x1_0000_0000_0000_0000) - 0x1_0000_0000_0000_0000) as i64
    } else {
        (v % 0x1_0000_0000_0000_0000) as i64
    }
}

/// An integer, wrapped around into 64 unsigned bits.
pub open spec fn wrap_unsigned(v: int) -> u64 {
    (v % 0x1_0000_0000_0000_0000) as u64
}

/// The quotient of a division that truncates toward zero.
pub open spec fn truncated_quotient(a: int, b: int) -> int
    recommends
        b != 0,
{
    if a >= 0 && b > 0 {
        a / b
    } else if a < 0 && b < 0 {
        (-a) / (-b)
    } else if a < 0 {
        -((-a) / b)
    } else {
        -(a / (-b))
    }
}

/// The remainder of a division that truncates toward zero.
pub open spec fn truncated_remainder(a: int, b: int) -> int
    recommends
        b != 0,
{
    a - b * truncated_quotient(a, b)
}

/// Whether the operator is one of the five arithmetic operators.
pub open spec fn is_arithmetic(op: Operator) -> bool {
    op == Operator::Plus || op == Operator::Minus || op == Operator::Star || op == Operator::Slash
        || op == Operator::Percent
}

/// The exact result of an arithmetic operator on two integers.
pub open spec fn exact_result(op: Operator, a: int, b: int) -> int
    recommends
        is_arithmetic(op),
        (op == Operator::Slash || op == Operator::Percent) ==> b != 0,
{
    match op {
        Operator::Plus => a + b,
        Operator::Minus => a - b,
        Operator::Star => a * b,
        Operator::Slash => truncated_quotient(a, b),
        _ => truncated_remainder(a, b),
    }
}

/// Whether the operation divides by zero.
pub open spec fn divides_by_zero(op: Operator, b: int) -> bool {
    (op == Operator::Slash || op == Operator::Percent) && b == 0
}

/// The failure for operands that are not numbers: it names the types of
/// both in parentheses, separated by a comma and a space.
pub open spec fn not_numbers(a: ObjView, b: ObjView) -> ErrorView {
    ErrorView::UnexpectedType {
        expected: "Int|UInt|Float"@,
        found: Some("("@ + obj_type_name(a) + ", "@ + obj_type_name(b) + ")"@),
    }
}

/// The failure for a floating-point operand whose text writes no number.
pub open spec fn not_a_float() -> ErrorView {
    ErrorView::UnexpectedType { expected: "Float"@, found: None }
}

/// A value as an operand of a floating-point operation, where it is a number.
pub open spec fn number_of(o: ObjView) -> Option<NumberView> {
    match o {
        ObjView::Int(n) => Some(NumberView::Int(n)),
        ObjView::UInt(n) => Some(NumberView::UInt(n)),
        ObjView::Float(t) => Some(NumberView::Float(t)),
        _ => None,
    }
}

/// What an arithmetic operator gives on two values.
///
/// - Two integers give an integer of the left operand's kind; the right
///   operand is read as that kind bit for bit, and the result wraps around.
///   Division and remainder truncate toward zero, and fail on zero.
/// - Where one operand is a float and the other a number, the result is
///   the float that the engine computes.
/// - Any other operands are a type error.
pub open spec fn arith_spec(fl: FloatModel, op: Operator, a: ObjView, b: ObjView) -> Result<
    ObjView,
    ErrorView,
>
    recommends
        is_arithmetic(op),
{
    match (a, b) {
        (ObjView::Int(x), ObjView::Int(y)) => signed_spec(op, x, y),
        (ObjView::Int(x), ObjView::UInt(y)) => signed_spec(op, x, as_signed(y)),
        (ObjView::UInt(x), ObjView::Int(y)) => unsigned_spec(op, x, as_unsigned(y)),
        (ObjView::UInt(x), ObjView::UInt(y)) => unsigned_spec(op, x, y),
        _ => if (a is Float || b is Float) && number_of(a) is Some && number_of(b) is Some {
            match fl(op, number_of(a).unwrap(), number_of(b).unwrap()) {
                Some(t) => Ok(ObjView::Float(t)),
                None => Err(not_a_float()),
            }
        } else {
            Err(not_numbers(a, b))
        },
    }
}

/// Arithmetic on two signed integers.
pub open spec fn signed_spec(op: Operator, x: i64, y: i64) -> Result<ObjView, ErrorView> {
    if divides_by_zero(op, y as int) {
        Err(ErrorView::DivisionByZero)
    } else {
        Ok(ObjView::Int(wrap_signed(exact_result(op, x as int, y as int))))
    }
}

/// Arithmetic on two unsigned integers.
pub open spec fn unsigned_spec(op: Operator, x: u64, y: u64) -> Result<ObjView, ErrorView> {
    if divides_by_zero(op, y as int) {
        Err(ErrorView::DivisionByZero)
    } else {
        Ok(ObjView::UInt(wrap_unsigned(exact_result(op, x as int, y as int))))
    }
}

/// Reads an unsigned integer as signed.
pub fn to_signed(n: u64) -> (r: i64)
    ensures
        r == as_signed(n),
{
    if n > 9223372036854775807 {
        let low: u64 = n - 9223372036854775808;
        (low as i64) + i64::MIN
    } else {
        n as i64
    }
}

/// Reads a signed integer as unsigned.
pub fn to_unsigned(n: i64) -> (r: u64)
    ensures
        r == as_unsigned(n),
{
    if n < 0 {
        let low: i64 = n - i64::MIN;
        (low as u64) + 9223372036854775808
    } else {
        n as u64
    }
}

/// Arithmetic on two signed integers.
pub fn signed_arithmetic(op: Operator, x: i64, y: i64) -> (r: Result<i64, InterpreterError>)
    requires
        is_arithmetic(op),
    ensures
        match signed_spec(op, x, y) {
            Ok(o) => r matches Ok(n) && ObjView::Int(n) == o,
            Err(e) => r matches Err(x) && x@ == e,
        },
{
    proof {
        lemma_wrap_signed(x + y);
        lemma_wrap_signed(x - y);
    }
    match op {
        Operator::Plus => Ok(x.wrapping_add(y)),
        Operator::Minus => Ok(x.wrapping_sub(y)),
        Operator::Star => Ok(x.wrapping_mul(y)),
        Operator::Slash => {
            if y == 0 {
                Err(InterpreterError::DivisionByZero)
            } else {
                proof {
                    lemma_quotient_bounds(x as int, y as int);
                    lemma_wrap_signed(truncated_quotient(x as int, y as int));
                }
                match x.checked_div(y) {
                    Some(q) => Ok(q),
                    None => {
                        Ok(i64::MIN)
                    },
                }
            }
        },
        _ => {
            if y == 0 {
                Err(InterpreterError::DivisionByZero)
            } else {
                proof {
                    lemma_remainder(x as int, y as int);
                    lemma_remainder_bounds(x as int, y as int);
                    lemma_wrap_signed(truncated_remainder(x as int, y as int));
                }
                match x.checked_rem(y) {
                    Some(m) => Ok(m),
                    None => Ok(0),
                }
            }
        },
    }
}

/// Arithmetic on two unsigned integers.
pub fn unsigned_arithmetic(op: Operator, x: u64, y: u64) -> (r: Result<u64, InterpreterError>)
    requires
        is_arithmetic(op),
    ensures
        match unsigned_spec(op, x, y) {
            Ok(o) => r matches Ok(n) && ObjView::UInt(n) == o,
            Err(e) => r matches Err(x) && x@ == e,
        },
{
    proof {
        lemma_wrap_unsigned(x + y);
        lemma_wrap_unsigned(x - y);
    }
    match op {
        Operator::Plus => Ok(x.wrapping_add(y)),
        Operator::Minus => Ok(x.wrapping_sub(y)),
        Operator::Star => Ok(x.wrapping_mul(y)),
        Operator::Slash => {
            if y == 0 {
                Err(InterpreterError::DivisionByZero)
            } else {
                proof {
                    lemma_quotient_bounds(x as int, y as int);
                    lemma_wrap_unsigned(truncated_quotient(x as int, y as int));
                }
                Ok(x / y)
            }
        },
        _ => {
            if y == 0 {
                Err(InterpreterError::DivisionByZero)
            } else {
                proof {
                    lemma_remainder(x as int, y as int);
                    lemma_remainder_bounds(x as int, y as int);
                    lemma_wrap_unsigned(truncated_remainder(x as int, y as int));
                }
                Ok(x % y)
            }
        },
    }
}

/// Wrapping into 64 signed bits adds or takes away 2^64 where the integer
/// is less than 2^64 out of range, and keeps an integer that is in range.
pub proof fn lemma_wrap_signed(v: int)
    ensures
        i64::MIN <= v <= i64::MAX ==> wrap_signed(v) == v,
        i64::MAX < v <= i64::MAX + 0x1_0000_0000_0000_0000 ==> wrap_signed(v) == v
            - 0x1_0000_0000_0000_0000,
        i64::MIN - 0x1_0000_0000_0000_0000 <= v < i64::MIN ==> wrap_signed(v) == v
            + 0x1_0000_0000_0000_0000,
{
    let r = 0x1_0000_0000_0000_0000int;
    if 0 <= v < r {
        vstd::arithmetic::div_mod::lemma_small_mod(v as nat, r as nat);
    } else if r <= v < 2 * r {
        vstd::arithmetic::div_mod::lemma_small_mod((v - r) as nat, r as nat);
        vstd::arithmetic::div_mod::lemma_mod_sub_multiples_vanish(v, r);
    } else if -r <= v < 0 {
        vstd::arithmetic::div_mod::lemma_small_mod((v + r) as nat, r as nat);
        vstd::arithmetic::div_mod::lemma_mod_add_multiples_vanish(v, r);
    } else if -2 * r <= v < -r {
        vstd::arithmetic::div_mod::lemma_small_mod((v + 2 * r) as nat, r as nat);
        vstd::arithmetic::div_mod::lemma_mod_add_multiples_vanish(v, r);
        vstd::arithmetic::div_mod::lemma_mod_add_multiples_vanish(v + r, r);
    }
}

/// Wrapping into 64 unsigned bits, likewise.
pub proof fn lemma_wrap_unsigned(v: int)
    ensures
        0 <= v <= u64::MAX ==> wrap_unsigned(v) == v,
        u64::MAX < v <= u64::MAX + 0x1_0000_0000_0000_0000 ==> wrap_unsigned(v) == v
            - 0x1_0000_0000_0000_0000,
        -0x1_0000_0000_0000_0000 <= v < 0 ==> wrap_unsigned(v) == v + 0x1_0000_0000_0000_0000,
{
    let r = 0x1_0000_0000_0000_0000int;
    if 0 <= v < r {
        vstd::arithmetic::div_mod::lemma_small_mod(v as nat, r as nat);
    } else if r <= v < 2 * r {
        vstd::arithmetic::div_mod::lemma_small_mod((v - r) as nat, r as nat);
        vstd::arithmetic::div_mod::lemma_mod_sub_multiples_vanish(v, r);
    } else if -r <= v < 0 {
        vstd::arithmetic::div_mod::lemma_small_mod((v + r) as nat, r as nat);
        vstd::arithmetic::div_mod::lemma_mod_add_multiples_vanish(v, r);
    }
}

/// A truncated quotient is no larger in magnitude than the dividend.
pub proof fn lemma_quotient_bounds(a: int, b: int)
    requires
        b != 0,
    ensures
        a >= 0 ==> -a <= truncated_quotient(a, b) <= a,
        a < 0 ==> a <= truncated_quotient(a, b) <= -a,
{
    let n = if a >= 0 { a } else { -a };
    let d = if b > 0 { b } else { -b };
    vstd::arithmetic::div_mod::lemma_div_pos_is_pos(n, d);
    vstd::arithmetic::div_mod::lemma_div_is_ordered_by_denominator(n, 1, d);
    vstd::arithmetic::div_mod::lemma_div_basics(n);
}

/// A truncated remainder is smaller in magnitude than the divisor.
pub proof fn lemma_remainder_bounds(a: int, b: int)
    requires
        b != 0,
    ensures
        b > 0 ==> -b < truncated_remainder(a, b) < b,
        b < 0 ==> b < truncated_remainder(a, b) < -b,
{
    lemma_remainder(a, b);
    let n = if a >= 0 { a } else { -a };
    let d = if b > 0 { b } else { -b };
    vstd::arithmetic::div_mod::lemma_mod_bound(n, d);
}

/// The remainder of a truncating division, by cases on the signs.
pub proof fn lemma_remainder(a: int, b: int)
    requires
        b != 0,
    ensures
        truncated_remainder(a, b) == if a >= 0 && b > 0 {
            a % b
        } else if a < 0 && b < 0 {
            -((-a) % (-b))
        } else if a < 0 {
            -((-a) % b)
        } else {
            a % (-b)
        },
{
    if a >= 0 && b > 0 {
        vstd::arithmetic::div_mod::lemma_fundamental_div_mod(a, b);
    } else if a < 0 && b < 0 {
        vstd::arithmetic::div_mod::lemma_fundamental_div_mod(-a, -b);
        assert(b * -((-a) / (-b)) == -(b * ((-a) / (-b)))) by (nonlinear_arith);
        assert((-b) * ((-a) / (-b)) == -(b * ((-a) / (-b)))) by (nonlinear_arith);
        assert(b * ((-a) / (-b)) == -((-b) * ((-a) / (-b)))) by (nonlinear_arith);
    } else if a < 0 {
        vstd::arithmetic::div_mod::lemma_fundamental_div_mod(-a, b);
        assert(b * -((-a) / b) == -(b * ((-a) / b))) by (nonlinear_arith);
    } else {
        vstd::arithmetic::div_mod::lemma_fundamental_div_mod(a, -b);
        assert(b * -(a / (-b)) == (-b) * (a / (-b))) by (nonlinear_arith);
    }
}

/// Asks the engine for a floating-point result.
fn float_arithmetic<F: Fn(Operator, &Number, &Number) -> Option<String>>(
    floats: &F,
    op: Operator,
    a: &Number,
    b: &Number,
) -> (r: Result<Obj, InterpreterError>)
    requires
        engine_wf(*floats),
    ensures
        match float_model(*floats)(op, a@, b@) {
            Some(t) => r matches Ok(o) && o@ == ObjView::Float(t),
            None => r matches Err(e) && e@ == not_a_float(),
        },
{
    let answer = floats(op, a, b);
    proof {
        assert(engine_answers(*floats, op, a@, b@, opt_text_view(answer)));
        assert(engine_answers(*floats, op, a@, b@, float_model(*floats)(op, a@, b@)));
    }
    match answer {
        Some(t) => Ok(Obj::new(ObjKind::Float(t))),
        None => Err(InterpreterError::UnexpectedType { expected: text("Float"), found: None }),
    }
}

/// A value as an operand of a floating-point operation.
fn as_number(o: &Obj) -> (r: Option<Number>)
    ensures
        match number_of(o@) {
            Some(n) => r matches Some(x) && x@ == n,
            None => r is None,
        },
{
    match &o.kind {
        ObjKind::Int(n) => Some(Number::Int(*n)),
        ObjKind::UInt(n) => Some(Number::UInt(*n)),
        ObjKind::Float(t) => Some(Number::Float(t.clone())),
        _ => None,
    }
}

/// The failure for operands that are not numbers.
fn operands_mismatch(o1: &Obj, o2: &Obj) -> (e: InterpreterError)
    ensures
        e@ == not_numbers(o1@, o2@),
{
    let mut found = text("(");
    let left = o1.get_type();
    let right = o2.get_type();
    match (left, right) {
        (Some(l), Some(r)) => {
            found.append(l.as_str());
            found.append(", ");
            found.append(r.as_str());
        },
        _ => {},
    }
    found.append(")");
    InterpreterError::UnexpectedType { expected: text("Int|UInt|Float"), found: Some(found) }
}

/// Applies one of the five arithmetic operators to two values.
pub fn arithmetic<F: Fn(Operator, &Number, &Number) -> Option<String>>(
    op: Operator,
    o1: Obj,
    o2: Obj,
    floats: &F,
) -> (r: Result<Obj, InterpreterError>)
    requires
        is_arithmetic(op),
        engine_wf(*floats),
    ensures
        crate::types::convert::obj_outcome(r) == arith_spec(float_model(*floats), op, o1@, o2@),
{
    match (&o1.kind, &o2.kind) {
        (ObjKind::Int(x), ObjKind::Int(y)) => match signed_arithmetic(op, *x, *y) {
            Ok(n) => Ok(Obj::new(ObjKind::Int(n))),
            Err(e) => Err(e),
        },
        (ObjKind::Int(x), ObjKind::UInt(y)) => match signed_arithmetic(op, *x, to_signed(*y)) {
            Ok(n) => Ok(Obj::new(ObjKind::Int(n))),
            Err(e) => Err(e),
        },
        (ObjKind::UInt(x), ObjKind::Int(y)) => match unsigned_arithmetic(op, *x, to_unsigned(*y)) {
            Ok(n) => Ok(Obj::new(ObjKind::UInt(n))),
            Err(e) => Err(e),
        },
        (ObjKind::UInt(x), ObjKind::UInt(y)) => match unsigned_arithmetic(op, *x, *y) {
            Ok(n) => Ok(Obj::new(ObjKind::UInt(n))),
            Err(e) => Err(e),
        },
        (ObjKind::Int(_), ObjKind::Float(_))
        | (ObjKind::UInt(_), ObjKind::Float(_))
        | (ObjKind::Float(_), ObjKind::Int(_))
        | (ObjKind::Float(_), ObjKind::UInt(_))
        | (ObjKind::Float(_), ObjKind::Float(_)) => {
            match (as_number(&o1), as_number(&o2)) {
                (Some(a), Some(b)) => float_arithmetic(floats, op, &a, &b),
                _ => Err(operands_mismatch(&o1, &o2)),
            }
        },
        _ => Err(operands_mismatch(&o1, &o2)),
    }
}

impl Obj {
    /// The sum of two numbers.
    pub fn add<F: Fn(Operator, &Number, &Number) -> Option<String>>(
        self,
        other: Obj,
        floats: &F,
    ) -> (r: Result<Obj, InterpreterError>)
        requires
            engine_wf(*floats),
        ensures
            crate::types::convert::obj_outcome(r) == arith_spec(
                float_model(*floats),
                Operator::Plus,
                self@,
                other@,
            ),
    {
        arithmetic(Operator::Plus, self, other, floats)
    }

    /// The difference of two numbers.
    pub fn sub<F: Fn(Operator, &Number, &Number) -> Option<String>>(
        self,
        other: Obj,
        floats: &F,
    ) -> (r: Result<Obj, InterpreterError>)
        requires
            engine_wf(*floats),
        ensures
            crate::types::convert::obj_outcome(r) == arith_spec(
                float_model(*floats),
                Operator::Minus,
                self@,
                other@,
            ),
    {
        arithmetic(Operator::Minus, self, other, floats)
    }

    /// The product of two numbers.
    pub fn mul<F: Fn(Operator, &Number, &Number) -> Option<String>>(
        self,
        other: Obj,
        floats: &F,
    ) -> (r: Result<Obj, InterpreterError>)
        requires
            engine_wf(*floats),
        ensures
            crate::types::convert::obj_outcome(r) == arith_spec(
                float_model(*floats),
                Operator::Star,
                self@,
                other@,
            ),
    {
        arithmetic(Operator::Star, self, other, floats)
    }

    /// The quotient of two numbers.
    pub fn div<F: Fn(Operator, &Number, &Number) -> Option<String>>(
        self,
        other: Obj,
        floats: &F,
    ) -> (r: Result<Obj, InterpreterError>)
        requires
            engine_wf(*floats),
        ensures
            crate::types::convert::obj_outcome(r) == arith_spec(
                float_model(*floats),
                Operator::Slash,
                self@,
                other@,
            ),
    {
        arithmetic(Operator::Slash, self, other, floats)
    }

    /// The remainder of the division of two numbers.
    pub fn rem<F: Fn(Operator, &Number, &Number) -> Option<String>>(
        self,
        other: Obj,
        floats: &F,
    ) -> (r: Result<Obj, InterpreterError>)
        requires
            engine_wf(*floats),
        ensures
            crate::types::convert::obj_outcome(r) == arith_spec(
                float_model(*floats),
                Operator::Percent,
                self@,
                other@,
            ),
    {
        arithmetic(Operator::Percent, self, other, floats)
    }
}

/// The engine of an interpreter without floating point: it computes
/// nothing, so every operation on a float is a type error.
pub fn integers_only(op: Operator, a: &Number, b: &Number) -> (r: Option<String>)
    ensures
        r is None,
{
    None
}

/// The engine without floating point can be used.
pub proof fn lemma_integers_only()
    ensures
        engine_wf(integers_only),
{
    assert forall|op: Operator, a: NumberView, b: NumberView, out: Option<Seq<char>>|
        #[trigger] engine_answers(integers_only, op, a, b, out) implies out is None by {}
}

} // verus!
