//! The handlers: each knows how to evaluate one kind of value.

use vstd::prelude::*;
use crate::error::{unexpected_type, ErrorView, InterpreterError};
use crate::interpreter::semantics::{
    call_spec,
    conditional_spec,
    infix_spec,
    invoke_spec,
    lemma_converted_pattern_size,
    method_spec,
    obj_size,
    opt_source_size,
    pattern_size,
    pattern_spec,
    value_spec,
    Outcome,
};
use crate::interpreter::{clone_opt_env, opt_env_view, Interpreter, InterpreterResult};
use crate::syntax::{
    opt_source_pattern_view, Call, CallView, Conditional, ConditionalView, ExprKindView,
    Expression, ExpressionKind, Infix, InfixView, Method, MethodView, Operator, SourcePattern,
};
use crate::text::text;
use crate::types::arithmetic::{FloatModel, Number};
use crate::types::linearize::Bindings;
use crate::types::convert::pattern_or_none;
use crate::types::ranking::rank;
use crate::types::environment::Environment;
use crate::types::multimethod::{Multimethod, ReceiverView};
use crate::types::obj::{obj_type_name, Obj, ObjKind, ObjView};
use crate::types::pattern::{Pattern, PatternView, ValuePattern, VariablePattern};

verus! {

pub struct CallVisitor;

pub struct ConditionalVisitor;

pub struct InfixVisitor;

pub struct MethodVisitor;

pub struct PatternVisitor;

pub struct ValueVisitor;

/// The failure for a value that is not of the expected type.
fn mismatch(expected: &str, found: Option<String>) -> (e: InterpreterError)
    requires
        found is Some,
    ensures
        e@ == unexpected_type(expected@, found->0@),
{
    InterpreterError::UnexpectedType { expected: text(expected), found }
}

/// The call that a value holds, where it is an unevaluated call.
pub open spec fn call_of(obj: ObjView) -> Result<CallView, ErrorView> {
    match obj {
        ObjView::Expression(e) => match e.kind {
            ExprKindView::Call(c) => Ok(c),
            _ => Err(unexpected_type("CallExpression"@, obj_type_name(obj))),
        },
        _ => Err(unexpected_type("CallExpression"@, obj_type_name(obj))),
    }
}

/// The method definition that a value holds.
pub open spec fn method_of(obj: ObjView) -> Result<MethodView, ErrorView> {
    match obj {
        ObjView::Expression(e) => match e.kind {
            ExprKindView::Method(m) => Ok(m),
            _ => Err(unexpected_type("MethodExpression"@, obj_type_name(obj))),
        },
        _ => Err(unexpected_type("MethodExpression"@, obj_type_name(obj))),
    }
}

/// The infix expression that a value holds.
pub open spec fn infix_of(obj: ObjView) -> Result<InfixView, ErrorView> {
    match obj {
        ObjView::Expression(e) => match e.kind {
            ExprKindView::Infix(i) => Ok(i),
            _ => Err(unexpected_type("InfixExpression"@, obj_type_name(obj))),
        },
        _ => Err(unexpected_type("InfixExpression"@, obj_type_name(obj))),
    }
}

/// The conditional that a value holds.
pub open spec fn conditional_of(obj: ObjView) -> Result<ConditionalView, ErrorView> {
    match obj {
        ObjView::Expression(e) => match e.kind {
            ExprKindView::Conditional(c) => Ok(c),
            _ => Err(unexpected_type("ConditionalExpression"@, obj_type_name(obj))),
        },
        _ => Err(unexpected_type("ConditionalExpression"@, obj_type_name(obj))),
    }
}

/// The pattern that a value holds.
pub open spec fn pattern_of(obj: ObjView) -> Result<PatternView, ErrorView> {
    match obj {
        ObjView::Pattern(p) => Ok(p),
        _ => Err(unexpected_type("Pattern"@, obj_type_name(obj))),
    }
}

/// The receivers of the multimethod that a value holds.
pub open spec fn multimethod_of(obj: ObjView) -> Result<Seq<ReceiverView>, ErrorView> {
    match obj {
        ObjView::Multimethod(rs) => Ok(rs),
        _ => Err(unexpected_type("Multimethod"@, obj_type_name(obj))),
    }
}

pub fn expect_call(obj: Obj) -> (r: Result<Call, InterpreterError>)
    ensures
        match r {
            Ok(c) => call_of(obj@) == Ok::<CallView, ErrorView>(c@),
            Err(e) => call_of(obj@) == Err::<CallView, ErrorView>(e@),
        },
{
    let found = obj.get_type();
    match obj.kind {
        ObjKind::Expression(expression) => match expression.kind {
            ExpressionKind::Call(call) => Ok(call),
            _ => Err(mismatch("CallExpression", found)),
        },
        _ => Err(mismatch("CallExpression", found)),
    }
}

pub fn expect_method(obj: Obj) -> (r: Result<Method, InterpreterError>)
    ensures
        match r {
            Ok(m) => method_of(obj@) == Ok::<MethodView, ErrorView>(m@),
            Err(e) => method_of(obj@) == Err::<MethodView, ErrorView>(e@),
        },
{
    let found = obj.get_type();
    match obj.kind {
        ObjKind::Expression(expression) => match expression.kind {
            ExpressionKind::Method(method) => Ok(method),
            _ => Err(mismatch("MethodExpression", found)),
        },
        _ => Err(mismatch("MethodExpression", found)),
    }
}

pub fn expect_infix_expression(obj: Obj) -> (r: Result<Infix, InterpreterError>)
    ensures
        match r {
            Ok(i) => infix_of(obj@) == Ok::<InfixView, ErrorView>(i@),
            Err(e) => infix_of(obj@) == Err::<InfixView, ErrorView>(e@),
        },
{
    let found = obj.get_type();
    match obj.kind {
        ObjKind::Expression(expression) => match expression.kind {
            ExpressionKind::Infix(infix) => Ok(infix),
            _ => Err(mismatch("InfixExpression", found)),
        },
        _ => Err(mismatch("InfixExpression", found)),
    }
}

pub fn expect_conditional(obj: Obj) -> (r: Result<Conditional, InterpreterError>)
    ensures
        match r {
            Ok(c) => conditional_of(obj@) == Ok::<ConditionalView, ErrorView>(c@),
            Err(e) => conditional_of(obj@) == Err::<ConditionalView, ErrorView>(e@),
        },
{
    let found = obj.get_type();
    match obj.kind {
        ObjKind::Expression(expression) => match expression.kind {
            ExpressionKind::Conditional(conditional) => Ok(conditional),
            _ => Err(mismatch("ConditionalExpression", found)),
        },
        _ => Err(mismatch("ConditionalExpression", found)),
    }
}

pub fn expect_pattern(obj: Obj) -> (r: Result<Pattern, InterpreterError>)
    ensures
        match r {
            Ok(p) => pattern_of(obj@) == Ok::<PatternView, ErrorView>(p@),
            Err(e) => pattern_of(obj@) == Err::<PatternView, ErrorView>(e@),
        },
{
    let found = obj.get_type();
    match obj.kind {
        ObjKind::Pattern(pattern) => Ok(pattern),
        _ => Err(mismatch("Pattern", found)),
    }
}

pub fn expect_multimethod(obj: Obj) -> (r: Result<Multimethod, InterpreterError>)
    ensures
        match r {
            Ok(m) => multimethod_of(obj@) == Ok::<Seq<ReceiverView>, ErrorView>(m@),
            Err(e) => multimethod_of(obj@) == Err::<Seq<ReceiverView>, ErrorView>(e@),
        },
{
    let found = obj.get_type();
    match obj.kind {
        ObjKind::Multimethod(multimethod) => Ok(multimethod),
        _ => Err(mismatch("Multimethod", found)),
    }
}

impl ValueVisitor {
    /// Literals evaluate to themselves.
    pub fn evaluate<F: Fn(Operator, &Number, &Number) -> Option<String>>(
        &self,
        interpreter: &mut Interpreter<F>,
        optional_env: Option<Environment>,
        obj: Obj,
    ) -> (r: InterpreterResult)
        ensures
            old(interpreter).evaluated(
                final(interpreter),
                r,
                Outcome { globals: old(interpreter).environment@, result: value_spec(obj@) },
            ),
    {
        match &obj.kind {
            ObjKind::Int(_)
            | ObjKind::UInt(_)
            | ObjKind::Float(_)
            | ObjKind::String(_)
            | ObjKind::Boolean(_) => Ok(Box::new(obj)),
            _ => {
                let found = obj.get_type();
                Err(mismatch("Int | UInt | String | Float | Boolean", found))
            },
        }
    }
}

impl MethodVisitor {
    /// Defines one receiver of a multimethod.
    pub fn evaluate<F: Fn(Operator, &Number, &Number) -> Option<String>>(
        &self,
        interpreter: &mut Interpreter<F>,
        optional_env: Option<Environment>,
        obj: Obj,
    ) -> (r: InterpreterResult)
        ensures
            old(interpreter).evaluated(
                final(interpreter),
                r,
                method_spec(old(interpreter).environment@, obj@),
            ),
    {
        let method = match expect_method(obj) {
            Ok(m) => m,
            Err(e) => {
                return Err(e);
            },
        };
        let Method { name, signature, body } = method;
        let key = VariablePattern::from_name(name);
        let existing = match interpreter.get_variable(key.deep_clone(), None) {
            Ok(found) => match expect_multimethod(*found) {
                Ok(m) => Some(m),
                Err(e) => {
                    return Err(e);
                },
            },
            Err(_) => None,
        };
        let signature = match pattern_or_none(signature) {
            Ok(s) => s,
            Err(e) => {
                return Err(e);
            },
        };
        let body = match Obj::from(*body) {
            Ok(b) => Box::new(b),
            Err(e) => {
                return Err(e);
            },
        };
        match existing {
            Some(mut multimethod) => {
                // There is a multimethod of this name: add the receiver to it.
                match multimethod.define(signature, body) {
                    Ok(()) => {},
                    Err(e) => {
                        return Err(e);
                    },
                }
                let _ = interpreter.mutate_variable(key, Obj::new(ObjKind::Multimethod(multimethod)));
            },
            None => {
                // There is none yet: create it with this receiver.
                let multimethod = Multimethod::from(signature, body);
                assert(multimethod@ =~= Seq::<ReceiverView>::empty().push(multimethod@[0]));
                let _ = interpreter.define_variable(key, Obj::new(ObjKind::Multimethod(multimethod)));
            },
        }
        Ok(Box::new(Obj::new(ObjKind::Type(text("Method")))))
    }
}

impl ConditionalVisitor {
    /// Evaluates the arm where the condition holds.
    pub fn evaluate<F: Fn(Operator, &Number, &Number) -> Option<String>>(
        &self,
        interpreter: &mut Interpreter<F>,
        optional_env: Option<Environment>,
        obj: Obj,
    ) -> (r: InterpreterResult)
        requires
            old(interpreter).wf(),
        ensures
            final(interpreter).wf(),
            old(interpreter).evaluated(
                final(interpreter),
                r,
                conditional_spec(
                    old(interpreter).model(),
                    old(interpreter).recursion_limit as nat,
                    old(interpreter).recursion_level as nat,
                    old(interpreter).environment@,
                    obj@,
                    opt_env_view(optional_env),
                ),
            ),
        decreases
                old(interpreter).recursion_limit - old(interpreter).recursion_level,
                obj_size(obj@),
                0nat,
    {
        let conditional = match expect_conditional(obj) {
            Ok(c) => c,
            Err(e) => {
                return Err(e);
            },
        };
        let Conditional { condition, then_arm } = conditional;
        let tested = match interpreter.evaluate_expr(condition, clone_opt_env(&optional_env)) {
            Ok(v) => v,
            Err(e) => {
                return Err(e);
            },
        };
        if tested.is_truthy() {
            interpreter.evaluate_expr(then_arm, optional_env)
        } else {
            Ok(Box::new(Obj::new(ObjKind::Nothing)))
        }
    }
}

impl InfixVisitor {
    /// Evaluates both operands and applies the operator.
    pub fn evaluate<F: Fn(Operator, &Number, &Number) -> Option<String>>(
        &self,
        interpreter: &mut Interpreter<F>,
        optional_env: Option<Environment>,
        obj: Obj,
    ) -> (r: InterpreterResult)
        requires
            old(interpreter).wf(),
        ensures
            final(interpreter).wf(),
            old(interpreter).evaluated(
                final(interpreter),
                r,
                infix_spec(
                    old(interpreter).model(),
                    old(interpreter).recursion_limit as nat,
                    old(interpreter).recursion_level as nat,
                    old(interpreter).environment@,
                    obj@,
                    opt_env_view(optional_env),
                ),
            ),
        decreases
                old(interpreter).recursion_limit - old(interpreter).recursion_level,
                obj_size(obj@),
                0nat,
    {
        let infix = match expect_infix_expression(obj) {
            Ok(i) => i,
            Err(e) => {
                return Err(e);
            },
        };
        let Infix { left, operator, right } = infix;
        let left = match interpreter.evaluate_expr(left, clone_opt_env(&optional_env)) {
            Ok(v) => v,
            Err(e) => {
                return Err(e);
            },
        };
        let right = match interpreter.evaluate_expr(right, optional_env) {
            Ok(v) => v,
            Err(e) => {
                return Err(e);
            },
        };
        let computed = match operator {
            Operator::Plus => (*left).add(*right, &interpreter.floats),
            Operator::Minus => (*left).sub(*right, &interpreter.floats),
            Operator::Slash => (*left).div(*right, &interpreter.floats),
            Operator::Star => (*left).mul(*right, &interpreter.floats),
            Operator::Percent => (*left).rem(*right, &interpreter.floats),
            _ => Err(InterpreterError::Unimplemented),
        };
        match computed {
            Ok(v) => Ok(Box::new(v)),
            Err(e) => Err(e),
        }
    }
}

impl PatternVisitor {
    /// Resolves a variable, or evaluates the value of a value pattern.
    pub fn evaluate<F: Fn(Operator, &Number, &Number) -> Option<String>>(
        &self,
        interpreter: &mut Interpreter<F>,
        optional_env: Option<Environment>,
        obj: Obj,
    ) -> (r: InterpreterResult)
        requires
            old(interpreter).wf(),
        ensures
            final(interpreter).wf(),
            old(interpreter).evaluated(
                final(interpreter),
                r,
                pattern_spec(
                    old(interpreter).model(),
                    old(interpreter).recursion_limit as nat,
                    old(interpreter).recursion_level as nat,
                    old(interpreter).environment@,
                    obj@,
                    opt_env_view(optional_env),
                ),
            ),
        decreases
                old(interpreter).recursion_limit - old(interpreter).recursion_level,
                obj_size(obj@),
                0nat,
    {
        let pattern = match expect_pattern(obj) {
            Ok(p) => p,
            Err(e) => {
                return Err(e);
            },
        };
        match pattern {
            Pattern::Variable(variable_pattern) => interpreter.get_variable(
                variable_pattern,
                optional_env,
            ),
            Pattern::Value(value_pattern) => {
                proof {
                    assert(pattern_size(pattern@) == 1 + obj_size((*value_pattern.obj)@));
                }
                match interpreter.evaluate(value_pattern.obj, optional_env) {
                    Ok(v) => Ok(
                        Box::new(Obj::new(ObjKind::Pattern(Pattern::Value(ValuePattern { obj: v })))),
                    ),
                    Err(e) => Err(e),
                }
            },
            other => Ok(Box::new(Obj::new(ObjKind::Pattern(other)))),
        }
    }
}

impl CallVisitor {
    /// Resolves the name to a multimethod and calls it.
    pub fn evaluate<F: Fn(Operator, &Number, &Number) -> Option<String>>(
        &self,
        interpreter: &mut Interpreter<F>,
        optional_env: Option<Environment>,
        obj: Obj,
    ) -> (r: InterpreterResult)
        requires
            old(interpreter).wf(),
        ensures
            final(interpreter).wf(),
            old(interpreter).evaluated(
                final(interpreter),
                r,
                call_spec(
                    old(interpreter).model(),
                    old(interpreter).recursion_limit as nat,
                    old(interpreter).recursion_level as nat,
                    old(interpreter).environment@,
                    obj@,
                    opt_env_view(optional_env),
                ),
            ),
        decreases
                old(interpreter).recursion_limit - old(interpreter).recursion_level,
                obj_size(obj@),
                0nat,
    {
        let call = match expect_call(obj) {
            Ok(c) => c,
            Err(e) => {
                return Err(e);
            },
        };
        let Call { name, signature } = call;
        let variable = match interpreter.get_variable(VariablePattern::from_name(name), None) {
            Ok(v) => v,
            Err(_) => {
                return Err(InterpreterError::NoMatchingMultimethod);
            },
        };
        let multimethod = match expect_multimethod(*variable) {
            Ok(m) => m,
            Err(e) => {
                return Err(e);
            },
        };
        multimethod.call(interpreter, signature)
    }
}

impl Multimethod {
    /// Finds the receiver that matches the call, evaluates its body with
    /// the variables that the match bound, and gives the result.
    pub fn call<F: Fn(Operator, &Number, &Number) -> Option<String>>(
        &self,
        interpreter: &mut Interpreter<F>,
        signature: Option<SourcePattern>,
    ) -> (r: InterpreterResult)
        requires
            old(interpreter).wf(),
        ensures
            final(interpreter).wf(),
            old(interpreter).evaluated(
                final(interpreter),
                r,
                invoke_spec(
                    old(interpreter).model(),
                    old(interpreter).recursion_limit as nat,
                    old(interpreter).recursion_level as nat,
                    old(interpreter).environment@,
                    self@,
                    opt_source_pattern_view(signature),
                ),
            ),
        decreases
                old(interpreter).recursion_limit - old(interpreter).recursion_level,
                1 + opt_source_size(opt_source_pattern_view(signature)),
                3nat,
    {
        let evaluated_signature = match signature {
            Some(source) => {
                proof {
                    lemma_converted_pattern_size(source@);
                }
                let pattern = match Pattern::from(source) {
                    Ok(p) => p,
                    Err(e) => {
                        return Err(e);
                    },
                };
                let obj = match interpreter.evaluate(
                    Box::new(Obj::new(ObjKind::Pattern(pattern))),
                    None,
                ) {
                    Ok(o) => o,
                    Err(e) => {
                        return Err(e);
                    },
                };
                match expect_pattern(*obj) {
                    Ok(p) => Some(p),
                    Err(e) => {
                        return Err(e);
                    },
                }
            },
            None => None,
        };
        // The matching receivers, sorted so that the one of highest precedence is first.
        let matching_receivers = match self.find_matching_receivers(&evaluated_signature) {
            Ok(m) => m,
            Err(e) => {
                return Err(e);
            },
        };
        let mut matching_receivers = rank(matching_receivers);
        if matching_receivers.len() >= 1 {
            let (env, body, _) = matching_receivers.remove(0);
            if interpreter.recursion_level >= interpreter.recursion_limit {
                return Err(InterpreterError::TooMuchRecursion);
            }
            interpreter.recursion_level = interpreter.recursion_level + 1;
            let result = interpreter.evaluate(body, Some(env));
            interpreter.recursion_level = interpreter.recursion_level - 1;
            result
        } else {
            Err(InterpreterError::NoMatchingReceiver)
        }
    }
}

/// A piece of code that knows how to evaluate one kind of value.
pub trait Visitor {
    /// What the handler gives for a value, and what it leaves of the
    /// global environment.
    spec fn outcome(
        &self,
        fl: FloatModel,
        limit: nat,
        depth: nat,
        globals: Bindings,
        obj: ObjView,
        env: Option<Bindings>,
    ) -> Outcome;

    fn evaluate<F: Fn(Operator, &Number, &Number) -> Option<String>>(
        &self,
        interpreter: &mut Interpreter<F>,
        optional_env: Option<Environment>,
        obj: Obj,
    ) -> (r: InterpreterResult)
        requires
            old(interpreter).wf(),
        ensures
            final(interpreter).wf(),
            old(interpreter).evaluated(
                final(interpreter),
                r,
                self.outcome(
                    old(interpreter).model(),
                    old(interpreter).recursion_limit as nat,
                    old(interpreter).recursion_level as nat,
                    old(interpreter).environment@,
                    obj@,
                    opt_env_view(optional_env),
                ),
            ),
    ;
}

impl Visitor for ValueVisitor {
    open spec fn outcome(
        &self,
        fl: FloatModel,
        limit: nat,
        depth: nat,
        globals: Bindings,
        obj: ObjView,
        env: Option<Bindings>,
    ) -> Outcome {
        Outcome { globals, result: value_spec(obj) }
    }

    fn evaluate<F: Fn(Operator, &Number, &Number) -> Option<String>>(
        &self,
        interpreter: &mut Interpreter<F>,
        optional_env: Option<Environment>,
        obj: Obj,
    ) -> (r: InterpreterResult) {
        ValueVisitor::evaluate(self, interpreter, optional_env, obj)
    }
}

impl Visitor for MethodVisitor {
    open spec fn outcome(
        &self,
        fl: FloatModel,
        limit: nat,
        depth: nat,
        globals: Bindings,
        obj: ObjView,
        env: Option<Bindings>,
    ) -> Outcome {
        method_spec(globals, obj)
    }

    fn evaluate<F: Fn(Operator, &Number, &Number) -> Option<String>>(
        &self,
        interpreter: &mut Interpreter<F>,
        optional_env: Option<Environment>,
        obj: Obj,
    ) -> (r: InterpreterResult) {
        MethodVisitor::evaluate(self, interpreter, optional_env, obj)
    }
}

impl Visitor for ConditionalVisitor {
    open spec fn outcome(
        &self,
        fl: FloatModel,
        limit: nat,
        depth: nat,
        globals: Bindings,
        obj: ObjView,
        env: Option<Bindings>,
    ) -> Outcome {
        conditional_spec(fl, limit, depth, globals, obj, env)
    }

    fn evaluate<F: Fn(Operator, &Number, &Number) -> Option<String>>(
        &self,
        interpreter: &mut Interpreter<F>,
        optional_env: Option<Environment>,
        obj: Obj,
    ) -> (r: InterpreterResult) {
        ConditionalVisitor::evaluate(self, interpreter, optional_env, obj)
    }
}

impl Visitor for InfixVisitor {
    open spec fn outcome(
        &self,
        fl: FloatModel,
        limit: nat,
        depth: nat,
        globals: Bindings,
        obj: ObjView,
        env: Option<Bindings>,
    ) -> Outcome {
        infix_spec(fl, limit, depth, globals, obj, env)
    }

    fn evaluate<F: Fn(Operator, &Number, &Number) -> Option<String>>(
        &self,
        interpreter: &mut Interpreter<F>,
        optional_env: Option<Environment>,
        obj: Obj,
    ) -> (r: InterpreterResult) {
        InfixVisitor::evaluate(self, interpreter, optional_env, obj)
    }
}

impl Visitor for PatternVisitor {
    open spec fn outcome(
        &self,
        fl: FloatModel,
        limit: nat,
        depth: nat,
        globals: Bindings,
        obj: ObjView,
        env: Option<Bindings>,
    ) -> Outcome {
        pattern_spec(fl, limit, depth, globals, obj, env)
    }

    fn evaluate<F: Fn(Operator, &Number, &Number) -> Option<String>>(
        &self,
        interpreter: &mut Interpreter<F>,
        optional_env: Option<Environment>,
        obj: Obj,
    ) -> (r: InterpreterResult) {
        PatternVisitor::evaluate(self, interpreter, optional_env, obj)
    }
}

impl Visitor for CallVisitor {
    open spec fn outcome(
        &self,
        fl: FloatModel,
        limit: nat,
        depth: nat,
        globals: Bindings,
        obj: ObjView,
        env: Option<Bindings>,
    ) -> Outcome {
        call_spec(fl, limit, depth, globals, obj, env)
    }

    fn evaluate<F: Fn(Operator, &Number, &Number) -> Option<String>>(
        &self,
        interpreter: &mut Interpreter<F>,
        optional_env: Option<Environment>,
        obj: Obj,
    ) -> (r: InterpreterResult) {
        CallVisitor::evaluate(self, interpreter, optional_env, obj)
    }
}

} // verus!
