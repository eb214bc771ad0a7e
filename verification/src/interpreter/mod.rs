//! The evaluator: one entry point that routes a value to the handler of
//! its kind, and guards the depth of nested calls.

pub mod semantics;
pub mod visitors;

use vstd::prelude::*;
use crate::error::ErrorView;
pub use crate::error::InterpreterError;
use crate::syntax::{Expression, Operator};
use crate::types::arithmetic::{engine_wf, float_model, FloatModel, Number};
use crate::types::environment::Environment;
use crate::types::linearize::Bindings;
use crate::types::obj::{Obj, ObjKind, ObjView};
use crate::types::pattern::{Pattern, PatternView, VariablePattern};
use self::semantics::{
    eval_expr_spec, eval_spec, expr_size, lemma_converted_size, lookup, obj_size, visitor_of,
    Outcome, VisitorKind,
};
use self::visitors::{
    CallVisitor, ConditionalVisitor, InfixVisitor, MethodVisitor, PatternVisitor, ValueVisitor,
};

verus! {

pub type InterpreterResult = Result<Box<Obj>, InterpreterError>;

/// The depth of nested calls that an interpreter allows unless told otherwise.
pub const DEFAULT_RECURSION_LIMIT: usize = 4;

/// The state of the evaluator: the global environment, which holds the
/// top-level definitions, the depth of the calls under way and its limit,
/// and the engine that computes floating-point results.
pub struct Interpreter<F> {
    pub environment: Environment,
    pub recursion_level: usize,
    pub recursion_limit: usize,
    pub floats: F,
}

/// The view of an evaluation's result.
pub open spec fn result_view(r: InterpreterResult) -> Result<ObjView, ErrorView> {
    match r {
        Ok(o) => Ok((*o)@),
        Err(e) => Err(e@),
    }
}

/// The view of an optional local environment.
pub open spec fn opt_env_view(env: Option<Environment>) -> Option<Bindings> {
    match env {
        Some(e) => Some(e@),
        None => None,
    }
}

/// Copies an optional environment.
pub fn clone_opt_env(env: &Option<Environment>) -> (r: Option<Environment>)
    ensures
        opt_env_view(r) == opt_env_view(*env),
{
    match env {
        Some(e) => Some(e.deep_clone()),
        None => None,
    }
}

/// The pattern that stands for a variable.
pub open spec fn variable_obj(key: crate::types::pattern::VariableView) -> ObjView {
    ObjView::Pattern(PatternView::Variable(key))
}

impl<F: Fn(Operator, &Number, &Number) -> Option<String>> Interpreter<F> {
    /// The engine can be used, and the calls under way are within the limit.
    pub open spec fn wf(&self) -> bool {
        &&& engine_wf(self.floats)
        &&& self.recursion_level <= self.recursion_limit
    }

    /// The function that the engine computes.
    pub open spec fn model(&self) -> FloatModel {
        float_model(self.floats)
    }

    /// Whether an evaluation that started in the state `self` and ended in
    /// the state `after` with the result `r` has the outcome `out`. The
    /// depth is the same after it as before, whether it failed or not.
    pub open spec fn evaluated(&self, after: &Self, r: InterpreterResult, out: Outcome) -> bool {
        &&& after.environment@ == out.globals
        &&& result_view(r) == out.result
        &&& after.recursion_level == self.recursion_level
        &&& after.recursion_limit == self.recursion_limit
        &&& after.floats == self.floats
    }

    /// An interpreter without definitions, with the default limit on the
    /// depth of calls.
    pub fn new(floats: F) -> (r: Self)
        ensures
            r.environment@ == Map::<crate::types::pattern::VariableView, ObjView>::empty(),
            r.recursion_level == 0,
            r.recursion_limit == DEFAULT_RECURSION_LIMIT,
            r.floats == floats,
    {
        Interpreter {
            environment: Environment::new(),
            recursion_level: 0,
            recursion_limit: DEFAULT_RECURSION_LIMIT,
            floats,
        }
    }

    /// The same interpreter with another limit on the depth of calls.
    pub fn with_recursion_limit(self, limit: usize) -> (r: Self)
        ensures
            r.environment@ == self.environment@,
            r.recursion_level == self.recursion_level,
            r.recursion_limit == limit,
            r.floats == self.floats,
    {
        Interpreter {
            environment: self.environment,
            recursion_level: self.recursion_level,
            recursion_limit: limit,
            floats: self.floats,
        }
    }

    /// What the variable is bound to: in the given environment where there
    /// is one, else in the global one.
    pub fn get_variable(
        &self,
        variable_pattern: VariablePattern,
        optional_env: Option<Environment>,
    ) -> (r: InterpreterResult)
        ensures
            result_view(r) == lookup(
                self.environment@,
                opt_env_view(optional_env),
                variable_pattern@,
            ),
    {
        let found = match &optional_env {
            Some(env) => env.get(&variable_pattern),
            None => self.environment.get(&variable_pattern),
        };
        match found {
            Some(value) => Ok(Box::new(value.deep_clone())),
            None => Err(InterpreterError::NoMatchingVariable { pattern: variable_pattern }),
        }
    }

    /// Binds a new global variable. It fails where the variable is bound
    /// already, and gives the variable's pattern where it is not.
    pub fn define_variable(&mut self, variable_pattern: VariablePattern, obj: Obj) -> (r:
        InterpreterResult)
        ensures
            final(self).recursion_level == old(self).recursion_level,
            final(self).recursion_limit == old(self).recursion_limit,
            final(self).floats == old(self).floats,
            old(self).environment@.contains_key(variable_pattern@) ==> {
                &&& result_view(r) == Err::<ObjView, ErrorView>(ErrorView::VariableAlreadyExists)
                &&& final(self).environment@ == old(self).environment@
            },
            !old(self).environment@.contains_key(variable_pattern@) ==> {
                &&& result_view(r) == Ok::<ObjView, ErrorView>(variable_obj(variable_pattern@))
                &&& final(self).environment@ == old(self).environment@.insert(
                    variable_pattern@,
                    obj@,
                )
            },
    {
        if !self.environment.contains_key(&variable_pattern) {
            self.environment.insert(variable_pattern.deep_clone(), obj);
            Ok(Box::new(Obj::new(ObjKind::Pattern(Pattern::Variable(variable_pattern)))))
        } else {
            Err(InterpreterError::VariableAlreadyExists)
        }
    }

    /// Binds a global variable anew. It fails where the variable is not
    /// bound, and gives the variable's pattern where it is.
    pub fn mutate_variable(&mut self, variable_pattern: VariablePattern, obj: Obj) -> (r:
        InterpreterResult)
        ensures
            final(self).recursion_level == old(self).recursion_level,
            final(self).recursion_limit == old(self).recursion_limit,
            final(self).floats == old(self).floats,
            old(self).environment@.contains_key(variable_pattern@) ==> {
                &&& result_view(r) == Ok::<ObjView, ErrorView>(variable_obj(variable_pattern@))
                &&& final(self).environment@ == old(self).environment@.insert(
                    variable_pattern@,
                    obj@,
                )
            },
            !old(self).environment@.contains_key(variable_pattern@) ==> {
                &&& result_view(r) == Err::<ObjView, ErrorView>(
                    ErrorView::NoMatchingVariable { pattern: variable_pattern@ },
                )
                &&& final(self).environment@ == old(self).environment@
            },
    {
        if self.environment.contains_key(&variable_pattern) {
            let ghost before = self.environment@;
            self.environment.remove(&variable_pattern);
            self.environment.insert(variable_pattern.deep_clone(), obj);
            assert(self.environment@ =~= before.insert(variable_pattern@, obj@));
            Ok(Box::new(Obj::new(ObjKind::Pattern(Pattern::Variable(variable_pattern)))))
        } else {
            Err(InterpreterError::NoMatchingVariable { pattern: variable_pattern })
        }
    }

    /// The handler for a value, by its kind.
    pub fn visitor_for(obj: &Obj) -> (r: Option<VisitorKind>)
        ensures
            r == visitor_of(obj@),
    {
        match &obj.kind {
            ObjKind::Int(_) => Some(VisitorKind::Value),
            ObjKind::UInt(_) => Some(VisitorKind::Value),
            ObjKind::Float(_) => Some(VisitorKind::Value),
            ObjKind::String(_) => Some(VisitorKind::Value),
            ObjKind::Boolean(_) => Some(VisitorKind::Value),
            ObjKind::Pattern(_) => Some(VisitorKind::Pattern),
            ObjKind::Expression(e) => match &e.kind {
                crate::syntax::ExpressionKind::Call(_) => Some(VisitorKind::Call),
                crate::syntax::ExpressionKind::Method(_) => Some(VisitorKind::Method),
                crate::syntax::ExpressionKind::Infix(_) => Some(VisitorKind::Infix),
                crate::syntax::ExpressionKind::Conditional(_) => Some(VisitorKind::Conditional),
                crate::syntax::ExpressionKind::Literal(_) => Some(VisitorKind::Value),
                crate::syntax::ExpressionKind::Pattern(_) => Some(VisitorKind::Pattern),
                _ => None,
            },
            _ => None,
        }
    }

    /// Converts an expression to a value and evaluates it.
    pub fn evaluate_expr(&mut self, expression: Box<Expression>, optional_env: Option<
        Environment,
    >) -> (r: InterpreterResult)
        requires
            old(self).wf(),
        ensures
            final(self).wf(),
            old(self).evaluated(
                final(self),
                r,
                eval_expr_spec(
                    old(self).model(),
                    old(self).recursion_limit as nat,
                    old(self).recursion_level as nat,
                    old(self).environment@,
                    (*expression)@,
                    opt_env_view(optional_env),
                ),
            ),
        decreases
                old(self).recursion_limit - old(self).recursion_level,
                1 + expr_size((*expression)@),
                2nat,
    {
        proof {
            lemma_converted_size((*expression)@);
        }
        match Obj::from(*expression) {
            Ok(obj) => self.evaluate(Box::new(obj), optional_env),
            Err(e) => Err(e),
        }
    }

    /// Evaluates a value: the handler of its kind is looked up and run. A
    /// value of a kind that has no handler fails with `NoMatchingVisitor`.
    pub fn evaluate(&mut self, obj: Box<Obj>, optional_env: Option<Environment>) -> (r:
        InterpreterResult)
        requires
            old(self).wf(),
        ensures
            final(self).wf(),
            old(self).evaluated(
                final(self),
                r,
                eval_spec(
                    old(self).model(),
                    old(self).recursion_limit as nat,
                    old(self).recursion_level as nat,
                    old(self).environment@,
                    (*obj)@,
                    opt_env_view(optional_env),
                ),
            ),
        decreases
                old(self).recursion_limit - old(self).recursion_level,
                obj_size((*obj)@),
                1nat,
    {
        match Self::visitor_for(&obj) {
            Some(VisitorKind::Value) => ValueVisitor.evaluate(self, optional_env, *obj),
            Some(VisitorKind::Call) => CallVisitor.evaluate(self, optional_env, *obj),
            Some(VisitorKind::Method) => MethodVisitor.evaluate(self, optional_env, *obj),
            Some(VisitorKind::Infix) => InfixVisitor.evaluate(self, optional_env, *obj),
            Some(VisitorKind::Conditional) => ConditionalVisitor.evaluate(self, optional_env, *obj),
            Some(VisitorKind::Pattern) => PatternVisitor.evaluate(self, optional_env, *obj),
            None => Err(InterpreterError::NoMatchingVisitor),
        }
    }
}

} // verus!
