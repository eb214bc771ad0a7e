//! What evaluation means: the value or failure that each expression gives,
//! and what it does to the global environment, as mathematical functions
//! over the views of the data.

use vstd::prelude::*;
use crate::error::{unexpected_type, ErrorView};
use crate::syntax::{ExprKindView, ExprView, SourcePatternView};
use crate::types::arithmetic::{arith_spec, is_arithmetic, FloatModel};
use crate::types::convert::{obj_of_expr, opt_pattern_of_source, pattern_of_source};
use crate::types::dispatch::{define_spec, selected};
use crate::types::linearize::Bindings;
use crate::types::multimethod::ReceiverView;
use crate::types::obj::{is_truthy, obj_type_name, ObjView};
use crate::types::pattern::{PatternView, VariableView};

verus! {

/// What an evaluation leaves behind: the global environment after it, and
/// the value or the failure that it gives.
pub struct Outcome {
    pub globals: Bindings,
    pub result: Result<ObjView, ErrorView>,
}

/// The handlers, one for each kind of value that can be evaluated.
#[derive(Debug, Clone, Copy, PartialEq, Eq, Structural)]
pub enum VisitorKind {
    Value,
    Call,
    Method,
    Infix,
    Conditional,
    Pattern,
}

// ---------------------------------------------------------------------
// Sizes, by which evaluation at one depth of calls terminates

pub open spec fn expr_size(e: ExprView) -> nat
    decreases e,
{
    match e.kind {
        ExprKindView::Conditional(c) => 1 + expr_size(*c.condition) + expr_size(*c.then_arm),
        ExprKindView::List(Some(inner)) => 1 + expr_size(*inner),
        ExprKindView::Pattern(p) => 1 + source_size(p),
        ExprKindView::Infix(i) => 1 + expr_size(*i.left) + expr_size(*i.right),
        ExprKindView::Call(c) => 1 + opt_source_size(c.signature),
        ExprKindView::Method(m) => 1 + opt_source_size(m.signature) + expr_size(*m.body),
        _ => 1,
    }
}

pub open spec fn source_size(p: SourcePatternView) -> nat
    decreases p,
{
    match p {
        SourcePatternView::Field { name, value } => 1 + source_size(*value),
        SourcePatternView::Pair { left, right } => 1 + source_size(*left) + source_size(*right),
        SourcePatternView::Tuple { child } => 1 + source_size(*child),
        SourcePatternView::Value { expression } => 2 + expr_size(*expression),
        SourcePatternView::Variable { .. } => 1,
    }
}

pub open spec fn opt_source_size(p: Option<SourcePatternView>) -> nat
    decreases p,
{
    match p {
        Some(s) => source_size(s),
        None => 0,
    }
}

pub open spec fn obj_size(o: ObjView) -> nat
    decreases o,
{
    match o {
        ObjView::Pattern(p) => 1 + pattern_size(p),
        ObjView::List(Some(inner)) => 1 + obj_size(*inner),
        ObjView::Expression(e) => 1 + expr_size(e),
        _ => 1,
    }
}

pub open spec fn pattern_size(p: PatternView) -> nat
    decreases p,
{
    match p {
        PatternView::Field { name, value } => 1 + pattern_size(*value),
        PatternView::Pair { left, right } => 1 + pattern_size(*left) + pattern_size(*right),
        PatternView::Tuple { child } => 1 + pattern_size(*child),
        PatternView::Value { obj } => 1 + obj_size(*obj),
        PatternView::Variable(_) => 1,
    }
}

/// A converted expression is at most one larger than the expression.
pub proof fn lemma_converted_size(e: ExprView)
    ensures
        obj_of_expr(e) matches Ok(o) ==> obj_size(o) <= 1 + expr_size(e),
    decreases e,
{
    match e.kind {
        ExprKindView::List(Some(inner)) => {
            lemma_converted_size(*inner);
        },
        ExprKindView::Pattern(p) => {
            lemma_converted_pattern_size(p);
        },
        _ => {},
    }
}

/// A converted pattern is no larger than the source pattern.
pub proof fn lemma_converted_pattern_size(p: SourcePatternView)
    ensures
        pattern_of_source(p) matches Ok(q) ==> pattern_size(q) <= source_size(p),
    decreases p,
{
    match p {
        SourcePatternView::Field { name, value } => {
            lemma_converted_pattern_size(*value);
        },
        SourcePatternView::Pair { left, right } => {
            lemma_converted_pattern_size(*left);
            lemma_converted_pattern_size(*right);
        },
        SourcePatternView::Tuple { child } => {
            lemma_converted_pattern_size(*child);
        },
        SourcePatternView::Value { expression } => {
            lemma_converted_size(*expression);
        },
        SourcePatternView::Variable { .. } => {},
    }
}

// ---------------------------------------------------------------------
// The handlers

/// The handler that evaluates a value, by its kind. Literals go to the
/// value handler, patterns to the pattern handler, and an unevaluated
/// expression to the handler of its kind of node. Every other value has no
/// handler.
pub open spec fn visitor_of(o: ObjView) -> Option<VisitorKind> {
    match o {
        ObjView::Int(_) => Some(VisitorKind::Value),
        ObjView::UInt(_) => Some(VisitorKind::Value),
        ObjView::Float(_) => Some(VisitorKind::Value),
        ObjView::String(_) => Some(VisitorKind::Value),
        ObjView::Boolean(_) => Some(VisitorKind::Value),
        ObjView::Pattern(_) => Some(VisitorKind::Pattern),
        ObjView::Expression(e) => match e.kind {
            ExprKindView::Call(_) => Some(VisitorKind::Call),
            ExprKindView::Method(_) => Some(VisitorKind::Method),
            ExprKindView::Infix(_) => Some(VisitorKind::Infix),
            ExprKindView::Conditional(_) => Some(VisitorKind::Conditional),
            ExprKindView::Literal(_) => Some(VisitorKind::Value),
            ExprKindView::Pattern(_) => Some(VisitorKind::Pattern),
            _ => None,
        },
        _ => None,
    }
}

/// The key under which a name is bound.
pub open spec fn name_key(name: Seq<char>) -> VariableView {
    VariableView { name: Some(name), type_id: None }
}

/// What a variable is bound to: in the local environment where there is
/// one, else in the global one.
pub open spec fn lookup(globals: Bindings, env: Option<Bindings>, key: VariableView) -> Result<
    ObjView,
    ErrorView,
> {
    let scope = match env {
        Some(local) => local,
        None => globals,
    };
    if scope.contains_key(key) {
        Ok(scope[key])
    } else {
        Err(ErrorView::NoMatchingVariable { pattern: key })
    }
}

/// An outcome that leaves the globals as they are and fails.
pub open spec fn fails(globals: Bindings, e: ErrorView) -> Outcome {
    Outcome { globals, result: Err(e) }
}

/// The value handler: a literal evaluates to itself.
pub open spec fn value_spec(obj: ObjView) -> Result<ObjView, ErrorView> {
    match obj {
        ObjView::Int(_) => Ok(obj),
        ObjView::UInt(_) => Ok(obj),
        ObjView::Float(_) => Ok(obj),
        ObjView::String(_) => Ok(obj),
        ObjView::Boolean(_) => Ok(obj),
        _ => Err(unexpected_type("Int | UInt | String | Float | Boolean"@, obj_type_name(obj))),
    }
}

/// The method handler: defines a receiver of the multimethod of that
/// name, which is created where the name is not bound yet, and gives the
/// type `Method`.
pub open spec fn method_spec(globals: Bindings, obj: ObjView) -> Outcome {
    match obj {
        ObjView::Expression(e) => match e.kind {
            ExprKindView::Method(m) => {
                let key = name_key(m.name);
                let receivers = match lookup(globals, None, key) {
                    Ok(ObjView::Multimethod(rs)) => Ok(rs),
                    Ok(other) => Err(unexpected_type("Multimethod"@, obj_type_name(other))),
                    Err(_) => Ok(Seq::empty()),
                };
                match receivers {
                    Err(x) => fails(globals, x),
                    Ok(rs) => match opt_pattern_of_source(m.signature) {
                        Err(x) => fails(globals, x),
                        Ok(signature) => match obj_of_expr(*m.body) {
                            Err(x) => fails(globals, x),
                            Ok(body) => match define_spec(rs, signature, body) {
                                Err(x) => fails(globals, x),
                                Ok(defined) => Outcome {
                                    globals: globals.insert(key, ObjView::Multimethod(defined)),
                                    result: Ok(ObjView::Type("Method"@)),
                                },
                            },
                        },
                    },
                }
            },
            _ => fails(globals, unexpected_type("MethodExpression"@, obj_type_name(obj))),
        },
        _ => fails(globals, unexpected_type("MethodExpression"@, obj_type_name(obj))),
    }
}

/// What evaluating a value gives, at `depth` nested calls of at most
/// `limit`, with the global environment `globals` and the local one `env`.
pub open spec fn eval_spec(
    fl: FloatModel,
    limit: nat,
    depth: nat,
    globals: Bindings,
    obj: ObjView,
    env: Option<Bindings>,
) -> Outcome
    decreases limit - depth, obj_size(obj), 1nat,
{
    match visitor_of(obj) {
        None => fails(globals, ErrorView::NoMatchingVisitor),
        Some(VisitorKind::Value) => Outcome { globals, result: value_spec(obj) },
        Some(VisitorKind::Call) => call_spec(fl, limit, depth, globals, obj, env),
        Some(VisitorKind::Method) => method_spec(globals, obj),
        Some(VisitorKind::Infix) => infix_spec(fl, limit, depth, globals, obj, env),
        Some(VisitorKind::Conditional) => conditional_spec(fl, limit, depth, globals, obj, env),
        Some(VisitorKind::Pattern) => pattern_spec(fl, limit, depth, globals, obj, env),
    }
}

/// What evaluating an expression gives: it is converted to a value, and
/// that value is evaluated.
pub open spec fn eval_expr_spec(
    fl: FloatModel,
    limit: nat,
    depth: nat,
    globals: Bindings,
    e: ExprView,
    env: Option<Bindings>,
) -> Outcome
    decreases limit - depth, 1 + expr_size(e), 2nat,
{
    match obj_of_expr(e) {
        Err(x) => fails(globals, x),
        Ok(obj) => {
            proof {
                lemma_converted_size(e);
            }
            eval_spec(fl, limit, depth, globals, obj, env)
        },
    }
}

/// The conditional handler: the arm is evaluated where the condition
/// gives `true`; every other condition gives `Nothing`.
pub open spec fn conditional_spec(
    fl: FloatModel,
    limit: nat,
    depth: nat,
    globals: Bindings,
    obj: ObjView,
    env: Option<Bindings>,
) -> Outcome
    decreases limit - depth, obj_size(obj), 0nat,
{
    match obj {
        ObjView::Expression(e) => match e.kind {
            ExprKindView::Conditional(c) => {
                let tested = eval_expr_spec(fl, limit, depth, globals, *c.condition, env);
                match tested.result {
                    Err(_) => tested,
                    Ok(v) => if is_truthy(v) {
                        eval_expr_spec(fl, limit, depth, tested.globals, *c.then_arm, env)
                    } else {
                        Outcome { globals: tested.globals, result: Ok(ObjView::Nothing) }
                    },
                }
            },
            _ => fails(globals, unexpected_type("ConditionalExpression"@, obj_type_name(obj))),
        },
        _ => fails(globals, unexpected_type("ConditionalExpression"@, obj_type_name(obj))),
    }
}

/// The infix handler: both operands are evaluated, the left one first,
/// and then the operator is applied, where it is an arithmetic operator.
pub open spec fn infix_spec(
    fl: FloatModel,
    limit: nat,
    depth: nat,
    globals: Bindings,
    obj: ObjView,
    env: Option<Bindings>,
) -> Outcome
    decreases limit - depth, obj_size(obj), 0nat,
{
    match obj {
        ObjView::Expression(e) => match e.kind {
            ExprKindView::Infix(i) => {
                let left = eval_expr_spec(fl, limit, depth, globals, *i.left, env);
                match left.result {
                    Err(_) => left,
                    Ok(l) => {
                        let right = eval_expr_spec(fl, limit, depth, left.globals, *i.right, env);
                        match right.result {
                            Err(_) => right,
                            Ok(r) => Outcome {
                                globals: right.globals,
                                result: if is_arithmetic(i.operator) {
                                    arith_spec(fl, i.operator, l, r)
                                } else {
                                    Err(ErrorView::Unimplemented)
                                },
                            },
                        }
                    },
                }
            },
            _ => fails(globals, unexpected_type("InfixExpression"@, obj_type_name(obj))),
        },
        _ => fails(globals, unexpected_type("InfixExpression"@, obj_type_name(obj))),
    }
}

/// The pattern handler: a variable gives what it is bound to, a value
/// pattern has its value evaluated, and every other pattern gives itself.
pub open spec fn pattern_spec(
    fl: FloatModel,
    limit: nat,
    depth: nat,
    globals: Bindings,
    obj: ObjView,
    env: Option<Bindings>,
) -> Outcome
    decreases limit - depth, obj_size(obj), 0nat,
{
    match obj {
        ObjView::Pattern(p) => match p {
            PatternView::Variable(v) => Outcome { globals, result: lookup(globals, env, v) },
            PatternView::Value { obj: inner } => {
                proof {
                    assert(pattern_size(p) == 1 + obj_size(*inner));
                }
                let payload = eval_spec(fl, limit, depth, globals, *inner, env);
                match payload.result {
                    Err(_) => payload,
                    Ok(v) => Outcome {
                        globals: payload.globals,
                        result: Ok(ObjView::Pattern(PatternView::Value { obj: Box::new(v) })),
                    },
                }
            },
            _ => Outcome { globals, result: Ok(obj) },
        },
        _ => fails(globals, unexpected_type("Pattern"@, obj_type_name(obj))),
    }
}

/// The call handler: the name is looked up in the global environment, and
/// the multimethod that it is bound to answers the call.
pub open spec fn call_spec(
    fl: FloatModel,
    limit: nat,
    depth: nat,
    globals: Bindings,
    obj: ObjView,
    env: Option<Bindings>,
) -> Outcome
    decreases limit - depth, obj_size(obj), 0nat,
{
    match obj {
        ObjView::Expression(e) => match e.kind {
            ExprKindView::Call(c) => match lookup(globals, None, name_key(c.name)) {
                Err(_) => fails(globals, ErrorView::NoMatchingMultimethod),
                Ok(ObjView::Multimethod(receivers)) => invoke_spec(
                    fl,
                    limit,
                    depth,
                    globals,
                    receivers,
                    c.signature,
                ),
                Ok(other) => fails(globals, unexpected_type("Multimethod"@, obj_type_name(other))),
            },
            _ => fails(globals, unexpected_type("CallExpression"@, obj_type_name(obj))),
        },
        _ => fails(globals, unexpected_type("CallExpression"@, obj_type_name(obj))),
    }
}

/// A call of a multimethod. The call's signature is converted and
/// evaluated without a local environment; the receiver that it selects has
/// its body evaluated one call deeper, with the extracted bindings as the
/// local environment. The call fails where no receiver matches, and where
/// the depth has reached the limit.
pub open spec fn invoke_spec(
    fl: FloatModel,
    limit: nat,
    depth: nat,
    globals: Bindings,
    receivers: Seq<ReceiverView>,
    signature: Option<SourcePatternView>,
) -> Outcome
    decreases limit - depth, 1 + opt_source_size(signature), 3nat,
{
    let given = match signature {
        Some(source) => match pattern_of_source(source) {
            Err(x) => fails(globals, x),
            Ok(p) => {
                proof {
                    lemma_converted_pattern_size(source);
                }
                eval_spec(fl, limit, depth, globals, ObjView::Pattern(p), None)
            },
        },
        None => Outcome { globals, result: Ok(ObjView::Nothing) },
    };
    match given.result {
        Err(_) => given,
        Ok(v) => {
            let call_signature = match (signature, v) {
                (None, _) => Ok(None),
                (Some(_), ObjView::Pattern(q)) => Ok(Some(q)),
                (Some(_), other) => Err(unexpected_type("Pattern"@, obj_type_name(other))),
            };
            match call_signature {
                Err(x) => fails(given.globals, x),
                Ok(s) => match selected(receivers, s) {
                    None => fails(given.globals, ErrorView::NoMatchingReceiver),
                    Some(candidate) => if depth >= limit {
                        fails(given.globals, ErrorView::TooMuchRecursion)
                    } else {
                        eval_spec(
                            fl,
                            limit,
                            depth + 1,
                            given.globals,
                            candidate.body,
                            Some(candidate.bindings),
                        )
                    },
                },
            }
        },
    }
}

} // verus!
