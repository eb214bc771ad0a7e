//! From the expression tree to runtime values and patterns.

use vstd::prelude::*;
use crate::error::{unexpected_type, ErrorView, InterpreterError};
use crate::literal::{bool_of_text, int_of_text, parse_bool, parse_int};
use crate::syntax::{
    ExprKindView, ExprView, Expression, ExpressionKind, Literal, SourcePattern, SourcePatternView,
};
use crate::text::text;
use crate::types::obj::{Obj, ObjKind, ObjView};
use crate::types::pattern::{
    FieldPattern, PairPattern, Pattern, PatternView, TuplePattern, ValuePattern, VariablePattern,
    VariableView,
};

verus! {

/// The value that an expression converts to. Literals are decoded from
/// their lexeme, lists and patterns are converted in depth, a type
/// reference becomes the type of that name, and every other node is kept
/// unevaluated. A literal whose lexeme does not write a value of its kind
/// is an error.
pub open spec fn obj_of_expr(e: ExprView) -> Result<ObjView, ErrorView>
    decreases e,
{
    match e.kind {
        ExprKindView::List(Some(inner)) => match obj_of_expr(*inner) {
            Ok(o) => Ok(ObjView::List(Some(Box::new(o)))),
            Err(x) => Err(x),
        },
        ExprKindView::List(None) => Ok(ObjView::List(None)),
        ExprKindView::Pattern(p) => match pattern_of_source(p) {
            Ok(q) => Ok(ObjView::Pattern(q)),
            Err(x) => Err(x),
        },
        ExprKindView::Type => Ok(ObjView::Type(e.lexeme)),
        ExprKindView::Literal(Literal::Int) => match int_of_text(e.lexeme) {
            Some(n) => Ok(ObjView::Int(n)),
            None => Err(unexpected_type("Int"@, e.lexeme)),
        },
        ExprKindView::Literal(Literal::Float) => Ok(ObjView::Float(e.lexeme)),
        ExprKindView::Literal(Literal::String) => Ok(ObjView::String(e.lexeme)),
        ExprKindView::Literal(Literal::Boolean) => match bool_of_text(e.lexeme) {
            Some(b) => Ok(ObjView::Boolean(b)),
            None => Err(unexpected_type("Boolean"@, e.lexeme)),
        },
        _ => Ok(ObjView::Expression(e)),
    }
}

/// The runtime pattern that a source pattern converts to: the same shape,
/// with each value expression converted to a value. In a pair the left
/// side is converted first.
pub open spec fn pattern_of_source(p: SourcePatternView) -> Result<PatternView, ErrorView>
    decreases p,
{
    match p {
        SourcePatternView::Field { name, value } => match pattern_of_source(*value) {
            Ok(v) => Ok(PatternView::Field { name, value: Box::new(v) }),
            Err(x) => Err(x),
        },
        SourcePatternView::Pair { left, right } => match pattern_of_source(*left) {
            Ok(l) => match pattern_of_source(*right) {
                Ok(r) => Ok(PatternView::Pair { left: Box::new(l), right: Box::new(r) }),
                Err(x) => Err(x),
            },
            Err(x) => Err(x),
        },
        SourcePatternView::Tuple { child } => match pattern_of_source(*child) {
            Ok(c) => Ok(PatternView::Tuple { child: Box::new(c) }),
            Err(x) => Err(x),
        },
        SourcePatternView::Value { expression } => match obj_of_expr(*expression) {
            Ok(o) => Ok(PatternView::Value { obj: Box::new(o) }),
            Err(x) => Err(x),
        },
        SourcePatternView::Variable { name, type_id } => Ok(
            PatternView::Variable(VariableView { name, type_id }),
        ),
    }
}

/// The conversion of an optional source pattern.
pub open spec fn opt_pattern_of_source(p: Option<SourcePatternView>) -> Result<
    Option<PatternView>,
    ErrorView,
> {
    match p {
        Some(s) => match pattern_of_source(s) {
            Ok(q) => Ok(Some(q)),
            Err(x) => Err(x),
        },
        None => Ok(None),
    }
}

/// The view of a conversion's outcome.
pub open spec fn obj_outcome(r: Result<Obj, InterpreterError>) -> Result<ObjView, ErrorView> {
    match r {
        Ok(o) => Ok(o@),
        Err(e) => Err(e@),
    }
}

/// The view of a pattern conversion's outcome.
pub open spec fn pattern_outcome(r: Result<Pattern, InterpreterError>) -> Result<
    PatternView,
    ErrorView,
> {
    match r {
        Ok(p) => Ok(p@),
        Err(e) => Err(e@),
    }
}

/// The view of an optional pattern conversion's outcome.
pub open spec fn opt_pattern_outcome(r: Result<Option<Pattern>, InterpreterError>) -> Result<
    Option<PatternView>,
    ErrorView,
> {
    match r {
        Ok(Some(p)) => Ok(Some(p@)),
        Ok(None) => Ok(None),
        Err(e) => Err(e@),
    }
}

/// The failure for a literal whose lexeme does not write a value of the
/// expected type.
fn bad_literal(expected: &str, lexeme: String) -> (e: InterpreterError)
    ensures
        e@ == unexpected_type(expected@, lexeme@),
{
    InterpreterError::UnexpectedType { expected: text(expected), found: Some(lexeme) }
}

impl Obj {
    /// Converts an expression into a value.
    pub fn from(expression: Expression) -> (r: Result<Obj, InterpreterError>)
        ensures
            obj_outcome(r) == obj_of_expr(expression@),
        decreases expression,
    {
        let Expression { kind, lexeme, start_pos, end_pos } = expression;
        let kind = match kind {
            ExpressionKind::List(child) => match child {
                Some(inner) => match Obj::from(*inner) {
                    Ok(o) => ObjKind::List(Some(Box::new(o))),
                    Err(e) => {
                        return Err(e);
                    },
                },
                None => ObjKind::List(None),
            },
            ExpressionKind::Pattern(pattern) => match Pattern::from(pattern) {
                Ok(p) => ObjKind::Pattern(p),
                Err(e) => {
                    return Err(e);
                },
            },
            ExpressionKind::Type => ObjKind::Type(lexeme),
            ExpressionKind::Literal(literal) => match literal {
                Literal::Int => match parse_int(lexeme.as_str()) {
                    Some(n) => ObjKind::Int(n),
                    None => {
                        return Err(bad_literal("Int", lexeme));
                    },
                },
                Literal::Float => ObjKind::Float(lexeme),
                Literal::String => ObjKind::String(lexeme),
                Literal::Boolean => match parse_bool(lexeme.as_str()) {
                    Some(b) => ObjKind::Boolean(b),
                    None => {
                        return Err(bad_literal("Boolean", lexeme));
                    },
                },
            },
            other => ObjKind::Expression(Expression { kind: other, lexeme, start_pos, end_pos }),
        };
        Ok(Obj::new(kind))
    }
}

impl Pattern {
    /// Converts a source pattern into a runtime pattern.
    pub fn from(p: SourcePattern) -> (r: Result<Pattern, InterpreterError>)
        ensures
            pattern_outcome(r) == pattern_of_source(p@),
        decreases p,
    {
        match p {
            SourcePattern::Field { name, value } => match Pattern::from(*value) {
                Ok(v) => Ok(Pattern::Field(FieldPattern { name, value: Box::new(v) })),
                Err(e) => Err(e),
            },
            SourcePattern::Pair { left, right } => match Pattern::from(*left) {
                Ok(l) => match Pattern::from(*right) {
                    Ok(r) => Ok(Pattern::Pair(PairPattern { left: Box::new(l), right: Box::new(r) })),
                    Err(e) => Err(e),
                },
                Err(e) => Err(e),
            },
            SourcePattern::Tuple { child } => match Pattern::from(*child) {
                Ok(c) => Ok(Pattern::Tuple(TuplePattern { child: Box::new(c) })),
                Err(e) => Err(e),
            },
            SourcePattern::Value { expression } => match Obj::from(*expression) {
                Ok(o) => Ok(Pattern::Value(ValuePattern { obj: Box::new(o) })),
                Err(e) => Err(e),
            },
            SourcePattern::Variable { name, type_id } => Ok(
                Pattern::Variable(VariablePattern { name, type_id }),
            ),
        }
    }
}

/// Converts an optional source pattern.
pub fn pattern_or_none(pattern: Option<SourcePattern>) -> (r: Result<
    Option<Pattern>,
    InterpreterError,
>)
    ensures
        opt_pattern_outcome(r) == opt_pattern_of_source(
            crate::syntax::opt_source_pattern_view(pattern),
        ),
{
    match pattern {
        Some(p) => match Pattern::from(p) {
            Ok(q) => Ok(Some(q)),
            Err(e) => Err(e),
        },
        None => Ok(None),
    }
}

} // verus!
