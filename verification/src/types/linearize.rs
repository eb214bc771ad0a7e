//! Linearization: matching a reference pattern against a given pattern,
//! which checks the shape and extracts the bindings in one pass.

use vstd::prelude::*;
use crate::error::{ErrorView, InterpreterError};
use crate::types::environment::Environment;
use crate::types::obj::ObjView;
use crate::types::pattern::{
    FieldPattern, PairPattern, Pattern, PatternView, TuplePattern, ValuePattern, VariablePattern,
    VariableView,
};

verus! {

pub type MatchResult = Result<Environment, InterpreterError>;

/// The bindings of an environment, as a mapping.
pub type Bindings = Map<VariableView, ObjView>;

/// What matching `reference` against `given` extracts, or `None` where
/// the two do not match.
///
/// - A value matches only a value with the same content, and binds nothing.
/// - A variable matches any value; where it has a name, the name (without
///   its type tag) is bound to that value. The type tag is accepted and
///   not checked. A variable matches nothing but a value.
/// - A pair matches a pair whose sides both match; the bindings of the
///   right side override those of the left.
/// - A tuple matches a tuple whose child matches.
/// - A field matches a field of the same name whose value matches.
pub open spec fn linearize_spec(reference: PatternView, given: PatternView) -> Option<Bindings>
    decreases reference,
{
    match reference {
        PatternView::Value { obj: v } => match given {
            PatternView::Value { obj: w } => if *v == *w {
                Some(Map::empty())
            } else {
                None
            },
            _ => None,
        },
        PatternView::Variable(var) => match given {
            PatternView::Value { obj: w } => match var.name {
                Some(n) => Some(
                    Map::empty().insert(VariableView { name: Some(n), type_id: None }, *w),
                ),
                None => Some(Map::empty()),
            },
            _ => None,
        },
        PatternView::Pair { left: lr, right: rr } => match given {
            PatternView::Pair { left: lg, right: rg } => match linearize_spec(*lr, *lg) {
                Some(l) => match linearize_spec(*rr, *rg) {
                    Some(r) => Some(l.union_prefer_right(r)),
                    None => None,
                },
                None => None,
            },
            _ => None,
        },
        PatternView::Tuple { child: c } => match given {
            PatternView::Tuple { child: cg } => linearize_spec(*c, *cg),
            _ => None,
        },
        PatternView::Field { name, value } => match given {
            PatternView::Field { name: given_name, value: given_value } => if name != given_name {
                None
            } else {
                linearize_spec(*value, *given_value)
            },
            _ => None,
        },
    }
}

/// The precedence of a pattern: 2 for a value, 1 for every other pattern.
pub open spec fn precedence_spec(p: PatternView) -> nat {
    match p {
        PatternView::Value { .. } => 2,
        _ => 1,
    }
}

/// Whether the outcome of a match is the one that `expected` describes:
/// the extracted bindings, or the failure `NoMatch`.
pub open spec fn match_outcome(r: MatchResult, expected: Option<Bindings>) -> bool {
    match expected {
        Some(m) => r matches Ok(env) && env@ == m,
        None => r matches Err(e) && e@ == ErrorView::NoMatch,
    }
}

impl Pattern {
    /// Matches `other` against this pattern and returns the variables
    /// that the match binds.
    pub fn linearize(&self, other: Pattern) -> (r: MatchResult)
        ensures
            match_outcome(r, linearize_spec(self@, other@)),
    {
        self.linearize_ref(&other)
    }

    /// Whether `other` matches this pattern.
    pub fn matches_with(&self, other: Pattern) -> (r: bool)
        ensures
            r == linearize_spec(self@, other@).is_some(),
    {
        match self.linearize(other) {
            Ok(_) => true,
            Err(_) => false,
        }
    }

    /// The weight by which matching receivers are ranked.
    pub fn get_precedence(&self) -> (r: usize)
        ensures
            r == precedence_spec(self@),
    {
        match self {
            Pattern::Value(_) => 2,
            _ => 1,
        }
    }

    /// `linearize` on a borrowed pattern.
    pub fn linearize_ref(&self, other: &Pattern) -> (r: MatchResult)
        ensures
            match_outcome(r, linearize_spec(self@, other@)),
        decreases self,
    {
        match self {
            Pattern::Field(reference) => Pattern::linearize_field(reference, other),
            Pattern::Tuple(reference) => Pattern::linearize_tuple(reference, other),
            Pattern::Value(reference) => Pattern::linearize_value(reference, other),
            Pattern::Variable(reference) => Pattern::linearize_variable(reference, other),
            Pattern::Pair(reference) => Pattern::linearize_pair(reference, other),
        }
    }

    fn linearize_field(reference: &FieldPattern, other: &Pattern) -> (r: MatchResult)
        ensures
            match_outcome(r, linearize_spec(Pattern::Field(*reference)@, other@)),
        decreases reference,
    {
        if let Pattern::Field(given) = other {
            if given.name != reference.name {
                return Err(InterpreterError::NoMatch);
            }
            reference.value.linearize_ref(&given.value)
        } else {
            Err(InterpreterError::NoMatch)
        }
    }

    fn linearize_tuple(reference: &TuplePattern, other: &Pattern) -> (r: MatchResult)
        ensures
            match_outcome(r, linearize_spec(Pattern::Tuple(*reference)@, other@)),
        decreases reference,
    {
        if let Pattern::Tuple(given) = other {
            reference.child.linearize_ref(&given.child)
        } else {
            Err(InterpreterError::NoMatch)
        }
    }

    fn linearize_value(reference: &ValuePattern, other: &Pattern) -> (r: MatchResult)
        ensures
            match_outcome(r, linearize_spec(Pattern::Value(*reference)@, other@)),
    {
        if let Pattern::Value(given) = other {
            if reference.obj.content_eq(&given.obj) {
                Ok(Environment::empty())
            } else {
                Err(InterpreterError::NoMatch)
            }
        } else {
            Err(InterpreterError::NoMatch)
        }
    }

    fn linearize_variable(reference: &VariablePattern, other: &Pattern) -> (r: MatchResult)
        ensures
            match_outcome(r, linearize_spec(Pattern::Variable(*reference)@, other@)),
    {
        if let Pattern::Value(given) = other {
            let mut variables = Environment::new();
            if let Some(name) = &reference.name {
                variables.insert(VariablePattern::from_name(name.clone()), given.obj.deep_clone());
            }
            Ok(variables)
        } else {
            Err(InterpreterError::NoMatch)
        }
    }

    fn linearize_pair(reference: &PairPattern, other: &Pattern) -> (r: MatchResult)
        ensures
            match_outcome(r, linearize_spec(Pattern::Pair(*reference)@, other@)),
        decreases reference,
    {
        if let Pattern::Pair(given) = other {
            let left_map = match reference.left.linearize_ref(&given.left) {
                Ok(m) => m,
                Err(e) => {
                    return Err(e);
                },
            };
            let right_map = match reference.right.linearize_ref(&given.right) {
                Ok(m) => m,
                Err(e) => {
                    return Err(e);
                },
            };
            Ok(left_map.extend(right_map))
        } else {
            Err(InterpreterError::NoMatch)
        }
    }
}

} // verus!
