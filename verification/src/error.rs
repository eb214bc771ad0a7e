//! The failures of the interpreter. Every operation returns one of these
//! instead of trapping.

use vstd::prelude::*;
use crate::text::{clone_opt_text, opt_text_view};
use crate::types::pattern::{VariablePattern, VariableView};

verus! {

#[derive(Debug, PartialEq, Eq, Hash)]
pub enum InterpreterError {
    Unimplemented,
    UnexpectedType { expected: String, found: Option<String> },
    MethodAlreadyExists,
    SignatureAlreadyExists,
    VariableAlreadyExists,
    NoMatchingReceiver,
    NoMatchingMultimethod,
    NoMatchingVariable { pattern: VariablePattern },
    NoMatchingVisitor,
    /// Two patterns do not match. This stays inside the pattern engine.
    NoMatch,
    TooMuchRecursion,
    DivisionByZero,
}

pub enum ErrorView {
    Unimplemented,
    UnexpectedType { expected: Seq<char>, found: Option<Seq<char>> },
    MethodAlreadyExists,
    SignatureAlreadyExists,
    VariableAlreadyExists,
    NoMatchingReceiver,
    NoMatchingMultimethod,
    NoMatchingVariable { pattern: VariableView },
    NoMatchingVisitor,
    NoMatch,
    TooMuchRecursion,
    DivisionByZero,
}

impl View for InterpreterError {
    type V = ErrorView;

    open spec fn view(&self) -> ErrorView {
        match *self {
            InterpreterError::Unimplemented => ErrorView::Unimplemented,
            InterpreterError::UnexpectedType { expected, found } => ErrorView::UnexpectedType {
                expected: expected@,
                found: opt_text_view(found),
            },
            InterpreterError::MethodAlreadyExists => ErrorView::MethodAlreadyExists,
            InterpreterError::SignatureAlreadyExists => ErrorView::SignatureAlreadyExists,
            InterpreterError::VariableAlreadyExists => ErrorView::VariableAlreadyExists,
            InterpreterError::NoMatchingReceiver => ErrorView::NoMatchingReceiver,
            InterpreterError::NoMatchingMultimethod => ErrorView::NoMatchingMultimethod,
            InterpreterError::NoMatchingVariable { pattern } => ErrorView::NoMatchingVariable {
                pattern: pattern@,
            },
            InterpreterError::NoMatchingVisitor => ErrorView::NoMatchingVisitor,
            InterpreterError::NoMatch => ErrorView::NoMatch,
            InterpreterError::TooMuchRecursion => ErrorView::TooMuchRecursion,
            InterpreterError::DivisionByZero => ErrorView::DivisionByZero,
        }
    }
}

impl Clone for InterpreterError {
    fn clone(&self) -> (r: Self)
        ensures
            r@ == self@,
    {
        match self {
            InterpreterError::Unimplemented => InterpreterError::Unimplemented,
            InterpreterError::UnexpectedType { expected, found } => InterpreterError::UnexpectedType {
                expected: expected.clone(),
                found: clone_opt_text(found),
            },
            InterpreterError::MethodAlreadyExists => InterpreterError::MethodAlreadyExists,
            InterpreterError::SignatureAlreadyExists => InterpreterError::SignatureAlreadyExists,
            InterpreterError::VariableAlreadyExists => InterpreterError::VariableAlreadyExists,
            InterpreterError::NoMatchingReceiver => InterpreterError::NoMatchingReceiver,
            InterpreterError::NoMatchingMultimethod => InterpreterError::NoMatchingMultimethod,
            InterpreterError::NoMatchingVariable { pattern } => InterpreterError::NoMatchingVariable {
                pattern: pattern.deep_clone(),
            },
            InterpreterError::NoMatchingVisitor => InterpreterError::NoMatchingVisitor,
            InterpreterError::NoMatch => InterpreterError::NoMatch,
            InterpreterError::TooMuchRecursion => InterpreterError::TooMuchRecursion,
            InterpreterError::DivisionByZero => InterpreterError::DivisionByZero,
        }
    }
}

/// The failure for a value of the wrong type.
pub open spec fn unexpected_type(expected: Seq<char>, found: Seq<char>) -> ErrorView {
    ErrorView::UnexpectedType { expected, found: Some(found) }
}

} // verus!
