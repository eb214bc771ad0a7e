//! Evaluation runtime of a small expression language built around multiple
//! dispatch: named multimethods whose receivers are selected by matching a
//! call's argument pattern against each receiver's signature.
//!
//! Every data type has a mathematical view, and the contracts of the
//! functions are stated over those views.

pub mod error;
pub mod interpreter;
pub mod laws;
pub mod literal;
pub mod memory;
pub mod text;
pub mod syntax;
pub mod types;

