//! The runtime data model: values, patterns, multimethods, environments.

pub mod arithmetic;
pub mod convert;
pub mod dispatch;
pub mod environment;
pub mod linearize;
pub mod obj;
pub mod pattern;
pub mod ranking;
pub mod multimethod;

pub use self::environment::Environment;
pub use self::multimethod::{Multimethod, Receiver};
pub use self::obj::{Obj, ObjKind};
pub use self::pattern::{
    FieldPattern, PairPattern, Pattern, TuplePattern, ValuePattern, VariablePattern,
};
