//! Patterns: the shapes that call arguments are matched against.

use vstd::prelude::*;
use crate::text::{clone_opt_text, opt_text_view, same_opt_text, text};
use crate::types::obj::{obj_view, Obj, ObjView};

verus! {

/// A runtime pattern. Patterns are pure data; matching works on pairs of
/// them.
#[derive(Debug, PartialEq, Eq)]
pub enum Pattern {
    Field(FieldPattern),
    Pair(PairPattern),
    Tuple(TuplePattern),
    Value(ValuePattern),
    Variable(VariablePattern),
}

/// A named pattern, like `repeats: 4`.
#[derive(Debug, PartialEq, Eq)]
pub struct FieldPattern {
    pub name: String,
    pub value: Box<Pattern>,
}

/// Two patterns separated by a comma.
#[derive(Debug, PartialEq, Eq)]
pub struct PairPattern {
    pub left: Box<Pattern>,
    pub right: Box<Pattern>,
}

/// A pattern enclosed in parentheses.
#[derive(Debug, PartialEq, Eq)]
pub struct TuplePattern {
    pub child: Box<Pattern>,
}

/// A pattern that stands for one value.
#[derive(Debug, PartialEq, Eq)]
pub struct ValuePattern {
    pub obj: Box<Obj>,
}

/// A name with an optional type tag; an environment is keyed by these.
#[derive(Debug, PartialEq, Eq, Hash)]
pub struct VariablePattern {
    pub name: Option<String>,
    pub type_id: Option<String>,
}

pub enum PatternView {
    Field { name: Seq<char>, value: Box<PatternView> },
    Pair { left: Box<PatternView>, right: Box<PatternView> },
    Tuple { child: Box<PatternView> },
    Value { obj: Box<ObjView> },
    Variable(VariableView),
}

pub struct VariableView {
    pub name: Option<Seq<char>>,
    pub type_id: Option<Seq<char>>,
}

pub open spec fn variable_view(v: VariablePattern) -> VariableView {
    VariableView { name: opt_text_view(v.name), type_id: opt_text_view(v.type_id) }
}

pub open spec fn pattern_view(p: Pattern) -> PatternView
    decreases p,
{
    match p {
        Pattern::Field(f) => PatternView::Field {
            name: f.name@,
            value: Box::new(pattern_view(*f.value)),
        },
        Pattern::Pair(pair) => PatternView::Pair {
            left: Box::new(pattern_view(*pair.left)),
            right: Box::new(pattern_view(*pair.right)),
        },
        Pattern::Tuple(t) => PatternView::Tuple { child: Box::new(pattern_view(*t.child)) },
        Pattern::Value(v) => PatternView::Value { obj: Box::new(obj_view(*v.obj)) },
        Pattern::Variable(v) => PatternView::Variable(variable_view(v)),
    }
}

pub open spec fn opt_pattern_view(p: Option<Pattern>) -> Option<PatternView>
    decreases p,
{
    match p {
        Some(q) => Some(pattern_view(q)),
        None => None,
    }
}

impl View for Pattern {
    type V = PatternView;

    open spec fn view(&self) -> PatternView {
        pattern_view(*self)
    }
}

impl View for VariablePattern {
    type V = VariableView;

    open spec fn view(&self) -> VariableView {
        variable_view(*self)
    }
}

/// The name of a pattern's type.
pub open spec fn pattern_type_name(p: PatternView) -> Seq<char> {
    match p {
        PatternView::Field { .. } => "FieldPattern"@,
        PatternView::Pair { .. } => "PairPattern"@,
        PatternView::Tuple { .. } => "TuplePattern"@,
        PatternView::Value { .. } => "ValuePattern"@,
        PatternView::Variable(_) => "VariablePattern"@,
    }
}

impl VariablePattern {
    /// The key under which a bare name is bound: the name, without a type.
    pub fn from_name(name: String) -> (r: VariablePattern)
        ensures
            r@ == (VariableView { name: Some(name@), type_id: None }),
    {
        VariablePattern { name: Some(name), type_id: None }
    }

    /// A copy with the same content.
    pub fn deep_clone(&self) -> (r: VariablePattern)
        ensures
            r@ == self@,
    {
        VariablePattern { name: clone_opt_text(&self.name), type_id: clone_opt_text(&self.type_id) }
    }

    /// Whether two variable patterns have the same name and type tag.
    pub fn content_eq(&self, other: &VariablePattern) -> (r: bool)
        ensures
            r == (self@ == other@),
    {
        same_opt_text(&self.name, &other.name) && same_opt_text(&self.type_id, &other.type_id)
    }
}

/// Copies an optional pattern.
pub fn clone_opt_pattern(p: &Option<Pattern>) -> (r: Option<Pattern>)
    ensures
        opt_pattern_view(r) == opt_pattern_view(*p),
    decreases p,
{
    match p {
        Some(q) => Some(q.deep_clone()),
        None => None,
    }
}

/// Whether two optional patterns have the same content.
pub fn same_opt_pattern(a: &Option<Pattern>, b: &Option<Pattern>) -> (r: bool)
    ensures
        r == (opt_pattern_view(*a) == opt_pattern_view(*b)),
    decreases a,
{
    match (a, b) {
        (Some(x), Some(y)) => x.content_eq(y),
        (None, None) => true,
        _ => false,
    }
}

impl Pattern {
    /// The name of the pattern's type.
    pub fn get_type(&self) -> (name: String)
        ensures
            name@ == pattern_type_name(self@),
    {
        match self {
            Pattern::Field(_) => text("FieldPattern"),
            Pattern::Pair(_) => text("PairPattern"),
            Pattern::Tuple(_) => text("TuplePattern"),
            Pattern::Value(_) => text("ValuePattern"),
            Pattern::Variable(_) => text("VariablePattern"),
        }
    }

    /// A copy with the same content.
    pub fn deep_clone(&self) -> (r: Pattern)
        ensures
            r@ == self@,
        decreases self,
    {
        match self {
            Pattern::Field(f) => Pattern::Field(
                FieldPattern { name: f.name.clone(), value: Box::new(f.value.deep_clone()) },
            ),
            Pattern::Pair(p) => Pattern::Pair(
                PairPattern {
                    left: Box::new(p.left.deep_clone()),
                    right: Box::new(p.right.deep_clone()),
                },
            ),
            Pattern::Tuple(t) => Pattern::Tuple(
                TuplePattern { child: Box::new(t.child.deep_clone()) },
            ),
            Pattern::Value(v) => Pattern::Value(ValuePattern { obj: Box::new(v.obj.deep_clone()) }),
            Pattern::Variable(v) => Pattern::Variable(v.deep_clone()),
        }
    }

    /// Whether two patterns have the same content.
    pub fn content_eq(&self, other: &Pattern) -> (r: bool)
        ensures
            r == (self@ == other@),
        decreases self,
    {
        match (self, other) {
            (Pattern::Field(a), Pattern::Field(b)) => a.name == b.name && a.value.content_eq(
                &b.value,
            ),
            (Pattern::Pair(a), Pattern::Pair(b)) => a.left.content_eq(&b.left)
                && a.right.content_eq(&b.right),
            (Pattern::Tuple(a), Pattern::Tuple(b)) => a.child.content_eq(&b.child),
            (Pattern::Value(a), Pattern::Value(b)) => a.obj.content_eq(&b.obj),
            (Pattern::Variable(a), Pattern::Variable(b)) => a.content_eq(b),
            _ => false,
        }
    }
}

impl Clone for Pattern {
    fn clone(&self) -> (r: Self)
        ensures
            r@ == self@,
    {
        self.deep_clone()
    }
}

impl Clone for VariablePattern {
    fn clone(&self) -> (r: Self)
        ensures
            r@ == self@,
    {
        self.deep_clone()
    }
}

} // verus!
