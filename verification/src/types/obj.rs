//! Runtime values.

use vstd::prelude::*;
use uuid::Uuid;
use crate::syntax::{expr_type_name, expr_view, ExprView, Expression};
use crate::text::text;
use crate::types::multimethod::{receivers_view, Multimethod, ReceiverView};
use crate::types::pattern::{pattern_type_name, pattern_view, Pattern, PatternView};

verus! {

/// The identifier of the `uuid` crate. Nothing is known of what it holds.
#[verifier::external_type_specification]
#[verifier::external_body]
pub struct ExUuid(Uuid);

/// Draws a fresh identity with `Uuid::new_v4`. The identity is random, so
/// nothing is claimed of it.
#[verifier::external_body]
fn fresh_identity() -> (id: Uuid) {
    Uuid::new_v4()
}

/// A runtime value: its content, and an identity of its own that no
/// comparison looks at.
#[derive(Debug, Eq)]
pub struct Obj {
    pub uuid: Uuid,
    pub kind: ObjKind,
}

#[derive(Debug, PartialEq, Eq)]
pub enum ObjKind {
    /// A multimethod, which handles calls.
    Multimethod(Multimethod),
    /// A pattern passed around as data.
    Pattern(Pattern),
    /// A type, by name.
    Type(String),
    /// A 64-bit signed integer.
    Int(i64),
    /// A 64-bit unsigned integer.
    UInt(u64),
    /// A floating-point number, kept as its decimal text.
    Float(String),
    /// A boolean.
    Boolean(bool),
    /// A text.
    String(String),
    /// The absent value.
    Nothing,
    /// A list; several entries hang off one child.
    List(Option<Box<Obj>>),
    /// An expression that has not been evaluated.
    Expression(Expression),
}

/// The content of a value.
pub enum ObjView {
    Multimethod(Seq<ReceiverView>),
    Pattern(PatternView),
    Type(Seq<char>),
    Int(i64),
    UInt(u64),
    Float(Seq<char>),
    Boolean(bool),
    String(Seq<char>),
    Nothing,
    List(Option<Box<ObjView>>),
    Expression(ExprView),
}

pub open spec fn obj_view(o: Obj) -> ObjView
    decreases o,
{
    obj_kind_view(o.kind)
}

pub open spec fn obj_kind_view(k: ObjKind) -> ObjView
    decreases k,
{
    match k {
        ObjKind::Multimethod(m) => ObjView::Multimethod(receivers_view(m.receivers)),
        ObjKind::Pattern(p) => ObjView::Pattern(pattern_view(p)),
        ObjKind::Type(name) => ObjView::Type(name@),
        ObjKind::Int(n) => ObjView::Int(n),
        ObjKind::UInt(n) => ObjView::UInt(n),
        ObjKind::Float(t) => ObjView::Float(t@),
        ObjKind::Boolean(b) => ObjView::Boolean(b),
        ObjKind::String(t) => ObjView::String(t@),
        ObjKind::Nothing => ObjView::Nothing,
        ObjKind::List(child) => ObjView::List(
            match child {
                Some(inner) => Some(Box::new(obj_view(*inner))),
                None => None,
            },
        ),
        ObjKind::Expression(e) => ObjView::Expression(expr_view(e)),
    }
}

impl PartialEq for Obj {
    /// Two values are equal where their contents are; the identities are
    /// not compared.
    fn eq(&self, other: &Self) -> (r: bool) {
        self.content_eq(other)
    }
}

impl vstd::std_specs::cmp::PartialEqSpecImpl for Obj {
    open spec fn obeys_eq_spec() -> bool {
        true
    }

    open spec fn eq_spec(&self, other: &Self) -> bool {
        obj_view(*self) == obj_view(*other)
    }
}

impl View for Obj {
    type V = ObjView;

    open spec fn view(&self) -> ObjView {
        obj_view(*self)
    }
}

impl View for ObjKind {
    type V = ObjView;

    open spec fn view(&self) -> ObjView {
        obj_kind_view(*self)
    }
}

/// The name of a value's type. A type's name is the type itself; an
/// unevaluated expression has the name of its kind of node.
pub open spec fn obj_type_name(o: ObjView) -> Seq<char> {
    match o {
        ObjView::Multimethod(_) => "Multimethod"@,
        ObjView::Pattern(p) => pattern_type_name(p),
        ObjView::Type(name) => name,
        ObjView::Int(_) => "Int"@,
        ObjView::UInt(_) => "UInt"@,
        ObjView::Float(_) => "Float"@,
        ObjView::Boolean(_) => "Boolean"@,
        ObjView::String(_) => "String"@,
        ObjView::Nothing => "Nothing"@,
        ObjView::List(_) => "List"@,
        ObjView::Expression(e) => expr_type_name(e),
    }
}

/// Only the boolean `true` is truthy.
pub open spec fn is_truthy(o: ObjView) -> bool {
    o == ObjView::Boolean(true)
}

impl Obj {
    /// Wraps a content into a value with a fresh identity.
    pub fn new(kind: ObjKind) -> (r: Obj)
        ensures
            r.kind == kind,
            r@ == kind@,
    {
        Obj { uuid: fresh_identity(), kind }
    }

    /// Whether the value is the boolean `true`.
    pub fn is_truthy(&self) -> (r: bool)
        ensures
            r == is_truthy(self@),
    {
        match &self.kind {
            ObjKind::Boolean(true) => true,
            _ => false,
        }
    }

    /// The name of the value's type.
    pub fn get_type(&self) -> (name: Option<String>)
        ensures
            name matches Some(n) && n@ == obj_type_name(self@),
    {
        Some(
            match &self.kind {
                ObjKind::Multimethod(_) => text("Multimethod"),
                ObjKind::Pattern(p) => p.get_type(),
                ObjKind::Type(name) => name.clone(),
                ObjKind::Int(_) => text("Int"),
                ObjKind::UInt(_) => text("UInt"),
                ObjKind::Float(_) => text("Float"),
                ObjKind::Boolean(_) => text("Boolean"),
                ObjKind::String(_) => text("String"),
                ObjKind::Nothing => text("Nothing"),
                ObjKind::List(_) => text("List"),
                ObjKind::Expression(e) => e.get_type(),
            },
        )
    }

    /// A value with the same content, and an identity of its own.
    pub fn deep_clone(&self) -> (r: Obj)
        ensures
            r@ == self@,
        decreases self,
    {
        Obj::new(self.kind.deep_clone())
    }

    /// Whether two values have the same content; identities are not compared.
    pub fn content_eq(&self, other: &Obj) -> (r: bool)
        ensures
            r == (self@ == other@),
        decreases self,
    {
        self.kind.content_eq(&other.kind)
    }
}

impl ObjKind {
    /// A copy with the same content.
    pub fn deep_clone(&self) -> (r: ObjKind)
        ensures
            r@ == self@,
        decreases self,
    {
        match self {
            ObjKind::Multimethod(m) => ObjKind::Multimethod(m.deep_clone()),
            ObjKind::Pattern(p) => ObjKind::Pattern(p.deep_clone()),
            ObjKind::Type(name) => ObjKind::Type(name.clone()),
            ObjKind::Int(n) => ObjKind::Int(*n),
            ObjKind::UInt(n) => ObjKind::UInt(*n),
            ObjKind::Float(t) => ObjKind::Float(t.clone()),
            ObjKind::Boolean(b) => ObjKind::Boolean(*b),
            ObjKind::String(t) => ObjKind::String(t.clone()),
            ObjKind::Nothing => ObjKind::Nothing,
            ObjKind::List(child) => ObjKind::List(
                match child {
                    Some(inner) => Some(Box::new(inner.deep_clone())),
                    None => None,
                },
            ),
            ObjKind::Expression(e) => ObjKind::Expression(e.deep_clone()),
        }
    }

    /// Whether two contents are the same.
    pub fn content_eq(&self, other: &ObjKind) -> (r: bool)
        ensures
            r == (self@ == other@),
        decreases self,
    {
        match (self, other) {
            (ObjKind::Multimethod(a), ObjKind::Multimethod(b)) => a.content_eq(b),
            (ObjKind::Pattern(a), ObjKind::Pattern(b)) => a.content_eq(b),
            (ObjKind::Type(a), ObjKind::Type(b)) => *a == *b,
            (ObjKind::Int(a), ObjKind::Int(b)) => *a == *b,
            (ObjKind::UInt(a), ObjKind::UInt(b)) => *a == *b,
            (ObjKind::Float(a), ObjKind::Float(b)) => *a == *b,
            (ObjKind::Boolean(a), ObjKind::Boolean(b)) => *a == *b,
            (ObjKind::String(a), ObjKind::String(b)) => *a == *b,
            (ObjKind::Nothing, ObjKind::Nothing) => true,
            (ObjKind::List(a), ObjKind::List(b)) => match (a, b) {
                (Some(x), Some(y)) => x.content_eq(y),
                (None, None) => true,
                _ => false,
            },
            (ObjKind::Expression(a), ObjKind::Expression(b)) => a.content_eq(b),
            _ => false,
        }
    }
}

impl Clone for Obj {
    fn clone(&self) -> (r: Self)
        ensures
            r@ == self@,
    {
        self.deep_clone()
    }
}

impl Clone for ObjKind {
    fn clone(&self) -> (r: Self)
        ensures
            r@ == self@,
    {
        self.deep_clone()
    }
}

} // verus!
