//! The expression tree that the evaluator consumes: what a parser hands
//! over. Every node carries its source position and its raw lexeme.

use vstd::prelude::*;
use crate::text::{clone_opt_text, opt_text_view, same_opt_text, text};

verus! {

/// The kind of a literal; its value is the node's lexeme, decoded on demand.
#[derive(Debug, Clone, Copy, PartialEq, Eq, Structural)]
pub enum Literal {
    Int,
    Float,
    String,
    Boolean,
}

/// The operator of an infix expression.
#[derive(Debug, Clone, Copy, PartialEq, Eq, Structural)]
pub enum Operator {
    Plus,
    Minus,
    Star,
    Slash,
    Percent,
    Caret,
    Tilde,
    EqualEqual,
    BangEqual,
    Greater,
    GreaterEqual,
    Smaller,
    SmallerEqual,
}

/// A node of the expression tree.
#[derive(Debug, PartialEq, Eq)]
pub struct Expression {
    pub kind: ExpressionKind,
    pub lexeme: String,
    pub start_pos: usize,
    pub end_pos: usize,
}

#[derive(Debug, PartialEq, Eq)]
pub enum ExpressionKind {
    /// An `if` expression with a single arm.
    Conditional(Conditional),
    /// A bracketed list; several entries hang off one child as a pair.
    List(Option<Box<Expression>>),
    /// A literal such as `23.4` or `"hello"`.
    Literal(Literal),
    /// A pattern written in the source.
    Pattern(SourcePattern),
    /// A reference to a type, named by the lexeme.
    Type,
    /// Two expressions with an operator in between.
    Infix(Infix),
    /// An invocation of a multimethod.
    Call(Call),
    /// The definition of one receiver of a multimethod.
    Method(Method),
    /// A chunk of code that can be passed around as a value.
    Block(Block),
    /// A bare name.
    Identifier,
}

#[derive(Debug, PartialEq, Eq)]
pub struct Conditional {
    pub condition: Box<Expression>,
    pub then_arm: Box<Expression>,
}

#[derive(Debug, PartialEq, Eq)]
pub struct Infix {
    pub left: Box<Expression>,
    pub operator: Operator,
    pub right: Box<Expression>,
}

#[derive(Debug, PartialEq, Eq)]
pub struct Call {
    /// The name of the multimethod being called.
    pub name: String,
    /// One optional pattern that holds all arguments.
    pub signature: Option<SourcePattern>,
}

#[derive(Debug, PartialEq, Eq)]
pub struct Method {
    /// The name under which the multimethod is registered.
    pub name: String,
    /// The pattern that the arguments of a call must match.
    pub signature: Option<SourcePattern>,
    /// What a call evaluates when this receiver is selected.
    pub body: Box<Expression>,
}

#[derive(Debug, PartialEq, Eq)]
pub struct Block {
    pub children: Vec<Expression>,
}

/// A pattern as the parser produces it: its values are still expressions.
#[derive(Debug, PartialEq, Eq)]
#[allow(inconsistent_fields)]
pub enum SourcePattern {
    Field { name: String, value: Box<SourcePattern> },
    Pair { left: Box<SourcePattern>, right: Box<SourcePattern> },
    Tuple { child: Box<SourcePattern> },
    Value { expression: Box<Expression> },
    Variable { name: Option<String>, type_id: Option<String> },
}

// ---------------------------------------------------------------------
// Mathematical views

pub struct ExprView {
    pub kind: ExprKindView,
    pub lexeme: Seq<char>,
    pub start_pos: usize,
    pub end_pos: usize,
}

pub enum ExprKindView {
    Conditional(ConditionalView),
    List(Option<Box<ExprView>>),
    Literal(Literal),
    Pattern(SourcePatternView),
    Type,
    Infix(InfixView),
    Call(CallView),
    Method(MethodView),
    Block(Seq<ExprView>),
    Identifier,
}

pub struct ConditionalView {
    pub condition: Box<ExprView>,
    pub then_arm: Box<ExprView>,
}

pub struct InfixView {
    pub left: Box<ExprView>,
    pub operator: Operator,
    pub right: Box<ExprView>,
}

pub struct CallView {
    pub name: Seq<char>,
    pub signature: Option<SourcePatternView>,
}

pub struct MethodView {
    pub name: Seq<char>,
    pub signature: Option<SourcePatternView>,
    pub body: Box<ExprView>,
}

#[allow(inconsistent_fields)]
pub enum SourcePatternView {
    Field { name: Seq<char>, value: Box<SourcePatternView> },
    Pair { left: Box<SourcePatternView>, right: Box<SourcePatternView> },
    Tuple { child: Box<SourcePatternView> },
    Value { expression: Box<ExprView> },
    Variable { name: Option<Seq<char>>, type_id: Option<Seq<char>> },
}

pub open spec fn expr_view(e: Expression) -> ExprView
    decreases e,
{
    ExprView {
        kind: kind_view(e.kind),
        lexeme: e.lexeme@,
        start_pos: e.start_pos,
        end_pos: e.end_pos,
    }
}

pub open spec fn kind_view(k: ExpressionKind) -> ExprKindView
    decreases k,
{
    match k {
        ExpressionKind::Conditional(c) => ExprKindView::Conditional(conditional_view(c)),
        ExpressionKind::List(child) => ExprKindView::List(
            match child {
                Some(inner) => Some(Box::new(expr_view(*inner))),
                None => None,
            },
        ),
        ExpressionKind::Literal(l) => ExprKindView::Literal(l),
        ExpressionKind::Pattern(p) => ExprKindView::Pattern(source_pattern_view(p)),
        ExpressionKind::Type => ExprKindView::Type,
        ExpressionKind::Infix(i) => ExprKindView::Infix(infix_view(i)),
        ExpressionKind::Call(c) => ExprKindView::Call(call_view(c)),
        ExpressionKind::Method(m) => ExprKindView::Method(method_view(m)),
        ExpressionKind::Block(b) => ExprKindView::Block(exprs_view(b.children)),
        ExpressionKind::Identifier => ExprKindView::Identifier,
    }
}

pub open spec fn conditional_view(c: Conditional) -> ConditionalView
    decreases c,
{
    ConditionalView {
        condition: Box::new(expr_view(*c.condition)),
        then_arm: Box::new(expr_view(*c.then_arm)),
    }
}

pub open spec fn infix_view(i: Infix) -> InfixView
    decreases i,
{
    InfixView {
        left: Box::new(expr_view(*i.left)),
        operator: i.operator,
        right: Box::new(expr_view(*i.right)),
    }
}

pub open spec fn opt_source_pattern_view(p: Option<SourcePattern>) -> Option<SourcePatternView>
    decreases p,
{
    match p {
        Some(s) => Some(source_pattern_view(s)),
        None => None,
    }
}

pub open spec fn call_view(c: Call) -> CallView
    decreases c,
{
    CallView { name: c.name@, signature: opt_source_pattern_view(c.signature) }
}

pub open spec fn method_view(m: Method) -> MethodView
    decreases m,
{
    MethodView {
        name: m.name@,
        signature: opt_source_pattern_view(m.signature),
        body: Box::new(expr_view(*m.body)),
    }
}

pub open spec fn exprs_view(v: Vec<Expression>) -> Seq<ExprView>
    decreases v,
{
    Seq::new(
        v.len() as nat,
        |i: int|
            if 0 <= i < v.len() {
                expr_view(v[i])
            } else {
                arbitrary()
            },
    )
}

pub open spec fn source_pattern_view(p: SourcePattern) -> SourcePatternView
    decreases p,
{
    match p {
        SourcePattern::Field { name, value } => SourcePatternView::Field {
            name: name@,
            value: Box::new(source_pattern_view(*value)),
        },
        SourcePattern::Pair { left, right } => SourcePatternView::Pair {
            left: Box::new(source_pattern_view(*left)),
            right: Box::new(source_pattern_view(*right)),
        },
        SourcePattern::Tuple { child } => SourcePatternView::Tuple {
            child: Box::new(source_pattern_view(*child)),
        },
        SourcePattern::Value { expression } => SourcePatternView::Value {
            expression: Box::new(expr_view(*expression)),
        },
        SourcePattern::Variable { name, type_id } => SourcePatternView::Variable {
            name: opt_text_view(name),
            type_id: opt_text_view(type_id),
        },
    }
}

impl View for Expression {
    type V = ExprView;

    open spec fn view(&self) -> ExprView {
        expr_view(*self)
    }
}

impl View for SourcePattern {
    type V = SourcePatternView;

    open spec fn view(&self) -> SourcePatternView {
        source_pattern_view(*self)
    }
}

impl View for Conditional {
    type V = ConditionalView;

    open spec fn view(&self) -> ConditionalView {
        conditional_view(*self)
    }
}

impl View for Infix {
    type V = InfixView;

    open spec fn view(&self) -> InfixView {
        infix_view(*self)
    }
}

impl View for Call {
    type V = CallView;

    open spec fn view(&self) -> CallView {
        call_view(*self)
    }
}

impl View for Method {
    type V = MethodView;

    open spec fn view(&self) -> MethodView {
        method_view(*self)
    }
}

// ---------------------------------------------------------------------
// Type names

/// The name of a literal's type.
pub open spec fn literal_type_name(l: Literal) -> Seq<char> {
    match l {
        Literal::Int => "Int"@,
        Literal::Float => "Float"@,
        Literal::String => "String"@,
        Literal::Boolean => "Boolean"@,
    }
}

/// The name of a source pattern's type.
pub open spec fn source_pattern_type_name(p: SourcePatternView) -> Seq<char> {
    match p {
        SourcePatternView::Field { .. } => "FieldPattern"@,
        SourcePatternView::Pair { .. } => "PairPattern"@,
        SourcePatternView::Tuple { .. } => "TuplePattern"@,
        SourcePatternView::Value { .. } => "ValuePattern"@,
        SourcePatternView::Variable { .. } => "VariablePattern"@,
    }
}

/// The name of an expression's type: fixed for each kind of node, but for
/// a type reference, whose name is its lexeme.
pub open spec fn expr_type_name(e: ExprView) -> Seq<char> {
    match e.kind {
        ExprKindView::Conditional(_) => "ConditionalExpression"@,
        ExprKindView::List(_) => "ListExpression"@,
        ExprKindView::Literal(l) => literal_type_name(l),
        ExprKindView::Pattern(p) => source_pattern_type_name(p),
        ExprKindView::Type => e.lexeme,
        ExprKindView::Infix(_) => "InfixExpression"@,
        ExprKindView::Call(_) => "CallExpression"@,
        ExprKindView::Method(_) => "MethodExpression"@,
        ExprKindView::Block(_) => "BlockExpression"@,
        ExprKindView::Identifier => "Identifier"@,
    }
}

impl Literal {
    pub fn get_type(&self) -> (name: String)
        ensures
            name@ == literal_type_name(*self),
    {
        match self {
            Literal::Int => text("Int"),
            Literal::Float => text("Float"),
            Literal::String => text("String"),
            Literal::Boolean => text("Boolean"),
        }
    }
}

impl SourcePattern {
    pub fn get_type(&self) -> (name: String)
        ensures
            name@ == source_pattern_type_name(self@),
    {
        match self {
            SourcePattern::Field { .. } => text("FieldPattern"),
            SourcePattern::Pair { .. } => text("PairPattern"),
            SourcePattern::Tuple { .. } => text("TuplePattern"),
            SourcePattern::Value { .. } => text("ValuePattern"),
            SourcePattern::Variable { .. } => text("VariablePattern"),
        }
    }
}

impl Expression {
    pub fn get_type(&self) -> (name: String)
        ensures
            name@ == expr_type_name(self@),
    {
        match &self.kind {
            ExpressionKind::Conditional(_) => text("ConditionalExpression"),
            ExpressionKind::List(_) => text("ListExpression"),
            ExpressionKind::Literal(l) => l.get_type(),
            ExpressionKind::Pattern(p) => p.get_type(),
            ExpressionKind::Type => self.lexeme.clone(),
            ExpressionKind::Infix(_) => text("InfixExpression"),
            ExpressionKind::Call(_) => text("CallExpression"),
            ExpressionKind::Method(_) => text("MethodExpression"),
            ExpressionKind::Block(_) => text("BlockExpression"),
            ExpressionKind::Identifier => text("Identifier"),
        }
    }
}

/// An expression as a pattern: the pattern that it holds where it is
/// one, else the value pattern of the expression itself.
pub open spec fn as_pattern(e: ExprView) -> SourcePatternView {
    match e.kind {
        ExprKindView::Pattern(p) => p,
        _ => SourcePatternView::Value { expression: Box::new(e) },
    }
}

impl Expression {
    /// The pattern that stands for this expression in a signature.
    pub fn pattern_or_value_pattern(self) -> (r: SourcePattern)
        ensures
            r@ == as_pattern(self@),
    {
        let Expression { kind, lexeme, start_pos, end_pos } = self;
        match kind {
            ExpressionKind::Pattern(pattern) => pattern,
            other => SourcePattern::Value {
                expression: Box::new(Expression { kind: other, lexeme, start_pos, end_pos }),
            },
        }
    }
}

// ---------------------------------------------------------------------
// Copies and comparison by content

impl Expression {
    /// A copy with the same content.
    pub fn deep_clone(&self) -> (r: Expression)
        ensures
            r@ == self@,
        decreases self,
    {
        Expression {
            kind: self.kind.deep_clone(),
            lexeme: self.lexeme.clone(),
            start_pos: self.start_pos,
            end_pos: self.end_pos,
        }
    }

    /// Whether two expressions have the same content.
    pub fn content_eq(&self, other: &Expression) -> (r: bool)
        ensures
            r == (self@ == other@),
        decreases self,
    {
        self.start_pos == other.start_pos && self.end_pos == other.end_pos && self.lexeme
            == other.lexeme && self.kind.content_eq(&other.kind)
    }
}

/// Copies an optional boxed expression.
fn clone_opt_expr(e: &Option<Box<Expression>>) -> (r: Option<Box<Expression>>)
    ensures
        kind_view(ExpressionKind::List(r)) == kind_view(ExpressionKind::List(*e)),
    decreases e,
{
    match e {
        Some(inner) => Some(Box::new(inner.deep_clone())),
        None => None,
    }
}

/// Copies an optional source pattern.
pub fn clone_opt_source_pattern(p: &Option<SourcePattern>) -> (r: Option<SourcePattern>)
    ensures
        opt_source_pattern_view(r) == opt_source_pattern_view(*p),
    decreases p,
{
    match p {
        Some(s) => Some(s.deep_clone()),
        None => None,
    }
}

/// Whether two optional source patterns have the same content.
pub fn same_opt_source_pattern(a: &Option<SourcePattern>, b: &Option<SourcePattern>) -> (r: bool)
    ensures
        r == (opt_source_pattern_view(*a) == opt_source_pattern_view(*b)),
    decreases a,
{
    match (a, b) {
        (Some(x), Some(y)) => x.content_eq(y),
        (None, None) => true,
        _ => false,
    }
}

/// Copies a sequence of expressions.
fn clone_exprs(v: &Vec<Expression>) -> (r: Vec<Expression>)
    ensures
        exprs_view(r) == exprs_view(*v),
    decreases v,
{
    let mut out: Vec<Expression> = Vec::new();
    let mut i: usize = 0;
    while i < v.len()
        invariant
            i <= v.len(),
            out.len() == i,
            forall|j: int| 0 <= j < i ==> expr_view(#[trigger] out[j]) == expr_view(v[j]),
        decreases v.len() - i,
    {
        proof {
            assert(decreases_to!(v => v[i as int]));
        }
        out.push(v[i].deep_clone());
        i += 1;
    }
    assert(exprs_view(out) =~= exprs_view(*v));
    out
}

/// Whether two sequences of expressions have the same content.
fn same_exprs(a: &Vec<Expression>, b: &Vec<Expression>) -> (r: bool)
    ensures
        r == (exprs_view(*a) == exprs_view(*b)),
    decreases a,
{
    if a.len() != b.len() {
        assert(exprs_view(*a).len() != exprs_view(*b).len());
        return false;
    }
    let mut i: usize = 0;
    while i < a.len()
        invariant
            i <= a.len(),
            a.len() == b.len(),
            forall|j: int| 0 <= j < i ==> expr_view(#[trigger] a[j]) == expr_view(b[j]),
        decreases a.len() - i,
    {
        proof {
            assert(decreases_to!(a => a[i as int]));
        }
        if !a[i].content_eq(&b[i]) {
            assert(exprs_view(*a)[i as int] == expr_view(a[i as int]));
            assert(exprs_view(*b)[i as int] == expr_view(b[i as int]));
            return false;
        }
        i += 1;
    }
    assert(exprs_view(*a) =~= exprs_view(*b));
    true
}

impl ExpressionKind {
    /// A copy with the same content.
    pub fn deep_clone(&self) -> (r: ExpressionKind)
        ensures
            kind_view(r) == kind_view(*self),
        decreases self,
    {
        match self {
            ExpressionKind::Conditional(c) => ExpressionKind::Conditional(c.deep_clone()),
            ExpressionKind::List(child) => ExpressionKind::List(clone_opt_expr(child)),
            ExpressionKind::Literal(l) => ExpressionKind::Literal(*l),
            ExpressionKind::Pattern(p) => ExpressionKind::Pattern(p.deep_clone()),
            ExpressionKind::Type => ExpressionKind::Type,
            ExpressionKind::Infix(i) => ExpressionKind::Infix(i.deep_clone()),
            ExpressionKind::Call(c) => ExpressionKind::Call(c.deep_clone()),
            ExpressionKind::Method(m) => ExpressionKind::Method(m.deep_clone()),
            ExpressionKind::Block(b) => ExpressionKind::Block(
                Block { children: clone_exprs(&b.children) },
            ),
            ExpressionKind::Identifier => ExpressionKind::Identifier,
        }
    }

    /// Whether two kinds have the same content.
    pub fn content_eq(&self, other: &ExpressionKind) -> (r: bool)
        ensures
            r == (kind_view(*self) == kind_view(*other)),
        decreases self,
    {
        match (self, other) {
            (ExpressionKind::Conditional(a), ExpressionKind::Conditional(b)) => a.content_eq(b),
            (ExpressionKind::List(a), ExpressionKind::List(b)) => match (a, b) {
                (Some(x), Some(y)) => x.content_eq(y),
                (None, None) => true,
                _ => false,
            },
            (ExpressionKind::Literal(a), ExpressionKind::Literal(b)) => *a == *b,
            (ExpressionKind::Pattern(a), ExpressionKind::Pattern(b)) => a.content_eq(b),
            (ExpressionKind::Type, ExpressionKind::Type) => true,
            (ExpressionKind::Infix(a), ExpressionKind::Infix(b)) => a.content_eq(b),
            (ExpressionKind::Call(a), ExpressionKind::Call(b)) => a.content_eq(b),
            (ExpressionKind::Method(a), ExpressionKind::Method(b)) => a.content_eq(b),
            (ExpressionKind::Block(a), ExpressionKind::Block(b)) => same_exprs(
                &a.children,
                &b.children,
            ),
            (ExpressionKind::Identifier, ExpressionKind::Identifier) => true,
            _ => false,
        }
    }
}

impl Conditional {
    /// A copy with the same content.
    pub fn deep_clone(&self) -> (r: Conditional)
        ensures
            r@ == self@,
        decreases self,
    {
        Conditional {
            condition: Box::new(self.condition.deep_clone()),
            then_arm: Box::new(self.then_arm.deep_clone()),
        }
    }

    /// Whether two conditionals have the same content.
    pub fn content_eq(&self, other: &Conditional) -> (r: bool)
        ensures
            r == (self@ == other@),
        decreases self,
    {
        self.condition.content_eq(&other.condition) && self.then_arm.content_eq(&other.then_arm)
    }
}

impl Infix {
    /// A copy with the same content.
    pub fn deep_clone(&self) -> (r: Infix)
        ensures
            r@ == self@,
        decreases self,
    {
        Infix {
            left: Box::new(self.left.deep_clone()),
            operator: self.operator,
            right: Box::new(self.right.deep_clone()),
        }
    }

    /// Whether two infix expressions have the same content.
    pub fn content_eq(&self, other: &Infix) -> (r: bool)
        ensures
            r == (self@ == other@),
        decreases self,
    {
        self.operator == other.operator && self.left.content_eq(&other.left)
            && self.right.content_eq(&other.right)
    }
}

impl Call {
    /// A copy with the same content.
    pub fn deep_clone(&self) -> (r: Call)
        ensures
            r@ == self@,
        decreases self,
    {
        Call { name: self.name.clone(), signature: clone_opt_source_pattern(&self.signature) }
    }

    /// Whether two calls have the same content.
    pub fn content_eq(&self, other: &Call) -> (r: bool)
        ensures
            r == (self@ == other@),
        decreases self,
    {
        self.name == other.name && same_opt_source_pattern(&self.signature, &other.signature)
    }
}

impl Method {
    /// A copy with the same content.
    pub fn deep_clone(&self) -> (r: Method)
        ensures
            r@ == self@,
        decreases self,
    {
        Method {
            name: self.name.clone(),
            signature: clone_opt_source_pattern(&self.signature),
            body: Box::new(self.body.deep_clone()),
        }
    }

    /// Whether two method definitions have the same content.
    pub fn content_eq(&self, other: &Method) -> (r: bool)
        ensures
            r == (self@ == other@),
        decreases self,
    {
        self.name == other.name && same_opt_source_pattern(&self.signature, &other.signature)
            && self.body.content_eq(&other.body)
    }
}

impl SourcePattern {
    /// A copy with the same content.
    pub fn deep_clone(&self) -> (r: SourcePattern)
        ensures
            r@ == self@,
        decreases self,
    {
        match self {
            SourcePattern::Field { name, value } => SourcePattern::Field {
                name: name.clone(),
                value: Box::new(value.deep_clone()),
            },
            SourcePattern::Pair { left, right } => SourcePattern::Pair {
                left: Box::new(left.deep_clone()),
                right: Box::new(right.deep_clone()),
            },
            SourcePattern::Tuple { child } => SourcePattern::Tuple {
                child: Box::new(child.deep_clone()),
            },
            SourcePattern::Value { expression } => SourcePattern::Value {
                expression: Box::new(expression.deep_clone()),
            },
            SourcePattern::Variable { name, type_id } => SourcePattern::Variable {
                name: clone_opt_text(name),
                type_id: clone_opt_text(type_id),
            },
        }
    }

    /// Whether two source patterns have the same content.
    pub fn content_eq(&self, other: &SourcePattern) -> (r: bool)
        ensures
            r == (self@ == other@),
        decreases self,
    {
        match (self, other) {
            (
                SourcePattern::Field { name: n1, value: v1 },
                SourcePattern::Field { name: n2, value: v2 },
            ) => *n1 == *n2 && v1.content_eq(v2),
            (
                SourcePattern::Pair { left: l1, right: r1 },
                SourcePattern::Pair { left: l2, right: r2 },
            ) => l1.content_eq(l2) && r1.content_eq(r2),
            (SourcePattern::Tuple { child: c1 }, SourcePattern::Tuple { child: c2 }) => c1.content_eq(
                c2,
            ),
            (
                SourcePattern::Value { expression: e1 },
                SourcePattern::Value { expression: e2 },
            ) => e1.content_eq(e2),
            (
                SourcePattern::Variable { name: n1, type_id: t1 },
                SourcePattern::Variable { name: n2, type_id: t2 },
            ) => same_opt_text(n1, n2) && same_opt_text(t1, t2),
            _ => false,
        }
    }
}

impl Clone for Expression {
    fn clone(&self) -> (r: Self)
        ensures
            r@ == self@,
    {
        self.deep_clone()
    }
}

impl Clone for ExpressionKind {
    fn clone(&self) -> (r: Self)
        ensures
            kind_view(r) == kind_view(*self),
    {
        self.deep_clone()
    }
}

impl Clone for Conditional {
    fn clone(&self) -> (r: Self)
        ensures
            r@ == self@,
    {
        self.deep_clone()
    }
}

impl Clone for Infix {
    fn clone(&self) -> (r: Self)
        ensures
            r@ == self@,
    {
        self.deep_clone()
    }
}

impl Clone for Call {
    fn clone(&self) -> (r: Self)
        ensures
            r@ == self@,
    {
        self.deep_clone()
    }
}

impl Clone for Method {
    fn clone(&self) -> (r: Self)
        ensures
            r@ == self@,
    {
        self.deep_clone()
    }
}

impl Clone for SourcePattern {
    fn clone(&self) -> (r: Self)
        ensures
            r@ == self@,
    {
        self.deep_clone()
    }
}

} // verus!
