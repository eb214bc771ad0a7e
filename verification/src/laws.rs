//! Laws of the runtime: what holds of matching, dispatch and evaluation
//! for all inputs. They are stated over the same functions as the
//! contracts of the executable code.

use vstd::prelude::*;
use crate::error::ErrorView;
use crate::interpreter::semantics::{
    call_spec, conditional_spec, eval_expr_spec, eval_spec, expr_size, fails, infix_spec,
    invoke_spec, lemma_converted_pattern_size, lemma_converted_size, lookup, name_key, obj_size,
    opt_source_size, pattern_size, pattern_spec, visitor_of, Outcome, VisitorKind,
};
use crate::literal::bool_of_text;
use crate::syntax::{ExprKindView, ExprView, Literal, SourcePatternView};
use crate::types::arithmetic::FloatModel;
use crate::types::convert::{obj_of_expr, pattern_of_source};
use crate::types::dispatch::{
    call_precedence, define_spec, distinct_signatures, match_signature, matching_receivers,
    selected, CandidateView,
};
use crate::types::ranking::{law_equal_precedences_keep_their_order, ranked};
use crate::types::linearize::{linearize_spec, Bindings};
use crate::types::multimethod::ReceiverView;
use crate::types::obj::ObjView;
use crate::types::pattern::{PatternView, VariableView};

verus! {

/// A value pattern matches a value pattern exactly where the two values
/// have the same content, and then it binds nothing.
pub proof fn law_value_matches_equal_value(v: ObjView, w: ObjView)
    ensures
        linearize_spec(
            PatternView::Value { obj: Box::new(v) },
            PatternView::Value { obj: Box::new(w) },
        ) == if v == w {
            Some(Map::<VariableView, ObjView>::empty())
        } else {
            None
        },
{
}

/// A named variable matches every value and binds its name to it,
/// whatever its type tag; a nameless one matches every value and binds
/// nothing.
pub proof fn law_variable_matches_any_value(
    name: Option<Seq<char>>,
    type_id: Option<Seq<char>>,
    v: ObjView,
)
    ensures
        linearize_spec(
            PatternView::Variable(VariableView { name, type_id }),
            PatternView::Value { obj: Box::new(v) },
        ) == match name {
            Some(n) => Some(Map::<VariableView, ObjView>::empty().insert(name_key(n), v)),
            None => Some(Map::<VariableView, ObjView>::empty()),
        },
{
}

/// A pair matches a pair exactly where both sides match, and then it
/// binds what both sides bind, the right side overriding the left. So a
/// pair whose left side does not match fails, whatever its right side is.
pub proof fn law_pair_matches_by_sides(
    lr: PatternView,
    rr: PatternView,
    lg: PatternView,
    rg: PatternView,
)
    ensures
        linearize_spec(
            PatternView::Pair { left: Box::new(lr), right: Box::new(rr) },
            PatternView::Pair { left: Box::new(lg), right: Box::new(rg) },
        ) == match (linearize_spec(lr, lg), linearize_spec(rr, rg)) {
            (Some(l), Some(r)) => Some(l.union_prefer_right(r)),
            _ => None,
        },
        linearize_spec(lr, lg) is None ==> linearize_spec(
            PatternView::Pair { left: Box::new(lr), right: Box::new(rr) },
            PatternView::Pair { left: Box::new(lg), right: Box::new(rg) },
        ) is None,
{
}

/// The candidate that a receiver makes where it matches a call.
pub open spec fn candidate_of(r: ReceiverView, given: Option<PatternView>) -> CandidateView {
    CandidateView {
        bindings: match_signature(r.signature, given).unwrap(),
        body: r.body,
        precedence: call_precedence(given),
    }
}

/// Every receiver that matches a call has the call's precedence.
pub proof fn lemma_candidates_share_precedence(rs: Seq<ReceiverView>, given: Option<PatternView>)
    ensures
        forall|k: int|
            0 <= k < matching_receivers(rs, given).len() ==> (#[trigger] matching_receivers(
                rs,
                given,
            )[k]).precedence == call_precedence(given),
    decreases rs.len(),
{
    if rs.len() > 0 {
        lemma_candidates_share_precedence(rs.drop_last(), given);
    }
}

/// Where no receiver matches, there is no candidate.
pub proof fn lemma_no_match_no_candidate(rs: Seq<ReceiverView>, given: Option<PatternView>)
    requires
        forall|j: int| 0 <= j < rs.len() ==> match_signature((#[trigger] rs[j]).signature, given) is None,
    ensures
        matching_receivers(rs, given).len() == 0,
    decreases rs.len(),
{
    if rs.len() > 0 {
        let init = rs.drop_last();
        assert forall|j: int| 0 <= j < init.len() implies match_signature(
            (#[trigger] init[j]).signature,
            given,
        ) is None by {
            assert(init[j] == rs[j]);
        }
        lemma_no_match_no_candidate(init, given);
        assert(rs.last() == rs[rs.len() - 1]);
    }
}

/// The first candidate is the earliest receiver that matches.
pub proof fn lemma_first_candidate(rs: Seq<ReceiverView>, given: Option<PatternView>, i: int)
    requires
        0 <= i < rs.len(),
        match_signature(rs[i].signature, given) is Some,
        forall|j: int| 0 <= j < i ==> match_signature((#[trigger] rs[j]).signature, given) is None,
    ensures
        matching_receivers(rs, given).len() > 0,
        matching_receivers(rs, given)[0] == candidate_of(rs[i], given),
    decreases rs.len(),
{
    let init = rs.drop_last();
    if i == rs.len() - 1 {
        assert forall|j: int| 0 <= j < init.len() implies match_signature(
            (#[trigger] init[j]).signature,
            given,
        ) is None by {
            assert(init[j] == rs[j]);
        }
        lemma_no_match_no_candidate(init, given);
    } else {
        assert(init[i] == rs[i]);
        assert forall|j: int| 0 <= j < i implies match_signature(
            (#[trigger] init[j]).signature,
            given,
        ) is None by {
            assert(init[j] == rs[j]);
        }
        lemma_first_candidate(init, given, i);
    }
}

/// Of the receivers that match a call, the one that was defined first is
/// selected: all of them have the precedence of the call's signature, and
/// ties are broken by the order of definition.
pub proof fn law_earliest_match_is_selected(
    rs: Seq<ReceiverView>,
    given: Option<PatternView>,
    i: int,
)
    requires
        0 <= i < rs.len(),
        match_signature(rs[i].signature, given) is Some,
        forall|j: int| 0 <= j < i ==> match_signature((#[trigger] rs[j]).signature, given) is None,
    ensures
        selected(rs, given) == Some(candidate_of(rs[i], given)),
{
    let cs = matching_receivers(rs, given);
    lemma_first_candidate(rs, given, i);
    lemma_candidates_share_precedence(rs, given);
    law_equal_precedences_keep_their_order(cs, call_precedence(given));
}

/// Of a receiver for a value and a receiver with a variable that was
/// defined after it, a call with that value selects the receiver for the
/// value, though both match.
pub proof fn law_value_receiver_before_variable(
    v: ObjView,
    variable: VariableView,
    first: ObjView,
    second: ObjView,
)
    ensures
        selected(
            seq![
                ReceiverView {
                    signature: Some(PatternView::Value { obj: Box::new(v) }),
                    body: first,
                },
                ReceiverView { signature: Some(PatternView::Variable(variable)), body: second },
            ],
            Some(PatternView::Value { obj: Box::new(v) }),
        ) == Some(
            CandidateView {
                bindings: Map::<VariableView, ObjView>::empty(),
                body: first,
                precedence: 2,
            },
        ),
{
    let receivers = seq![
        ReceiverView { signature: Some(PatternView::Value { obj: Box::new(v) }), body: first },
        ReceiverView { signature: Some(PatternView::Variable(variable)), body: second },
    ];
    law_earliest_match_is_selected(receivers, Some(PatternView::Value { obj: Box::new(v) }), 0);
}

/// Where no receiver matches a call, none is selected.
pub proof fn law_no_match_selects_nothing(rs: Seq<ReceiverView>, given: Option<PatternView>)
    requires
        forall|j: int| 0 <= j < rs.len() ==> match_signature((#[trigger] rs[j]).signature, given) is None,
    ensures
        selected(rs, given) is None,
{
    lemma_no_match_no_candidate(rs, given);
    assert(ranked(matching_receivers(rs, given)) =~= Seq::<CandidateView>::empty());
}

/// After a receiver has been defined, a second definition with the same
/// signature is refused with `MethodAlreadyExists`, and the receiver that
/// was defined first is still there.
pub proof fn law_second_definition_is_refused(
    rs: Seq<ReceiverView>,
    signature: Option<PatternView>,
    first: ObjView,
    second: ObjView,
)
    requires
        define_spec(rs, signature, first) is Ok,
    ensures
        ({
            let defined = define_spec(rs, signature, first)->Ok_0;
            &&& defined.len() == rs.len() + 1
            &&& defined.last() == (ReceiverView { signature, body: first })
            &&& define_spec(defined, signature, second) == Err::<Seq<ReceiverView>, ErrorView>(
                ErrorView::MethodAlreadyExists,
            )
        }),
{
    let defined = define_spec(rs, signature, first)->Ok_0;
    assert(defined[rs.len() as int].signature == signature);
}

/// Defining a receiver keeps the signatures of a multimethod distinct.
pub proof fn law_definitions_stay_distinct(
    rs: Seq<ReceiverView>,
    signature: Option<PatternView>,
    body: ObjView,
)
    requires
        distinct_signatures(rs),
    ensures
        define_spec(rs, signature, body) matches Ok(defined) ==> distinct_signatures(defined),
{
    if define_spec(rs, signature, body) is Ok {
        let defined = define_spec(rs, signature, body)->Ok_0;
        assert forall|i: int, j: int|
            0 <= i < defined.len() && 0 <= j < defined.len() && (#[trigger] defined[i]).signature
                == (#[trigger] defined[j]).signature implies i == j by {
            if i < rs.len() {
                assert(defined[i] == rs[i]);
            }
            if j < rs.len() {
                assert(defined[j] == rs[j]);
            }
        }
    }
}

/// A call of a name that is not bound in the global environment fails
/// with `NoMatchingMultimethod` and changes nothing.
pub proof fn law_unknown_name_has_no_multimethod(
    fl: FloatModel,
    limit: nat,
    depth: nat,
    globals: Bindings,
    call: ExprView,
    env: Option<Bindings>,
)
    requires
        call.kind matches ExprKindView::Call(c) && !globals.contains_key(name_key(c.name)),
    ensures
        eval_spec(fl, limit, depth, globals, ObjView::Expression(call), env) == fails(
            globals,
            ErrorView::NoMatchingMultimethod,
        ),
{
}

/// A call without arguments of a multimethod none of whose receivers
/// takes no arguments fails with `NoMatchingReceiver` and changes nothing.
pub proof fn law_unmatched_call_has_no_receiver(
    fl: FloatModel,
    limit: nat,
    depth: nat,
    globals: Bindings,
    receivers: Seq<ReceiverView>,
    call: ExprView,
    env: Option<Bindings>,
)
    requires
        call.kind matches ExprKindView::Call(c) && c.signature is None && globals.contains_key(
            name_key(c.name),
        ) && globals[name_key(c.name)] == ObjView::Multimethod(receivers),
        forall|j: int| 0 <= j < receivers.len() ==> (#[trigger] receivers[j]).signature is Some,
    ensures
        eval_spec(fl, limit, depth, globals, ObjView::Expression(call), env) == fails(
            globals,
            ErrorView::NoMatchingReceiver,
        ),
{
    let c = call.kind->Call_0;
    assert forall|j: int| 0 <= j < receivers.len() implies match_signature(
        (#[trigger] receivers[j]).signature,
        None,
    ) is None by {}
    law_no_match_selects_nothing(receivers, None);
    assert(call_spec(fl, limit, depth, globals, ObjView::Expression(call), env) == invoke_spec(
        fl,
        limit,
        depth,
        globals,
        receivers,
        None,
    ));
}

/// A call whose evaluated signature matches no receiver of the
/// multimethod fails with `NoMatchingReceiver`, whatever the depth.
pub proof fn law_unmatched_signature_has_no_receiver(
    fl: FloatModel,
    limit: nat,
    depth: nat,
    globals: Bindings,
    receivers: Seq<ReceiverView>,
    source: SourcePatternView,
    converted: PatternView,
    given: PatternView,
    after: Bindings,
)
    requires
        pattern_of_source(source) == Ok::<PatternView, ErrorView>(converted),
        eval_spec(fl, limit, depth, globals, ObjView::Pattern(converted), None) == (Outcome {
            globals: after,
            result: Ok(ObjView::Pattern(given)),
        }),
        forall|j: int|
            0 <= j < receivers.len() ==> linearize_spec_opt((#[trigger] receivers[j]).signature, given) is None,
    ensures
        invoke_spec(fl, limit, depth, globals, receivers, Some(source)) == fails(
            after,
            ErrorView::NoMatchingReceiver,
        ),
{
    law_no_match_selects_nothing(receivers, Some(given));
}

/// What matching a present call signature against a receiver's extracts.
pub open spec fn linearize_spec_opt(reference: Option<PatternView>, given: PatternView) -> Option<
    Bindings,
> {
    match_signature(reference, Some(given))
}

/// A conditional whose condition is the literal `false` gives `Nothing`;
/// one whose condition is the literal `true` gives what its arm gives.
/// Neither changes the global environment by its condition.
pub proof fn law_conditional_on_literal(
    fl: FloatModel,
    limit: nat,
    depth: nat,
    globals: Bindings,
    conditional: ExprView,
    env: Option<Bindings>,
)
    requires
        conditional.kind matches ExprKindView::Conditional(c) && c.condition.kind
            == ExprKindView::Literal(Literal::Boolean) && bool_of_text(c.condition.lexeme) is Some,
    ensures
        ({
            let c = conditional.kind->Conditional_0;
            eval_spec(fl, limit, depth, globals, ObjView::Expression(conditional), env)
                == if bool_of_text(c.condition.lexeme) == Some(true) {
                eval_expr_spec(fl, limit, depth, globals, *c.then_arm, env)
            } else {
                Outcome { globals, result: Ok(ObjView::Nothing) }
            }
        }),
{
    let c = conditional.kind->Conditional_0;
    let tested = eval_expr_spec(fl, limit, depth, globals, *c.condition, env);
    let b = bool_of_text(c.condition.lexeme).unwrap();
    assert(obj_of_expr(*c.condition) == Ok::<ObjView, ErrorView>(ObjView::Boolean(b)));
    assert(tested == Outcome { globals, result: Ok(ObjView::Boolean(b)) });
}

/// A conditional gives `Nothing` exactly where its condition evaluates to
/// a value other than `true`, and otherwise what its arm gives; a failure
/// of the condition is the failure of the conditional.
pub proof fn law_conditional(
    fl: FloatModel,
    limit: nat,
    depth: nat,
    globals: Bindings,
    conditional: ExprView,
    env: Option<Bindings>,
)
    requires
        conditional.kind is Conditional,
    ensures
        ({
            let c = conditional.kind->Conditional_0;
            let tested = eval_expr_spec(fl, limit, depth, globals, *c.condition, env);
            eval_spec(fl, limit, depth, globals, ObjView::Expression(conditional), env)
                == match tested.result {
                Err(_) => tested,
                Ok(v) => if v == ObjView::Boolean(true) {
                    eval_expr_spec(fl, limit, depth, tested.globals, *c.then_arm, env)
                } else {
                    Outcome { globals: tested.globals, result: Ok(ObjView::Nothing) }
                },
            }
        }),
{
}

/// A multimethod whose only receiver takes no arguments and calls the
/// multimethod again fails with `TooMuchRecursion`, from whatever depth
/// within the limit it is called, and changes nothing. The nested calls
/// go on until the depth is the limit, and the call at that depth fails.
pub proof fn law_runaway_recursion_is_cut(
    fl: FloatModel,
    limit: nat,
    depth: nat,
    globals: Bindings,
    call: ExprView,
    env: Option<Bindings>,
)
    requires
        depth <= limit,
        call.kind matches ExprKindView::Call(c) && c.signature is None && globals.contains_key(
            name_key(c.name),
        ) && globals[name_key(c.name)] == ObjView::Multimethod(
            seq![ReceiverView { signature: None, body: ObjView::Expression(call) }],
        ),
    ensures
        eval_spec(fl, limit, depth, globals, ObjView::Expression(call), env) == fails(
            globals,
            ErrorView::TooMuchRecursion,
        ),
    decreases limit - depth,
{
    let c = call.kind->Call_0;
    let receivers = seq![ReceiverView { signature: None, body: ObjView::Expression(call) }];
    law_earliest_match_is_selected(receivers, None, 0);
    assert(selected(receivers, None) == Some(
        CandidateView {
            bindings: Map::<VariableView, ObjView>::empty(),
            body: ObjView::Expression(call),
            precedence: 0,
        },
    ));
    if depth < limit {
        law_runaway_recursion_is_cut(
            fl,
            limit,
            depth + 1,
            globals,
            call,
            Some(Map::<VariableView, ObjView>::empty()),
        );
    }
    assert(call_spec(fl, limit, depth, globals, ObjView::Expression(call), env) == invoke_spec(
        fl,
        limit,
        depth,
        globals,
        receivers,
        None,
    ));
}

/// A call at the limit of the depth fails with `TooMuchRecursion` where a
/// receiver matches it, and a call below the limit gives what the body of
/// the selected receiver gives one call deeper.
pub proof fn law_depth_guard(
    fl: FloatModel,
    limit: nat,
    depth: nat,
    globals: Bindings,
    receivers: Seq<ReceiverView>,
)
    requires
        selected(receivers, None) is Some,
    ensures
        ({
            let candidate = selected(receivers, None).unwrap();
            invoke_spec(fl, limit, depth, globals, receivers, None) == if depth >= limit {
                fails(globals, ErrorView::TooMuchRecursion)
            } else {
                eval_spec(
                    fl,
                    limit,
                    depth + 1,
                    globals,
                    candidate.body,
                    Some(candidate.bindings),
                )
            }
        }),
{
}

/// Whether a value is a literal: a number, a text or a boolean.
pub open spec fn is_literal(o: ObjView) -> bool {
    o is Int || o is UInt || o is Float || o is String || o is Boolean
}

/// A literal evaluates to itself and changes nothing, so evaluating the
/// result again gives the same once more.
pub proof fn law_literal_evaluates_to_itself(
    fl: FloatModel,
    limit: nat,
    depth: nat,
    globals: Bindings,
    obj: ObjView,
    env: Option<Bindings>,
)
    requires
        is_literal(obj),
    ensures
        eval_spec(fl, limit, depth, globals, obj, env) == (Outcome { globals, result: Ok(obj) }),
{
}

/// Whether a result is the failure `NoMatch`.
pub open spec fn is_no_match(r: Result<ObjView, ErrorView>) -> bool {
    r == Err::<ObjView, ErrorView>(ErrorView::NoMatch)
}

/// No conversion of an expression fails with `NoMatch`.
pub proof fn lemma_conversion_is_not_no_match(e: ExprView)
    ensures
        !is_no_match(obj_of_expr(e)),
    decreases e,
{
    match e.kind {
        ExprKindView::List(Some(inner)) => {
            lemma_conversion_is_not_no_match(*inner);
        },
        ExprKindView::Pattern(p) => {
            lemma_pattern_conversion_is_not_no_match(p);
        },
        _ => {},
    }
}

/// No conversion of a pattern fails with `NoMatch`.
pub proof fn lemma_pattern_conversion_is_not_no_match(p: SourcePatternView)
    ensures
        pattern_of_source(p) != Err::<PatternView, ErrorView>(ErrorView::NoMatch),
    decreases p,
{
    match p {
        SourcePatternView::Field { name, value } => {
            lemma_pattern_conversion_is_not_no_match(*value);
        },
        SourcePatternView::Pair { left, right } => {
            lemma_pattern_conversion_is_not_no_match(*left);
            lemma_pattern_conversion_is_not_no_match(*right);
        },
        SourcePatternView::Tuple { child } => {
            lemma_pattern_conversion_is_not_no_match(*child);
        },
        SourcePatternView::Value { expression } => {
            lemma_conversion_is_not_no_match(*expression);
        },
        SourcePatternView::Variable { .. } => {},
    }
}

/// The failure `NoMatch` stays inside the pattern engine: no evaluation
/// fails with it. A receiver that does not match a call is passed over,
/// and a call that no receiver matches fails with `NoMatchingReceiver`.
pub proof fn law_no_match_stays_inside(
    fl: FloatModel,
    limit: nat,
    depth: nat,
    globals: Bindings,
    obj: ObjView,
    env: Option<Bindings>,
)
    ensures
        !is_no_match(eval_spec(fl, limit, depth, globals, obj, env).result),
    decreases limit - depth, obj_size(obj), 1nat,
{
    match visitor_of(obj) {
        Some(VisitorKind::Call) => {
            lemma_call_is_not_no_match(fl, limit, depth, globals, obj, env);
        },
        Some(VisitorKind::Method) => {
            match obj {
                ObjView::Expression(e) => match e.kind {
                    ExprKindView::Method(m) => {
                        lemma_conversion_is_not_no_match(*m.body);
                        if m.signature is Some {
                            lemma_pattern_conversion_is_not_no_match(m.signature->0);
                        }
                    },
                    _ => {},
                },
                _ => {},
            }
        },
        Some(VisitorKind::Infix) => {
            lemma_infix_is_not_no_match(fl, limit, depth, globals, obj, env);
        },
        Some(VisitorKind::Conditional) => {
            lemma_conditional_is_not_no_match(fl, limit, depth, globals, obj, env);
        },
        Some(VisitorKind::Pattern) => {
            lemma_pattern_is_not_no_match(fl, limit, depth, globals, obj, env);
        },
        _ => {},
    }
}

/// No evaluation of an expression fails with `NoMatch`.
pub proof fn lemma_expr_is_not_no_match(
    fl: FloatModel,
    limit: nat,
    depth: nat,
    globals: Bindings,
    e: ExprView,
    env: Option<Bindings>,
)
    ensures
        !is_no_match(eval_expr_spec(fl, limit, depth, globals, e, env).result),
    decreases limit - depth, 1 + expr_size(e), 2nat,
{
    lemma_conversion_is_not_no_match(e);
    lemma_converted_size(e);
    match obj_of_expr(e) {
        Ok(obj) => {
            law_no_match_stays_inside(fl, limit, depth, globals, obj, env);
        },
        Err(_) => {},
    }
}

/// No conditional fails with `NoMatch`.
pub proof fn lemma_conditional_is_not_no_match(
    fl: FloatModel,
    limit: nat,
    depth: nat,
    globals: Bindings,
    obj: ObjView,
    env: Option<Bindings>,
)
    ensures
        !is_no_match(conditional_spec(fl, limit, depth, globals, obj, env).result),
    decreases limit - depth, obj_size(obj), 0nat,
{
    match obj {
        ObjView::Expression(e) => match e.kind {
            ExprKindView::Conditional(c) => {
                lemma_expr_is_not_no_match(fl, limit, depth, globals, *c.condition, env);
                let tested = eval_expr_spec(fl, limit, depth, globals, *c.condition, env);
                lemma_expr_is_not_no_match(fl, limit, depth, tested.globals, *c.then_arm, env);
            },
            _ => {},
        },
        _ => {},
    }
}

/// No infix expression fails with `NoMatch`.
pub proof fn lemma_infix_is_not_no_match(
    fl: FloatModel,
    limit: nat,
    depth: nat,
    globals: Bindings,
    obj: ObjView,
    env: Option<Bindings>,
)
    ensures
        !is_no_match(infix_spec(fl, limit, depth, globals, obj, env).result),
    decreases limit - depth, obj_size(obj), 0nat,
{
    match obj {
        ObjView::Expression(e) => match e.kind {
            ExprKindView::Infix(i) => {
                lemma_expr_is_not_no_match(fl, limit, depth, globals, *i.left, env);
                let left = eval_expr_spec(fl, limit, depth, globals, *i.left, env);
                lemma_expr_is_not_no_match(fl, limit, depth, left.globals, *i.right, env);
            },
            _ => {},
        },
        _ => {},
    }
}

/// No evaluation of a pattern fails with `NoMatch`.
pub proof fn lemma_pattern_is_not_no_match(
    fl: FloatModel,
    limit: nat,
    depth: nat,
    globals: Bindings,
    obj: ObjView,
    env: Option<Bindings>,
)
    ensures
        !is_no_match(pattern_spec(fl, limit, depth, globals, obj, env).result),
    decreases limit - depth, obj_size(obj), 0nat,
{
    match obj {
        ObjView::Pattern(p) => match p {
            PatternView::Value { obj: inner } => {
                assert(pattern_size(p) == 1 + obj_size(*inner));
                law_no_match_stays_inside(fl, limit, depth, globals, *inner, env);
            },
            _ => {},
        },
        _ => {},
    }
}

/// No call fails with `NoMatch`.
pub proof fn lemma_call_is_not_no_match(
    fl: FloatModel,
    limit: nat,
    depth: nat,
    globals: Bindings,
    obj: ObjView,
    env: Option<Bindings>,
)
    ensures
        !is_no_match(call_spec(fl, limit, depth, globals, obj, env).result),
    decreases limit - depth, obj_size(obj), 0nat,
{
    match obj {
        ObjView::Expression(e) => match e.kind {
            ExprKindView::Call(c) => match lookup(globals, None, name_key(c.name)) {
                Ok(ObjView::Multimethod(receivers)) => {
                    lemma_invoke_is_not_no_match(fl, limit, depth, globals, receivers, c.signature);
                },
                _ => {},
            },
            _ => {},
        },
        _ => {},
    }
}

/// No call of a multimethod fails with `NoMatch`.
pub proof fn lemma_invoke_is_not_no_match(
    fl: FloatModel,
    limit: nat,
    depth: nat,
    globals: Bindings,
    receivers: Seq<ReceiverView>,
    signature: Option<SourcePatternView>,
)
    ensures
        !is_no_match(invoke_spec(fl, limit, depth, globals, receivers, signature).result),
    decreases limit - depth, 1 + opt_source_size(signature), 3nat,
{
    let given = match signature {
        Some(source) => {
            lemma_pattern_conversion_is_not_no_match(source);
            lemma_converted_pattern_size(source);
            match pattern_of_source(source) {
                Err(x) => fails(globals, x),
                Ok(p) => {
                    law_no_match_stays_inside(fl, limit, depth, globals, ObjView::Pattern(p), None);
                    eval_spec(fl, limit, depth, globals, ObjView::Pattern(p), None)
                },
            }
        },
        None => Outcome { globals, result: Ok(ObjView::Nothing) },
    };
    match given.result {
        Ok(v) => {
            let call_signature: Option<Option<PatternView>> = match (signature, v) {
                (None, _) => Some(None),
                (Some(_), ObjView::Pattern(q)) => Some(Some(q)),
                (Some(_), _) => None,
            };
            if call_signature is Some {
                match selected(receivers, call_signature->0) {
                    Some(candidate) => {
                        if depth < limit {
                            law_no_match_stays_inside(
                                fl,
                                limit,
                                depth + 1,
                                given.globals,
                                candidate.body,
                                Some(candidate.bindings),
                            );
                        }
                    },
                    None => {},
                }
            }
        },
        Err(_) => {},
    }
}

} // verus!
