//! Definition of receivers, and the choice of the receiver that answers
//! a call.

use vstd::prelude::*;
use crate::error::{ErrorView, InterpreterError};
use crate::types::environment::Environment;
use crate::types::linearize::{linearize_spec, precedence_spec, Bindings};
use crate::types::ranking::ranked;
use crate::types::multimethod::{receiver_view, Multimethod, Receiver, ReceiverView};
use crate::types::obj::{Obj, ObjView};
use crate::types::pattern::{opt_pattern_view, Pattern, PatternView};

verus! {

/// A receiver that matches a call: the bindings that the match extracted,
/// the receiver's body, and the precedence by which it is ranked.
pub type Candidate = (Environment, Box<Obj>, usize);

pub struct CandidateView {
    pub bindings: Bindings,
    pub body: ObjView,
    pub precedence: nat,
}

pub open spec fn candidate_view(c: Candidate) -> CandidateView {
    CandidateView { bindings: c.0@, body: (*c.1)@, precedence: c.2 as nat }
}

pub open spec fn candidates_view(v: Seq<Candidate>) -> Seq<CandidateView> {
    v.map_values(|c: Candidate| candidate_view(c))
}

/// Whether one of the receivers has the signature.
pub open spec fn has_signature(rs: Seq<ReceiverView>, signature: Option<PatternView>) -> bool {
    exists|i: int| 0 <= i < rs.len() && (#[trigger] rs[i]).signature == signature
}

/// No two receivers have the same signature.
pub open spec fn distinct_signatures(rs: Seq<ReceiverView>) -> bool {
    forall|i: int, j: int|
        0 <= i < rs.len() && 0 <= j < rs.len() && (#[trigger] rs[i]).signature == (
        #[trigger] rs[j]).signature ==> i == j
}

/// What defining a receiver does to a multimethod: it is appended, unless
/// a receiver with the same signature is there already.
pub open spec fn define_spec(
    rs: Seq<ReceiverView>,
    signature: Option<PatternView>,
    body: ObjView,
) -> Result<Seq<ReceiverView>, ErrorView> {
    if has_signature(rs, signature) {
        Err(ErrorView::MethodAlreadyExists)
    } else {
        Ok(rs.push(ReceiverView { signature, body }))
    }
}

/// What matching a call's signature against a receiver's extracts. Two
/// absent signatures match and bind nothing; an absent one never matches a
/// present one.
pub open spec fn match_signature(
    reference: Option<PatternView>,
    given: Option<PatternView>,
) -> Option<Bindings> {
    match (reference, given) {
        (None, None) => Some(Map::empty()),
        (Some(r), Some(g)) => linearize_spec(r, g),
        _ => None,
    }
}

/// The precedence that a call gives to every receiver that matches it:
/// that of the call's own signature, 0 where it has none.
pub open spec fn call_precedence(given: Option<PatternView>) -> nat {
    match given {
        Some(p) => precedence_spec(p),
        None => 0,
    }
}

/// The receivers that match a call, in the order of their definition.
pub open spec fn matching_receivers(
    rs: Seq<ReceiverView>,
    given: Option<PatternView>,
) -> Seq<CandidateView>
    decreases rs.len(),
{
    if rs.len() == 0 {
        Seq::empty()
    } else {
        let earlier = matching_receivers(rs.drop_last(), given);
        match match_signature(rs.last().signature, given) {
            Some(bindings) => earlier.push(
                CandidateView {
                    bindings,
                    body: rs.last().body,
                    precedence: call_precedence(given),
                },
            ),
            None => earlier,
        }
    }
}

/// The candidate that a call selects, if any receiver matches: the first
/// of the matching receivers after they are ranked.
pub open spec fn selected(rs: Seq<ReceiverView>, given: Option<PatternView>) -> Option<
    CandidateView,
> {
    let ranking = ranked(matching_receivers(rs, given));
    if ranking.len() == 0 {
        None
    } else {
        Some(ranking[0])
    }
}

/// The precedence of an optional pattern.
pub fn get_precedence(item: &Option<Pattern>) -> (r: usize)
    ensures
        r == call_precedence(opt_pattern_view(*item)),
{
    match item {
        Some(pattern) => pattern.get_precedence(),
        None => 0,
    }
}

/// Whether a call's signature matches a receiver's.
pub fn match_pattern(reference: &Option<Pattern>, given: &Option<Pattern>) -> (r: bool)
    ensures
        r == match_signature(opt_pattern_view(*reference), opt_pattern_view(*given)).is_some(),
{
    match (reference, given) {
        (None, None) => true,
        (Some(r), Some(g)) => r.linearize_ref(g).is_ok(),
        _ => false,
    }
}

/// The bindings that matching a call's signature against a receiver's
/// extracts; none where the two do not match.
pub fn match_pattern_and_extract(reference: &Option<Pattern>, given: &Option<Pattern>) -> (r:
    Environment)
    ensures
        r@ == match match_signature(opt_pattern_view(*reference), opt_pattern_view(*given)) {
            Some(bindings) => bindings,
            None => Map::empty(),
        },
{
    match (reference, given) {
        (Some(r), Some(g)) => match r.linearize_ref(g) {
            Ok(env) => env,
            Err(_) => Environment::empty(),
        },
        _ => Environment::empty(),
    }
}

impl Multimethod {
    /// The multimethod with one receiver.
    pub fn from(signature: Option<Pattern>, body: Box<Obj>) -> (r: Multimethod)
        ensures
            r@ == seq![ReceiverView { signature: opt_pattern_view(signature), body: (*body)@ }],
            distinct_signatures(r@),
    {
        let mut receivers: Vec<Receiver> = Vec::new();
        receivers.push(Receiver::from(signature, body));
        let r = Multimethod { receivers };
        assert(r@ =~= seq![ReceiverView { signature: opt_pattern_view(signature), body: (*body)@ }]);
        r
    }

    /// Adds a receiver, unless one with the same signature exists already.
    pub fn define(&mut self, signature: Option<Pattern>, body: Box<Obj>) -> (r: Result<
        (),
        InterpreterError,
    >)
        ensures
            match define_spec(old(self)@, opt_pattern_view(signature), (*body)@) {
                Ok(rs) => r is Ok && final(self)@ == rs,
                Err(e) => r matches Err(x) && x@ == e && final(self)@ == old(self)@,
            },
            distinct_signatures(old(self)@) ==> distinct_signatures(final(self)@),
    {
        let ghost sig = opt_pattern_view(signature);
        let mut i: usize = 0;
        while i < self.receivers.len()
            invariant
                i <= self.receivers.len(),
                *self == *old(self),
                sig == opt_pattern_view(signature),
                forall|j: int| 0 <= j < i ==> (#[trigger] self@[j]).signature != sig,
            decreases self.receivers.len() - i,
        {
            if crate::types::pattern::same_opt_pattern(&self.receivers[i].signature, &signature) {
                assert(self@[i as int].signature == sig);
                return Err(InterpreterError::MethodAlreadyExists);
            }
            i += 1;
        }
        let ghost before = self@;
        self.receivers.push(Receiver::from(signature, body));
        assert(self@ =~= before.push(ReceiverView { signature: sig, body: (*body)@ }));
        Ok(())
    }

    /// The receivers that match the call's signature, in the order of
    /// their definition, each with the bindings that the match extracted
    /// and with the call's precedence.
    pub fn find_matching_receivers(&self, reference_sig: &Option<Pattern>) -> (r: Result<
        Vec<Candidate>,
        InterpreterError,
    >)
        ensures
            r matches Ok(found) && candidates_view(found@) == matching_receivers(
                self@,
                opt_pattern_view(*reference_sig),
            ),
    {
        let ghost given = opt_pattern_view(*reference_sig);
        let mut found: Vec<Candidate> = Vec::new();
        let mut i: usize = 0;
        while i < self.receivers.len()
            invariant
                i <= self.receivers.len(),
                given == opt_pattern_view(*reference_sig),
                candidates_view(found@) == matching_receivers(self@.subrange(0, i as int), given),
            decreases self.receivers.len() - i,
        {
            let recv = &self.receivers[i];
            let ghost before = found@;
            proof {
                let next = self@.subrange(0, i as int + 1);
                assert(next.drop_last() == self@.subrange(0, i as int));
                assert(next.last() == receiver_view(*recv));
            }
            if match_pattern(&recv.signature, reference_sig) {
                let env = match_pattern_and_extract(&recv.signature, reference_sig);
                let body = Box::new(recv.body.deep_clone());
                let precedence = get_precedence(reference_sig);
                found.push((env, body, precedence));
                assert(candidates_view(found@) =~= candidates_view(before).push(
                    candidate_view(found@[before.len() as int]),
                ));
            }
            i += 1;
        }
        assert(self@.subrange(0, i as int) == self@);
        Ok(found)
    }
}

} // verus!
