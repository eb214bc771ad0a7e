//! Multimethods: named, open sets of receivers.

use vstd::prelude::*;
use crate::types::obj::{obj_view, Obj, ObjView};
use crate::types::pattern::{
    clone_opt_pattern, opt_pattern_view, same_opt_pattern, Pattern, PatternView,
};

verus! {

/// One implementation of a multimethod: the signature that a call must
/// match, and the body that is then evaluated.
#[derive(Debug, PartialEq, Eq)]
pub struct Receiver {
    pub signature: Option<Pattern>,
    pub body: Box<Obj>,
}

/// An ordered sequence of receivers. The order of definition breaks ties
/// between receivers that match the same call.
#[derive(Debug, PartialEq, Eq)]
pub struct Multimethod {
    pub receivers: Vec<Receiver>,
}

pub struct ReceiverView {
    pub signature: Option<PatternView>,
    pub body: ObjView,
}

pub open spec fn receiver_view(r: Receiver) -> ReceiverView
    decreases r,
{
    ReceiverView { signature: opt_pattern_view(r.signature), body: obj_view(*r.body) }
}

pub open spec fn receivers_view(v: Vec<Receiver>) -> Seq<ReceiverView>
    decreases v,
{
    Seq::new(
        v.len() as nat,
        |i: int|
            if 0 <= i < v.len() {
                receiver_view(v[i])
            } else {
                arbitrary()
            },
    )
}

impl View for Receiver {
    type V = ReceiverView;

    open spec fn view(&self) -> ReceiverView {
        receiver_view(*self)
    }
}

impl View for Multimethod {
    type V = Seq<ReceiverView>;

    open spec fn view(&self) -> Seq<ReceiverView> {
        receivers_view(self.receivers)
    }
}

impl Receiver {
    pub fn from(signature: Option<Pattern>, body: Box<Obj>) -> (r: Receiver)
        ensures
            r.signature == signature,
            r.body == body,
    {
        Receiver { signature, body }
    }

    /// A copy with the same content.
    pub fn deep_clone(&self) -> (r: Receiver)
        ensures
            r@ == self@,
        decreases self,
    {
        Receiver {
            signature: clone_opt_pattern(&self.signature),
            body: Box::new(self.body.deep_clone()),
        }
    }

    /// Whether two receivers have the same content.
    pub fn content_eq(&self, other: &Receiver) -> (r: bool)
        ensures
            r == (self@ == other@),
        decreases self,
    {
        same_opt_pattern(&self.signature, &other.signature) && self.body.content_eq(&other.body)
    }
}

impl Multimethod {
    /// A copy with the same content.
    pub fn deep_clone(&self) -> (r: Multimethod)
        ensures
            r@ == self@,
        decreases self,
    {
        let mut receivers: Vec<Receiver> = Vec::new();
        let mut i: usize = 0;
        while i < self.receivers.len()
            invariant
                i <= self.receivers.len(),
                receivers.len() == i,
                forall|j: int|
                    0 <= j < i ==> receiver_view(#[trigger] receivers[j]) == receiver_view(
                        self.receivers[j],
                    ),
            decreases self.receivers.len() - i,
        {
            proof {
                assert(decreases_to!(self.receivers => self.receivers[i as int]));
            }
            receivers.push(self.receivers[i].deep_clone());
            i += 1;
        }
        assert(receivers_view(receivers) =~= receivers_view(self.receivers));
        Multimethod { receivers }
    }

    /// Whether two multimethods have the same receivers, in the same order.
    pub fn content_eq(&self, other: &Multimethod) -> (r: bool)
        ensures
            r == (self@ == other@),
        decreases self,
    {
        if self.receivers.len() != other.receivers.len() {
            assert(self@.len() != other@.len());
            return false;
        }
        let mut i: usize = 0;
        while i < self.receivers.len()
            invariant
                i <= self.receivers.len(),
                self.receivers.len() == other.receivers.len(),
                forall|j: int|
                    0 <= j < i ==> receiver_view(#[trigger] self.receivers[j]) == receiver_view(
                        other.receivers[j],
                    ),
            decreases self.receivers.len() - i,
        {
            proof {
                assert(decreases_to!(self.receivers => self.receivers[i as int]));
            }
            if !self.receivers[i].content_eq(&other.receivers[i]) {
                assert(self@[i as int] == receiver_view(self.receivers[i as int]));
                assert(other@[i as int] == receiver_view(other.receivers[i as int]));
                return false;
            }
            i += 1;
        }
        assert(self@ =~= other@);
        true
    }
}

impl Clone for Receiver {
    fn clone(&self) -> (r: Self)
        ensures
            r@ == self@,
    {
        self.deep_clone()
    }
}

impl Clone for Multimethod {
    fn clone(&self) -> (r: Self)
        ensures
            r@ == self@,
    {
        self.deep_clone()
    }
}

} // verus!
