//! Ranking of the receivers that match a call: by descending precedence,
//! and by order of definition among those of equal precedence.

use vstd::prelude::*;
use crate::types::dispatch::{candidate_view, candidates_view, Candidate, CandidateView};

verus! {

/// A ranking with one more candidate put in: behind every candidate whose
/// precedence is not lower than its own, and before all others.
pub open spec fn insert_ranked(ranking: Seq<CandidateView>, c: CandidateView) -> Seq<
    CandidateView,
>
    decreases ranking.len(),
{
    if ranking.len() == 0 {
        seq![c]
    } else if ranking.last().precedence >= c.precedence {
        ranking.push(c)
    } else {
        insert_ranked(ranking.drop_last(), c).push(ranking.last())
    }
}

/// The candidates sorted by descending precedence, where candidates of
/// equal precedence keep their order.
pub open spec fn ranked(cs: Seq<CandidateView>) -> Seq<CandidateView>
    decreases cs.len(),
{
    if cs.len() == 0 {
        Seq::empty()
    } else {
        insert_ranked(ranked(cs.drop_last()), cs.last())
    }
}

/// The precedences do not rise along the sequence.
pub open spec fn descending(cs: Seq<CandidateView>) -> bool {
    forall|i: int, j: int|
        0 <= i <= j < cs.len() ==> (#[trigger] cs[i]).precedence >= (#[trigger] cs[j]).precedence
}

/// Whether the candidate at `i` is the earliest of those with the highest
/// precedence.
pub open spec fn is_top(cs: Seq<CandidateView>, i: int) -> bool {
    &&& 0 <= i < cs.len()
    &&& forall|j: int| 0 <= j < cs.len() ==> (#[trigger] cs[j]).precedence <= cs[i].precedence
    &&& forall|j: int| 0 <= j < i ==> (#[trigger] cs[j]).precedence < cs[i].precedence
}

/// Putting a candidate in at the place behind the last candidate whose
/// precedence is not lower gives the ranking with that candidate.
pub proof fn lemma_insert_at(ranking: Seq<CandidateView>, c: CandidateView, at: int)
    requires
        0 <= at <= ranking.len(),
        forall|j: int| at <= j < ranking.len() ==> (#[trigger] ranking[j]).precedence < c.precedence,
        at > 0 ==> ranking[at - 1].precedence >= c.precedence,
    ensures
        insert_ranked(ranking, c) == ranking.insert(at, c),
    decreases ranking.len(),
{
    if ranking.len() == 0 {
        assert(ranking.insert(at, c) =~= seq![c]);
    } else if at == ranking.len() {
        assert(ranking.insert(at, c) =~= ranking.push(c));
    } else {
        let init = ranking.drop_last();
        assert(ranking.last().precedence < c.precedence);
        assert forall|j: int| at <= j < init.len() implies (#[trigger] init[j]).precedence
            < c.precedence by {
            assert(init[j] == ranking[j]);
        }
        if at > 0 {
            assert(init[at - 1] == ranking[at - 1]);
        }
        lemma_insert_at(init, c, at);
        assert(init.insert(at, c).push(ranking.last()) =~= ranking.insert(at, c));
    }
}

/// Putting a candidate in keeps every other candidate, in the same order.
pub proof fn lemma_insert_len(ranking: Seq<CandidateView>, c: CandidateView)
    ensures
        insert_ranked(ranking, c).len() == ranking.len() + 1,
    decreases ranking.len(),
{
    if ranking.len() > 0 && ranking.last().precedence < c.precedence {
        lemma_insert_len(ranking.drop_last(), c);
    }
}

/// A ranking has as many candidates as there are.
pub proof fn law_ranking_keeps_the_number(cs: Seq<CandidateView>)
    ensures
        ranked(cs).len() == cs.len(),
    decreases cs.len(),
{
    if cs.len() > 0 {
        law_ranking_keeps_the_number(cs.drop_last());
        lemma_insert_len(ranked(cs.drop_last()), cs.last());
    }
}

/// The first candidate after one more is put in: the new one where its
/// precedence is higher than that of all others, else the first as before.
pub proof fn lemma_insert_first(ranking: Seq<CandidateView>, c: CandidateView)
    requires
        descending(ranking),
        ranking.len() > 0,
    ensures
        insert_ranked(ranking, c).len() > 0,
        insert_ranked(ranking, c)[0] == if ranking[0].precedence < c.precedence {
            c
        } else {
            ranking[0]
        },
    decreases ranking.len(),
{
    lemma_insert_len(ranking, c);
    if ranking.last().precedence < c.precedence {
        let init = ranking.drop_last();
        if init.len() > 0 {
            assert forall|i: int, j: int| 0 <= i <= j < init.len() implies (#[trigger] init[i]).precedence
                >= (#[trigger] init[j]).precedence by {
                assert(init[i] == ranking[i]);
                assert(init[j] == ranking[j]);
            }
            assert(init[0] == ranking[0]);
            lemma_insert_first(init, c);
            lemma_insert_len(init, c);
        }
    } else {
        assert(ranking[0].precedence >= ranking[ranking.len() - 1].precedence);
    }
}

/// Putting a candidate into a descending ranking keeps it descending.
pub proof fn lemma_insert_descending(ranking: Seq<CandidateView>, c: CandidateView)
    requires
        descending(ranking),
    ensures
        descending(insert_ranked(ranking, c)),
    decreases ranking.len(),
{
    let out = insert_ranked(ranking, c);
    if ranking.len() == 0 {
    } else if ranking.last().precedence >= c.precedence {
        assert forall|i: int, j: int| 0 <= i <= j < out.len() implies (#[trigger] out[i]).precedence
            >= (#[trigger] out[j]).precedence by {
            if j < ranking.len() {
                assert(out[i] == ranking[i]);
                assert(out[j] == ranking[j]);
            } else if i < ranking.len() {
                assert(out[i] == ranking[i]);
                assert(ranking[i].precedence >= ranking[ranking.len() - 1].precedence);
            }
        }
    } else {
        let init = ranking.drop_last();
        assert forall|i: int, j: int| 0 <= i <= j < init.len() implies (#[trigger] init[i]).precedence
            >= (#[trigger] init[j]).precedence by {
            assert(init[i] == ranking[i]);
            assert(init[j] == ranking[j]);
        }
        lemma_insert_descending(init, c);
        lemma_insert_len(init, c);
        lemma_insert_lowest(init, c, ranking.last().precedence);
        let inner = insert_ranked(init, c);
        assert forall|i: int, j: int| 0 <= i <= j < out.len() implies (#[trigger] out[i]).precedence
            >= (#[trigger] out[j]).precedence by {
            if j < inner.len() {
                assert(out[i] == inner[i]);
                assert(out[j] == inner[j]);
            } else if i < inner.len() {
                assert(out[i] == inner[i]);
            }
        }
    }
}

/// Where every candidate and the new one have at least some precedence,
/// so has every candidate after the new one is put in.
pub proof fn lemma_insert_lowest(ranking: Seq<CandidateView>, c: CandidateView, low: nat)
    requires
        c.precedence >= low,
        forall|i: int| 0 <= i < ranking.len() ==> (#[trigger] ranking[i]).precedence >= low,
    ensures
        forall|i: int|
            0 <= i < insert_ranked(ranking, c).len() ==> (#[trigger] insert_ranked(
                ranking,
                c,
            )[i]).precedence >= low,
    decreases ranking.len(),
{
    let out = insert_ranked(ranking, c);
    if ranking.len() > 0 && ranking.last().precedence < c.precedence {
        let init = ranking.drop_last();
        assert forall|i: int| 0 <= i < init.len() implies (#[trigger] init[i]).precedence
            >= low by {
            assert(init[i] == ranking[i]);
        }
        lemma_insert_lowest(init, c, low);
        lemma_insert_len(init, c);
        assert forall|i: int| 0 <= i < out.len() implies (#[trigger] out[i]).precedence >= low by {
            if i < out.len() - 1 {
                assert(out[i] == insert_ranked(init, c)[i]);
            } else {
                assert(out[i] == ranking[ranking.len() - 1]);
            }
        }
    } else if ranking.len() > 0 {
        assert forall|i: int| 0 <= i < out.len() implies (#[trigger] out[i]).precedence >= low by {
            if i < ranking.len() {
                assert(out[i] == ranking[i]);
            }
        }
    }
}

/// In a ranking the precedences do not rise.
pub proof fn law_ranking_is_descending(cs: Seq<CandidateView>)
    ensures
        descending(ranked(cs)),
    decreases cs.len(),
{
    if cs.len() > 0 {
        law_ranking_is_descending(cs.drop_last());
        lemma_insert_descending(ranked(cs.drop_last()), cs.last());
    }
}

/// A ranking starts with the earliest of the candidates that have the
/// highest precedence.
pub proof fn law_ranking_starts_with_the_top(cs: Seq<CandidateView>) -> (top: int)
    requires
        cs.len() > 0,
    ensures
        is_top(cs, top),
        ranked(cs).len() > 0,
        ranked(cs)[0] == cs[top],
    decreases cs.len(),
{
    let init = cs.drop_last();
    let ranking = ranked(init);
    law_ranking_keeps_the_number(cs);
    if init.len() == 0 {
        assert(ranking =~= Seq::<CandidateView>::empty());
        0
    } else {
        let before = law_ranking_starts_with_the_top(init);
        law_ranking_is_descending(init);
        lemma_insert_first(ranking, cs.last());
        assert forall|j: int| 0 <= j < init.len() implies (#[trigger] cs[j]) == init[j] by {}
        if ranking[0].precedence < cs.last().precedence {
            let top = cs.len() - 1;
            assert forall|j: int| 0 <= j < top implies (#[trigger] cs[j]).precedence
                < cs[top].precedence by {
                assert(init[j].precedence <= init[before].precedence);
            }
            top
        } else {
            assert forall|j: int| 0 <= j < cs.len() implies (#[trigger] cs[j]).precedence
                <= cs[before].precedence by {
                if j < init.len() {
                    assert(init[j].precedence <= init[before].precedence);
                }
            }
            assert forall|j: int| 0 <= j < before implies (#[trigger] cs[j]).precedence
                < cs[before].precedence by {
                assert(init[j].precedence < init[before].precedence);
            }
            before
        }
    }
}

/// Candidates that all have the same precedence are ranked in the order
/// in which they come.
pub proof fn law_equal_precedences_keep_their_order(cs: Seq<CandidateView>, precedence: nat)
    requires
        forall|i: int| 0 <= i < cs.len() ==> (#[trigger] cs[i]).precedence == precedence,
    ensures
        ranked(cs) == cs,
    decreases cs.len(),
{
    if cs.len() > 0 {
        let init = cs.drop_last();
        assert forall|i: int| 0 <= i < init.len() implies (#[trigger] init[i]).precedence
            == precedence by {
            assert(init[i] == cs[i]);
        }
        law_equal_precedences_keep_their_order(init, precedence);
        if init.len() > 0 {
            assert(init.last() == cs[init.len() - 1]);
        }
        assert(cs.last() == cs[cs.len() - 1]);
        assert(init.push(cs.last()) =~= cs);
    } else {
        assert(ranked(cs) =~= cs);
    }
}

/// Sorts the candidates by descending precedence. Candidates of equal
/// precedence stay in their order.
pub fn rank(candidates: Vec<Candidate>) -> (r: Vec<Candidate>)
    ensures
        candidates_view(r@) == ranked(candidates_view(candidates@)),
{
    let ghost all = candidates_view(candidates@);
    let mut rest = candidates;
    let mut out: Vec<Candidate> = Vec::new();
    assert(all.subrange(0, 0) =~= Seq::<CandidateView>::empty());
    assert(candidates_view(out@) =~= Seq::<CandidateView>::empty());
    assert(candidates_view(rest@) =~= all.subrange(0, all.len() as int));
    while rest.len() > 0
        invariant
            rest.len() <= all.len(),
            candidates_view(out@) == ranked(all.subrange(0, all.len() - rest.len())),
            candidates_view(rest@) == all.subrange(all.len() - rest.len(), all.len() as int),
        decreases rest.len(),
    {
        let ghost done = all.len() - rest.len();
        let ghost before = candidates_view(out@);
        let ghost rest_before = candidates_view(rest@);
        let ghost rest_seq = rest@;
        let c = rest.remove(0);
        let ghost cv = candidate_view(c);
        proof {
            assert(rest_before[0] == cv);
            assert(cv == all[done]);
            assert(rest@ == rest_seq.remove(0));
            assert forall|j: int| 0 <= j < rest@.len() implies #[trigger] candidates_view(
                rest@,
            )[j] == all[done + 1 + j] by {
                assert(rest@[j] == rest_seq[j + 1]);
                assert(rest_before[j + 1] == all[done + 1 + j]);
            }
            assert(candidates_view(rest@) =~= all.subrange(done + 1, all.len() as int));
            let next = all.subrange(0, done + 1);
            assert(next.drop_last() == all.subrange(0, done));
            assert(next.last() == cv);
        }
        let mut at: usize = out.len();
        while at > 0 && out[at - 1].2 < c.2
            invariant
                at <= out.len(),
                before == candidates_view(out@),
                cv == candidate_view(c),
                forall|j: int| at <= j < out.len() ==> (#[trigger] before[j]).precedence < cv.precedence,
            decreases at,
        {
            assert(before[at - 1].precedence == out@[at - 1].2);
            at -= 1;
        }
        proof {
            if at > 0 {
                assert(before[at - 1].precedence == out@[at - 1].2);
            }
            lemma_insert_at(before, cv, at as int);
        }
        out.insert(at, c);
        assert(candidates_view(out@) =~= before.insert(at as int, cv));
    }
    assert(all.subrange(0, all.len() as int) == all);
    out
}

} // verus!
