//! Choosing the newest result across repositories.
use vstd::prelude::*;
use crate::locate::HlaipfResult;
use crate::text::{lemma_text_before_transitive, str_before, text_before};

verus! {

/// `a` wins over `b`: it is newer, or as new with a repository path that
/// sorts first.
pub open spec fn wins_over(a: HlaipfResult, b: HlaipfResult) -> bool {
    a.commit_time > b.commit_time || (a.commit_time == b.commit_time && text_before(
        a.repository_path@,
        b.repository_path@,
    ))
}

/// `results[i]` is the newest of `results`; among equally new ones its
/// repository path sorts first.
pub open spec fn is_newest(results: Seq<HlaipfResult>, i: int) -> bool {
    &&& 0 <= i < results.len()
    &&& forall|j: int| 0 <= j < results.len() ==> !wins_over(#[trigger] results[j], results[i])
}

fn wins(a: &HlaipfResult, b: &HlaipfResult) -> (r: bool)
    ensures
        r == wins_over(*a, *b),
{
    a.commit_time > b.commit_time || (a.commit_time == b.commit_time && str_before(
        a.repository_path.as_str(),
        b.repository_path.as_str(),
    ))
}

/// The result with the latest commit time; where several share it, the one
/// whose repository path sorts first. `None` for no results.
pub fn aggregate(results: Vec<HlaipfResult>) -> (r: Option<HlaipfResult>)
    ensures
        r.is_none() <==> results@.len() == 0,
        r matches Some(w) ==> exists|i: int| is_newest(results@, i) && w == results@[i],
{
    if results.len() == 0 {
        return None;
    }
    let mut best: usize = 0;
    let mut k: usize = 1;
    proof {
        lemma_text_before_irreflexive(results@[0].repository_path@);
    }
    while k < results.len()
        invariant
            1 <= k <= results@.len(),
            best < k,
            forall|j: int| 0 <= j < k ==> !wins_over(#[trigger] results@[j], results@[best as int]),
        decreases results@.len() - k,
    {
        if wins(&results[k], &results[best]) {
            proof {
                let nb = results@[k as int];
                let ob = results@[best as int];
                assert forall|j: int| 0 <= j < k + 1 implies !wins_over(
                    #[trigger] results@[j],
                    nb,
                ) by {
                    let x = results@[j];
                    if j < k && wins_over(x, nb) && x.commit_time == ob.commit_time {
                        lemma_text_before_transitive(
                            x.repository_path@,
                            nb.repository_path@,
                            ob.repository_path@,
                        );
                    }
                    if j == k && wins_over(x, nb) {
                        lemma_text_before_irreflexive(x.repository_path@);
                    }
                }
            }
            best = k;
        } else {
            proof {
                lemma_text_before_irreflexive(results@[best as int].repository_path@);
            }
        }
        k = k + 1;
    }
    let ghost before = results@;
    let mut results = results;
    let w = results.swap_remove(best);
    assert(is_newest(before, best as int));
    Some(w)
}

proof fn lemma_text_before_irreflexive(a: Seq<char>)
    ensures
        !text_before(a, a),
    decreases a.len(),
{
    if a.len() > 0 {
        lemma_text_before_irreflexive(a.drop_first());
    }
}

/// Of two results listed in order, only a strictly newer first one is the
/// newest; a single result is the newest of its list.
pub proof fn lemma_newer_of_two_wins(a: HlaipfResult, b: HlaipfResult)
    requires
        a.commit_time > b.commit_time,
    ensures
        forall|i: int| is_newest(seq![a, b], i) ==> i == 0,
        forall|i: int| is_newest(seq![a], i) ==> i == 0,
{
    lemma_text_before_irreflexive(a.repository_path@);
    assert forall|i: int| is_newest(seq![a, b], i) implies i == 0 by {
        if i == 1 {
            assert(!wins_over(seq![a, b][0], seq![a, b][1]));
        }
    }
}

} // verus!
