//! The order of a result list: by relevance, best first, and by address
//! where two documents are equally relevant.

use crate::error::ExecutionFault;
use vstd::prelude::*;

verus! {

/// One match of a query.
#[derive(Clone, Copy, Debug, PartialEq, Eq, Structural)]
pub struct Hit {
    /// The relevance score, as the bits of an IEEE 754 single.
    pub score_bits: u32,
    /// The ordinal of the segment that holds the document.
    pub segment: u32,
    /// The id of the document inside its segment.
    pub doc: u32,
}

/// The place of a score in the order of the singles, read from its bits:
/// the magnitude bits count up for a clear sign bit and down for a set
/// one, so that both zeros share a place and a larger score has a larger
/// place.
pub open spec fn score_rank(bits: u32) -> int {
    if bits < 0x8000_0000 {
        bits as int
    } else {
        0x8000_0000 - bits
    }
}

/// Computes `score_rank`.
pub fn rank_of(bits: u32) -> (r: i64)
    ensures
        r == score_rank(bits),
{
    if bits < 0x8000_0000 {
        bits as i64
    } else {
        0x8000_0000i64 - bits as i64
    }
}

impl Hit {
    /// The place of the hit's score among all scores.
    pub open spec fn rank(self) -> int {
        score_rank(self.score_bits)
    }

    /// Whether this hit stands before the other in a result list: it has
    /// the larger score, or the same score and the smaller address.
    pub open spec fn precedes(self, other: Hit) -> bool {
        ||| self.rank() > other.rank()
        ||| self.rank() == other.rank() && self.segment < other.segment
        ||| self.rank() == other.rank() && self.segment == other.segment && self.doc < other.doc
    }

    /// Decides `precedes`.
    pub fn comes_before(&self, other: &Hit) -> (r: bool)
        ensures
            r == self.precedes(*other),
    {
        let mine: i64 = rank_of(self.score_bits);
        let theirs: i64 = rank_of(other.score_bits);
        mine > theirs || (mine == theirs && (self.segment < other.segment || (self.segment
            == other.segment && self.doc < other.doc)))
    }
}

/// A result list is ranked when each hit stands before all that follow
/// it.
pub open spec fn is_ranked(hits: Seq<Hit>) -> bool {
    forall|i: int, j: int| 0 <= i < j < hits.len() ==> (#[trigger] hits[i]).precedes(#[trigger] hits[j])
}

/// No two hits address the same document.
pub open spec fn have_distinct_addresses(hits: Seq<Hit>) -> bool {
    forall|i: int, j: int|
        0 <= i < j < hits.len() ==> (#[trigger] hits[i]).segment != (#[trigger] hits[j]).segment
            || hits[i].doc != hits[j].doc
}

/// What is asked of the hits of one search: no more than `limit`, in
/// ranked order.
pub open spec fn is_acceptable(hits: Seq<Hit>, limit: nat) -> bool {
    hits.len() <= limit && is_ranked(hits)
}

/// `precedes` is transitive.
pub proof fn lemma_precedes_transitive(a: Hit, b: Hit, c: Hit)
    requires
        a.precedes(b),
        b.precedes(c),
    ensures
        a.precedes(c),
{
}

/// In a ranked list the scores never increase from one hit to the next.
pub proof fn lemma_ranked_scores_descend(hits: Seq<Hit>, i: int, j: int)
    requires
        is_ranked(hits),
        0 <= i <= j < hits.len(),
    ensures
        hits[i].rank() >= hits[j].rank(),
{
    if i < j {
        assert(hits[i].precedes(hits[j]));
    }
}

/// The hits of a search fix its result list: two ranked lists of the same
/// hits are the same list. Which documents match, and how well, is all
/// that the order of a result depends on.
pub proof fn lemma_ranking_is_unique(a: Seq<Hit>, b: Seq<Hit>)
    requires
        is_ranked(a),
        is_ranked(b),
        a.to_multiset() == b.to_multiset(),
    ensures
        a == b,
    decreases a.len(),
{
    a.to_multiset_ensures();
    b.to_multiset_ensures();
    if a.len() == 0 {
        assert(a =~= b);
    } else {
        assert(a.contains(a[0]));
        assert(b.contains(b[0]));
        assert(b.to_multiset().count(a[0]) > 0);
        assert(a.to_multiset().count(b[0]) > 0);
        let k = choose|k: int| 0 <= k < b.len() && b[k] == a[0];
        let m = choose|m: int| 0 <= m < a.len() && a[m] == b[0];
        if k > 0 && m > 0 {
            assert(b[0].precedes(b[k]));
            assert(a[0].precedes(a[m]));
        }
        assert(a[0] == b[0]);
        assert(a.remove(0) =~= a.drop_first());
        assert(b.remove(0) =~= b.drop_first());
        assert(a.drop_first().to_multiset() == b.drop_first().to_multiset());
        assert(is_ranked(a.drop_first())) by {
            assert forall|i: int, j: int| 0 <= i < j < a.drop_first().len() implies (
            #[trigger] a.drop_first()[i]).precedes(#[trigger] a.drop_first()[j]) by {
                assert(a[i + 1].precedes(a[j + 1]));
            }
        }
        assert(is_ranked(b.drop_first())) by {
            assert forall|i: int, j: int| 0 <= i < j < b.drop_first().len() implies (
            #[trigger] b.drop_first()[i]).precedes(#[trigger] b.drop_first()[j]) by {
                assert(b[i + 1].precedes(b[j + 1]));
            }
        }
        lemma_ranking_is_unique(a.drop_first(), b.drop_first());
        assert(a =~= seq![a[0]] + a.drop_first());
        assert(b =~= seq![b[0]] + b.drop_first());
    }
}

/// Decides whether a list of hits is ranked.
pub fn check_ranked(hits: &Vec<Hit>) -> (r: bool)
    ensures
        r == is_ranked(hits@),
{
    if hits.len() < 2 {
        return true;
    }
    let mut i: usize = 1;
    while i < hits.len()
        invariant
            1 <= i <= hits.len(),
            is_ranked(hits@.take(i as int)),
        decreases hits.len() - i,
    {
        if !hits[i - 1].comes_before(&hits[i]) {
            return false;
        }
        proof {
            let shorter = hits@.take(i as int);
            let longer = hits@.take(i + 1);
            assert forall|p: int, q: int| 0 <= p < q < longer.len() implies (#[trigger] longer[p]).precedes(
                #[trigger] longer[q],
            ) by {
                if q < i {
                    assert(shorter[p].precedes(shorter[q]));
                } else if p < i - 1 {
                    assert(shorter[p].precedes(shorter[i - 1]));
                    lemma_precedes_transitive(longer[p], longer[i - 1], longer[q]);
                }
            }
        }
        i += 1;
    }
    assert(hits@.take(hits.len() as int) == hits@);
    true
}

/// Takes the hits of one search where there are no more than `limit` of
/// them and they are ranked, and refuses them where not.
pub fn accept_hits(hits: Vec<Hit>, limit: usize) -> (r: Result<Vec<Hit>, ExecutionFault>)
    ensures
        match r {
            Ok(accepted) => accepted@ == hits@ && is_acceptable(hits@, limit as nat),
            Err(fault) => fault is Ranking && !is_acceptable(hits@, limit as nat),
        },
{
    if hits.len() <= limit && check_ranked(&hits) {
        Ok(hits)
    } else {
        Err(ExecutionFault::Ranking)
    }
}

} // verus!
