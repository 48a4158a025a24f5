//! The decision extractor: from a vector of scores to the predicted class.

use vstd::prelude::*;
use crate::error::PipelineError;
use crate::score::Score;

verus! {

/// Whether some score of the sequence is not a number.
pub open spec fn has_nan(scores: Seq<Score>) -> bool {
    exists|i: int| 0 <= i < scores.len() && (#[trigger] scores[i]).not_a_number()
}

/// Whether `index` is the first place at which the sequence attains its
/// maximum: no score is greater, and every score before it is smaller.
pub open spec fn is_first_maximum(scores: Seq<Score>, index: int) -> bool {
    &&& 0 <= index < scores.len()
    &&& forall|j: int| 0 <= j < scores.len() ==> (#[trigger] scores[j]).rank() <= scores[index].rank()
    &&& forall|j: int| 0 <= j < index ==> (#[trigger] scores[j]).rank() < scores[index].rank()
}

/// A sequence attains its maximum for the first time at one index only.
pub proof fn lemma_first_maximum_unique(scores: Seq<Score>, first: int, second: int)
    requires
        is_first_maximum(scores, first),
        is_first_maximum(scores, second),
    ensures
        first == second,
{
    if first < second {
        assert(scores[first].rank() < scores[second].rank());
        assert(scores[second].rank() <= scores[first].rank());
    } else if second < first {
        assert(scores[second].rank() < scores[first].rank());
        assert(scores[first].rank() <= scores[second].rank());
    }
}

/// Every sequence that is not empty attains its maximum for the first time
/// at some index.
pub proof fn lemma_first_maximum_exists(scores: Seq<Score>)
    requires
        scores.len() > 0,
    ensures
        exists|index: int| is_first_maximum(scores, index),
    decreases scores.len(),
{
    if scores.len() == 1 {
        assert(is_first_maximum(scores, 0));
    } else {
        let front = scores.drop_last();
        lemma_first_maximum_exists(front);
        let best = choose|index: int| is_first_maximum(front, index);
        let last = scores.len() - 1;
        assert forall|j: int| 0 <= j < last implies #[trigger] scores[j] == front[j] by {}
        if scores[last].rank() > front[best].rank() {
            assert forall|j: int| 0 <= j < last implies (#[trigger] scores[j]).rank()
                < scores[last].rank() by {
                assert(front[j].rank() <= front[best].rank());
            }
            assert(is_first_maximum(scores, last));
        } else {
            assert forall|j: int| 0 <= j < scores.len() implies (#[trigger] scores[j]).rank()
                <= scores[best].rank() by {
                if j < last {
                    assert(front[j].rank() <= front[best].rank());
                }
            }
            assert forall|j: int| 0 <= j < best implies (#[trigger] scores[j]).rank()
                < scores[best].rank() by {
                assert(front[j].rank() < front[best].rank());
            }
            assert(is_first_maximum(scores, best));
        }
    }
}

/// The predicted class: the index of the greatest score, and of the first
/// such score where several are equal.
///
/// An empty vector is an [`PipelineError::EmptyOutputError`]. A vector that
/// holds a score which is not a number has no greatest score and is a
/// [`PipelineError::NotANumberScore`]. Infinite scores are ordered like any
/// other.
pub fn guess(scores: &[Score]) -> (label: Result<usize, PipelineError>)
    ensures
        scores@.len() == 0 ==> label == Err::<usize, PipelineError>(PipelineError::EmptyOutputError),
        scores@.len() > 0 && has_nan(scores@) ==> label == Err::<usize, PipelineError>(
            PipelineError::NotANumberScore,
        ),
        scores@.len() > 0 && !has_nan(scores@) ==> label is Ok && is_first_maximum(
            scores@,
            label->Ok_0 as int,
        ),
{
    let count: usize = scores.len();
    if count == 0 {
        return Err(PipelineError::EmptyOutputError);
    }
    if scores[0].is_nan() {
        return Err(PipelineError::NotANumberScore);
    }
    let mut best: usize = 0;
    let mut next: usize = 1;
    while next < count
        invariant
            count == scores@.len(),
            1 <= next <= count,
            forall|j: int| 0 <= j < next ==> !(#[trigger] scores@[j]).not_a_number(),
            is_first_maximum(scores@.subrange(0, next as int), best as int),
        decreases count - next,
    {
        if scores[next].is_nan() {
            return Err(PipelineError::NotANumberScore);
        }
        if scores[next].exceeds(&scores[best]) {
            best = next;
        }
        next = next + 1;
    }
    assert(scores@.subrange(0, count as int) =~= scores@);
    Ok(best)
}

} // verus!
