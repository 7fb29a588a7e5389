use vstd::prelude::*;
use crate::score::{exceeds_three_quarters, Score};

verus! {

/// A batched embedding of the two texts can be compared only when the call
/// succeeded (`Some`) and returned at least two vectors.
pub fn embedding_pair_ready(vectors_returned: Option<usize>) -> (r: bool)
    ensures
        r == (vectors_returned matches Some(n) && n >= 2),
{
    match vectors_returned {
        Some(n) => n >= 2,
        None => false,
    }
}

/// The verdict on two texts from the dot product of their embeddings, or
/// from `None` when no usable pair of embeddings came back: a failed
/// embedding is never relevant, and a score is relevant when it is strictly
/// above the threshold.
pub fn relevance_verdict(score: Option<Score>) -> (r: bool)
    ensures
        r == (score matches Some(s) && exceeds_three_quarters(s.bits)),
        score is None ==> !r,
{
    match score {
        Some(s) => s.exceeds_threshold(),
        None => false,
    }
}

} // verus!
