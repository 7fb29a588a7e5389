use vstd::prelude::*;
use crate::error::RagError;

verus! {

/// Dimensionality of the vectors of the ephemeral collection.
pub const VECTOR_SIZE: u64 = 1536;

/// The id of the next point to insert: one past the current point count, or
/// `None` when that does not fit in a `u64`.
pub fn next_point_id(points_count: u64) -> (r: Option<u64>)
    ensures
        points_count < u64::MAX ==> r == Some((points_count + 1) as u64),
        points_count == u64::MAX ==> r is None,
{
    points_count.checked_add(1)
}

/// The outcome of a reset, which deletes the collection and creates it
/// again: a failed delete (most often, of a collection that did not exist)
/// is ignored, and the outcome is that of the creation.
pub fn reset_outcome(delete: Result<(), RagError>, create: Result<(), RagError>) -> (r: Result<(), RagError>)
    ensures
        r == create,
{
    match delete {
        Ok(()) => create,
        Err(_) => create,
    }
}

} // verus!
