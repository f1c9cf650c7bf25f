//! What the engine owes for a batch, checked on what it returned: one vector
//! for each input, all of one dimension.
//!
//! The vectors themselves stay with the caller. Only their lengths are needed
//! here, in the order in which the engine returned them.

use crate::error::PipelineError;
use vstd::prelude::*;

verus! {

/// Every vector has the length `dimension`.
pub open spec fn uniform(lengths: Seq<usize>, dimension: usize) -> bool {
    forall|i: int| 0 <= i < lengths.len() ==> #[trigger] lengths[i] == dimension
}

/// The engine kept its promise for a batch of `expected` inputs: it returned
/// as many vectors, and they share one dimension.
pub open spec fn well_shaped(expected: usize, lengths: Seq<usize>) -> bool {
    lengths.len() == expected && uniform(lengths, lengths[0])
}

/// `at` is the first position whose vector differs in length from the first
/// vector.
pub open spec fn first_mismatch(lengths: Seq<usize>, at: int) -> bool {
    &&& 0 < at < lengths.len()
    &&& lengths[at] != lengths[0]
    &&& forall|j: int| 0 <= j < at ==> #[trigger] lengths[j] == lengths[0]
}

/// What is said where the number of vectors is not the number of inputs.
pub open spec fn miscount_text() -> Seq<char> {
    "the engine did not return one vector for each input"@
}

/// Checks the shape of what the engine returned for a batch of `expected`
/// inputs, and gives the dimension that the vectors share.
///
/// A wrong number of vectors is an inference failure. Vectors of different
/// lengths are a shape error, which names the length of the first vector and
/// that of the first one to differ from it.
pub fn check_batch(expected: usize, lengths: &Vec<usize>) -> (outcome: Result<usize, PipelineError>)
    requires
        expected > 0,
    ensures
        outcome is Ok <==> well_shaped(expected, lengths@),
        match outcome {
            Ok(dimension) => dimension == lengths@[0] && uniform(lengths@, dimension),
            Err(PipelineError::Inference { detail }) => lengths@.len() != expected && detail@
                == miscount_text(),
            Err(PipelineError::Shape { left, right }) => lengths@.len() == expected && exists|
                at: int,
            |
                #[trigger] first_mismatch(lengths@, at) && left == lengths@[0] && right
                    == lengths@[at],
            Err(_) => false,
        },
{
    if lengths.len() != expected {
        return Err(
            PipelineError::Inference {
                detail: String::from_str("the engine did not return one vector for each input"),
            },
        );
    }
    let dimension: usize = lengths[0];
    let mut i: usize = 1;
    while i < lengths.len()
        invariant
            1 <= i <= lengths@.len(),
            lengths@.len() == expected,
            dimension == lengths@[0],
            forall|j: int| 0 <= j < i ==> #[trigger] lengths@[j] == dimension,
        decreases lengths@.len() - i,
    {
        if lengths[i] != dimension {
            assert(first_mismatch(lengths@, i as int));
            return Err(PipelineError::Shape { left: dimension, right: lengths[i] });
        }
        i = i + 1;
    }
    Ok(dimension)
}

/// Checks what the scorer requires of its two vectors: equal length.
pub fn check_pair(left: usize, right: usize) -> (outcome: Result<(), PipelineError>)
    ensures
        outcome == if left == right {
            Ok::<(), PipelineError>(())
        } else {
            Err(PipelineError::Shape { left, right })
        },
{
    if left == right {
        Ok(())
    } else {
        Err(PipelineError::Shape { left, right })
    }
}

} // verus!
