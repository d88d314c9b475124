//! Weighted random choice backed by `rand`.
use vstd::prelude::*;
use rand::distributions::{Distribution, WeightedError, WeightedIndex};
use rand::rngs::ThreadRng;

verus! {

#[verifier::external_type_specification]
#[verifier::external_body]
pub struct ExThreadRng(ThreadRng);

#[verifier::external_type_specification]
#[verifier::external_body]
pub struct ExWeightedError(WeightedError);

/// A `rand::distributions::WeightedIndex<i32>`. That type's own bounds name
/// a trait of `rand`, so it is not declared directly; it is held here as an
/// opaque value and described by `distribution_weights`.
#[verifier::external_body]
pub struct WeightedChoice {
    dist: WeightedIndex<i32>,
}

/// The weights that a distribution was built from, in order.
pub uninterp spec fn distribution_weights(d: WeightedChoice) -> Seq<i32>;

/// Sum of the first `n` weights.
pub open spec fn weight_sum(w: Seq<i32>, n: int) -> int
    decreases n,
{
    if n <= 0 {
        0
    } else {
        weight_sum(w, n - 1) + w[n - 1]
    }
}

/// `rand::thread_rng`: a handle to the thread-local generator. Nothing is
/// promised of its state.
pub assume_specification[ rand::thread_rng ]() -> ThreadRng;

/// `WeightedIndex::new` over a slice of non-negative `i32` weights whose
/// total fits in `i32` (so the running sum cannot overflow). It fails
/// exactly when the slice is empty or every weight is zero; on success the
/// distribution is over the given weights.
#[verifier::external_body]
pub(crate) fn weighted_index_new(weights: &[i32]) -> (r: Result<WeightedChoice, WeightedError>)
    requires
        forall|i: int| 0 <= i < weights@.len() ==> weights@[i] >= 0,
        weight_sum(weights@, weights@.len() as int) <= i32::MAX,
    ensures
        r is Ok <==> (weights@.len() > 0 && weight_sum(weights@, weights@.len() as int) > 0),
        r matches Ok(d) ==> distribution_weights(d) == weights@,
{
    WeightedIndex::new(weights).map(|dist| WeightedChoice { dist })
}

/// `Distribution::sample` for `WeightedIndex`: a random index into the
/// weights the distribution was built from, whose weight is positive (the
/// binary search lands strictly inside a cumulative-weight step). Which index
/// comes out depends on the generator; its frequency is not stated.
#[verifier::external_body]
pub(crate) fn weighted_index_sample(choice: &WeightedChoice, rng: &mut ThreadRng) -> (i: usize)
    ensures
        i < distribution_weights(*choice).len(),
        distribution_weights(*choice)[i as int] > 0,
{
    choice.dist.sample(rng)
}

} // verus!
