//! Two-dimensional weight: the cost of a piece of work in reference time and
//! in proof size.

use vstd::prelude::*;

use crate::saturating::clamp_u64;

verus! {

/// Computational cost of a call, measured in reference time and in the size of
/// the proof of validity it needs.
#[derive(Clone, Copy, Debug, PartialEq, Eq, Structural, Hash)]
pub struct Weight {
    /// Time spent on some reference hardware.
    pub ref_time: u64,
    /// Storage space used by the proof of validity.
    pub proof_size: u64,
}

/// The weight of no work at all.
pub open spec fn zero_weight() -> Weight {
    Weight { ref_time: 0, proof_size: 0 }
}

/// Component-wise sum of two weights, each component clamped to `u64::MAX`.
pub open spec fn add_weights(a: Weight, b: Weight) -> Weight {
    Weight {
        ref_time: clamp_u64(a.ref_time as nat + b.ref_time as nat),
        proof_size: clamp_u64(a.proof_size as nat + b.proof_size as nat),
    }
}

/// The weights of `costs` added one after the other, in order, with
/// saturation at each step.
pub open spec fn total_weight(costs: Seq<Weight>) -> Weight
    decreases costs.len(),
{
    if costs.len() == 0 {
        zero_weight()
    } else {
        add_weights(total_weight(costs.drop_last()), costs.last())
    }
}

/// Exact sum of the reference times of `costs`.
pub open spec fn sum_ref_time(costs: Seq<Weight>) -> nat
    decreases costs.len(),
{
    if costs.len() == 0 {
        0
    } else {
        sum_ref_time(costs.drop_last()) + costs.last().ref_time as nat
    }
}

/// Exact sum of the proof sizes of `costs`.
pub open spec fn sum_proof_size(costs: Seq<Weight>) -> nat
    decreases costs.len(),
{
    if costs.len() == 0 {
        0
    } else {
        sum_proof_size(costs.drop_last()) + costs.last().proof_size as nat
    }
}

impl Weight {
    /// The weight of no work at all.
    pub fn zero() -> (r: Weight)
        ensures
            r == zero_weight(),
    {
        Weight { ref_time: 0, proof_size: 0 }
    }

    /// Builds a weight from its two components.
    pub fn from_parts(ref_time: u64, proof_size: u64) -> (r: Weight)
        ensures
            r.ref_time == ref_time,
            r.proof_size == proof_size,
    {
        Weight { ref_time, proof_size }
    }

    /// Component-wise addition, saturating at `u64::MAX` instead of
    /// overflowing.
    pub fn saturating_add(self, rhs: Weight) -> (r: Weight)
        ensures
            r == add_weights(self, rhs),
    {
        Weight {
            ref_time: self.ref_time.saturating_add(rhs.ref_time),
            proof_size: self.proof_size.saturating_add(rhs.proof_size),
        }
    }
}

impl Default for Weight {
    fn default() -> (r: Weight)
        ensures
            r == zero_weight(),
    {
        Weight::zero()
    }
}

/// The total of costs reported one after the other is, in each component, the
/// exact sum of the reported costs, clamped to `u64::MAX`.
pub proof fn lemma_total_weight_is_sum(costs: Seq<Weight>)
    ensures
        total_weight(costs).ref_time == clamp_u64(sum_ref_time(costs)),
        total_weight(costs).proof_size == clamp_u64(sum_proof_size(costs)),
    decreases costs.len(),
{
    if costs.len() > 0 {
        lemma_total_weight_is_sum(costs.drop_last());
    }
}

/// Adding the totals of two groups of costs gives the total of both groups
/// taken in sequence: composing groups of listeners composes their costs.
pub proof fn lemma_total_weight_append(first: Seq<Weight>, second: Seq<Weight>)
    ensures
        total_weight(first + second) == add_weights(total_weight(first), total_weight(second)),
{
    lemma_sum_append(first, second);
    lemma_total_weight_is_sum(first);
    lemma_total_weight_is_sum(second);
    lemma_total_weight_is_sum(first + second);
}

/// The exact sums of a concatenation are the sums of its parts.
proof fn lemma_sum_append(first: Seq<Weight>, second: Seq<Weight>)
    ensures
        sum_ref_time(first + second) == sum_ref_time(first) + sum_ref_time(second),
        sum_proof_size(first + second) == sum_proof_size(first) + sum_proof_size(second),
    decreases second.len(),
{
    if second.len() == 0 {
        assert(first + second =~= first);
    } else {
        lemma_sum_append(first, second.drop_last());
        assert((first + second).drop_last() =~= first + second.drop_last());
    }
}

} // verus!
