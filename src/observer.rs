//! Listeners of era transitions.

use vstd::prelude::*;

use crate::weight::{add_weights, zero_weight, Weight};
use crate::EraNumber;

verus! {

/// Observer (listener) of events of the dApp staking protocol.
pub trait Observer {
    /// Called in the block right before the next era starts.
    ///
    /// Returns the weight consumed by the call.
    ///
    /// # Arguments
    /// * `next_era` - Era number of the next era.
    fn block_before_new_era(next_era: EraNumber) -> Weight {
        Weight::zero()
    }
}

/// The absent listener: does nothing and consumes nothing.
impl Observer for () {
    fn block_before_new_era(next_era: EraNumber) -> (r: Weight)
        ensures
            r == zero_weight(),
    {
        Weight::zero()
    }
}

/// Two listeners composed in a fixed order: `A` is notified first, then `B`,
/// and their costs are added with saturation. Longer chains nest pairs.
impl<A: Observer, B: Observer> Observer for (A, B) {
    fn block_before_new_era(next_era: EraNumber) -> (r: Weight)
        ensures
            exists|first: Weight, second: Weight|
                {
                    &&& call_ensures(A::block_before_new_era, (next_era,), first)
                    &&& call_ensures(B::block_before_new_era, (next_era,), second)
                    &&& r == add_weights(first, second)
                },
    {
        let notify_first = A::block_before_new_era;
        let notify_second = B::block_before_new_era;
        let first = notify_first(next_era);
        let second = notify_second(next_era);
        first.saturating_add(second)
    }
}

} // verus!
