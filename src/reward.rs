//! Reward pools for stakers and dApps, and the payout of rewards.

use vstd::prelude::*;

use crate::Balance;

verus! {

/// Interface for the staking reward handler.
///
/// Provides the reward pool values for stakers (normal and bonus rewards) and
/// for dApps, and a safe function for paying out rewards.
///
/// The pools are pure functions of their arguments: an implementation names
/// them with spec functions and proves that the staker and dApp pools never
/// shrink when more value is staked.
pub trait StakingRewardHandler<AccountId> {
    /// The pools returned by `staker_and_dapp_reward_pools` for a total value
    /// staked: the staker reward pool, then the dApp reward pool.
    spec fn spec_staker_and_dapp_reward_pools(total_value_staked: Balance) -> (Balance, Balance);

    /// The pool returned by `bonus_reward_pool`.
    spec fn spec_bonus_reward_pool() -> Balance;

    /// More value staked never gives a smaller staker pool or dApp pool.
    proof fn lemma_reward_pools_monotonic(smaller: Balance, larger: Balance)
        requires
            smaller <= larger,
        ensures
            Self::spec_staker_and_dapp_reward_pools(smaller).0
                <= Self::spec_staker_and_dapp_reward_pools(larger).0,
            Self::spec_staker_and_dapp_reward_pools(smaller).1
                <= Self::spec_staker_and_dapp_reward_pools(larger).1,
    ;

    /// Returns the staker reward pool and the dApp reward pool for an era.
    ///
    /// The total staker reward pool is dynamic and depends on the total value
    /// staked.
    fn staker_and_dapp_reward_pools(total_value_staked: Balance) -> (r: (Balance, Balance))
        ensures
            r == Self::spec_staker_and_dapp_reward_pools(total_value_staked),
    ;

    /// Returns the bonus reward pool for a period.
    fn bonus_reward_pool() -> (r: Balance)
        ensures
            r == Self::spec_bonus_reward_pool(),
    ;

    /// Attempts to pay out the rewards to the beneficiary: either the whole
    /// reward is credited, or nothing is and `Err(())` is returned.
    fn payout_reward(beneficiary: &AccountId, reward: Balance) -> Result<(), ()>;
}

/// Computing the reward pools twice from the same input gives the same pools:
/// each result is fixed by its input alone.
pub proof fn lemma_reward_pools_deterministic<AccountId, H: StakingRewardHandler<AccountId>>(
    total_value_staked: Balance,
    first: (Balance, Balance),
    second: (Balance, Balance),
    first_bonus: Balance,
    second_bonus: Balance,
)
    requires
        first == H::spec_staker_and_dapp_reward_pools(total_value_staked),
        second == H::spec_staker_and_dapp_reward_pools(total_value_staked),
        first_bonus == H::spec_bonus_reward_pool(),
        second_bonus == H::spec_bonus_reward_pool(),
    ensures
        first == second,
        first_bonus == second_bonus,
{
}

} // verus!
