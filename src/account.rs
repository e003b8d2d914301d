//! Gating of the accounts that may take part in staking.

use vstd::prelude::*;

verus! {

/// Used to check whether an account is allowed to participate in dApp
/// staking or not.
pub trait AccountCheck<AccountId> {
    /// `true` if the account is allowed to stake, `false` otherwise.
    fn allowed_to_stake(account: &AccountId) -> bool;
}

/// The default policy: every account may stake.
impl<AccountId> AccountCheck<AccountId> for () {
    fn allowed_to_stake(account: &AccountId) -> (r: bool)
        ensures
            r,
    {
        true
    }
}

} // verus!
