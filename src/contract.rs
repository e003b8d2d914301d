//! Identity of a smart contract, on either of the two supported virtual
//! machines.

use vstd::prelude::*;

use sp_core::H160;

verus! {

/// A 20-byte EVM address, carried through unchanged.
#[verifier::external_type_specification]
#[verifier::external_body]
pub struct ExH160(sp_core::H160);

/// Relies on `H160::repeat_byte` of fixed-hash, which builds the address whose
/// 20 bytes all equal `byte`; it cannot fail.
pub assume_specification[ sp_core::H160::repeat_byte ](byte: u8) -> sp_core::H160;

/// Relies on the `Clone` impl that fixed-hash writes for `H160`, which copies
/// the 20 bytes into a new address.
pub assume_specification[ <sp_core::H160 as core::clone::Clone>::clone ](address: &sp_core::H160) -> (r: sp_core::H160)
    ensures
        r == *address,
;

/// Creates the representation of a smart contract instance of a given type.
pub trait SmartContractHandle<AccountId>: Sized {
    /// Create a new smart contract representation for the specified EVM address.
    fn evm(address: H160) -> Self;

    /// Create a new smart contract representation for the specified Wasm address.
    fn wasm(address: AccountId) -> Self;
}

/// Multi-VM pointer to a smart contract instance.
#[derive(PartialEq, Eq, Copy, Clone, Debug, Hash)]
pub enum SmartContract<AccountId> {
    /// EVM smart contract instance.
    Evm(H160),
    /// Wasm smart contract instance.
    Wasm(AccountId),
}

/// The EVM contract at the address whose bytes are all `0x01`.
impl<AccountId> Default for SmartContract<AccountId> {
    fn default() -> (r: Self)
        ensures
            r is Evm,
    {
        SmartContract::Evm(H160::repeat_byte(0x01))
    }
}

impl<AccountId> SmartContractHandle<AccountId> for SmartContract<AccountId> {
    fn evm(address: H160) -> (r: Self)
        ensures
            r == SmartContract::<AccountId>::Evm(address),
    {
        SmartContract::Evm(address)
    }

    fn wasm(address: AccountId) -> (r: Self)
        ensures
            r == SmartContract::<AccountId>::Wasm(address),
    {
        SmartContract::Wasm(address)
    }
}

} // verus!
