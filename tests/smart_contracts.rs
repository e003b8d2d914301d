use std::collections::HashSet;

use dapp_staking_primitives::contract::{SmartContract, SmartContractHandle};
use sp_core::H160;

#[test]
fn evm_and_wasm_constructors() {
    let address = H160::repeat_byte(7);
    let evm = <SmartContract<u64> as SmartContractHandle<u64>>::evm(address);
    assert_eq!(evm, SmartContract::Evm(address));
    let wasm = <SmartContract<u64> as SmartContractHandle<u64>>::wasm(5);
    assert_eq!(wasm, SmartContract::Wasm(5));
}

#[test]
fn default_is_evm_address_of_ones() {
    let contract = SmartContract::<u64>::default();
    assert_eq!(contract, SmartContract::Evm(H160::from([0x01; 20])));
}

#[test]
fn equality_is_structural_over_the_variant() {
    let evm = SmartContract::<u64>::Evm(H160::repeat_byte(3));
    let other_evm = SmartContract::<u64>::Evm(H160::repeat_byte(4));
    let wasm = SmartContract::<u64>::Wasm(3);
    assert_eq!(evm, SmartContract::Evm(H160::repeat_byte(3)));
    assert_ne!(evm, other_evm);
    assert_ne!(evm, wasm);
    assert_ne!(wasm, SmartContract::Wasm(4));
}

#[test]
fn contracts_serve_as_hash_keys() {
    let mut set = HashSet::new();
    set.insert(SmartContract::<u64>::Evm(H160::repeat_byte(1)));
    set.insert(SmartContract::<u64>::Wasm(1));
    set.insert(SmartContract::<u64>::default());
    assert_eq!(set.len(), 2);
}
