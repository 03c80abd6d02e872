use blockifier::context::{
    initial_sierra_gas, ChainInfo, FeeTokenAddresses, FeeType, TransactionInfo,
};
use blockifier::felt::{ClassHash, ContractAddress, FieldElement};
use blockifier::test_utils::{calldata_for_deploy_test, NonceManager, Signers};
use blockifier::utils::{
    AllResourceBounds, CurrentTransactionInfo, ResourceBoundsAmounts, ValidResourceBounds,
};

fn felt(v: u128) -> FieldElement {
    FieldElement::from_u128(v)
}

#[test]
fn fee_token_address_follows_fee_type() {
    let addresses = FeeTokenAddresses {
        strk_fee_token_address: ContractAddress(felt(0x1001)),
        eth_fee_token_address: ContractAddress(felt(0x1002)),
    };
    assert_eq!(
        addresses.get_by_fee_type(&FeeType::Strk),
        ContractAddress(felt(0x1001))
    );
    assert_eq!(
        addresses.get_by_fee_type(&FeeType::Eth),
        ContractAddress(felt(0x1002))
    );
    let chain = ChainInfo { chain_id: felt(0x534e), fee_token_addresses: addresses };
    assert_eq!(chain.fee_token_address(&FeeType::Eth), ContractAddress(felt(0x1002)));
}

#[test]
fn initial_gas_policy_depends_on_bounds_shape() {
    let default_gas = 10_000_000_000;
    assert_eq!(
        initial_sierra_gas(&TransactionInfo::Deprecated, default_gas),
        default_gas
    );
    let l1_only = TransactionInfo::Current(CurrentTransactionInfo {
        resource_bounds: ValidResourceBounds::L1Gas(ResourceBoundsAmounts {
            max_amount: 77,
            max_price_per_unit: 1,
        }),
    });
    assert_eq!(initial_sierra_gas(&l1_only, default_gas), default_gas);
    let all = TransactionInfo::Current(CurrentTransactionInfo {
        resource_bounds: ValidResourceBounds::AllResources(AllResourceBounds {
            l1_gas: ResourceBoundsAmounts { max_amount: 1, max_price_per_unit: 2 },
            l2_gas: ResourceBoundsAmounts { max_amount: 123456, max_price_per_unit: 4 },
            l1_data_gas: ResourceBoundsAmounts { max_amount: 5, max_price_per_unit: 6 },
        }),
    });
    assert_eq!(initial_sierra_gas(&all, default_gas), 123456);
}

#[test]
fn nonce_manager_counts_per_account() {
    let mut nonces = NonceManager::default();
    let alice = Signers::Alice.get_address();
    let bob = Signers::Bob.get_address();
    assert_eq!(nonces.next(alice).0, felt(0));
    assert_eq!(nonces.next(alice).0, felt(1));
    assert_eq!(nonces.next(bob).0, felt(0));
    assert_eq!(nonces.next(alice).0, felt(2));
    assert_eq!(nonces.next(bob).0, felt(1));
}

#[test]
fn nonce_rollback_stops_at_zero() {
    let mut nonces = NonceManager::default();
    let alice = Signers::Alice.get_address();
    let bob = Signers::Bob.get_address();
    // Rolling back an untouched account changes nothing.
    nonces.rollback(bob);
    assert_eq!(nonces.next(bob).0, felt(0));
    let _ = nonces.next(alice);
    let _ = nonces.next(alice);
    nonces.rollback(alice);
    assert_eq!(nonces.next(alice).0, felt(1));
    nonces.rollback(alice);
    nonces.rollback(alice);
    nonces.rollback(alice);
    // The counter never goes below zero.
    assert_eq!(nonces.next(alice).0, felt(0));
}

#[test]
fn deploy_test_calldata_layout() {
    let class_hash = ClassHash(felt(0x777));
    let ctor = vec![felt(10), felt(20)];
    let calldata = calldata_for_deploy_test(class_hash, &ctor, true);
    assert_eq!(
        calldata,
        vec![felt(0x777), felt(0), felt(2), felt(10), felt(20), felt(0)]
    );
    let invalid = calldata_for_deploy_test(class_hash, &ctor, false);
    assert_eq!(invalid[5], felt(2));
}
