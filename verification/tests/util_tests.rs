use blockifier::call_info::OrderedEvent;
use blockifier::encoding::encode_str_as_felts;
use blockifier::felt::{ContractAddress, EntryPointSelector, FIELD_PRIME_HIGH};
use blockifier::felt::FieldElement;
use blockifier::test_utils::{
    create_calldata, pad_address_to_64, TestEvent, trivial_external_entry_point_with_address, u64_from_usize, CairoVersion,
    SaltManager, Signers, TransactionVersion, INITIAL_GAS_FOR_TESTING,
};

#[test]
fn pad_address_pads_to_64_digits() {
    assert_eq!(pad_address_to_64("0x123"), format!("0x{:0>64}", "123"));
    assert_eq!(pad_address_to_64("ff"), format!("0x{:0>64}", "ff"));
    assert_eq!(pad_address_to_64("0x"), format!("0x{:0>64}", ""));
}

#[test]
fn pad_address_keeps_long_addresses() {
    let long: String = "a".repeat(64);
    let padded = pad_address_to_64(&long);
    assert_eq!(padded, format!("0x{}", long));
}

#[test]
fn encode_short_string_as_single_felt() {
    let felts = encode_str_as_felts("hello");
    assert_eq!(felts.len(), 1);
    // "hello" read big-endian, shifted below the leading zero byte of a
    // 32-byte word: 0x68656c6c6f followed by 26 zero bytes.
    assert_eq!(
        felts[0],
        FieldElement { lo: 0, hi: 0x68656c6c6f00000000000000000000 }
    );
}

#[test]
fn encode_empty_string_is_empty() {
    assert_eq!(encode_str_as_felts("").len(), 0);
}

#[test]
fn encode_long_string_splits_into_chunks() {
    // 31 bytes fill one element exactly; the 32nd starts a second one.
    let thirty_one: String = "a".repeat(31);
    assert_eq!(encode_str_as_felts(&thirty_one).len(), 1);
    let thirty_two: String = "a".repeat(32);
    let felts = encode_str_as_felts(&thirty_two);
    assert_eq!(felts.len(), 2);
    // The trailing chunk holds one byte 'a' at the top of the word.
    assert_eq!(
        felts[1],
        FieldElement { lo: 0, hi: 0x61000000000000000000000000000000 >> 8 }
    );
}

#[test]
fn cairo_version_other_cycles() {
    assert_eq!(CairoVersion::Cairo0.other(), CairoVersion::Cairo1);
    assert_eq!(CairoVersion::Cairo1.other(), CairoVersion::Cairo0);
    assert_eq!(CairoVersion::Native.other(), CairoVersion::Cairo1);
    assert_eq!(CairoVersion::default(), CairoVersion::Cairo0);
}

#[test]
fn declare_tx_version_picks_language_version() {
    let v0 = TransactionVersion(FieldElement::from_u128(0));
    let v1 = TransactionVersion(FieldElement::from_u128(1));
    let v2 = TransactionVersion(FieldElement::from_u128(2));
    let v3 = TransactionVersion(FieldElement::from_u128(3));
    assert_eq!(CairoVersion::from_declare_tx_version(v0), CairoVersion::Cairo0);
    assert_eq!(CairoVersion::from_declare_tx_version(v1), CairoVersion::Cairo0);
    assert_eq!(CairoVersion::from_declare_tx_version(v2), CairoVersion::Cairo1);
    assert_eq!(CairoVersion::from_declare_tx_version(v3), CairoVersion::Cairo1);
}

#[test]
fn signer_addresses_are_fixed() {
    assert_eq!(Signers::Alice.get_address().0, FieldElement::from_u128(1));
    assert_eq!(Signers::Bob.get_address().0, FieldElement::from_u128(2));
    assert_eq!(Signers::Charlie.get_address().0, FieldElement::from_u128(3));
}

#[test]
fn salt_manager_counts_up() {
    let mut salts = SaltManager::default();
    assert_eq!(salts.next_salt().0, FieldElement::from_u128(0));
    assert_eq!(salts.next_salt().0, FieldElement::from_u128(1));
    assert_eq!(salts.next_salt().0, FieldElement::from_u128(2));
}

#[test]
fn u64_from_usize_is_exact() {
    assert_eq!(u64_from_usize(0), 0);
    assert_eq!(u64_from_usize(123456), 123456);
}

#[test]
fn trivial_entry_point_uses_testing_gas() {
    let address = Signers::Alice.get_address();
    let call = trivial_external_entry_point_with_address(address);
    assert_eq!(call.storage_address, address);
    assert_eq!(call.code_address, Some(address));
    assert_eq!(call.initial_gas, INITIAL_GAS_FOR_TESTING);
    assert!(call.calldata.is_empty());
}

#[test]
fn create_calldata_layout() {
    let addr = ContractAddress(FieldElement::from_u128(0x5555));
    let selector = EntryPointSelector(FieldElement::from_u128(0x1234));
    let args = vec![FieldElement::from_u128(9), FieldElement::from_u128(8)];
    assert_eq!(
        create_calldata(addr, selector, &args),
        vec![
            FieldElement::from_u128(0x5555),
            FieldElement::from_u128(0x1234),
            FieldElement::from_u128(2),
            FieldElement::from_u128(9),
            FieldElement::from_u128(8),
        ]
    );
}

#[test]
fn test_event_keeps_keys_and_data() {
    let event = OrderedEvent {
        order: 3,
        keys: vec![FieldElement::from_u128(1)],
        data: vec![FieldElement::from_u128(2), FieldElement::from_u128(3)],
    };
    let test_event = TestEvent::from_ordered_event(event);
    assert_eq!(test_event.keys, vec![FieldElement::from_u128(1)]);
    assert_eq!(
        test_event.data,
        vec![FieldElement::from_u128(2), FieldElement::from_u128(3)]
    );
}

#[test]
fn field_element_increments_and_wraps() {
    let zero = FieldElement::zero();
    assert_eq!(zero.increment(), FieldElement::from_u128(1));
    let carry = FieldElement { lo: u128::MAX, hi: 0 };
    assert_eq!(carry.increment(), FieldElement { lo: 0, hi: 1 });
    assert_eq!(carry.increment().decrement(), carry);
    // The largest field element steps to zero.
    let max = FieldElement { lo: 0, hi: FIELD_PRIME_HIGH };
    assert_eq!(max.increment(), zero);
    assert_eq!(FieldElement::from_u128(1).decrement(), zero);
}
