use blockifier::contract_class::{EntryPointV1, EntryPointsByType, NativeContractClassV1};
use blockifier::felt::{EntryPointSelector, FieldElement};

// Two artifacts whose external entry points carry different selectors, as
// two contracts with differently named entry points would.
fn native_class(selector_value: u128) -> NativeContractClassV1 {
    NativeContractClassV1 {
        entry_points_by_type: EntryPointsByType {
            constructor: vec![],
            external: vec![EntryPointV1 {
                selector: EntryPointSelector(FieldElement::from_u128(selector_value)),
                function_id: 0,
            }],
            l1_handler: vec![],
        },
    }
}

#[test]
fn test_partial_eq() {
    let contract_a = native_class(0x0a11ce);
    let contract_b = native_class(0xb0b);
    assert_eq!(contract_b, contract_b);
    assert_eq!(contract_a, contract_a);
    assert_ne!(
        contract_a, contract_b,
        "Contracts should be considered different because they have different entry points. \
         Specifically, the selectors are different due to having different names."
    );
}
