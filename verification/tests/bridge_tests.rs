use blockifier::bridge::{
    convert_block_info, convert_execution_info, convert_from_secp_256_k1_point,
    convert_from_secp_256_r1_point, convert_from_u256, convert_resource_bounds,
    convert_secp_256_k1_point, convert_secp_256_r1_point, convert_tx_info, convert_tx_v2_info,
    convert_u256, BlockInfo, EmuSecp256k1Point, EmuSecp256r1Point, EmuU256, ExecutionInfo,
    ResourceBounds, Secp256k1Point, Secp256r1Point, TxInfo, TxV2Info, U256,
};
use blockifier::felt::FieldElement;
use blockifier::utils::{
    calculate_resource_bounds, default_tx_v2_info, CurrentTransactionInfo,
    ResourceBoundsAmounts, AllResourceBounds, ValidResourceBounds, L1_DATA_RESOURCE,
    L1_GAS_RESOURCE, L2_GAS_RESOURCE,
};

fn felt(v: u128) -> FieldElement {
    FieldElement::from_u128(v)
}

#[test]
fn u256_round_trips_bit_for_bit() {
    let x = U256 { lo: 0xdead_beef, hi: u128::MAX - 3 };
    assert_eq!(convert_from_u256(convert_u256(x)), x);
    let e = EmuU256 { lo: 17, hi: 0x8000_0000_0000_0000 };
    assert_eq!(convert_u256(convert_from_u256(e)), e);
}

#[test]
fn secp256k1_point_round_trips_except_infinity_flag() {
    let finite = Secp256k1Point {
        x: U256 { lo: 1, hi: 2 },
        y: U256 { lo: 3, hi: 4 },
        is_infinity: false,
    };
    assert_eq!(
        convert_from_secp_256_k1_point(convert_secp_256_k1_point(finite)),
        finite
    );

    let infinity = Secp256k1Point { is_infinity: true, ..finite };
    let back = convert_from_secp_256_k1_point(convert_secp_256_k1_point(infinity));
    // The emulator shape cannot carry the flag: coordinates survive, the
    // flag comes back as false.
    assert_eq!(back.x, infinity.x);
    assert_eq!(back.y, infinity.y);
    assert!(!back.is_infinity);

    let e = EmuSecp256k1Point {
        x: EmuU256 { lo: 9, hi: 8 },
        y: EmuU256 { lo: 7, hi: 6 },
    };
    assert_eq!(convert_secp_256_k1_point(convert_from_secp_256_k1_point(e)), e);
}

#[test]
fn secp256r1_point_round_trips_except_infinity_flag() {
    let finite = Secp256r1Point {
        x: U256 { lo: 11, hi: 12 },
        y: U256 { lo: 13, hi: 14 },
        is_infinity: false,
    };
    assert_eq!(
        convert_from_secp_256_r1_point(convert_secp_256_r1_point(finite)),
        finite
    );
    let e = EmuSecp256r1Point {
        x: EmuU256 { lo: 1, hi: 0 },
        y: EmuU256 { lo: 0, hi: 1 },
    };
    assert_eq!(convert_secp_256_r1_point(convert_from_secp_256_r1_point(e)), e);
}

#[test]
fn execution_info_converts_field_by_field() {
    let info = ExecutionInfo {
        block_info: BlockInfo {
            block_number: 2001,
            block_timestamp: 1072023,
            sequencer_address: felt(0x1000),
        },
        tx_info: TxInfo {
            version: felt(1),
            account_contract_address: felt(0xabc),
            max_fee: 55555,
            signature: vec![felt(9), felt(8)],
            transaction_hash: felt(0x777),
            chain_id: felt(0x534e),
            nonce: felt(4),
        },
        caller_address: felt(0x11),
        contract_address: felt(0x22),
        entry_point_selector: felt(0x33),
    };
    let emu = convert_execution_info(info);
    assert_eq!(emu.block_info.block_number, 2001);
    assert_eq!(emu.block_info.block_timestamp, 1072023);
    assert_eq!(emu.block_info.sequencer_address, felt(0x1000));
    assert_eq!(emu.tx_info.version, felt(1));
    assert_eq!(emu.tx_info.signature, vec![felt(9), felt(8)]);
    assert_eq!(emu.tx_info.max_fee, 55555);
    assert_eq!(emu.caller_address, felt(0x11));
    assert_eq!(emu.contract_address, felt(0x22));
    assert_eq!(emu.entry_point_selector, felt(0x33));
}

#[test]
fn tx_v2_info_converts_resource_bounds_in_order() {
    let mut info = default_tx_v2_info();
    info.resource_bounds = vec![
        ResourceBounds { resource: felt(L1_GAS_RESOURCE), max_amount: 5, max_price_per_unit: 6 },
        ResourceBounds { resource: felt(L2_GAS_RESOURCE), max_amount: 7, max_price_per_unit: 8 },
    ];
    info.tip = 99;
    let emu = convert_tx_v2_info(info);
    assert_eq!(emu.resource_bounds.len(), 2);
    assert_eq!(emu.resource_bounds[0].resource, felt(L1_GAS_RESOURCE));
    assert_eq!(emu.resource_bounds[0].max_amount, 5);
    assert_eq!(emu.resource_bounds[1].resource, felt(L2_GAS_RESOURCE));
    assert_eq!(emu.resource_bounds[1].max_price_per_unit, 8);
    assert_eq!(emu.tip, 99);
}

#[test]
fn block_info_and_resource_bounds_convert_exactly() {
    let bi = BlockInfo { block_number: 7, block_timestamp: 8, sequencer_address: felt(9) };
    let emu = convert_block_info(bi);
    assert_eq!(emu.block_number, 7);
    assert_eq!(emu.block_timestamp, 8);
    assert_eq!(emu.sequencer_address, felt(9));

    let rb = ResourceBounds { resource: felt(1), max_amount: 2, max_price_per_unit: 3 };
    let emu_rb = convert_resource_bounds(rb);
    assert_eq!(emu_rb.resource, felt(1));
    assert_eq!(emu_rb.max_amount, 2);
    assert_eq!(emu_rb.max_price_per_unit, 3);
}

#[test]
fn tx_info_conversion_keeps_signature() {
    let tx = TxInfo {
        version: felt(3),
        account_contract_address: felt(5),
        max_fee: 0,
        signature: vec![felt(1), felt(2), felt(3)],
        transaction_hash: felt(6),
        chain_id: felt(7),
        nonce: felt(8),
    };
    let emu = convert_tx_info(tx);
    assert_eq!(emu.signature, vec![felt(1), felt(2), felt(3)]);
    assert_eq!(emu.nonce, felt(8));
}

#[test]
fn l1_gas_only_bounds_expose_zero_l2_entry() {
    let tx_info = CurrentTransactionInfo {
        resource_bounds: ValidResourceBounds::L1Gas(ResourceBoundsAmounts {
            max_amount: 1000000,
            max_price_per_unit: 100000000000,
        }),
    };
    let bounds = calculate_resource_bounds(&tx_info).unwrap();
    assert_eq!(bounds.len(), 2);
    assert_eq!(bounds[0].resource, felt(L1_GAS_RESOURCE));
    assert_eq!(bounds[0].max_amount, 1000000);
    assert_eq!(bounds[0].max_price_per_unit, 100000000000);
    assert_eq!(bounds[1].resource, felt(L2_GAS_RESOURCE));
    assert_eq!(bounds[1].max_amount, 0);
    assert_eq!(bounds[1].max_price_per_unit, 0);
}

#[test]
fn all_resources_bounds_expose_three_entries() {
    let tx_info = CurrentTransactionInfo {
        resource_bounds: ValidResourceBounds::AllResources(AllResourceBounds {
            l1_gas: ResourceBoundsAmounts { max_amount: 1, max_price_per_unit: 2 },
            l2_gas: ResourceBoundsAmounts { max_amount: 3, max_price_per_unit: 4 },
            l1_data_gas: ResourceBoundsAmounts { max_amount: 5, max_price_per_unit: 6 },
        }),
    };
    let bounds = calculate_resource_bounds(&tx_info).unwrap();
    assert_eq!(bounds.len(), 3);
    assert_eq!(bounds[0].resource, felt(L1_GAS_RESOURCE));
    assert_eq!(bounds[1].resource, felt(L2_GAS_RESOURCE));
    assert_eq!(bounds[1].max_amount, 3);
    assert_eq!(bounds[2].resource, felt(L1_DATA_RESOURCE));
    assert_eq!(bounds[2].max_price_per_unit, 6);
}

#[test]
fn default_tx_v2_info_is_all_zero()
{
    let info: TxV2Info = default_tx_v2_info();
    assert_eq!(info.version, FieldElement::zero());
    assert_eq!(info.max_fee, 0);
    assert!(info.signature.is_empty());
    assert!(info.resource_bounds.is_empty());
    assert_eq!(info.tip, 0);
    assert!(info.paymaster_data.is_empty());
    assert_eq!(info.nonce_data_availability_mode, 0);
    assert_eq!(info.fee_data_availability_mode, 0);
    assert!(info.account_deployment_data.is_empty());
}
