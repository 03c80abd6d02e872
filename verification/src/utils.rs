//! Helpers around the backend-facing transaction records: the resource
//! bounds list a transaction exposes to contract code, and the default
//! second-revision transaction record.
use vstd::prelude::*;

use crate::bridge::{ResourceBounds, TxV2Info};
use crate::felt::FieldElement;

verus! {

/// The resource-name field element for the L1 gas resource: the bytes of
/// the name `L1_GAS`, read big-endian.
pub const L1_GAS_RESOURCE: u128 = 0x4c315f474153;

/// The resource-name field element for the L2 gas resource: the bytes of
/// the name `L2_GAS`, read big-endian.
pub const L2_GAS_RESOURCE: u128 = 0x4c325f474153;

/// The resource-name field element for the L1 data-gas resource: the bytes
/// of the name `L1_DATA`, read big-endian.
pub const L1_DATA_RESOURCE: u128 = 0x4c315f44415441;

/// The maximum amount and unit price a transaction committed to for one
/// resource.
#[derive(Clone, Copy, Debug, PartialEq, Eq, Structural)]
pub struct ResourceBoundsAmounts {
    pub max_amount: u64,
    pub max_price_per_unit: u128,
}

/// Bounds for every resource kind of a transaction.
#[derive(Clone, Copy, Debug, PartialEq, Eq, Structural)]
pub struct AllResourceBounds {
    pub l1_gas: ResourceBoundsAmounts,
    pub l2_gas: ResourceBoundsAmounts,
    pub l1_data_gas: ResourceBoundsAmounts,
}

/// The resource bounds a transaction was accepted with: either L1 gas
/// alone, or bounds for all resource kinds.
#[derive(Clone, Copy, Debug, PartialEq, Eq, Structural)]
pub enum ValidResourceBounds {
    L1Gas(ResourceBoundsAmounts),
    AllResources(AllResourceBounds),
}

/// The slice of the current-format transaction record that this core
/// reads.
#[derive(Clone, Copy, Debug, PartialEq, Eq, Structural)]
pub struct CurrentTransactionInfo {
    pub resource_bounds: ValidResourceBounds,
}

/// The resource-bounds list exposed to contract code, in the backend's
/// shape.  L1-gas-only transactions expose an explicit zero entry for L2
/// gas; all-resources transactions expose all three entries, in the fixed
/// resource order.
pub open spec fn resource_bounds_list(bounds: ValidResourceBounds) -> Seq<ResourceBounds> {
    match bounds {
        ValidResourceBounds::L1Gas(l1) => seq![
            ResourceBounds {
                resource: FieldElement { lo: L1_GAS_RESOURCE, hi: 0 },
                max_amount: l1.max_amount,
                max_price_per_unit: l1.max_price_per_unit,
            },
            ResourceBounds {
                resource: FieldElement { lo: L2_GAS_RESOURCE, hi: 0 },
                max_amount: 0,
                max_price_per_unit: 0,
            },
        ],
        ValidResourceBounds::AllResources(all) => seq![
            ResourceBounds {
                resource: FieldElement { lo: L1_GAS_RESOURCE, hi: 0 },
                max_amount: all.l1_gas.max_amount,
                max_price_per_unit: all.l1_gas.max_price_per_unit,
            },
            ResourceBounds {
                resource: FieldElement { lo: L2_GAS_RESOURCE, hi: 0 },
                max_amount: all.l2_gas.max_amount,
                max_price_per_unit: all.l2_gas.max_price_per_unit,
            },
            ResourceBounds {
                resource: FieldElement { lo: L1_DATA_RESOURCE, hi: 0 },
                max_amount: all.l1_data_gas.max_amount,
                max_price_per_unit: all.l1_data_gas.max_price_per_unit,
            },
        ],
    }
}

/// The outcome of a syscall: a value, or the error encoded as field
/// elements for the calling contract.
pub type SyscallResult<T> = Result<T, Vec<FieldElement>>;

/// Builds the resource-bounds list that the get-execution-info syscall
/// exposes to contract code; this never fails.
pub fn calculate_resource_bounds(tx_info: &CurrentTransactionInfo) -> (r: SyscallResult<
    Vec<ResourceBounds>,
>)
    ensures
        r matches Ok(v) && v@ == resource_bounds_list(tx_info.resource_bounds),
{
    let mut out: Vec<ResourceBounds> = Vec::new();
    match &tx_info.resource_bounds {
        ValidResourceBounds::L1Gas(l1_bounds) => {
            out.push(
                ResourceBounds {
                    resource: FieldElement { lo: L1_GAS_RESOURCE, hi: 0 },
                    max_amount: l1_bounds.max_amount,
                    max_price_per_unit: l1_bounds.max_price_per_unit,
                },
            );
            out.push(
                ResourceBounds {
                    resource: FieldElement { lo: L2_GAS_RESOURCE, hi: 0 },
                    max_amount: 0,
                    max_price_per_unit: 0,
                },
            );
            proof {
                assert(out@ =~= resource_bounds_list(tx_info.resource_bounds));
            }
        },
        ValidResourceBounds::AllResources(all_bounds) => {
            out.push(
                ResourceBounds {
                    resource: FieldElement { lo: L1_GAS_RESOURCE, hi: 0 },
                    max_amount: all_bounds.l1_gas.max_amount,
                    max_price_per_unit: all_bounds.l1_gas.max_price_per_unit,
                },
            );
            out.push(
                ResourceBounds {
                    resource: FieldElement { lo: L2_GAS_RESOURCE, hi: 0 },
                    max_amount: all_bounds.l2_gas.max_amount,
                    max_price_per_unit: all_bounds.l2_gas.max_price_per_unit,
                },
            );
            out.push(
                ResourceBounds {
                    resource: FieldElement { lo: L1_DATA_RESOURCE, hi: 0 },
                    max_amount: all_bounds.l1_data_gas.max_amount,
                    max_price_per_unit: all_bounds.l1_data_gas.max_price_per_unit,
                },
            );
            proof {
                assert(out@ =~= resource_bounds_list(tx_info.resource_bounds));
            }
        },
    }
    Ok(out)
}

/// The default second-revision transaction record: zero scalars, empty
/// lists.
pub fn default_tx_v2_info() -> (r: TxV2Info)
    ensures
        r.version.value() == 0,
        r.account_contract_address.value() == 0,
        r.max_fee == 0,
        r.signature@ == Seq::<FieldElement>::empty(),
        r.transaction_hash.value() == 0,
        r.chain_id.value() == 0,
        r.nonce.value() == 0,
        r.resource_bounds@ == Seq::<ResourceBounds>::empty(),
        r.tip == 0,
        r.paymaster_data@ == Seq::<FieldElement>::empty(),
        r.nonce_data_availability_mode == 0,
        r.fee_data_availability_mode == 0,
        r.account_deployment_data@ == Seq::<FieldElement>::empty(),
{
    TxV2Info {
        version: FieldElement::zero(),
        account_contract_address: FieldElement::zero(),
        max_fee: 0,
        signature: Vec::new(),
        transaction_hash: FieldElement::zero(),
        chain_id: FieldElement::zero(),
        nonce: FieldElement::zero(),
        resource_bounds: Vec::new(),
        tip: 0,
        paymaster_data: Vec::new(),
        nonce_data_availability_mode: 0,
        fee_data_availability_mode: 0,
        account_deployment_data: Vec::new(),
    }
}

} // verus!
