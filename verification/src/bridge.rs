//! Syscall capability bridge: each execution backend speaks its own shapes
//! for 256-bit integers, curve points, execution-info records and resource
//! bounds.  The canonical syscall implementation is written once against the
//! canonical shapes; the functions here translate values between the
//! canonical and the emulator-side representations.  They are purely
//! representational — no gas deduction, no validation — and lossless except
//! for the canonical point-at-infinity flag, which the emulator shape does
//! not carry and which is defaulted to `false` on the way back.
use vstd::prelude::*;

use crate::felt::FieldElement;

verus! {

/// A 256-bit integer in the canonical shape: low and high 128-bit halves.
#[derive(Clone, Copy, Debug, PartialEq, Eq, Hash, Structural)]
pub struct U256 {
    pub lo: u128,
    pub hi: u128,
}

/// A 256-bit integer in the emulator's shape.
#[derive(Clone, Copy, Debug, PartialEq, Eq, Hash, Structural)]
pub struct EmuU256 {
    pub lo: u128,
    pub hi: u128,
}

/// A secp256k1 point in the canonical shape, which tracks the point at
/// infinity explicitly.
#[derive(Clone, Copy, Debug, PartialEq, Eq, Hash, Structural)]
pub struct Secp256k1Point {
    pub x: U256,
    pub y: U256,
    pub is_infinity: bool,
}

/// A secp256k1 point in the emulator's shape, which has no infinity flag.
#[derive(Clone, Copy, Debug, PartialEq, Eq, Hash, Structural)]
pub struct EmuSecp256k1Point {
    pub x: EmuU256,
    pub y: EmuU256,
}

/// A secp256r1 point in the canonical shape.
#[derive(Clone, Copy, Debug, PartialEq, Eq, Hash, Structural)]
pub struct Secp256r1Point {
    pub x: U256,
    pub y: U256,
    pub is_infinity: bool,
}

/// A secp256r1 point in the emulator's shape.
#[derive(Clone, Copy, Debug, PartialEq, Eq, Hash, Structural)]
pub struct EmuSecp256r1Point {
    pub x: EmuU256,
    pub y: EmuU256,
}

pub open spec fn u256_to_emu(x: U256) -> EmuU256 {
    EmuU256 { lo: x.lo, hi: x.hi }
}

pub open spec fn u256_from_emu(x: EmuU256) -> U256 {
    U256 { lo: x.lo, hi: x.hi }
}

pub open spec fn k1_to_emu(p: Secp256k1Point) -> EmuSecp256k1Point {
    EmuSecp256k1Point { x: u256_to_emu(p.x), y: u256_to_emu(p.y) }
}

pub open spec fn k1_from_emu(p: EmuSecp256k1Point) -> Secp256k1Point {
    Secp256k1Point { x: u256_from_emu(p.x), y: u256_from_emu(p.y), is_infinity: false }
}

pub open spec fn r1_to_emu(p: Secp256r1Point) -> EmuSecp256r1Point {
    EmuSecp256r1Point { x: u256_to_emu(p.x), y: u256_to_emu(p.y) }
}

pub open spec fn r1_from_emu(p: EmuSecp256r1Point) -> Secp256r1Point {
    Secp256r1Point { x: u256_from_emu(p.x), y: u256_from_emu(p.y), is_infinity: false }
}

/// Canonical to emulator shape of a 256-bit integer.
pub fn convert_u256(x: U256) -> (r: EmuU256)
    ensures
        r == u256_to_emu(x),
{
    EmuU256 { lo: x.lo, hi: x.hi }
}

/// Emulator to canonical shape of a 256-bit integer.
pub fn convert_from_u256(x: EmuU256) -> (r: U256)
    ensures
        r == u256_from_emu(x),
{
    U256 { lo: x.lo, hi: x.hi }
}

/// Canonical to emulator shape of a secp256k1 point; the infinity flag is
/// not representable on the emulator side and is dropped.
pub fn convert_secp_256_k1_point(x: Secp256k1Point) -> (r: EmuSecp256k1Point)
    ensures
        r == k1_to_emu(x),
{
    EmuSecp256k1Point { x: convert_u256(x.x), y: convert_u256(x.y) }
}

/// Emulator to canonical shape of a secp256k1 point; the canonical infinity
/// flag defaults to `false`, since the emulator shape does not track it.
pub fn convert_from_secp_256_k1_point(x: EmuSecp256k1Point) -> (r: Secp256k1Point)
    ensures
        r == k1_from_emu(x),
{
    Secp256k1Point { x: convert_from_u256(x.x), y: convert_from_u256(x.y), is_infinity: false }
}

/// Canonical to emulator shape of a secp256r1 point.
pub fn convert_secp_256_r1_point(x: Secp256r1Point) -> (r: EmuSecp256r1Point)
    ensures
        r == r1_to_emu(x),
{
    EmuSecp256r1Point { x: convert_u256(x.x), y: convert_u256(x.y) }
}

/// Emulator to canonical shape of a secp256r1 point, infinity defaulted to
/// `false`.
pub fn convert_from_secp_256_r1_point(x: EmuSecp256r1Point) -> (r: Secp256r1Point)
    ensures
        r == r1_from_emu(x),
{
    Secp256r1Point { x: convert_from_u256(x.x), y: convert_from_u256(x.y), is_infinity: false }
}

/// A 256-bit integer survives the trip to the emulator shape and back, and
/// the trip from the emulator shape and back, bit for bit.
pub proof fn lemma_u256_round_trip(x: U256, e: EmuU256)
    ensures
        u256_from_emu(u256_to_emu(x)) == x,
        u256_to_emu(u256_from_emu(e)) == e,
{
}

/// A secp256k1 point in the emulator shape survives the trip to the
/// canonical shape and back bit for bit.  In the other direction the
/// coordinates survive, while the infinity flag comes back as `false`: it
/// is unrepresentable on the emulator side.
pub proof fn lemma_secp256k1_round_trip(p: Secp256k1Point, e: EmuSecp256k1Point)
    ensures
        k1_to_emu(k1_from_emu(e)) == e,
        k1_from_emu(k1_to_emu(p)) == (Secp256k1Point { x: p.x, y: p.y, is_infinity: false }),
        !p.is_infinity ==> k1_from_emu(k1_to_emu(p)) == p,
{
}

/// The secp256r1 counterpart of the point round trip.
pub proof fn lemma_secp256r1_round_trip(p: Secp256r1Point, e: EmuSecp256r1Point)
    ensures
        r1_to_emu(r1_from_emu(e)) == e,
        r1_from_emu(r1_to_emu(p)) == (Secp256r1Point { x: p.x, y: p.y, is_infinity: false }),
        !p.is_infinity ==> r1_from_emu(r1_to_emu(p)) == p,
{
}

/// Block-level context in the canonical shape.
#[derive(Clone, Copy, Debug, PartialEq, Eq, Structural)]
pub struct BlockInfo {
    pub block_number: u64,
    pub block_timestamp: u64,
    pub sequencer_address: FieldElement,
}

/// Block-level context in the emulator's shape.
#[derive(Clone, Copy, Debug, PartialEq, Eq, Structural)]
pub struct EmuBlockInfo {
    pub block_number: u64,
    pub block_timestamp: u64,
    pub sequencer_address: FieldElement,
}

/// Transaction-level context, first revision, canonical shape.
#[derive(Clone, Debug, PartialEq, Eq)]
pub struct TxInfo {
    pub version: FieldElement,
    pub account_contract_address: FieldElement,
    pub max_fee: u128,
    pub signature: Vec<FieldElement>,
    pub transaction_hash: FieldElement,
    pub chain_id: FieldElement,
    pub nonce: FieldElement,
}

/// Transaction-level context, first revision, emulator shape.
#[derive(Clone, Debug, PartialEq, Eq)]
pub struct EmuTxInfo {
    pub version: FieldElement,
    pub account_contract_address: FieldElement,
    pub max_fee: u128,
    pub signature: Vec<FieldElement>,
    pub transaction_hash: FieldElement,
    pub chain_id: FieldElement,
    pub nonce: FieldElement,
}

/// One resource-bounds entry, canonical shape.
#[derive(Clone, Copy, Debug, PartialEq, Eq, Structural)]
pub struct ResourceBounds {
    pub resource: FieldElement,
    pub max_amount: u64,
    pub max_price_per_unit: u128,
}

/// One resource-bounds entry, emulator shape.
#[derive(Clone, Copy, Debug, PartialEq, Eq, Structural)]
pub struct EmuResourceBounds {
    pub resource: FieldElement,
    pub max_amount: u64,
    pub max_price_per_unit: u128,
}

pub open spec fn resource_bounds_to_emu(rb: ResourceBounds) -> EmuResourceBounds {
    EmuResourceBounds {
        resource: rb.resource,
        max_amount: rb.max_amount,
        max_price_per_unit: rb.max_price_per_unit,
    }
}

/// Transaction-level context, second revision, canonical shape.
#[derive(Clone, Debug, PartialEq, Eq)]
pub struct TxV2Info {
    pub version: FieldElement,
    pub account_contract_address: FieldElement,
    pub max_fee: u128,
    pub signature: Vec<FieldElement>,
    pub transaction_hash: FieldElement,
    pub chain_id: FieldElement,
    pub nonce: FieldElement,
    pub resource_bounds: Vec<ResourceBounds>,
    pub tip: u128,
    pub paymaster_data: Vec<FieldElement>,
    pub nonce_data_availability_mode: u32,
    pub fee_data_availability_mode: u32,
    pub account_deployment_data: Vec<FieldElement>,
}

/// Transaction-level context, second revision, emulator shape.
#[derive(Clone, Debug, PartialEq, Eq)]
pub struct EmuTxV2Info {
    pub version: FieldElement,
    pub account_contract_address: FieldElement,
    pub max_fee: u128,
    pub signature: Vec<FieldElement>,
    pub transaction_hash: FieldElement,
    pub chain_id: FieldElement,
    pub nonce: FieldElement,
    pub resource_bounds: Vec<EmuResourceBounds>,
    pub tip: u128,
    pub paymaster_data: Vec<FieldElement>,
    pub nonce_data_availability_mode: u32,
    pub fee_data_availability_mode: u32,
    pub account_deployment_data: Vec<FieldElement>,
}

/// Execution-info record, first revision, canonical shape.
#[derive(Clone, Debug, PartialEq, Eq)]
pub struct ExecutionInfo {
    pub block_info: BlockInfo,
    pub tx_info: TxInfo,
    pub caller_address: FieldElement,
    pub contract_address: FieldElement,
    pub entry_point_selector: FieldElement,
}

/// Execution-info record, first revision, emulator shape.
#[derive(Clone, Debug, PartialEq, Eq)]
pub struct EmuExecutionInfo {
    pub block_info: EmuBlockInfo,
    pub tx_info: EmuTxInfo,
    pub caller_address: FieldElement,
    pub contract_address: FieldElement,
    pub entry_point_selector: FieldElement,
}

/// Execution-info record, second revision, canonical shape.
#[derive(Clone, Debug, PartialEq, Eq)]
pub struct ExecutionInfoV2 {
    pub block_info: BlockInfo,
    pub tx_info: TxV2Info,
    pub caller_address: FieldElement,
    pub contract_address: FieldElement,
    pub entry_point_selector: FieldElement,
}

/// Execution-info record, second revision, emulator shape.
#[derive(Clone, Debug, PartialEq, Eq)]
pub struct EmuExecutionInfoV2 {
    pub block_info: EmuBlockInfo,
    pub tx_info: EmuTxV2Info,
    pub caller_address: FieldElement,
    pub contract_address: FieldElement,
    pub entry_point_selector: FieldElement,
}

pub open spec fn block_info_to_emu(x: BlockInfo) -> EmuBlockInfo {
    EmuBlockInfo {
        block_number: x.block_number,
        block_timestamp: x.block_timestamp,
        sequencer_address: x.sequencer_address,
    }
}

/// Canonical to emulator shape of the block-level context.
pub fn convert_block_info(x: BlockInfo) -> (r: EmuBlockInfo)
    ensures
        r == block_info_to_emu(x),
{
    EmuBlockInfo {
        block_number: x.block_number,
        block_timestamp: x.block_timestamp,
        sequencer_address: x.sequencer_address,
    }
}

/// Canonical to emulator shape of the first-revision transaction context.
pub fn convert_tx_info(x: TxInfo) -> (r: EmuTxInfo)
    ensures
        r.version == x.version,
        r.account_contract_address == x.account_contract_address,
        r.max_fee == x.max_fee,
        r.signature@ == x.signature@,
        r.transaction_hash == x.transaction_hash,
        r.chain_id == x.chain_id,
        r.nonce == x.nonce,
{
    EmuTxInfo {
        version: x.version,
        account_contract_address: x.account_contract_address,
        max_fee: x.max_fee,
        signature: x.signature,
        transaction_hash: x.transaction_hash,
        chain_id: x.chain_id,
        nonce: x.nonce,
    }
}

/// Canonical to emulator shape of one resource-bounds entry.
pub fn convert_resource_bounds(resource_bounds: ResourceBounds) -> (r: EmuResourceBounds)
    ensures
        r == resource_bounds_to_emu(resource_bounds),
{
    EmuResourceBounds {
        resource: resource_bounds.resource,
        max_amount: resource_bounds.max_amount,
        max_price_per_unit: resource_bounds.max_price_per_unit,
    }
}

/// Canonical to emulator shape of the second-revision transaction context;
/// every resource-bounds entry is converted in order.
pub fn convert_tx_v2_info(x: TxV2Info) -> (r: EmuTxV2Info)
    ensures
        r.version == x.version,
        r.account_contract_address == x.account_contract_address,
        r.max_fee == x.max_fee,
        r.signature@ == x.signature@,
        r.transaction_hash == x.transaction_hash,
        r.chain_id == x.chain_id,
        r.nonce == x.nonce,
        r.resource_bounds@ == x.resource_bounds@.map_values(
            |rb: ResourceBounds| resource_bounds_to_emu(rb),
        ),
        r.tip == x.tip,
        r.paymaster_data@ == x.paymaster_data@,
        r.nonce_data_availability_mode == x.nonce_data_availability_mode,
        r.fee_data_availability_mode == x.fee_data_availability_mode,
        r.account_deployment_data@ == x.account_deployment_data@,
{
    let mut bounds: Vec<EmuResourceBounds> = Vec::new();
    let mut k: usize = 0;
    while k < x.resource_bounds.len()
        invariant
            k <= x.resource_bounds@.len(),
            bounds@ == x.resource_bounds@.take(k as int).map_values(
                |rb: ResourceBounds| resource_bounds_to_emu(rb),
            ),
        decreases x.resource_bounds@.len() - k,
    {
        bounds.push(convert_resource_bounds(x.resource_bounds[k]));
        proof {
            assert(bounds@ =~= x.resource_bounds@.take(k as int + 1).map_values(
                |rb: ResourceBounds| resource_bounds_to_emu(rb),
            ));
        }
        k += 1;
    }
    proof {
        assert(x.resource_bounds@.take(x.resource_bounds@.len() as int) =~= x.resource_bounds@);
    }
    EmuTxV2Info {
        version: x.version,
        account_contract_address: x.account_contract_address,
        max_fee: x.max_fee,
        signature: x.signature,
        transaction_hash: x.transaction_hash,
        chain_id: x.chain_id,
        nonce: x.nonce,
        resource_bounds: bounds,
        tip: x.tip,
        paymaster_data: x.paymaster_data,
        nonce_data_availability_mode: x.nonce_data_availability_mode,
        fee_data_availability_mode: x.fee_data_availability_mode,
        account_deployment_data: x.account_deployment_data,
    }
}

/// Canonical to emulator shape of the first-revision execution-info record.
pub fn convert_execution_info(x: ExecutionInfo) -> (r: EmuExecutionInfo)
    ensures
        r.block_info == block_info_to_emu(x.block_info),
        r.tx_info.version == x.tx_info.version,
        r.tx_info.account_contract_address == x.tx_info.account_contract_address,
        r.tx_info.max_fee == x.tx_info.max_fee,
        r.tx_info.signature@ == x.tx_info.signature@,
        r.tx_info.transaction_hash == x.tx_info.transaction_hash,
        r.tx_info.chain_id == x.tx_info.chain_id,
        r.tx_info.nonce == x.tx_info.nonce,
        r.caller_address == x.caller_address,
        r.contract_address == x.contract_address,
        r.entry_point_selector == x.entry_point_selector,
{
    EmuExecutionInfo {
        block_info: convert_block_info(x.block_info),
        tx_info: convert_tx_info(x.tx_info),
        caller_address: x.caller_address,
        contract_address: x.contract_address,
        entry_point_selector: x.entry_point_selector,
    }
}

/// Canonical to emulator shape of the second-revision execution-info record.
pub fn convert_execution_info_v2(x: ExecutionInfoV2) -> (r: EmuExecutionInfoV2)
    ensures
        r.block_info == block_info_to_emu(x.block_info),
        r.tx_info.version == x.tx_info.version,
        r.tx_info.account_contract_address == x.tx_info.account_contract_address,
        r.tx_info.max_fee == x.tx_info.max_fee,
        r.tx_info.signature@ == x.tx_info.signature@,
        r.tx_info.transaction_hash == x.tx_info.transaction_hash,
        r.tx_info.chain_id == x.tx_info.chain_id,
        r.tx_info.nonce == x.tx_info.nonce,
        r.tx_info.resource_bounds@ == x.tx_info.resource_bounds@.map_values(
            |rb: ResourceBounds| resource_bounds_to_emu(rb),
        ),
        r.tx_info.tip == x.tx_info.tip,
        r.tx_info.paymaster_data@ == x.tx_info.paymaster_data@,
        r.tx_info.nonce_data_availability_mode == x.tx_info.nonce_data_availability_mode,
        r.tx_info.fee_data_availability_mode == x.tx_info.fee_data_availability_mode,
        r.tx_info.account_deployment_data@ == x.tx_info.account_deployment_data@,
        r.caller_address == x.caller_address,
        r.contract_address == x.contract_address,
        r.entry_point_selector == x.entry_point_selector,
{
    EmuExecutionInfoV2 {
        block_info: convert_block_info(x.block_info),
        tx_info: convert_tx_v2_info(x.tx_info),
        caller_address: x.caller_address,
        contract_address: x.contract_address,
        entry_point_selector: x.entry_point_selector,
    }
}

} // verus!
