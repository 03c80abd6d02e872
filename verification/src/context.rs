//! The slice of the transaction and chain context that this core reads:
//! which fee token a transaction pays in, and the initial gas budget policy
//! that depends on the shape of the transaction's resource bounds.
use vstd::prelude::*;

use crate::felt::{ContractAddress, FieldElement};
use crate::utils::{CurrentTransactionInfo, ValidResourceBounds};

verus! {

/// The token a transaction pays its fee in.
#[derive(Clone, Copy, Debug, PartialEq, Eq, Hash, Structural)]
pub enum FeeType {
    Strk,
    Eth,
}

/// The fee-token contract addresses of a chain.
#[derive(Clone, Copy, Debug, PartialEq, Eq, Structural)]
pub struct FeeTokenAddresses {
    pub strk_fee_token_address: ContractAddress,
    pub eth_fee_token_address: ContractAddress,
}

impl FeeTokenAddresses {
    /// The fee-token address for the given fee type.
    pub fn get_by_fee_type(&self, fee_type: &FeeType) -> (r: ContractAddress)
        ensures
            r == (match fee_type {
                FeeType::Strk => self.strk_fee_token_address,
                FeeType::Eth => self.eth_fee_token_address,
            }),
    {
        match fee_type {
            FeeType::Strk => self.strk_fee_token_address,
            FeeType::Eth => self.eth_fee_token_address,
        }
    }
}

/// The chain-wide context this core reads.
#[derive(Clone, Copy, Debug, PartialEq, Eq, Structural)]
pub struct ChainInfo {
    pub chain_id: FieldElement,
    pub fee_token_addresses: FeeTokenAddresses,
}

impl ChainInfo {
    /// The fee-token address for the given fee type.
    pub fn fee_token_address(&self, fee_type: &FeeType) -> (r: ContractAddress)
        ensures
            r == (match fee_type {
                FeeType::Strk => self.fee_token_addresses.strk_fee_token_address,
                FeeType::Eth => self.fee_token_addresses.eth_fee_token_address,
            }),
    {
        self.fee_token_addresses.get_by_fee_type(fee_type)
    }
}

/// The transaction-format slice the gas budget policy depends on: a
/// deprecated-format transaction, or a current-format one with its resource
/// bounds.
#[derive(Clone, Copy, Debug, PartialEq, Eq, Structural)]
pub enum TransactionInfo {
    Deprecated,
    Current(CurrentTransactionInfo),
}

/// The initial gas budget of a transaction under the given policy.
pub open spec fn initial_sierra_gas_spec(tx_info: TransactionInfo, default_initial_gas: u64) -> u64 {
    match tx_info {
        TransactionInfo::Deprecated => default_initial_gas,
        TransactionInfo::Current(current) => match current.resource_bounds {
            ValidResourceBounds::L1Gas(_) => default_initial_gas,
            ValidResourceBounds::AllResources(all) => all.l2_gas.max_amount,
        },
    }
}

/// The initial gas a transaction's run is limited to.  A transaction that
/// bounds only its L1 gas runs under the chain's default initial gas cost,
/// from the versioned constants table; one that bounds all resources runs
/// under its own committed L2 gas amount.
pub fn initial_sierra_gas(tx_info: &TransactionInfo, default_initial_gas: u64) -> (r: u64)
    ensures
        r == initial_sierra_gas_spec(*tx_info, default_initial_gas),
{
    match tx_info {
        TransactionInfo::Deprecated => default_initial_gas,
        TransactionInfo::Current(current) => match &current.resource_bounds {
            ValidResourceBounds::L1Gas(_) => default_initial_gas,
            ValidResourceBounds::AllResources(all) => all.l2_gas.max_amount,
        },
    }
}

} // verus!
