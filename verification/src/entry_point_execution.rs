//! Execution dispatch for one entry-point call.  Before the backend runs:
//! resolve the selector and pre-charge the fixed entry-point initial budget.
//! After the backend returns: distinguish backend faults from contract-level
//! failures, validate the reported gas against the call's budget, and
//! assemble the canonical call record from the raw outcome and the effects
//! the canonical syscall implementation accumulated.  The backend invocation
//! itself — native executable, emulator, or interpreter — is the execution
//! environment's part; everything decided around it is here.
use vstd::prelude::*;

use crate::builtins::{
    builtin_stats_to_builtin_counter_map, map_entries, stats_merge, sum_counts, Builtin,
    BuiltinStats,
};
use crate::call_info::{
    resources_counters, sum_memory_holes, sum_n_steps, CallEntryPoint, CallExecution, CallInfo,
    ExecutionResources, OrderedEvent, OrderedL2ToL1Message, TrackedResource,
};
use crate::contract_class::{resolve_spec, EntryPointV1, EntryPointsByType};
use crate::errors::{EntryPointExecutionError, PostExecutionError, PreExecutionError};
use crate::felt::{ClassHash, ContractAddress, FieldElement, StorageKey};

verus! {

/// The backend-invariant cost constants a call is executed under, from the
/// versioned, chain-wide constants table.
#[derive(Clone, Copy, Debug, PartialEq, Eq, Structural)]
pub struct BaseGasCosts {
    pub entry_point_initial_budget: u64,
}

/// Per-primitive gas costs from the versioned constants table.
#[derive(Clone, Copy, Debug, PartialEq, Eq, Structural)]
pub struct BuiltinGasCosts {
    pub pedersen: u64,
    pub bitwise: u64,
    pub ecop: u64,
    pub poseidon: u64,
    pub add_mod: u64,
    pub mul_mod: u64,
}

/// The slice of the versioned constants table this core reads.
#[derive(Clone, Copy, Debug, PartialEq, Eq, Structural)]
pub struct GasCosts {
    pub base: BaseGasCosts,
    pub builtins: BuiltinGasCosts,
}

/// The per-primitive cost table handed to a gas-metered backend.
#[derive(Clone, Copy, Debug, PartialEq, Eq, Structural)]
pub struct BuiltinCosts {
    pub constant: u64,
    pub pedersen: u64,
    pub bitwise: u64,
    pub ecop: u64,
    pub poseidon: u64,
    pub add_mod: u64,
    pub mul_mod: u64,
}

/// The cost table a backend receives: the constant-cost entry is one unit,
/// the rest mirror the versioned constants.
pub open spec fn builtin_costs_spec(gas_costs: GasCosts) -> BuiltinCosts {
    BuiltinCosts {
        constant: 1,
        pedersen: gas_costs.builtins.pedersen,
        bitwise: gas_costs.builtins.bitwise,
        ecop: gas_costs.builtins.ecop,
        poseidon: gas_costs.builtins.poseidon,
        add_mod: gas_costs.builtins.add_mod,
        mul_mod: gas_costs.builtins.mul_mod,
    }
}

/// Everything fixed before the backend is invoked: the resolved entry
/// point, the gas left after the initial-budget pre-charge, and the cost
/// table for the backend.
#[derive(Clone, Copy, Debug, PartialEq, Eq, Structural)]
pub struct PreparedExecution {
    pub entry_point: EntryPointV1,
    pub call_initial_gas: u64,
    pub builtin_costs: BuiltinCosts,
}

/// Pre-execution policy, applied before backend selection: resolve the
/// selector within the artifact's table, then pre-charge the fixed
/// entry-point initial budget.  Resolution failure takes precedence, and an
/// initial gas below the budget is rejected before any code of the callee
/// runs.
pub open spec fn prepare_spec(
    call: CallEntryPoint,
    entry_points: EntryPointsByType,
    gas_costs: GasCosts,
) -> Result<PreparedExecution, PreExecutionError> {
    match resolve_spec(entry_points.of_type(call.entry_point_type), call.entry_point_selector) {
        None => Err(PreExecutionError::EntryPointNotFound(call.entry_point_selector)),
        Some(ep) => if call.initial_gas < gas_costs.base.entry_point_initial_budget {
            Err(PreExecutionError::InsufficientEntryPointGas)
        } else {
            Ok(
                PreparedExecution {
                    entry_point: ep,
                    call_initial_gas: (call.initial_gas
                        - gas_costs.base.entry_point_initial_budget) as u64,
                    builtin_costs: builtin_costs_spec(gas_costs),
                },
            )
        },
    }
}

/// Resolves the entry point and pre-charges the entry-point initial budget;
/// this runs before the backend is chosen and mutates nothing.
pub fn prepare_entry_point_execution(
    call: &CallEntryPoint,
    entry_points: &EntryPointsByType,
    gas_costs: &GasCosts,
) -> (r: Result<PreparedExecution, PreExecutionError>)
    ensures
        r == prepare_spec(*call, *entry_points, *gas_costs),
{
    let entry_point = match entry_points.get_entry_point(
        call.entry_point_type,
        call.entry_point_selector,
    ) {
        Ok(ep) => ep,
        Err(e) => {
            return Err(e);
        },
    };
    if call.initial_gas < gas_costs.base.entry_point_initial_budget {
        return Err(PreExecutionError::InsufficientEntryPointGas);
    }
    let call_initial_gas = call.initial_gas - gas_costs.base.entry_point_initial_budget;
    Ok(
        PreparedExecution {
            entry_point,
            call_initial_gas,
            builtin_costs: BuiltinCosts {
                constant: 1,
                pedersen: gas_costs.builtins.pedersen,
                bitwise: gas_costs.builtins.bitwise,
                ecop: gas_costs.builtins.ecop,
                poseidon: gas_costs.builtins.poseidon,
                add_mod: gas_costs.builtins.add_mod,
                mul_mod: gas_costs.builtins.mul_mod,
            },
        },
    )
}

/// A selector absent from the artifact's table always fails with
/// `EntryPointNotFound`, before the budget is even examined: preparation is
/// the only step before a backend runs and it is pure, so the callee's code
/// never runs and no state is mutated for such a call.
pub proof fn lemma_unresolved_selector_rejected(
    call: CallEntryPoint,
    entry_points: EntryPointsByType,
    gas_costs: GasCosts,
)
    requires
        resolve_spec(
            entry_points.of_type(call.entry_point_type),
            call.entry_point_selector,
        ) is None,
    ensures
        prepare_spec(call, entry_points, gas_costs) == Err::<
            PreparedExecution,
            PreExecutionError,
        >(PreExecutionError::EntryPointNotFound(call.entry_point_selector)),
{
}

/// Invoking an entry point with an initial gas below the fixed entry-point
/// budget always fails with `InsufficientEntryPointGas`: preparation is the
/// only step before the backend runs, it is pure, and on this input it
/// rejects the call, so no state is ever mutated for it.
pub proof fn lemma_insufficient_gas_always_rejected(
    call: CallEntryPoint,
    entry_points: EntryPointsByType,
    gas_costs: GasCosts,
)
    requires
        resolve_spec(
            entry_points.of_type(call.entry_point_type),
            call.entry_point_selector,
        ) is Some,
        call.initial_gas < gas_costs.base.entry_point_initial_budget,
    ensures
        prepare_spec(call, entry_points, gas_costs) == Err::<
            PreparedExecution,
            PreExecutionError,
        >(PreExecutionError::InsufficientEntryPointGas),
{
}

/// The raw outcome a backend reports for one call.
#[derive(Clone, Debug, PartialEq, Eq)]
pub struct ContractExecutionResult {
    pub remaining_gas: u64,
    pub failure_flag: bool,
    pub return_values: Vec<FieldElement>,
    pub error_msg: Option<String>,
    pub builtin_stats: BuiltinStats,
}

/// The raw outcome in the emulator's shape, which carries no builtin
/// report.
#[derive(Clone, Debug, PartialEq, Eq)]
pub struct EmuContractExecutionResult {
    pub remaining_gas: u64,
    pub failure_flag: bool,
    pub return_values: Vec<FieldElement>,
    pub error_msg: Option<String>,
}

/// Converts the emulator's outcome into the canonical outcome shape; the
/// emulator reports no builtin usage of its own, so those counts are zero.
pub fn convert_emu_result(result: EmuContractExecutionResult) -> (r: ContractExecutionResult)
    ensures
        r.remaining_gas == result.remaining_gas,
        r.failure_flag == result.failure_flag,
        r.return_values@ == result.return_values@,
        r.error_msg == result.error_msg,
        forall|b: Builtin| r.builtin_stats.count(b) == 0,
{
    ContractExecutionResult {
        remaining_gas: result.remaining_gas,
        failure_flag: result.failure_flag,
        return_values: result.return_values,
        error_msg: result.error_msg,
        builtin_stats: BuiltinStats::zero(),
    }
}

/// The side effects the canonical syscall implementation accumulated while
/// the backend ran, collected afterwards by the assembler.
#[derive(Debug, PartialEq, Eq)]
pub struct SyscallEffects {
    pub events: Vec<OrderedEvent>,
    pub l2_to_l1_messages: Vec<OrderedL2ToL1Message>,
    pub inner_calls: Vec<CallInfo>,
    pub storage_read_values: Vec<FieldElement>,
    pub accessed_storage_keys: Vec<StorageKey>,
    pub accessed_contract_addresses: Vec<ContractAddress>,
    pub read_class_hash_values: Vec<ClassHash>,
}

/// A backend reporting more remaining gas than the call's initial gas has
/// broken a protocol invariant: such an outcome is malformed return data.
pub open spec fn malformed_return_data(
    call: CallEntryPoint,
    call_result: ContractExecutionResult,
) -> bool {
    call_result.remaining_gas > call.initial_gas
}

/// The canonical call record assembled from a raw outcome and the
/// accumulated effects: descriptor echoed, gas consumed computed, nested
/// resources summed, builtin counters merged and pruned.
pub open spec fn call_info_matches(
    ci: CallInfo,
    call: CallEntryPoint,
    call_result: ContractExecutionResult,
    effects: SyscallEffects,
    syscall_resources: ExecutionResources,
    time_nanos: u64,
    call_counter: u64,
) -> bool {
    &&& ci.call == call
    &&& ci.execution.retdata@ == call_result.return_values@
    &&& ci.execution.events@ == effects.events@
    &&& ci.execution.l2_to_l1_messages@ == effects.l2_to_l1_messages@
    &&& ci.execution.failed == call_result.failure_flag
    &&& ci.execution.gas_consumed == call.initial_gas - call_result.remaining_gas
    &&& ci.resources.n_steps == sum_n_steps(effects.inner_calls@)
    &&& ci.resources.n_memory_holes == sum_memory_holes(effects.inner_calls@)
    &&& (forall|b: Builtin| #[trigger]
        ci.resources.builtin_counters.count(b) == sum_counts(
            resources_counters(effects.inner_calls@),
            b,
        ))
    &&& ci.inner_calls@ == effects.inner_calls@
    &&& ci.storage_read_values@ == effects.storage_read_values@
    &&& ci.accessed_storage_keys@ == effects.accessed_storage_keys@
    &&& ci.accessed_contract_addresses@ == effects.accessed_contract_addresses@
    &&& ci.read_class_hash_values@ == effects.read_class_hash_values@
    &&& ci.tracked_resource == TrackedResource::SierraGas
    &&& ci.time_nanos == time_nanos
    &&& ci.builtin_counters@ == map_entries(
        stats_merge(call_result.builtin_stats, syscall_resources.builtin_counters),
    )
    &&& ci.call_counter == call_counter
}

/// The gas-accounting law of assembled call records: every record carries
/// `gas_consumed` exactly equal to the initial gas minus the remaining gas
/// — unsigned, hence never negative, and never clamped or otherwise
/// adjusted — and a record exists only for outcomes whose remaining gas
/// does not exceed the call's initial gas.  A malformed outcome yields the
/// fatal error instead, never a record with the failure flag set.
pub proof fn lemma_gas_consumed_exact(
    ci: CallInfo,
    call: CallEntryPoint,
    call_result: ContractExecutionResult,
    effects: SyscallEffects,
    syscall_resources: ExecutionResources,
    time_nanos: u64,
    call_counter: u64,
)
    requires
        call_info_matches(
            ci,
            call,
            call_result,
            effects,
            syscall_resources,
            time_nanos,
            call_counter,
        ),
    ensures
        ci.execution.gas_consumed == call.initial_gas - call_result.remaining_gas,
        !malformed_return_data(call, call_result),
{
}

/// Assembles the canonical call record from the backend's raw outcome and
/// the accumulated effects, for the gas-metered backends (the interpreted
/// path is metered in steps and assembled by its own layer).  A backend
/// reporting more remaining gas than the call started with has broken
/// protocol: that is the fatal malformed-return-data error, never a
/// clamped value; otherwise the gas consumed is exactly the initial gas
/// minus the remaining gas, and never negative.
pub fn create_callinfo(
    call: CallEntryPoint,
    call_result: ContractExecutionResult,
    effects: SyscallEffects,
    syscall_resources: &ExecutionResources,
    time_nanos: u64,
    call_counter: u64,
) -> (r: Result<CallInfo, EntryPointExecutionError>)
    requires
        forall|b: Builtin| #[trigger]
            call_result.builtin_stats.count(b) + syscall_resources.builtin_counters.count(b)
                <= u64::MAX,
        sum_n_steps(effects.inner_calls@) <= u64::MAX,
        sum_memory_holes(effects.inner_calls@) <= u64::MAX,
        forall|b: Builtin| #[trigger]
            sum_counts(resources_counters(effects.inner_calls@), b) <= u64::MAX,
    ensures
        malformed_return_data(call, call_result) ==> r == Err::<
            CallInfo,
            EntryPointExecutionError,
        >(
            EntryPointExecutionError::PostExecution(
                PostExecutionError::MalformedReturnData {
                    remaining_gas: call_result.remaining_gas,
                    initial_gas: call.initial_gas,
                },
            ),
        ),
        !malformed_return_data(call, call_result) ==> ({
            &&& r matches Ok(ci)
            &&& call_info_matches(
                ci,
                call,
                call_result,
                effects,
                *syscall_resources,
                time_nanos,
                call_counter,
            )
        }),
{
    let remaining_gas = call_result.remaining_gas;
    if remaining_gas > call.initial_gas {
        return Err(
            EntryPointExecutionError::PostExecution(
                PostExecutionError::MalformedReturnData {
                    remaining_gas,
                    initial_gas: call.initial_gas,
                },
            ),
        );
    }
    let gas_consumed = call.initial_gas - remaining_gas;
    let vm_resources = CallInfo::summarize_vm_resources(&effects.inner_calls);
    let builtin_counters = builtin_stats_to_builtin_counter_map(
        &call_result.builtin_stats,
        &syscall_resources.builtin_counters,
    );
    Ok(
        CallInfo {
            call,
            execution: CallExecution {
                retdata: call_result.return_values,
                events: effects.events,
                l2_to_l1_messages: effects.l2_to_l1_messages,
                failed: call_result.failure_flag,
                gas_consumed,
            },
            resources: vm_resources,
            inner_calls: effects.inner_calls,
            storage_read_values: effects.storage_read_values,
            accessed_storage_keys: effects.accessed_storage_keys,
            accessed_contract_addresses: effects.accessed_contract_addresses,
            read_class_hash_values: effects.read_class_hash_values,
            tracked_resource: TrackedResource::SierraGas,
            time_nanos,
            builtin_counters,
            call_counter,
        },
    )
}

/// Concludes one entry-point call from what came back of the backend
/// invocation.  A backend-level error aborts the call as
/// `NativeUnexpectedError`; an unrecoverable syscall fault aborts it as
/// `NativeUnrecoverableError` — both are distinct from a contract-level
/// failure flag, which produces a valid, billable call record.  Otherwise
/// the raw outcome is validated and assembled into the canonical record.
pub fn execute_entry_point_call(
    call: CallEntryPoint,
    run_result: Result<ContractExecutionResult, String>,
    unrecoverable_error: Option<String>,
    effects: SyscallEffects,
    syscall_resources: &ExecutionResources,
    time_nanos: u64,
    call_counter: u64,
) -> (r: Result<CallInfo, EntryPointExecutionError>)
    requires
        run_result matches Ok(res) ==> forall|b: Builtin| #[trigger]
            res.builtin_stats.count(b) + syscall_resources.builtin_counters.count(b) <= u64::MAX,
        sum_n_steps(effects.inner_calls@) <= u64::MAX,
        sum_memory_holes(effects.inner_calls@) <= u64::MAX,
        forall|b: Builtin| #[trigger]
            sum_counts(resources_counters(effects.inner_calls@), b) <= u64::MAX,
    ensures
        match run_result {
            Err(msg) => r == Err::<CallInfo, EntryPointExecutionError>(
                EntryPointExecutionError::NativeUnexpectedError(msg),
            ),
            Ok(res) => match unrecoverable_error {
                Some(e) => r == Err::<CallInfo, EntryPointExecutionError>(
                    EntryPointExecutionError::NativeUnrecoverableError(e),
                ),
                None => {
                    &&& malformed_return_data(call, res) ==> r == Err::<
                        CallInfo,
                        EntryPointExecutionError,
                    >(
                        EntryPointExecutionError::PostExecution(
                            PostExecutionError::MalformedReturnData {
                                remaining_gas: res.remaining_gas,
                                initial_gas: call.initial_gas,
                            },
                        ),
                    )
                    &&& !malformed_return_data(call, res) ==> ({
                        &&& r matches Ok(ci)
                        &&& call_info_matches(
                            ci,
                            call,
                            res,
                            effects,
                            *syscall_resources,
                            time_nanos,
                            call_counter,
                        )
                    })
                },
            },
        },
{
    let call_result = match run_result {
        Ok(res) => res,
        Err(msg) => {
            return Err(EntryPointExecutionError::NativeUnexpectedError(msg));
        },
    };
    if let Some(error) = unrecoverable_error {
        return Err(EntryPointExecutionError::NativeUnrecoverableError(error));
    }
    create_callinfo(call, call_result, effects, syscall_resources, time_nanos, call_counter)
}

} // verus!
