use blockifier::builtins::{BuiltinCounters, BuiltinStats};
use blockifier::call_info::{
    CallEntryPoint, EntryPointType, ExecutionResources, TrackedResource,
};
use blockifier::contract_class::{CompiledArtifact, EntryPointV1, EntryPointsByType, NativeContractClassV1};
use blockifier::entry_point_execution::{
    create_callinfo, execute_entry_point_call, prepare_entry_point_execution, BaseGasCosts,
    BuiltinGasCosts, ContractExecutionResult, GasCosts, SyscallEffects,
};
use blockifier::errors::{
    EntryPointExecutionError, PostExecutionError, PreExecutionError,
};
use blockifier::felt::{ContractAddress, EntryPointSelector, FieldElement};

fn selector(v: u128) -> EntryPointSelector {
    EntryPointSelector(FieldElement::from_u128(v))
}

fn entry_points() -> EntryPointsByType {
    EntryPointsByType {
        constructor: vec![EntryPointV1 { selector: selector(1), function_id: 10 }],
        external: vec![
            EntryPointV1 { selector: selector(2), function_id: 20 },
            EntryPointV1 { selector: selector(3), function_id: 30 },
        ],
        l1_handler: vec![],
    }
}

fn gas_costs() -> GasCosts {
    GasCosts {
        base: BaseGasCosts { entry_point_initial_budget: 10000 },
        builtins: BuiltinGasCosts {
            pedersen: 4050,
            bitwise: 583,
            ecop: 4085,
            poseidon: 491,
            add_mod: 230,
            mul_mod: 604,
        },
    }
}

fn external_call(selector_value: u128, initial_gas: u64) -> CallEntryPoint {
    CallEntryPoint {
        class_hash: None,
        code_address: None,
        entry_point_type: EntryPointType::External,
        entry_point_selector: selector(selector_value),
        calldata: vec![],
        storage_address: ContractAddress(FieldElement::from_u128(0x99)),
        caller_address: ContractAddress(FieldElement::zero()),
        initial_gas,
    }
}

fn no_effects() -> SyscallEffects {
    SyscallEffects {
        events: vec![],
        l2_to_l1_messages: vec![],
        inner_calls: vec![],
        storage_read_values: vec![],
        accessed_storage_keys: vec![],
        accessed_contract_addresses: vec![],
        read_class_hash_values: vec![],
    }
}

fn zero_resources() -> ExecutionResources {
    ExecutionResources {
        n_steps: 0,
        n_memory_holes: 0,
        builtin_counters: BuiltinCounters {
            range_check: 0,
            pedersen: 0,
            ecdsa: 0,
            keccak: 0,
            bitwise: 0,
            ec_op: 0,
            poseidon: 0,
            segment_arena: 0,
            range_check96: 0,
            add_mod: 0,
            mul_mod: 0,
        },
    }
}

fn simple_result(remaining_gas: u64) -> ContractExecutionResult {
    ContractExecutionResult {
        remaining_gas,
        failure_flag: false,
        return_values: vec![FieldElement::from_u128(7)],
        error_msg: None,
        builtin_stats: BuiltinStats {
            range_check: 0,
            pedersen: 0,
            bitwise: 0,
            ec_op: 0,
            poseidon: 0,
            segment_arena: 0,
            range_check96: 0,
            add_mod: 0,
            mul_mod: 0,
        },
    }
}

#[test]
fn resolution_finds_declared_entry_point() {
    let eps = entry_points();
    let ep = eps.get_entry_point(EntryPointType::External, selector(3)).unwrap();
    assert_eq!(ep.function_id, 30);
}

#[test]
fn resolution_is_deterministic() {
    let eps = entry_points();
    let first = eps.get_entry_point(EntryPointType::External, selector(2));
    let second = eps.get_entry_point(EntryPointType::External, selector(2));
    assert_eq!(first, second);
    let missing_first = eps.get_entry_point(EntryPointType::External, selector(77));
    let missing_second = eps.get_entry_point(EntryPointType::External, selector(77));
    assert_eq!(missing_first, missing_second);
}

#[test]
fn resolution_fails_for_unknown_selector() {
    let eps = entry_points();
    let err = eps.get_entry_point(EntryPointType::External, selector(42)).unwrap_err();
    assert_eq!(err, PreExecutionError::EntryPointNotFound(selector(42)));
    // A constructor selector is not visible under the external kind.
    let err = eps.get_entry_point(EntryPointType::L1Handler, selector(2)).unwrap_err();
    assert_eq!(err, PreExecutionError::EntryPointNotFound(selector(2)));
}

#[test]
fn prepare_precharges_initial_budget() {
    let call = external_call(2, 250000);
    let prepared = prepare_entry_point_execution(&call, &entry_points(), &gas_costs()).unwrap();
    assert_eq!(prepared.entry_point.function_id, 20);
    assert_eq!(prepared.call_initial_gas, 240000);
    assert_eq!(prepared.builtin_costs.constant, 1);
    assert_eq!(prepared.builtin_costs.pedersen, 4050);
    assert_eq!(prepared.builtin_costs.mul_mod, 604);
}

#[test]
fn insufficient_initial_gas_is_always_rejected() {
    // Below the fixed entry-point budget the call fails before any code of
    // the callee runs, whatever the selector resolves to.
    let call = external_call(2, 9999);
    let err = prepare_entry_point_execution(&call, &entry_points(), &gas_costs()).unwrap_err();
    assert_eq!(err, PreExecutionError::InsufficientEntryPointGas);
}

#[test]
fn missing_entry_point_takes_precedence_over_gas() {
    let call = external_call(42, 0);
    let err = prepare_entry_point_execution(&call, &entry_points(), &gas_costs()).unwrap_err();
    assert_eq!(err, PreExecutionError::EntryPointNotFound(selector(42)));
}

#[test]
fn gas_consumed_is_initial_minus_remaining() {
    let call = external_call(2, 100000);
    let info = create_callinfo(call, simple_result(60000), no_effects(), &zero_resources(), 5, 0)
        .unwrap();
    assert_eq!(info.execution.gas_consumed, 40000);
    assert!(!info.execution.failed);
    assert_eq!(info.execution.retdata, vec![FieldElement::from_u128(7)]);
    assert_eq!(info.tracked_resource, TrackedResource::SierraGas);
    assert!(info.builtin_counters.is_empty());
}

#[test]
fn remaining_gas_above_initial_is_malformed_return_data() {
    let call = external_call(2, 100000);
    let err = create_callinfo(call, simple_result(100001), no_effects(), &zero_resources(), 5, 0)
        .unwrap_err();
    assert_eq!(
        err,
        EntryPointExecutionError::PostExecution(PostExecutionError::MalformedReturnData {
            remaining_gas: 100001,
            initial_gas: 100000,
        })
    );
}

#[test]
fn exact_gas_budget_consumes_everything() {
    let call = external_call(2, 100000);
    let info = create_callinfo(call, simple_result(0), no_effects(), &zero_resources(), 5, 0)
        .unwrap();
    assert_eq!(info.execution.gas_consumed, 100000);
}

#[test]
fn backend_error_aborts_as_unexpected() {
    let call = external_call(2, 100000);
    let err = execute_entry_point_call(
        call,
        Err(String::from("jit fault")),
        None,
        no_effects(),
        &zero_resources(),
        5,
        0,
    )
    .unwrap_err();
    assert_eq!(
        err,
        EntryPointExecutionError::NativeUnexpectedError(String::from("jit fault"))
    );
}

#[test]
fn unrecoverable_syscall_error_aborts_call() {
    let call = external_call(2, 100000);
    let err = execute_entry_point_call(
        call,
        Ok(simple_result(60000)),
        Some(String::from("state corrupted")),
        no_effects(),
        &zero_resources(),
        5,
        0,
    )
    .unwrap_err();
    assert_eq!(
        err,
        EntryPointExecutionError::NativeUnrecoverableError(String::from("state corrupted"))
    );
}

#[test]
fn contract_level_failure_is_billable_not_fatal() {
    let call = external_call(2, 100000);
    let mut result = simple_result(60000);
    result.failure_flag = true;
    let info = execute_entry_point_call(
        call,
        Ok(result),
        None,
        no_effects(),
        &zero_resources(),
        5,
        0,
    )
    .unwrap();
    assert!(info.execution.failed);
    assert_eq!(info.execution.gas_consumed, 40000);
}

#[test]
fn artifact_resolution_is_uniform_across_backends() {
    let artifact = CompiledArtifact::NativeAot(NativeContractClassV1 {
        entry_points_by_type: entry_points(),
    });
    let ep = artifact.get_entry_point(EntryPointType::External, selector(2)).unwrap();
    assert_eq!(ep.function_id, 20);
    let err = artifact.get_entry_point(EntryPointType::External, selector(42)).unwrap_err();
    assert_eq!(err, PreExecutionError::EntryPointNotFound(selector(42)));
}
