//! The canonical, backend-agnostic record of one contract call: its
//! descriptor, execution result, accumulated effects, nested calls, and
//! aggregated resource usage.
use vstd::prelude::*;

use crate::builtins::{sum_counts, BuiltinCounterMap, BuiltinCounters};
use crate::felt::{ClassHash, ContractAddress, EntryPointSelector, FieldElement, StorageKey};

verus! {

/// The kind of entry point being invoked.
#[derive(Clone, Copy, Debug, PartialEq, Eq, Hash, Structural)]
pub enum EntryPointType {
    Constructor,
    External,
    L1Handler,
}

/// The cost-model basis under which a call was metered: step counts for the
/// interpreted backend, gas for the native and emulated backends.
#[derive(Clone, Copy, Debug, PartialEq, Eq, Hash, Structural)]
pub enum TrackedResource {
    CairoSteps,
    SierraGas,
}

/// The descriptor of one entry-point invocation, consumed once per call.
#[derive(Clone, Debug, PartialEq, Eq)]
pub struct CallEntryPoint {
    pub class_hash: Option<ClassHash>,
    pub code_address: Option<ContractAddress>,
    pub entry_point_type: EntryPointType,
    pub entry_point_selector: EntryPointSelector,
    pub calldata: Vec<FieldElement>,
    pub storage_address: ContractAddress,
    pub caller_address: ContractAddress,
    pub initial_gas: u64,
}

/// An event emitted during a call, tagged with its emission order.
#[derive(Clone, Debug, PartialEq, Eq)]
pub struct OrderedEvent {
    pub order: u64,
    pub keys: Vec<FieldElement>,
    pub data: Vec<FieldElement>,
}

/// A message sent to L1 during a call, tagged with its emission order.
#[derive(Clone, Debug, PartialEq, Eq)]
pub struct OrderedL2ToL1Message {
    pub order: u64,
    pub to_address: FieldElement,
    pub payload: Vec<FieldElement>,
}

/// Low-level virtual-machine resource usage.
#[derive(Clone, Copy, Debug, PartialEq, Eq, Structural)]
pub struct ExecutionResources {
    pub n_steps: u64,
    pub n_memory_holes: u64,
    pub builtin_counters: BuiltinCounters,
}

/// The execution result carried by a call record.
#[derive(Clone, Debug, PartialEq, Eq)]
pub struct CallExecution {
    pub retdata: Vec<FieldElement>,
    pub events: Vec<OrderedEvent>,
    pub l2_to_l1_messages: Vec<OrderedL2ToL1Message>,
    pub failed: bool,
    pub gas_consumed: u64,
}

/// The canonical record of one contract call, owned by its parent call; the
/// nested records form the call tree in invocation order.
#[derive(Debug, PartialEq, Eq)]
pub struct CallInfo {
    pub call: CallEntryPoint,
    pub execution: CallExecution,
    pub resources: ExecutionResources,
    pub inner_calls: Vec<CallInfo>,
    pub storage_read_values: Vec<FieldElement>,
    pub accessed_storage_keys: Vec<StorageKey>,
    pub accessed_contract_addresses: Vec<ContractAddress>,
    pub read_class_hash_values: Vec<ClassHash>,
    pub tracked_resource: TrackedResource,
    pub time_nanos: u64,
    pub builtin_counters: BuiltinCounterMap,
    pub call_counter: u64,
}

/// Total step count over a list of call records.
pub open spec fn sum_n_steps(s: Seq<CallInfo>) -> nat
    decreases s.len(),
{
    if s.len() == 0 {
        0
    } else {
        (sum_n_steps(s.drop_last()) + s.last().resources.n_steps) as nat
    }
}

/// Total memory-hole count over a list of call records.
pub open spec fn sum_memory_holes(s: Seq<CallInfo>) -> nat
    decreases s.len(),
{
    if s.len() == 0 {
        0
    } else {
        (sum_memory_holes(s.drop_last()) + s.last().resources.n_memory_holes) as nat
    }
}

/// The builtin counters of each record in a list, in order.
pub open spec fn resources_counters(s: Seq<CallInfo>) -> Seq<BuiltinCounters> {
    s.map_values(|ci: CallInfo| ci.resources.builtin_counters)
}

impl CallInfo {
    /// Sums the virtual-machine resources of the given call records: a
    /// parent call's own summary aggregates its nested calls' summaries.
    pub fn summarize_vm_resources(infos: &Vec<CallInfo>) -> (r: ExecutionResources)
        requires
            sum_n_steps(infos@) <= u64::MAX,
            sum_memory_holes(infos@) <= u64::MAX,
            forall|b: crate::builtins::Builtin| #[trigger]
                sum_counts(resources_counters(infos@), b) <= u64::MAX,
        ensures
            r.n_steps == sum_n_steps(infos@),
            r.n_memory_holes == sum_memory_holes(infos@),
            forall|b: crate::builtins::Builtin| #[trigger]
                r.builtin_counters.count(b) == sum_counts(resources_counters(infos@), b),
    {
        let mut steps: u64 = 0;
        let mut holes: u64 = 0;
        let mut counters = BuiltinCounters::zero();
        let mut k: usize = 0;
        while k < infos.len()
            invariant
                k <= infos@.len(),
                sum_n_steps(infos@) <= u64::MAX,
                sum_memory_holes(infos@) <= u64::MAX,
                forall|b: crate::builtins::Builtin| #[trigger]
                    sum_counts(resources_counters(infos@), b) <= u64::MAX,
                steps == sum_n_steps(infos@.take(k as int)),
                holes == sum_memory_holes(infos@.take(k as int)),
                forall|b: crate::builtins::Builtin| #[trigger]
                    counters.count(b) == sum_counts(resources_counters(infos@.take(k as int)), b),
            decreases infos@.len() - k,
        {
            proof {
                lemma_sum_steps_split(infos@, k as int + 1);
                lemma_sum_holes_split(infos@, k as int + 1);
                assert(infos@.take(k as int + 1).drop_last() =~= infos@.take(k as int));
                assert(infos@.take(k as int + 1).last() == infos@[k as int]);
                assert forall|b: crate::builtins::Builtin| #[trigger]
                    counters.count(b) + infos@[k as int].resources.builtin_counters.count(b)
                        <= u64::MAX by {
                    crate::builtins::lemma_sum_counts_take_bound(
                        resources_counters(infos@),
                        k as int + 1,
                        b,
                    );
                    assert(resources_counters(infos@.take(k as int + 1)) =~= resources_counters(
                        infos@,
                    ).take(k as int + 1));
                    assert(resources_counters(infos@.take(k as int + 1)).drop_last()
                        =~= resources_counters(infos@.take(k as int)));
                    assert(resources_counters(infos@.take(k as int + 1)).last()
                        == infos@[k as int].resources.builtin_counters);
                    assert(sum_counts(resources_counters(infos@), b) <= u64::MAX);
                }
            }
            steps = steps + infos[k].resources.n_steps;
            holes = holes + infos[k].resources.n_memory_holes;
            counters = counters.add(&infos[k].resources.builtin_counters);
            proof {
                assert forall|b: crate::builtins::Builtin| #[trigger]
                    counters.count(b) == sum_counts(
                        resources_counters(infos@.take(k as int + 1)),
                        b,
                    ) by {
                    assert(resources_counters(infos@.take(k as int + 1)).drop_last()
                        =~= resources_counters(infos@.take(k as int)));
                    assert(resources_counters(infos@.take(k as int + 1)).last()
                        == infos@[k as int].resources.builtin_counters);
                }
            }
            k += 1;
        }
        proof {
            assert(infos@.take(infos@.len() as int) =~= infos@);
            assert(resources_counters(infos@.take(infos@.len() as int)) =~= resources_counters(
                infos@,
            ));
        }
        ExecutionResources { n_steps: steps, n_memory_holes: holes, builtin_counters: counters }
    }
}

/// Resource accounting over nested calls is additive and
/// order-independent: two orderings of the same nested call records sum to
/// the same per-primitive counters, so the final counter map of the parent
/// call does not depend on the order its nested calls are visited in.
pub proof fn lemma_vm_resources_order_independent(s1: Seq<CallInfo>, s2: Seq<CallInfo>)
    requires
        resources_counters(s1).to_multiset() == resources_counters(s2).to_multiset(),
    ensures
        forall|b: crate::builtins::Builtin| #[trigger]
            sum_counts(resources_counters(s1), b) == sum_counts(resources_counters(s2), b),
{
    assert forall|b: crate::builtins::Builtin| #[trigger]
        sum_counts(resources_counters(s1), b) == sum_counts(resources_counters(s2), b) by {
        crate::builtins::lemma_sum_counts_permutation(
            resources_counters(s1),
            resources_counters(s2),
            b,
        );
    }
}

proof fn lemma_sum_steps_split(s: Seq<CallInfo>, k: int)
    requires
        0 <= k <= s.len(),
    ensures
        sum_n_steps(s) == sum_n_steps(s.take(k)) + sum_n_steps(s.skip(k)),
    decreases s.len(),
{
    if k == s.len() {
        assert(s.take(k) =~= s);
        assert(s.skip(k) =~= Seq::<CallInfo>::empty());
    } else {
        lemma_sum_steps_split(s.drop_last(), k);
        assert(s.drop_last().take(k) =~= s.take(k));
        assert(s.skip(k).drop_last() =~= s.drop_last().skip(k));
        assert(s.skip(k).last() == s.last());
    }
}

proof fn lemma_sum_holes_split(s: Seq<CallInfo>, k: int)
    requires
        0 <= k <= s.len(),
    ensures
        sum_memory_holes(s) == sum_memory_holes(s.take(k)) + sum_memory_holes(s.skip(k)),
    decreases s.len(),
{
    if k == s.len() {
        assert(s.take(k) =~= s);
        assert(s.skip(k) =~= Seq::<CallInfo>::empty());
    } else {
        lemma_sum_holes_split(s.drop_last(), k);
        assert(s.drop_last().take(k) =~= s.take(k));
        assert(s.skip(k).drop_last() =~= s.drop_last().skip(k));
        assert(s.skip(k).last() == s.last());
    }
}

} // verus!
