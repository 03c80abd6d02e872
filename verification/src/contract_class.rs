//! Compiled artifacts and entry-point resolution.  An artifact is one of
//! three interchangeable backend forms — interpreted bytecode, a loaded
//! native executable, or an emulated program — and each maps an entry-point
//! selector to an internal function identifier.  Resolution is a pure
//! function of the artifact and the selector.
use vstd::prelude::*;

use crate::call_info::{EntryPointType, TrackedResource};
use crate::errors::{PreExecutionError, TransactionExecutionError};
use crate::felt::EntryPointSelector;
use crate::segments::{tree_len, visited_segments_result_matches, SegmentTree};

verus! {

/// One entry point of a compiled artifact: the selector it is reached by
/// and the internal function it names.
#[derive(Clone, Copy, Debug, PartialEq, Eq, Structural)]
pub struct EntryPointV1 {
    pub selector: EntryPointSelector,
    pub function_id: u64,
}

/// The entry points of an artifact, grouped by kind.
#[derive(Clone, Debug, PartialEq, Eq)]
pub struct EntryPointsByType {
    pub constructor: Vec<EntryPointV1>,
    pub external: Vec<EntryPointV1>,
    pub l1_handler: Vec<EntryPointV1>,
}

/// The first entry point in the list carrying the given selector.
pub open spec fn resolve_spec(eps: Seq<EntryPointV1>, selector: EntryPointSelector) -> Option<
    EntryPointV1,
>
    decreases eps.len(),
{
    if eps.len() == 0 {
        None
    } else if eps.first().selector == selector {
        Some(eps.first())
    } else {
        resolve_spec(eps.drop_first(), selector)
    }
}

impl EntryPointsByType {
    /// The entry points of one kind.
    pub open spec fn of_type(self, t: EntryPointType) -> Seq<EntryPointV1> {
        match t {
            EntryPointType::Constructor => self.constructor@,
            EntryPointType::External => self.external@,
            EntryPointType::L1Handler => self.l1_handler@,
        }
    }

    fn lookup(eps: &Vec<EntryPointV1>, selector: EntryPointSelector) -> (r: Option<EntryPointV1>)
        ensures
            r == resolve_spec(eps@, selector),
    {
        let mut k: usize = 0;
        proof {
            assert(eps@.skip(0) =~= eps@);
        }
        while k < eps.len()
            invariant
                k <= eps@.len(),
                resolve_spec(eps@, selector) == resolve_spec(eps@.skip(k as int), selector),
                forall|j: int| 0 <= j < k ==> eps@[j].selector != selector,
            decreases eps@.len() - k,
        {
            proof {
                assert(eps@.skip(k as int).first() == eps@[k as int]);
                assert(eps@.skip(k as int).drop_first() =~= eps@.skip(k as int + 1));
            }
            if eps[k].selector == selector {
                return Some(eps[k]);
            }
            k += 1;
        }
        proof {
            assert(eps@.skip(eps@.len() as int) =~= Seq::<EntryPointV1>::empty());
        }
        None
    }

    /// Resolves the entry point of the given kind and selector; fails with
    /// `EntryPointNotFound` exactly when the selector is absent, before any
    /// code of the callee runs.
    pub fn get_entry_point(&self, t: EntryPointType, selector: EntryPointSelector) -> (r: Result<
        EntryPointV1,
        PreExecutionError,
    >)
        ensures
            match resolve_spec(self.of_type(t), selector) {
                Some(ep) => r == Ok::<EntryPointV1, PreExecutionError>(ep),
                None => r == Err::<EntryPointV1, PreExecutionError>(
                    PreExecutionError::EntryPointNotFound(selector),
                ),
            },
    {
        let eps = match t {
            EntryPointType::Constructor => &self.constructor,
            EntryPointType::External => &self.external,
            EntryPointType::L1Handler => &self.l1_handler,
        };
        match Self::lookup(eps, selector) {
            Some(ep) => Ok(ep),
            None => Err(PreExecutionError::EntryPointNotFound(selector)),
        }
    }
}

/// Entry-point resolution is a pure function of the artifact's entry-point
/// table and the selector: equal inputs resolve to the same function
/// identifier, or consistently fail.
pub proof fn lemma_entry_point_resolution_deterministic(
    a1: EntryPointsByType,
    a2: EntryPointsByType,
    t1: EntryPointType,
    t2: EntryPointType,
    s1: EntryPointSelector,
    s2: EntryPointSelector,
)
    requires
        a1 == a2,
        t1 == t2,
        s1 == s2,
    ensures
        resolve_spec(a1.of_type(t1), s1) == resolve_spec(a2.of_type(t2), s2),
{
}

/// The same, lifted to whole artifacts: resolution is a pure function of
/// the artifact and the selector, whichever backend form the artifact
/// takes.
pub proof fn lemma_artifact_resolution_deterministic(
    a1: CompiledArtifact,
    a2: CompiledArtifact,
    t1: EntryPointType,
    t2: EntryPointType,
    s1: EntryPointSelector,
    s2: EntryPointSelector,
)
    requires
        a1 == a2,
        t1 == t2,
        s1 == s2,
    ensures
        resolve_spec(a1.entry_points_spec().of_type(t1), s1) == resolve_spec(
            a2.entry_points_spec().of_type(t2),
            s2,
        ),
{
}

/// An interpreted-bytecode artifact: its entry points and the segment tree
/// its bytecode is partitioned by.
#[derive(Debug, PartialEq, Eq)]
pub struct CompiledClassV1 {
    pub entry_points_by_type: EntryPointsByType,
    pub bytecode_segment_lengths: SegmentTree,
}

impl CompiledClassV1 {
    /// Validates the visited program-counter offsets against this
    /// artifact's segment tree: returns the sorted, deduplicated boundary
    /// offsets that were genuinely entered, or rejects the trace; see
    /// [`SegmentTree::get_visited_segments`].
    pub fn get_visited_segments(&self, visited_pcs: &Vec<usize>) -> (r: Result<
        Vec<usize>,
        TransactionExecutionError,
    >)
        requires
            tree_len(self.bytecode_segment_lengths) <= usize::MAX as int,
        ensures
            visited_segments_result_matches(self.bytecode_segment_lengths, visited_pcs@, r),
    {
        self.bytecode_segment_lengths.get_visited_segments(visited_pcs)
    }
}

/// A loaded ahead-of-time-compiled artifact; the callable executable itself
/// lives with the execution environment, the model keeps what resolution
/// reads.
#[derive(Clone, Debug, PartialEq, Eq)]
pub struct NativeContractClassV1 {
    pub entry_points_by_type: EntryPointsByType,
}

/// An artifact run by the software emulator.
#[derive(Clone, Debug, PartialEq, Eq)]
pub struct EmulatedContractClass {
    pub entry_points_by_type: EntryPointsByType,
}

/// A compiled artifact in one of the three interchangeable backend forms.
#[derive(Debug, PartialEq, Eq)]
pub enum CompiledArtifact {
    Interpreted(CompiledClassV1),
    NativeAot(NativeContractClassV1),
    Emulated(EmulatedContractClass),
}

impl CompiledArtifact {
    /// The artifact's entry-point table.
    pub open spec fn entry_points_spec(self) -> EntryPointsByType {
        match self {
            CompiledArtifact::Interpreted(c) => c.entry_points_by_type,
            CompiledArtifact::NativeAot(c) => c.entry_points_by_type,
            CompiledArtifact::Emulated(c) => c.entry_points_by_type,
        }
    }

    /// The artifact's entry-point table.
    pub fn entry_points(&self) -> (r: &EntryPointsByType)
        ensures
            *r == self.entry_points_spec(),
    {
        match self {
            CompiledArtifact::Interpreted(c) => &c.entry_points_by_type,
            CompiledArtifact::NativeAot(c) => &c.entry_points_by_type,
            CompiledArtifact::Emulated(c) => &c.entry_points_by_type,
        }
    }

    /// Resolves the entry point of the given kind and selector within this
    /// artifact; fails with `EntryPointNotFound` exactly when the selector
    /// is absent, before any code of the callee runs.
    pub fn get_entry_point(&self, t: EntryPointType, selector: EntryPointSelector) -> (r: Result<
        EntryPointV1,
        PreExecutionError,
    >)
        ensures
            match resolve_spec(self.entry_points_spec().of_type(t), selector) {
                Some(ep) => r == Ok::<EntryPointV1, PreExecutionError>(ep),
                None => r == Err::<EntryPointV1, PreExecutionError>(
                    PreExecutionError::EntryPointNotFound(selector),
                ),
            },
    {
        self.entry_points().get_entry_point(t, selector)
    }

    /// The cost model a call through this artifact is metered under:
    /// step-based for the interpreted path, gas-based otherwise.
    pub fn tracked_resource(&self) -> (r: TrackedResource)
        ensures
            r == (match self {
                CompiledArtifact::Interpreted(_) => TrackedResource::CairoSteps,
                _ => TrackedResource::SierraGas,
            }),
    {
        match self {
            CompiledArtifact::Interpreted(_) => TrackedResource::CairoSteps,
            CompiledArtifact::NativeAot(_) => TrackedResource::SierraGas,
            CompiledArtifact::Emulated(_) => TrackedResource::SierraGas,
        }
    }
}

} // verus!
