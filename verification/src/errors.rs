//! The error taxonomy of the execution core: pre-execution failures (the
//! callee's code never runs), fatal post-execution violations, backend
//! faults, and structural segment errors.
use vstd::prelude::*;
use crate::felt::EntryPointSelector;

verus! {

/// An error raised before the entry point's code runs; no state is mutated.
#[derive(Clone, Debug, PartialEq, Eq, Structural)]
pub enum PreExecutionError {
    /// The artifact has no entry point under the requested selector.
    EntryPointNotFound(EntryPointSelector),
    /// The call's initial gas is below the fixed entry-point initial budget.
    InsufficientEntryPointGas,
}

/// A fatal error detected after the backend returned: the backend broke a
/// protocol invariant, so the call aborts instead of producing a flagged
/// failure.
#[derive(Clone, Debug, PartialEq, Eq, Structural)]
pub enum PostExecutionError {
    /// The backend reported more remaining gas than the call started with.
    MalformedReturnData { remaining_gas: u64, initial_gas: u64 },
}

/// Any way an entry-point invocation can fail as a whole.
#[derive(Clone, Debug, PartialEq, Eq)]
pub enum EntryPointExecutionError {
    PreExecution(PreExecutionError),
    /// The native backend returned an error instead of an execution outcome.
    NativeUnexpectedError(String),
    /// A syscall hit an unrecoverable fault; the call aborts and is not
    /// billable as ordinary execution.
    NativeUnrecoverableError(String),
    PostExecution(PostExecutionError),
}

/// A structural error: the visited-offset trace does not fit the artifact's
/// declared segment tree.
#[derive(Clone, Copy, Debug, PartialEq, Eq, Structural)]
pub enum TransactionExecutionError {
    /// `InvalidSegmentStructure(unexpected_offset, required_boundary)`: the
    /// offset was visited inside a segment whose start `required_boundary`
    /// was never visited.
    InvalidSegmentStructure(usize, usize),
}

} // verus!
