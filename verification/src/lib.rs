//! Contract-execution core of a sequencer: entry-point dispatch over several
//! execution backends, syscall value bridging, gas and builtin resource
//! accounting, and selective costing of visited bytecode segments.
pub mod bridge;
pub mod call_info;
pub mod context;
pub mod contract_class;
pub mod entry_point_execution;
pub mod builtins;
pub mod encoding;
pub mod errors;
pub mod felt;
pub mod segments;
pub mod test_utils;
pub mod utils;
