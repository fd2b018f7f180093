//! Failure taxonomy of the engine.
//!
//! Every fallible operation returns one of these variants; each contract in
//! the crate states exactly on which inputs a variant is produced.  Backend
//! rejections (resource creation, command execution) are reported by the
//! native layer as events; the verified state machine converts them to the
//! matching variant without retrying.

use vstd::prelude::*;

verus! {

/// Why a device was rejected during bootstrap, in the order the checks run.
#[derive(Clone, Copy, Debug, PartialEq, Eq, Structural)]
pub enum InitFailure {
    /// The device does not support API version 1.2 or newer.
    UnsupportedApiVersion,
    /// The device lacks fragment stores-and-atomics support.
    MissingFragmentStoresAndAtomics,
    /// The device lacks vertex-pipeline stores-and-atomics support.
    MissingVertexPipelineStoresAndAtomics,
    /// The device cannot issue timestamp queries on compute queues.
    NoTimestampSupport,
    /// The device reports a zero timestamp tick period.
    ZeroTimestampPeriod,
    /// A required device extension is not present.
    MissingDeviceExtension,
    /// No enumerated device passed every suitability check.
    NoSuitableDevice,
    /// No queue family offers compute work with a nonzero queue count.
    NoComputeQueue,
}

/// The engine's failure taxonomy.
#[derive(Clone, Copy, Debug, PartialEq, Eq, Structural)]
pub enum EngineError {
    /// Bootstrap failed: no suitable device, missing extension or feature,
    /// or unsupported API version.
    InitializationFailure(InitFailure),
    /// No memory-type index satisfies both the buffer's requirement mask and
    /// the requested visibility flags.  Hard failure, never retried with
    /// relaxed flags.
    MemoryTypeUnavailable,
    /// The shader bytecode artifact was unreadable or malformed.
    ShaderLoadFailure,
    /// The backend rejected creation of a buffer, shader module, pipeline,
    /// or descriptor/query pool.
    ResourceCreationFailure,
    /// The backend rejected a begin/end/submit/idle-wait/query-readback.
    CommandExecutionFailure,
    /// A dispatch grid exceeded device limits, a transfer exceeded the
    /// destination's capacity, or a dimension failed validation.  Never
    /// silently clamped.
    ContractViolation,
}

} // verus!
