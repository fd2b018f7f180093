//! Verified core of a GPU compute offload engine for dense square matrix
//! multiplication.
//!
//! The engine selects a capable device, allocates device buffers, builds a
//! compute pipeline from precompiled shader bytecode, and runs a fully
//! synchronous upload -> dispatch -> download round trip with timestamp
//! profiling.  Everything that decides or computes lives here with a proved
//! contract: device and queue-family selection, memory-type selection, shader
//! bytecode decoding, the pipeline and dispatch plans, the host/device data
//! transfer model, and the per-invocation resource state machine.  The thin
//! layer that performs the native GPU calls follows the plans produced here.

pub mod device;
pub mod dispatch;
pub mod engine;
pub mod errors;
pub mod memtype;
pub mod pipeline;
pub mod spirv;
pub mod transfer;
