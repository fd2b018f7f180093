//! Memory-type selection.
//!
//! A buffer's memory requirements are a bitmask of acceptable memory-type
//! indices; the device publishes a table of memory types, each with property
//! flags.  The allocator scans that table in ascending index order and takes
//! the first index whose bit is set in the requirement mask and whose flags
//! are a superset of the desired visibility flags.

use vstd::prelude::*;

use crate::errors::EngineError;

verus! {

/// Memory that is local to the device (fastest for shader access).
pub const MEMORY_PROPERTY_DEVICE_LOCAL: u32 = 0x1;

/// Memory the host can map.
pub const MEMORY_PROPERTY_HOST_VISIBLE: u32 = 0x2;

/// Host writes become visible to the device without explicit flushes.
pub const MEMORY_PROPERTY_HOST_COHERENT: u32 = 0x4;

/// Host reads of this memory go through the host cache.
pub const MEMORY_PROPERTY_HOST_CACHED: u32 = 0x8;

/// The property table of a device never has more than this many entries,
/// so a requirement mask of 32 bits covers every index.
pub const MAX_MEMORY_TYPES: usize = 32;

/// `flags` grants everything `desired` asks for.
pub open spec fn flags_superset(flags: u32, desired: u32) -> bool {
    flags & desired == desired
}

/// Index `i` of the property table qualifies: its bit is set in the
/// requirement mask and its flags are a superset of the desired flags.
pub open spec fn memory_type_matches(
    memory_type_flags: Seq<u32>,
    supported_memory_type_bits: u32,
    desired_memory_flags: u32,
    i: int,
) -> bool {
    &&& 0 <= i < memory_type_flags.len()
    &&& supported_memory_type_bits & (1u32 << (i as u32)) != 0
    &&& flags_superset(memory_type_flags[i], desired_memory_flags)
}

/// Scans the device's memory-type table in ascending index order and returns
/// the first index that qualifies, or `MemoryTypeUnavailable` if none does.
///
/// `memory_type_flags[i]` is the property-flag word of memory type `i`.
pub fn get_supported_memory_property_index(
    memory_type_flags: &Vec<u32>,
    supported_memory_type_bits: u32,
    desired_memory_flags: u32,
) -> (r: Result<u32, EngineError>)
    requires
        memory_type_flags@.len() <= MAX_MEMORY_TYPES,
    ensures
        match r {
            Ok(i) => {
                &&& memory_type_matches(
                    memory_type_flags@,
                    supported_memory_type_bits,
                    desired_memory_flags,
                    i as int,
                )
                &&& forall|j: int|
                    0 <= j < i as int ==> !memory_type_matches(
                        memory_type_flags@,
                        supported_memory_type_bits,
                        desired_memory_flags,
                        j,
                    )
            },
            Err(e) => {
                &&& e == EngineError::MemoryTypeUnavailable
                &&& forall|j: int|
                    !memory_type_matches(
                        memory_type_flags@,
                        supported_memory_type_bits,
                        desired_memory_flags,
                        j,
                    )
            },
        },
{
    let count = memory_type_flags.len();
    let mut i: usize = 0;
    while i < count
        invariant
            count == memory_type_flags@.len() <= MAX_MEMORY_TYPES,
            i <= count,
            forall|j: int|
                0 <= j < i as int ==> !memory_type_matches(
                    memory_type_flags@,
                    supported_memory_type_bits,
                    desired_memory_flags,
                    j,
                ),
        decreases count - i,
    {
        let bit_set = supported_memory_type_bits & (1u32 << (i as u32)) != 0;
        let flags = memory_type_flags[i];
        if bit_set && flags & desired_memory_flags == desired_memory_flags {
            return Ok(i as u32);
        }
        i = i + 1;
    }
    Err(EngineError::MemoryTypeUnavailable)
}

} // verus!
