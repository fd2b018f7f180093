//! Pipeline builder plans.
//!
//! The compute pipeline has a fixed shape: one descriptor set with three
//! storage-buffer bindings (the operands A, B and the product C, in binding
//! order 0, 1, 2), one 4-byte push-constant slot carrying the matrix
//! dimension, and a square workgroup tile baked in through three
//! specialization constants (TILE, TILE, 1).  The functions here produce
//! those plans as plain values with exact contracts; the native layer turns
//! them into backend create-info structures verbatim.

use vstd::prelude::*;

use crate::spirv::word_of_le_bytes;

verus! {

/// Shader stage bit: compute.
pub const SHADER_STAGE_COMPUTE: u32 = 0x20;

/// Descriptor type code: storage buffer.
pub const DESCRIPTOR_TYPE_STORAGE_BUFFER: u32 = 7;

/// Query type code: timestamp.
pub const QUERY_TYPE_TIMESTAMP: u32 = 2;

/// Binding range covering the whole buffer.
pub const WHOLE_SIZE: u64 = 0xffff_ffff_ffff_ffff;

/// One binding of the descriptor-set layout.
#[derive(Clone, Copy, Debug, PartialEq, Eq, Structural)]
pub struct BindingDesc {
    pub binding: u32,
    pub descriptor_type: u32,
    pub descriptor_count: u32,
    pub stage_flags: u32,
}

/// The single push-constant range of the pipeline layout.
#[derive(Clone, Copy, Debug, PartialEq, Eq, Structural)]
pub struct PushConstantRangeDesc {
    pub stage_flags: u32,
    pub offset: u32,
    pub size: u32,
}

/// One specialization-constant map entry.
#[derive(Clone, Copy, Debug, PartialEq, Eq, Structural)]
pub struct SpecMapEntry {
    pub constant_id: u32,
    pub offset: u32,
    pub size: u32,
}

/// Capacity of the per-invocation descriptor pool.
#[derive(Clone, Copy, Debug, PartialEq, Eq, Structural)]
pub struct DescriptorPoolPlan {
    pub max_sets: u32,
    pub storage_buffer_descriptors: u32,
}

/// Shape of the timestamp query pool.
#[derive(Clone, Copy, Debug, PartialEq, Eq, Structural)]
pub struct QueryPoolPlan {
    pub query_type: u32,
    pub query_count: u32,
}

/// The three operand buffers of the engine.
#[derive(Clone, Copy, Debug, PartialEq, Eq, Structural)]
pub enum OperandBuffer {
    A,
    B,
    C,
}

/// One descriptor write binding an operand buffer to a slot of the set.
#[derive(Clone, Copy, Debug, PartialEq, Eq, Structural)]
pub struct DescriptorWrite {
    pub dst_binding: u32,
    pub buffer: OperandBuffer,
    pub offset: u64,
    pub range: u64,
}

/// The binding expected at slot `i` of the descriptor-set layout: one
/// storage buffer visible to the compute stage.
pub open spec fn layout_binding(i: int) -> BindingDesc {
    BindingDesc {
        binding: i as u32,
        descriptor_type: DESCRIPTOR_TYPE_STORAGE_BUFFER,
        descriptor_count: 1u32,
        stage_flags: SHADER_STAGE_COMPUTE,
    }
}

/// The descriptor-set layout: three storage-buffer bindings 0, 1, 2 with
/// compute-stage visibility.
pub fn descriptor_set_layout_bindings() -> (r: Vec<BindingDesc>)
    ensures
        r@ == seq![layout_binding(0), layout_binding(1), layout_binding(2)],
{
    let mut r: Vec<BindingDesc> = Vec::new();
    r.push(BindingDesc {
        binding: 0,
        descriptor_type: DESCRIPTOR_TYPE_STORAGE_BUFFER,
        descriptor_count: 1,
        stage_flags: SHADER_STAGE_COMPUTE,
    });
    r.push(BindingDesc {
        binding: 1,
        descriptor_type: DESCRIPTOR_TYPE_STORAGE_BUFFER,
        descriptor_count: 1,
        stage_flags: SHADER_STAGE_COMPUTE,
    });
    r.push(BindingDesc {
        binding: 2,
        descriptor_type: DESCRIPTOR_TYPE_STORAGE_BUFFER,
        descriptor_count: 1,
        stage_flags: SHADER_STAGE_COMPUTE,
    });
    proof {
        assert(r@ =~= seq![layout_binding(0), layout_binding(1), layout_binding(2)]);
    }
    r
}

/// The pipeline layout's push-constant range: 4 bytes at offset 0, visible
/// to the compute stage, carrying the matrix dimension.
pub fn push_constant_range() -> (r: PushConstantRangeDesc)
    ensures
        r == (PushConstantRangeDesc { stage_flags: SHADER_STAGE_COMPUTE, offset: 0u32, size: 4u32 }),
{
    PushConstantRangeDesc { stage_flags: SHADER_STAGE_COMPUTE, offset: 0, size: 4 }
}

/// The specialization map: constant `i` reads 4 bytes at offset `4 * i` of
/// the specialization data, for the three workgroup dimensions.
pub fn specialization_map_entries() -> (r: Vec<SpecMapEntry>)
    ensures
        r@.len() == 3,
        forall|i: int|
            0 <= i < 3 ==> #[trigger] r@[i] == (SpecMapEntry {
                constant_id: i as u32,
                offset: (4 * i) as u32,
                size: 4u32,
            }),
{
    let mut r: Vec<SpecMapEntry> = Vec::new();
    r.push(SpecMapEntry { constant_id: 0, offset: 0, size: 4 });
    r.push(SpecMapEntry { constant_id: 1, offset: 4, size: 4 });
    r.push(SpecMapEntry { constant_id: 2, offset: 8, size: 4 });
    r
}

/// The 12 bytes of specialization data fixing the workgroup shape at
/// (tile, tile, 1), each dimension a little-endian 32-bit word.
pub fn specialization_data(tile: u32) -> (r: Vec<u8>)
    ensures
        r@.len() == 12,
        word_of_le_bytes(r@[0], r@[1], r@[2], r@[3]) == tile,
        word_of_le_bytes(r@[4], r@[5], r@[6], r@[7]) == tile,
        word_of_le_bytes(r@[8], r@[9], r@[10], r@[11]) == 1u32,
{
    let mut r = crate::spirv::word_to_le_bytes(tile);
    let second = crate::spirv::word_to_le_bytes(tile);
    let third = crate::spirv::word_to_le_bytes(1);
    let mut i: usize = 0;
    while i < 4
        invariant
            second@.len() == 4,
            r@.len() == 4 + i as int,
            i <= 4,
            word_of_le_bytes(r@[0], r@[1], r@[2], r@[3]) == tile,
            forall|j: int| 0 <= j < i as int ==> r@[4 + j] == second@[j],
        decreases 4 - i,
    {
        r.push(second[i]);
        i = i + 1;
    }
    let mut i: usize = 0;
    while i < 4
        invariant
            third@.len() == 4,
            r@.len() == 8 + i as int,
            i <= 4,
            word_of_le_bytes(r@[0], r@[1], r@[2], r@[3]) == tile,
            word_of_le_bytes(r@[4], r@[5], r@[6], r@[7]) == tile,
            forall|j: int| 0 <= j < i as int ==> r@[8 + j] == third@[j],
        decreases 4 - i,
    {
        r.push(third[i]);
        i = i + 1;
    }
    r
}

/// The 4-byte push constant carrying the matrix dimension, little-endian.
pub fn push_constant_bytes(n: u32) -> (r: Vec<u8>)
    ensures
        r@.len() == 4,
        word_of_le_bytes(r@[0], r@[1], r@[2], r@[3]) == n,
{
    crate::spirv::word_to_le_bytes(n)
}

/// The descriptor pool is sized for exactly one set of three storage-buffer
/// descriptors per invocation.
pub fn descriptor_pool_plan() -> (r: DescriptorPoolPlan)
    ensures
        r == (DescriptorPoolPlan { max_sets: 1u32, storage_buffer_descriptors: 3u32 }),
{
    DescriptorPoolPlan { max_sets: 1, storage_buffer_descriptors: 3 }
}

/// The query pool holds exactly two timestamp slots: dispatch-start and
/// dispatch-end.
pub fn query_pool_plan() -> (r: QueryPoolPlan)
    ensures
        r == (QueryPoolPlan { query_type: QUERY_TYPE_TIMESTAMP, query_count: 2u32 }),
{
    QueryPoolPlan { query_type: QUERY_TYPE_TIMESTAMP, query_count: 2 }
}

/// The descriptor write expected at slot `i`: operand A, B, C at bindings
/// 0, 1, 2, each covering its whole buffer from offset 0.
pub open spec fn expected_write(i: int) -> DescriptorWrite {
    DescriptorWrite {
        dst_binding: i as u32,
        buffer: if i == 0 {
            OperandBuffer::A
        } else if i == 1 {
            OperandBuffer::B
        } else {
            OperandBuffer::C
        },
        offset: 0u64,
        range: WHOLE_SIZE,
    }
}

/// The three descriptor writes of one invocation: buffers A, B, C at
/// bindings 0, 1, 2, whole-buffer ranges.
pub fn update_descriptor_set_writes() -> (r: Vec<DescriptorWrite>)
    ensures
        r@ == seq![expected_write(0), expected_write(1), expected_write(2)],
{
    let mut r: Vec<DescriptorWrite> = Vec::new();
    r.push(DescriptorWrite {
        dst_binding: 0,
        buffer: OperandBuffer::A,
        offset: 0,
        range: WHOLE_SIZE,
    });
    r.push(DescriptorWrite {
        dst_binding: 1,
        buffer: OperandBuffer::B,
        offset: 0,
        range: WHOLE_SIZE,
    });
    r.push(DescriptorWrite {
        dst_binding: 2,
        buffer: OperandBuffer::C,
        offset: 0,
        range: WHOLE_SIZE,
    });
    proof {
        assert(r@ =~= seq![expected_write(0), expected_write(1), expected_write(2)]);
    }
    r
}

} // verus!
