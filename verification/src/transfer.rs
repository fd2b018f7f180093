//! The host/device data transfer path, modeled at word level.
//!
//! Matrix data moves as flat arrays of 32-bit words (the bit patterns of the
//! matrix elements).  An upload copies the data into the front of the target
//! buffer through a throwaway host-visible, host-coherent staging buffer; a
//! download copies the front of the source buffer out through a staging
//! buffer that is additionally host-cached for read efficiency.  Both are
//! complete, blocking round trips: the engine waits for the device to go
//! fully idle before the staging resources are destroyed, so the target
//! holds exactly the transferred words afterwards.  A transfer larger than
//! the destination's capacity is rejected, never clamped.

use vstd::prelude::*;

use crate::errors::EngineError;
use crate::memtype::{
    MEMORY_PROPERTY_HOST_CACHED, MEMORY_PROPERTY_HOST_COHERENT, MEMORY_PROPERTY_HOST_VISIBLE,
};

verus! {

/// Buffer usage bit: source of a transfer.
pub const BUFFER_USAGE_TRANSFER_SRC: u32 = 0x1;

/// Buffer usage bit: destination of a transfer.
pub const BUFFER_USAGE_TRANSFER_DST: u32 = 0x2;

/// Buffer usage bit: storage buffer bound to a compute shader.
pub const BUFFER_USAGE_STORAGE_BUFFER: u32 = 0x20;

/// The contents of a buffer of `dst.len()` words after uploading `data`
/// into its front: the data, then the untouched tail.
pub open spec fn upload_spec(dst: Seq<u32>, data: Seq<u32>) -> Seq<u32>
    recommends
        data.len() <= dst.len(),
{
    data + dst.skip(data.len() as int)
}

/// The words read back by a download of `count` words from the front of a
/// buffer.
pub open spec fn download_spec(src: Seq<u32>, count: int) -> Seq<u32>
    recommends
        0 <= count <= src.len(),
{
    src.take(count)
}

/// Uploading an array and immediately downloading the same buffer returns
/// the array unchanged, whatever the buffer held before.
pub proof fn lemma_upload_download_roundtrip(dst: Seq<u32>, data: Seq<u32>)
    requires
        data.len() <= dst.len(),
    ensures
        download_spec(upload_spec(dst, data), data.len() as int) == data,
{
    assert(download_spec(upload_spec(dst, data), data.len() as int) =~= data);
}

/// A full-buffer upload determines the buffer's contents completely: two
/// buffers of the same size hold the same words after uploading the same
/// data, whatever each held before.  Repeated invocations on the same
/// operands therefore start from identical transfer state every time.
pub proof fn lemma_full_upload_overwrites(dst1: Seq<u32>, dst2: Seq<u32>, data: Seq<u32>)
    requires
        dst1.len() == data.len(),
        dst2.len() == data.len(),
    ensures
        upload_spec(dst1, data) == data,
        upload_spec(dst1, data) == upload_spec(dst2, data),
{
    assert(upload_spec(dst1, data) =~= data);
    assert(upload_spec(dst2, data) =~= data);
}

/// The visibility flags of the staging buffer of an upload.
pub fn upload_staging_visibility() -> (r: u32)
    ensures
        r == MEMORY_PROPERTY_HOST_VISIBLE | MEMORY_PROPERTY_HOST_COHERENT,
{
    MEMORY_PROPERTY_HOST_VISIBLE | MEMORY_PROPERTY_HOST_COHERENT
}

/// The visibility flags of the staging buffer of a download, host-cached
/// for read efficiency.
pub fn download_staging_visibility() -> (r: u32)
    ensures
        r == MEMORY_PROPERTY_HOST_VISIBLE | MEMORY_PROPERTY_HOST_COHERENT
            | MEMORY_PROPERTY_HOST_CACHED,
{
    MEMORY_PROPERTY_HOST_VISIBLE | MEMORY_PROPERTY_HOST_COHERENT | MEMORY_PROPERTY_HOST_CACHED
}

/// The byte size of `count` words of matrix data, checked against the
/// machine's address range.
pub fn data_size_bytes(count: usize) -> (r: Result<u64, EngineError>)
    ensures
        match r {
            Ok(size) => size == count as int * 4,
            Err(e) => {
                &&& e == EngineError::ContractViolation
                &&& count as int * 4 > u64::MAX
            },
        },
{
    if count as u64 > u64::MAX / 4 {
        return Err(EngineError::ContractViolation);
    }
    Ok((count as u64) * 4)
}

} // verus!
