//! Shader bytecode decoding.
//!
//! A precompiled shader artifact is a sequence of 32-bit words.  The byte
//! stream is well formed when it is nonempty, its length is a multiple of
//! four, and its first word is the bytecode magic number in either byte
//! order; when the first word carries the magic number byte-swapped, every
//! word of the artifact is byte-swapped while decoding.  A malformed stream
//! is rejected with `ShaderLoadFailure`.  Reading the artifact from disk is
//! the native layer's job; the decision of what the bytes mean is made here.

use vstd::prelude::*;

use crate::errors::EngineError;

verus! {

/// The magic number that opens every shader bytecode artifact.
pub const SPIRV_MAGIC: u32 = 0x0723_0203;

/// The 32-bit word with little-endian bytes `b0..b3`.
pub open spec fn word_of_le_bytes(b0: u8, b1: u8, b2: u8, b3: u8) -> u32 {
    (b0 as u32) | ((b1 as u32) << 8) | ((b2 as u32) << 16) | ((b3 as u32) << 24)
}

/// Word `i` of the byte stream read little-endian.
pub open spec fn le_word_at(bytes: Seq<u8>, i: int) -> u32 {
    word_of_le_bytes(bytes[4 * i], bytes[4 * i + 1], bytes[4 * i + 2], bytes[4 * i + 3])
}

/// Word `i` of the byte stream read big-endian (byte-swapped).
pub open spec fn be_word_at(bytes: Seq<u8>, i: int) -> u32 {
    word_of_le_bytes(bytes[4 * i + 3], bytes[4 * i + 2], bytes[4 * i + 1], bytes[4 * i])
}

/// The byte stream is a well-formed shader artifact.
pub open spec fn spirv_well_formed(bytes: Seq<u8>) -> bool {
    &&& bytes.len() > 0
    &&& bytes.len() % 4 == 0
    &&& (le_word_at(bytes, 0) == SPIRV_MAGIC || be_word_at(bytes, 0) == SPIRV_MAGIC)
}

/// The decoded words of a well-formed artifact: read little-endian, unless
/// only the byte-swapped reading carries the magic number.
pub open spec fn spirv_words(bytes: Seq<u8>) -> Seq<u32> {
    if le_word_at(bytes, 0) == SPIRV_MAGIC {
        Seq::new((bytes.len() / 4) as nat, |i: int| le_word_at(bytes, i))
    } else {
        Seq::new((bytes.len() / 4) as nat, |i: int| be_word_at(bytes, i))
    }
}

/// Decodes a shader bytecode artifact into its 32-bit words, or rejects a
/// malformed one with `ShaderLoadFailure`.
pub fn decode_spirv(bytes: &Vec<u8>) -> (r: Result<Vec<u32>, EngineError>)
    ensures
        match r {
            Ok(words) => {
                &&& spirv_well_formed(bytes@)
                &&& words@ == spirv_words(bytes@)
                &&& words@.len() == bytes@.len() / 4
                &&& words@[0] == SPIRV_MAGIC
            },
            Err(e) => {
                &&& e == EngineError::ShaderLoadFailure
                &&& !spirv_well_formed(bytes@)
            },
        },
{
    if bytes.len() == 0 || bytes.len() % 4 != 0 {
        return Err(EngineError::ShaderLoadFailure);
    }
    let count = bytes.len() / 4;
    let first_le = word_at_le(bytes, 0);
    let swapped = if first_le == SPIRV_MAGIC {
        false
    } else {
        let first_be = word_at_be(bytes, 0);
        if first_be == SPIRV_MAGIC {
            true
        } else {
            return Err(EngineError::ShaderLoadFailure);
        }
    };
    let mut words: Vec<u32> = Vec::new();
    let mut i: usize = 0;
    while i < count
        invariant
            bytes@.len() % 4 == 0,
            count == bytes@.len() / 4,
            0 < count <= usize::MAX / 4 + 1,
            4 * count == bytes@.len(),
            i <= count,
            words@.len() == i as int,
            !swapped ==> le_word_at(bytes@, 0) == SPIRV_MAGIC,
            swapped ==> le_word_at(bytes@, 0) != SPIRV_MAGIC && be_word_at(bytes@, 0)
                == SPIRV_MAGIC,
            forall|j: int|
                0 <= j < i as int ==> #[trigger] words@[j] == if swapped {
                    be_word_at(bytes@, j)
                } else {
                    le_word_at(bytes@, j)
                },
        decreases count - i,
    {
        let w = if swapped {
            word_at_be(bytes, i)
        } else {
            word_at_le(bytes, i)
        };
        words.push(w);
        i = i + 1;
    }
    proof {
        assert(words@ =~= spirv_words(bytes@));
    }
    Ok(words)
}

/// Reads word `i` of the byte stream little-endian.
fn word_at_le(bytes: &Vec<u8>, i: usize) -> (r: u32)
    requires
        bytes@.len() % 4 == 0,
        (i as int) < bytes@.len() / 4,
    ensures
        r == le_word_at(bytes@, i as int),
{
    let n = bytes.len();
    assert(4 * (i as int) + 4 <= n as int);
    let base = 4 * i;
    let b0 = bytes[base];
    let b1 = bytes[base + 1];
    let b2 = bytes[base + 2];
    let b3 = bytes[base + 3];
    (b0 as u32) | ((b1 as u32) << 8) | ((b2 as u32) << 16) | ((b3 as u32) << 24)
}

/// Reads word `i` of the byte stream big-endian.
fn word_at_be(bytes: &Vec<u8>, i: usize) -> (r: u32)
    requires
        bytes@.len() % 4 == 0,
        (i as int) < bytes@.len() / 4,
    ensures
        r == be_word_at(bytes@, i as int),
{
    let n = bytes.len();
    assert(4 * (i as int) + 4 <= n as int);
    let base = 4 * i;
    let b0 = bytes[base];
    let b1 = bytes[base + 1];
    let b2 = bytes[base + 2];
    let b3 = bytes[base + 3];
    (b3 as u32) | ((b2 as u32) << 8) | ((b1 as u32) << 16) | ((b0 as u32) << 24)
}

/// The little-endian bytes of a 32-bit word, for push constants and
/// specialization data handed to the pipeline.
pub fn word_to_le_bytes(x: u32) -> (r: Vec<u8>)
    ensures
        r@.len() == 4,
        word_of_le_bytes(r@[0], r@[1], r@[2], r@[3]) == x,
{
    let b0 = (x & 0xff) as u8;
    let b1 = ((x >> 8) & 0xff) as u8;
    let b2 = ((x >> 16) & 0xff) as u8;
    let b3 = ((x >> 24) & 0xff) as u8;
    let mut r: Vec<u8> = Vec::new();
    r.push(b0);
    r.push(b1);
    r.push(b2);
    r.push(b3);
    proof {
        assert((((x & 0xff) as u8) as u32) | (((((x >> 8) & 0xff) as u8) as u32) << 8) | (((((x
            >> 16) & 0xff) as u8) as u32) << 16) | (((((x >> 24) & 0xff) as u8) as u32) << 24)
            == x) by (bit_vector);
    }
    r
}

} // verus!
