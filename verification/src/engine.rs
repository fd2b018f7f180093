//! The command execution engine and its resource state machine.
//!
//! The engine owns three device buffers sized to the N x N matrix (operands
//! A and B, product C), a pipeline built once at construction, and the
//! per-invocation pools.  One invocation walks the fixed protocol
//! `Idle -> Recording -> Submitted -> Idle`: upload both operands, allocate
//! one command buffer and one descriptor set from capacity-one pools, record
//! and submit the dispatch, wait for the device to go fully idle, retire the
//! command buffer and reset both pools, and download the product.  At most
//! one invocation's resources exist at a time, and a failed step leaves the
//! machine outside `Idle` rather than pretending the invocation completed.
//!
//! Buffer contents are modeled as the 32-bit bit patterns of the matrix
//! elements.  The outcome of a backend submission or idle wait is an event
//! the native layer reports; the state machine decides what each outcome
//! means.  The product that the dispatch wrote is handed back at download
//! time and recorded in the model of buffer C.

use vstd::prelude::*;

use crate::dispatch::{dispatch_valid, grid_of, DispatchGrid};
use crate::errors::EngineError;
use crate::memtype::{
    get_supported_memory_property_index, memory_type_matches, MEMORY_PROPERTY_DEVICE_LOCAL,
};
use crate::transfer::{
    download_spec, upload_spec, BUFFER_USAGE_STORAGE_BUFFER, BUFFER_USAGE_TRANSFER_DST,
    BUFFER_USAGE_TRANSFER_SRC,
};

verus! {

/// A device buffer with its backing memory: byte capacity, usage and
/// visibility flags, the chosen memory-type index, and the modeled contents
/// as 32-bit words.
pub struct MemBuffer {
    pub size: u64,
    pub usage: u32,
    pub visibility: u32,
    pub memory_type_index: u32,
    pub words: Vec<u32>,
}

impl View for MemBuffer {
    type V = Seq<u32>;

    open spec fn view(&self) -> Seq<u32> {
        self.words@
    }
}

impl MemBuffer {
    /// The byte capacity covers exactly the modeled words.
    pub open spec fn wf(self) -> bool {
        self.size == self@.len() * 4
    }
}

/// Fresh zeroed words for a newly bound buffer model.
fn zero_words(count: usize) -> (r: Vec<u32>)
    ensures
        r@ == Seq::new(count as nat, |i: int| 0u32),
{
    let mut r: Vec<u32> = Vec::new();
    let mut i: usize = 0;
    while i < count
        invariant
            i <= count,
            r@.len() == i as int,
            forall|j: int| 0 <= j < i as int ==> r@[j] == 0u32,
        decreases count - i,
    {
        r.push(0);
        i = i + 1;
    }
    proof {
        assert(r@ =~= Seq::new(count as nat, |i: int| 0u32));
    }
    r
}

/// Creates a buffer of the given byte size and usage and binds backing
/// memory of the first memory type whose bit is set in the requirement mask
/// and whose property flags are a superset of the desired visibility.
/// Fails with `MemoryTypeUnavailable` if no index qualifies; that failure is
/// hard, never retried with relaxed flags.  One allocation per buffer,
/// bound at offset zero, no sub-allocation or pooling.
pub fn create_mem_buffer(
    memory_type_flags: &Vec<u32>,
    supported_memory_type_bits: u32,
    size: u64,
    usage: u32,
    desired_visibility: u32,
) -> (r: Result<MemBuffer, EngineError>)
    requires
        memory_type_flags@.len() <= 32,
        size % 4 == 0,
        size / 4 <= usize::MAX,
    ensures
        match r {
            Ok(b) => {
                &&& b.wf()
                &&& b.size == size
                &&& b.usage == usage
                &&& b.visibility == desired_visibility
                &&& b@ == Seq::new((size / 4) as nat, |i: int| 0u32)
                &&& memory_type_matches(
                    memory_type_flags@,
                    supported_memory_type_bits,
                    desired_visibility,
                    b.memory_type_index as int,
                )
                &&& forall|j: int|
                    0 <= j < b.memory_type_index as int ==> !memory_type_matches(
                        memory_type_flags@,
                        supported_memory_type_bits,
                        desired_visibility,
                        j,
                    )
            },
            Err(e) => {
                &&& e == EngineError::MemoryTypeUnavailable
                &&& forall|j: int|
                    !memory_type_matches(
                        memory_type_flags@,
                        supported_memory_type_bits,
                        desired_visibility,
                        j,
                    )
            },
        },
{
    let memory_type_index = get_supported_memory_property_index(
        memory_type_flags,
        supported_memory_type_bits,
        desired_visibility,
    )?;
    let count = (size / 4) as usize;
    let words = zero_words(count);
    Ok(MemBuffer { size, usage, visibility: desired_visibility, memory_type_index, words })
}

/// Uploads `data` into the front of the buffer through a staging round
/// trip.  The words of `data` replace the buffer's front; the tail keeps
/// its previous contents.  A transfer larger than the buffer's capacity is
/// rejected with `ContractViolation` and changes nothing.
pub fn copy_data_to_buffer(mem_buffer: &mut MemBuffer, data: &Vec<u32>) -> (r: Result<
    (),
    EngineError,
>)
    requires
        old(mem_buffer).wf(),
    ensures
        final(mem_buffer).wf(),
        final(mem_buffer).size == old(mem_buffer).size,
        final(mem_buffer).usage == old(mem_buffer).usage,
        final(mem_buffer).visibility == old(mem_buffer).visibility,
        final(mem_buffer).memory_type_index == old(mem_buffer).memory_type_index,
        match r {
            Ok(()) => {
                &&& data@.len() <= old(mem_buffer)@.len()
                &&& final(mem_buffer)@ == upload_spec(old(mem_buffer)@, data@)
            },
            Err(e) => {
                &&& e == EngineError::ContractViolation
                &&& data@.len() > old(mem_buffer)@.len()
                &&& final(mem_buffer)@ == old(mem_buffer)@
            },
        },
{
    if data.len() > mem_buffer.words.len() {
        return Err(EngineError::ContractViolation);
    }
    let count = data.len();
    let mut i: usize = 0;
    while i < count
        invariant
            count == data@.len() <= mem_buffer.words@.len(),
            i <= count,
            mem_buffer.words@.len() == old(mem_buffer)@.len(),
            mem_buffer.size == old(mem_buffer).size,
            mem_buffer.usage == old(mem_buffer).usage,
            mem_buffer.visibility == old(mem_buffer).visibility,
            mem_buffer.memory_type_index == old(mem_buffer).memory_type_index,
            forall|j: int| 0 <= j < i as int ==> mem_buffer.words@[j] == data@[j],
            forall|j: int|
                i as int <= j < mem_buffer.words@.len() ==> mem_buffer.words@[j] == old(
                    mem_buffer,
                )@[j],
        decreases count - i,
    {
        mem_buffer.words[i] = data[i];
        i = i + 1;
    }
    proof {
        assert(mem_buffer.words@ =~= upload_spec(old(mem_buffer)@, data@));
    }
    Ok(())
}

/// Downloads the front `count` words of the buffer through a staging round
/// trip.  A read larger than the buffer's capacity is rejected with
/// `ContractViolation`.
pub fn read_data_from_buffer(mem_buffer: &MemBuffer, count: usize) -> (r: Result<
    Vec<u32>,
    EngineError,
>)
    requires
        mem_buffer.wf(),
    ensures
        match r {
            Ok(v) => {
                &&& count <= mem_buffer@.len()
                &&& v@ == download_spec(mem_buffer@, count as int)
            },
            Err(e) => {
                &&& e == EngineError::ContractViolation
                &&& count > mem_buffer@.len()
            },
        },
{
    if count > mem_buffer.words.len() {
        return Err(EngineError::ContractViolation);
    }
    let mut v: Vec<u32> = Vec::new();
    let mut i: usize = 0;
    while i < count
        invariant
            count <= mem_buffer.words@.len(),
            i <= count,
            v@.len() == i as int,
            forall|j: int| 0 <= j < i as int ==> v@[j] == mem_buffer.words@[j],
        decreases count - i,
    {
        v.push(mem_buffer.words[i]);
        i = i + 1;
    }
    proof {
        assert(v@ =~= download_spec(mem_buffer@, count as int));
    }
    Ok(v)
}

/// The per-invocation protocol state.
#[derive(Clone, Copy, Debug, PartialEq, Eq, Structural)]
pub enum Phase {
    Idle,
    Recording,
    Submitted,
}

/// Cached device limits the dispatch must respect.
#[derive(Clone, Copy, Debug, PartialEq, Eq, Structural)]
pub struct DeviceLimits {
    pub max_group_count_x: u32,
    pub max_group_count_y: u32,
}

/// A resource class of the engine, in teardown vocabulary.
#[derive(Clone, Copy, Debug, PartialEq, Eq, Structural)]
pub enum ResourceKind {
    QueryPool,
    DescriptorPool,
    CommandPool,
    Pipeline,
    PipelineLayout,
    DescriptorSetLayout,
    BufferA,
    MemoryA,
    BufferB,
    MemoryB,
    BufferC,
    MemoryC,
    Device,
    Instance,
}

/// The engine: configuration fixed at construction, the three operand
/// buffers, and the per-invocation state machine.
pub struct Engine {
    pub n: u32,
    pub tile: u32,
    pub limits: DeviceLimits,
    pub mem_buffer_a: MemBuffer,
    pub mem_buffer_b: MemBuffer,
    pub mem_buffer_c: MemBuffer,
    pub phase: Phase,
    pub live_command_buffers: u32,
    pub live_descriptor_sets: u32,
    pub alive: bool,
}

/// The construction parameters admit an engine: the tile divides N, the
/// dispatch grid fits the device limits, and an N x N word array fits the
/// machine's address range and the backend's byte sizes.
pub open spec fn dims_ok(n: u32, tile: u32, limits: DeviceLimits) -> bool {
    &&& dispatch_valid(n, tile, limits.max_group_count_x, limits.max_group_count_y)
    &&& n as int * n as int <= usize::MAX
    &&& 4 * (n as int * n as int) <= u64::MAX
}

/// Two buffer models agree on everything: capacity, flags, memory type,
/// and contents.
pub open spec fn mem_buffer_same(x: MemBuffer, y: MemBuffer) -> bool {
    &&& x.size == y.size
    &&& x.usage == y.usage
    &&& x.visibility == y.visibility
    &&& x.memory_type_index == y.memory_type_index
    &&& x@ == y@
}

impl Engine {
    /// The number of words of one operand matrix.
    pub open spec fn word_count(self) -> int {
        self.n as int * self.n as int
    }

    /// Structural well-formedness: valid dimensions, buffers sized to the
    /// matrix, and pool counters consistent with the protocol phase.
    pub open spec fn wf(self) -> bool {
        &&& dims_ok(self.n, self.tile, self.limits)
        &&& self.mem_buffer_a.wf()
        &&& self.mem_buffer_b.wf()
        &&& self.mem_buffer_c.wf()
        &&& self.mem_buffer_a@.len() == self.word_count()
        &&& self.mem_buffer_b@.len() == self.word_count()
        &&& self.mem_buffer_c@.len() == self.word_count()
        &&& (self.phase == Phase::Idle ==> self.live_command_buffers == 0
            && self.live_descriptor_sets == 0)
        &&& (self.phase != Phase::Idle ==> self.live_command_buffers == 1
            && self.live_descriptor_sets == 1)
    }

    /// The engine's handles may still be used: teardown has not run.
    pub open spec fn usable(self) -> bool {
        self.alive
    }

    /// Configuration fixed at construction is unchanged.
    pub open spec fn same_config(pre: Engine, post: Engine) -> bool {
        &&& post.n == pre.n
        &&& post.tile == pre.tile
        &&& post.limits == pre.limits
    }

    /// All three operand buffers are unchanged.
    pub open spec fn same_buffers(pre: Engine, post: Engine) -> bool {
        &&& mem_buffer_same(pre.mem_buffer_a, post.mem_buffer_a)
        &&& mem_buffer_same(pre.mem_buffer_b, post.mem_buffer_b)
        &&& mem_buffer_same(pre.mem_buffer_c, post.mem_buffer_c)
    }

    /// Builds the engine: validates the dimension against the tile and the
    /// device limits once, at construction, then creates the three operand
    /// buffers (A and B written by uploads, C read back after the dispatch),
    /// all device-local, each backed by the first compatible memory type.
    ///
    /// Fails with `ContractViolation` when the dimensions are invalid and
    /// with `MemoryTypeUnavailable` when no memory type satisfies both the
    /// requirement mask and device-local visibility.
    pub fn new(
        n: u32,
        tile: u32,
        limits: DeviceLimits,
        memory_type_flags: &Vec<u32>,
        buffer_memory_type_bits: u32,
    ) -> (r: Result<Engine, EngineError>)
        requires
            memory_type_flags@.len() <= 32,
        ensures
            match r {
                Ok(e) => {
                    &&& e.wf()
                    &&& e.usable()
                    &&& e.phase == Phase::Idle
                    &&& e.n == n
                    &&& e.tile == tile
                    &&& e.limits == limits
                    &&& e.mem_buffer_a.usage == BUFFER_USAGE_STORAGE_BUFFER
                        | BUFFER_USAGE_TRANSFER_DST
                    &&& e.mem_buffer_b.usage == BUFFER_USAGE_STORAGE_BUFFER
                        | BUFFER_USAGE_TRANSFER_DST
                    &&& e.mem_buffer_c.usage == BUFFER_USAGE_STORAGE_BUFFER
                        | BUFFER_USAGE_TRANSFER_SRC
                    &&& e.mem_buffer_a.visibility == MEMORY_PROPERTY_DEVICE_LOCAL
                    &&& e.mem_buffer_b.visibility == MEMORY_PROPERTY_DEVICE_LOCAL
                    &&& e.mem_buffer_c.visibility == MEMORY_PROPERTY_DEVICE_LOCAL
                    &&& memory_type_matches(
                        memory_type_flags@,
                        buffer_memory_type_bits,
                        MEMORY_PROPERTY_DEVICE_LOCAL,
                        e.mem_buffer_a.memory_type_index as int,
                    )
                    &&& e.mem_buffer_a@ == Seq::new((n as int * n as int) as nat, |i: int| 0u32)
                    &&& e.mem_buffer_b@ == Seq::new((n as int * n as int) as nat, |i: int| 0u32)
                    &&& e.mem_buffer_c@ == Seq::new((n as int * n as int) as nat, |i: int| 0u32)
                    &&& dims_ok(n, tile, limits)
                },
                Err(e) => {
                    &&& (e == EngineError::ContractViolation <==> !dims_ok(n, tile, limits))
                    &&& (e == EngineError::MemoryTypeUnavailable <==> dims_ok(n, tile, limits)
                        && (forall|j: int|
                        !memory_type_matches(
                            memory_type_flags@,
                            buffer_memory_type_bits,
                            MEMORY_PROPERTY_DEVICE_LOCAL,
                            j,
                        )))
                    &&& (e == EngineError::ContractViolation || e
                        == EngineError::MemoryTypeUnavailable)
                },
            },
    {
        if tile == 0 || n % tile != 0 {
            return Err(EngineError::ContractViolation);
        }
        let groups = n / tile;
        if groups > limits.max_group_count_x || groups > limits.max_group_count_y {
            return Err(EngineError::ContractViolation);
        }
        proof {
            assert((n as int) * (n as int) <= 0xffffffffffffffff) by (nonlinear_arith)
                requires
                    n as int <= 0xffffffff,
            ;
        }
        let word_count_u64 = (n as u64) * (n as u64);
        if word_count_u64 > usize::MAX as u64 || word_count_u64 > u64::MAX / 4 {
            return Err(EngineError::ContractViolation);
        }
        let size = word_count_u64 * 4;
        let mem_buffer_a = create_mem_buffer(
            memory_type_flags,
            buffer_memory_type_bits,
            size,
            BUFFER_USAGE_STORAGE_BUFFER | BUFFER_USAGE_TRANSFER_DST,
            MEMORY_PROPERTY_DEVICE_LOCAL,
        )?;
        let mem_buffer_b = create_mem_buffer(
            memory_type_flags,
            buffer_memory_type_bits,
            size,
            BUFFER_USAGE_STORAGE_BUFFER | BUFFER_USAGE_TRANSFER_DST,
            MEMORY_PROPERTY_DEVICE_LOCAL,
        )?;
        let mem_buffer_c = create_mem_buffer(
            memory_type_flags,
            buffer_memory_type_bits,
            size,
            BUFFER_USAGE_STORAGE_BUFFER | BUFFER_USAGE_TRANSFER_SRC,
            MEMORY_PROPERTY_DEVICE_LOCAL,
        )?;
        Ok(
            Engine {
                n,
                tile,
                limits,
                mem_buffer_a,
                mem_buffer_b,
                mem_buffer_c,
                phase: Phase::Idle,
                live_command_buffers: 0,
                live_descriptor_sets: 0,
                alive: true,
            },
        )
    }

    /// Uploads both operand matrices into buffers A and B, each a complete
    /// blocking staging round trip.  Each operand must hold exactly N * N
    /// words; a wrong length is rejected with `ContractViolation` before
    /// anything is written.
    pub fn upload_operands(&mut self, a: &Vec<u32>, b: &Vec<u32>) -> (r: Result<(), EngineError>)
        requires
            old(self).wf(),
            old(self).usable(),
            old(self).phase == Phase::Idle,
        ensures
            final(self).wf(),
            final(self).usable(),
            final(self).phase == Phase::Idle,
            final(self).alive == old(self).alive,
            final(self).live_command_buffers == 0,
            final(self).live_descriptor_sets == 0,
            Engine::same_config(*old(self), *final(self)),
            match r {
                Ok(()) => {
                    &&& a@.len() == old(self).word_count()
                    &&& b@.len() == old(self).word_count()
                    &&& final(self).mem_buffer_a@ == a@
                    &&& final(self).mem_buffer_b@ == b@
                    &&& mem_buffer_same(old(self).mem_buffer_c, final(self).mem_buffer_c)
                },
                Err(e) => {
                    &&& e == EngineError::ContractViolation
                    &&& (a@.len() != old(self).word_count() || b@.len() != old(
                        self,
                    ).word_count())
                    &&& Engine::same_buffers(*old(self), *final(self))
                },
            },
    {
        let n_usize = self.n as usize;
        let word_count = n_usize * n_usize;
        if a.len() != word_count || b.len() != word_count {
            return Err(EngineError::ContractViolation);
        }
        match copy_data_to_buffer(&mut self.mem_buffer_a, a) {
            Ok(()) => {},
            Err(e) => {
                proof {
                    assert(false);
                }
                return Err(e);
            },
        }
        match copy_data_to_buffer(&mut self.mem_buffer_b, b) {
            Ok(()) => {},
            Err(e) => {
                proof {
                    assert(false);
                }
                return Err(e);
            },
        }
        proof {
            assert(self.mem_buffer_a@ =~= a@);
            assert(self.mem_buffer_b@ =~= b@);
        }
        Ok(())
    }

    /// The grid of the engine's dispatch: exactly (N / TILE, N / TILE, 1).
    /// Construction already validated the divisibility and the device
    /// limits, so this cannot fail: the fatal grid assertion of the
    /// dispatch path is discharged once and for all.
    pub fn invocation_grid(&self) -> (r: DispatchGrid)
        requires
            self.wf(),
        ensures
            r == grid_of(self.n, self.tile),
            r.x <= self.limits.max_group_count_x,
            r.y <= self.limits.max_group_count_y,
            r.x == self.n / self.tile,
            r.y == self.n / self.tile,
            r.z == 1,
    {
        DispatchGrid { x: self.n / self.tile, y: self.n / self.tile, z: 1 }
    }

    /// Starts an invocation: allocates the single command buffer and the
    /// single descriptor set from their capacity-one pools and moves to
    /// `Recording`.  Requires `Idle`, so the pools are empty and neither
    /// allocation can be refused for capacity; `allocations_ok` is the
    /// backend's verdict on them for every other reason.  On rejection the
    /// invocation aborts with `ResourceCreationFailure`: the claimed
    /// per-invocation resources are not rolled back and the machine is
    /// left in `Recording`, not `Idle`.
    pub fn begin_invocation(&mut self, allocations_ok: bool) -> (r: Result<(), EngineError>)
        requires
            old(self).wf(),
            old(self).usable(),
            old(self).phase == Phase::Idle,
        ensures
            final(self).wf(),
            final(self).usable(),
            final(self).phase == Phase::Recording,
            final(self).live_command_buffers == 1,
            final(self).live_descriptor_sets == 1,
            final(self).alive == old(self).alive,
            Engine::same_config(*old(self), *final(self)),
            Engine::same_buffers(*old(self), *final(self)),
            match r {
                Ok(()) => allocations_ok,
                Err(e) => {
                    &&& e == EngineError::ResourceCreationFailure
                    &&& !allocations_ok
                },
            },
    {
        self.phase = Phase::Recording;
        self.live_command_buffers = 1;
        self.live_descriptor_sets = 1;
        if !allocations_ok {
            return Err(EngineError::ResourceCreationFailure);
        }
        Ok(())
    }

    /// Submits the recorded command buffer to the compute queue with no
    /// fence; `queue_accepted` is the backend's verdict.  On acceptance the
    /// machine moves to `Submitted`; on rejection the invocation aborts
    /// with `CommandExecutionFailure` and the machine stays in `Recording`,
    /// not `Idle`.
    pub fn submit_invocation(&mut self, queue_accepted: bool) -> (r: Result<(), EngineError>)
        requires
            old(self).wf(),
            old(self).usable(),
            old(self).phase == Phase::Recording,
        ensures
            final(self).wf(),
            final(self).usable(),
            final(self).alive == old(self).alive,
            final(self).live_command_buffers == 1,
            final(self).live_descriptor_sets == 1,
            Engine::same_config(*old(self), *final(self)),
            Engine::same_buffers(*old(self), *final(self)),
            match r {
                Ok(()) => queue_accepted && final(self).phase == Phase::Submitted,
                Err(e) => {
                    &&& e == EngineError::CommandExecutionFailure
                    &&& !queue_accepted
                    &&& final(self).phase == Phase::Recording
                },
            },
    {
        if !queue_accepted {
            return Err(EngineError::CommandExecutionFailure);
        }
        self.phase = Phase::Submitted;
        Ok(())
    }

    /// Completes an invocation after the full device-idle wait, the only
    /// synchronization mechanism for the dispatch; `wait_ok` is the
    /// backend's verdict.  On success the command buffer is freed, both
    /// pools are reset to zero allocated objects, and the machine returns
    /// to `Idle`.  On failure the invocation aborts with
    /// `CommandExecutionFailure` and stays in `Submitted`.
    pub fn retire_invocation(&mut self, wait_ok: bool) -> (r: Result<(), EngineError>)
        requires
            old(self).wf(),
            old(self).usable(),
            old(self).phase == Phase::Submitted,
        ensures
            final(self).wf(),
            final(self).usable(),
            final(self).alive == old(self).alive,
            Engine::same_config(*old(self), *final(self)),
            Engine::same_buffers(*old(self), *final(self)),
            match r {
                Ok(()) => {
                    &&& wait_ok
                    &&& final(self).phase == Phase::Idle
                    &&& final(self).live_command_buffers == 0
                    &&& final(self).live_descriptor_sets == 0
                },
                Err(e) => {
                    &&& e == EngineError::CommandExecutionFailure
                    &&& !wait_ok
                    &&& final(self).phase == Phase::Submitted
                    &&& final(self).live_command_buffers == 1
                    &&& final(self).live_descriptor_sets == 1
                },
            },
    {
        if !wait_ok {
            return Err(EngineError::CommandExecutionFailure);
        }
        self.phase = Phase::Idle;
        self.live_command_buffers = 0;
        self.live_descriptor_sets = 0;
        Ok(())
    }

    /// Records the product the dispatch wrote into buffer C, as downloaded
    /// through the staging path, and returns exactly the N * N words.  A
    /// download of the wrong length is rejected with `ContractViolation`
    /// and changes nothing.
    pub fn read_back_product(&mut self, downloaded: &Vec<u32>) -> (r: Result<
        Vec<u32>,
        EngineError,
    >)
        requires
            old(self).wf(),
            old(self).usable(),
            old(self).phase == Phase::Idle,
        ensures
            final(self).wf(),
            final(self).usable(),
            final(self).phase == Phase::Idle,
            final(self).alive == old(self).alive,
            final(self).live_command_buffers == 0,
            final(self).live_descriptor_sets == 0,
            Engine::same_config(*old(self), *final(self)),
            mem_buffer_same(old(self).mem_buffer_a, final(self).mem_buffer_a),
            mem_buffer_same(old(self).mem_buffer_b, final(self).mem_buffer_b),
            match r {
                Ok(v) => {
                    &&& downloaded@.len() == old(self).word_count()
                    &&& final(self).mem_buffer_c@ == downloaded@
                    &&& v@ == downloaded@
                },
                Err(e) => {
                    &&& e == EngineError::ContractViolation
                    &&& downloaded@.len() != old(self).word_count()
                    &&& mem_buffer_same(old(self).mem_buffer_c, final(self).mem_buffer_c)
                },
            },
    {
        let n_usize = self.n as usize;
        let word_count = n_usize * n_usize;
        if downloaded.len() != word_count {
            return Err(EngineError::ContractViolation);
        }
        match copy_data_to_buffer(&mut self.mem_buffer_c, downloaded) {
            Ok(()) => {},
            Err(e) => {
                proof {
                    assert(false);
                }
                return Err(e);
            },
        }
        let product = match read_data_from_buffer(&self.mem_buffer_c, word_count) {
            Ok(v) => v,
            Err(e) => {
                proof {
                    assert(false);
                }
                return Err(e);
            },
        };
        proof {
            assert(self.mem_buffer_c@ =~= downloaded@);
            assert(product@ =~= downloaded@);
        }
        Ok(product)
    }

    /// One complete invocation on the model level: upload both operands,
    /// claim the per-invocation resources, submit, wait idle, retire, and
    /// record the downloaded product.  The backend's verdicts on the
    /// allocations, the submission and the idle wait, and the words the
    /// download produced, are the events of the invocation; the contract
    /// says for every combination of them exactly what comes back and in
    /// which state the machine is left.  When every event reports success
    /// and the operands have the right length, the invocation returns the
    /// product and the machine is back in `Idle` with both pools empty;
    /// any failure aborts the remaining steps and leaves the machine
    /// outside `Idle`.
    pub fn multiply(
        &mut self,
        a: &Vec<u32>,
        b: &Vec<u32>,
        allocations_ok: bool,
        queue_accepted: bool,
        wait_ok: bool,
        downloaded: &Vec<u32>,
    ) -> (r: Result<Vec<u32>, EngineError>)
        requires
            old(self).wf(),
            old(self).usable(),
            old(self).phase == Phase::Idle,
        ensures
            final(self).wf(),
            final(self).usable(),
            final(self).alive == old(self).alive,
            Engine::same_config(*old(self), *final(self)),
            match r {
                Ok(v) => {
                    &&& a@.len() == old(self).word_count()
                    &&& b@.len() == old(self).word_count()
                    &&& downloaded@.len() == old(self).word_count()
                    &&& allocations_ok && queue_accepted && wait_ok
                    &&& final(self).phase == Phase::Idle
                    &&& final(self).live_command_buffers == 0
                    &&& final(self).live_descriptor_sets == 0
                    &&& final(self).mem_buffer_a@ == a@
                    &&& final(self).mem_buffer_b@ == b@
                    &&& final(self).mem_buffer_c@ == downloaded@
                    &&& v@ == downloaded@
                },
                Err(e) => {
                    ||| {
                        &&& e == EngineError::ContractViolation
                        &&& (a@.len() != old(self).word_count() || b@.len() != old(
                            self,
                        ).word_count())
                        &&& final(self).phase == Phase::Idle
                        &&& Engine::same_buffers(*old(self), *final(self))
                    }
                    ||| {
                        &&& e == EngineError::ResourceCreationFailure
                        &&& !allocations_ok
                        &&& final(self).phase == Phase::Recording
                        &&& final(self).mem_buffer_a@ == a@
                        &&& final(self).mem_buffer_b@ == b@
                        &&& mem_buffer_same(old(self).mem_buffer_c, final(self).mem_buffer_c)
                    }
                    ||| {
                        &&& e == EngineError::CommandExecutionFailure
                        &&& allocations_ok && !queue_accepted
                        &&& final(self).phase == Phase::Recording
                        &&& final(self).mem_buffer_a@ == a@
                        &&& final(self).mem_buffer_b@ == b@
                        &&& mem_buffer_same(old(self).mem_buffer_c, final(self).mem_buffer_c)
                    }
                    ||| {
                        &&& e == EngineError::CommandExecutionFailure
                        &&& allocations_ok && queue_accepted && !wait_ok
                        &&& final(self).phase == Phase::Submitted
                        &&& final(self).mem_buffer_a@ == a@
                        &&& final(self).mem_buffer_b@ == b@
                        &&& mem_buffer_same(old(self).mem_buffer_c, final(self).mem_buffer_c)
                    }
                    ||| {
                        &&& e == EngineError::ContractViolation
                        &&& downloaded@.len() != old(self).word_count()
                        &&& allocations_ok && queue_accepted && wait_ok
                        &&& final(self).phase == Phase::Idle
                        &&& final(self).live_command_buffers == 0
                        &&& final(self).live_descriptor_sets == 0
                        &&& final(self).mem_buffer_a@ == a@
                        &&& final(self).mem_buffer_b@ == b@
                        &&& mem_buffer_same(old(self).mem_buffer_c, final(self).mem_buffer_c)
                    }
                },
            },
    {
        match self.upload_operands(a, b) {
            Ok(()) => {},
            Err(e) => {
                return Err(e);
            },
        }
        match self.begin_invocation(allocations_ok) {
            Ok(()) => {},
            Err(e) => {
                return Err(e);
            },
        }
        match self.submit_invocation(queue_accepted) {
            Ok(()) => {},
            Err(e) => {
                return Err(e);
            },
        }
        match self.retire_invocation(wait_ok) {
            Ok(()) => {},
            Err(e) => {
                return Err(e);
            },
        }
        self.read_back_product(downloaded)
    }

    /// Tears the engine down.  Afterwards no handle of the engine is
    /// usable: every other operation requires `usable`, which this
    /// permanently clears, and teardown itself cannot run twice.
    pub fn clean(&mut self)
        requires
            old(self).usable(),
        ensures
            !final(self).usable(),
            final(self).phase == Phase::Idle,
            final(self).live_command_buffers == 0,
            final(self).live_descriptor_sets == 0,
            Engine::same_config(*old(self), *final(self)),
    {
        self.phase = Phase::Idle;
        self.live_command_buffers = 0;
        self.live_descriptor_sets = 0;
        self.alive = false;
    }
}

/// One step of the fixed dispatch protocol of an invocation.
#[derive(Clone, Copy, Debug, PartialEq, Eq, Structural)]
pub enum InvocationStep {
    UploadOperandA,
    UploadOperandB,
    AllocateCommandBuffer,
    AllocateDescriptorSet,
    BeginCommandBuffer,
    UpdateDescriptorSet,
    PushConstants,
    BindDescriptorSet,
    BindPipeline,
    ResetQueryPool,
    WriteStartTimestamp,
    Dispatch,
    WriteEndTimestamp,
    EndCommandBuffer,
    Submit,
    WaitIdle,
    ReadTimestamps,
    FreeCommandBuffer,
    ResetCommandPool,
    ResetDescriptorPool,
    DownloadProduct,
}

/// The fixed submission protocol of one invocation, in the only order that
/// is correct: both operands uploaded first, the one-time command buffer
/// recorded with the dispatch bracketed by the two timestamps, a fenceless
/// submit followed by the full device-idle wait, the per-invocation
/// resources retired, and the product downloaded last.
pub fn invocation_steps() -> (r: Vec<InvocationStep>)
    ensures
        r@ == seq![
            InvocationStep::UploadOperandA,
            InvocationStep::UploadOperandB,
            InvocationStep::AllocateCommandBuffer,
            InvocationStep::AllocateDescriptorSet,
            InvocationStep::BeginCommandBuffer,
            InvocationStep::UpdateDescriptorSet,
            InvocationStep::PushConstants,
            InvocationStep::BindDescriptorSet,
            InvocationStep::BindPipeline,
            InvocationStep::ResetQueryPool,
            InvocationStep::WriteStartTimestamp,
            InvocationStep::Dispatch,
            InvocationStep::WriteEndTimestamp,
            InvocationStep::EndCommandBuffer,
            InvocationStep::Submit,
            InvocationStep::WaitIdle,
            InvocationStep::ReadTimestamps,
            InvocationStep::FreeCommandBuffer,
            InvocationStep::ResetCommandPool,
            InvocationStep::ResetDescriptorPool,
            InvocationStep::DownloadProduct,
        ],
{
    let mut r: Vec<InvocationStep> = Vec::new();
    r.push(InvocationStep::UploadOperandA);
    r.push(InvocationStep::UploadOperandB);
    r.push(InvocationStep::AllocateCommandBuffer);
    r.push(InvocationStep::AllocateDescriptorSet);
    r.push(InvocationStep::BeginCommandBuffer);
    r.push(InvocationStep::UpdateDescriptorSet);
    r.push(InvocationStep::PushConstants);
    r.push(InvocationStep::BindDescriptorSet);
    r.push(InvocationStep::BindPipeline);
    r.push(InvocationStep::ResetQueryPool);
    r.push(InvocationStep::WriteStartTimestamp);
    r.push(InvocationStep::Dispatch);
    r.push(InvocationStep::WriteEndTimestamp);
    r.push(InvocationStep::EndCommandBuffer);
    r.push(InvocationStep::Submit);
    r.push(InvocationStep::WaitIdle);
    r.push(InvocationStep::ReadTimestamps);
    r.push(InvocationStep::FreeCommandBuffer);
    r.push(InvocationStep::ResetCommandPool);
    r.push(InvocationStep::ResetDescriptorPool);
    r.push(InvocationStep::DownloadProduct);
    proof {
        assert(r@ =~= seq![
            InvocationStep::UploadOperandA,
            InvocationStep::UploadOperandB,
            InvocationStep::AllocateCommandBuffer,
            InvocationStep::AllocateDescriptorSet,
            InvocationStep::BeginCommandBuffer,
            InvocationStep::UpdateDescriptorSet,
            InvocationStep::PushConstants,
            InvocationStep::BindDescriptorSet,
            InvocationStep::BindPipeline,
            InvocationStep::ResetQueryPool,
            InvocationStep::WriteStartTimestamp,
            InvocationStep::Dispatch,
            InvocationStep::WriteEndTimestamp,
            InvocationStep::EndCommandBuffer,
            InvocationStep::Submit,
            InvocationStep::WaitIdle,
            InvocationStep::ReadTimestamps,
            InvocationStep::FreeCommandBuffer,
            InvocationStep::ResetCommandPool,
            InvocationStep::ResetDescriptorPool,
            InvocationStep::DownloadProduct,
        ]);
    }
    r
}

/// Teardown safety: once `clean` has run, the engine is permanently
/// unusable.  Every operation that touches a resource handle requires
/// `usable`, `clean` is the only operation that changes `alive`, and it
/// only clears it, so no handle of a torn-down engine can be used again.
pub proof fn lemma_teardown_safety(e: Engine)
    requires
        !e.alive,
    ensures
        !e.usable(),
{
}

/// The mandatory destruction order: pools and the pipeline before the
/// layouts they reference, buffers with their memory next, and the device
/// and instance last, outliving every object derived from them.
pub fn teardown_order() -> (r: Vec<ResourceKind>)
    ensures
        r@ == seq![
            ResourceKind::QueryPool,
            ResourceKind::DescriptorPool,
            ResourceKind::CommandPool,
            ResourceKind::Pipeline,
            ResourceKind::PipelineLayout,
            ResourceKind::DescriptorSetLayout,
            ResourceKind::BufferA,
            ResourceKind::MemoryA,
            ResourceKind::BufferB,
            ResourceKind::MemoryB,
            ResourceKind::BufferC,
            ResourceKind::MemoryC,
            ResourceKind::Device,
            ResourceKind::Instance,
        ],
{
    let mut r: Vec<ResourceKind> = Vec::new();
    r.push(ResourceKind::QueryPool);
    r.push(ResourceKind::DescriptorPool);
    r.push(ResourceKind::CommandPool);
    r.push(ResourceKind::Pipeline);
    r.push(ResourceKind::PipelineLayout);
    r.push(ResourceKind::DescriptorSetLayout);
    r.push(ResourceKind::BufferA);
    r.push(ResourceKind::MemoryA);
    r.push(ResourceKind::BufferB);
    r.push(ResourceKind::MemoryB);
    r.push(ResourceKind::BufferC);
    r.push(ResourceKind::MemoryC);
    r.push(ResourceKind::Device);
    r.push(ResourceKind::Instance);
    proof {
        assert(r@ =~= seq![
            ResourceKind::QueryPool,
            ResourceKind::DescriptorPool,
            ResourceKind::CommandPool,
            ResourceKind::Pipeline,
            ResourceKind::PipelineLayout,
            ResourceKind::DescriptorSetLayout,
            ResourceKind::BufferA,
            ResourceKind::MemoryA,
            ResourceKind::BufferB,
            ResourceKind::MemoryB,
            ResourceKind::BufferC,
            ResourceKind::MemoryC,
            ResourceKind::Device,
            ResourceKind::Instance,
        ]);
    }
    r
}

} // verus!
