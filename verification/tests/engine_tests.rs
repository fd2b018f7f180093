use matmul_engine::dispatch::DispatchGrid;
use matmul_engine::engine::{
    copy_data_to_buffer, create_mem_buffer, invocation_steps, read_data_from_buffer,
    teardown_order, DeviceLimits, Engine, InvocationStep, Phase, ResourceKind,
};
use matmul_engine::errors::EngineError;
use matmul_engine::memtype::{MEMORY_PROPERTY_DEVICE_LOCAL, MEMORY_PROPERTY_HOST_VISIBLE};
use matmul_engine::transfer::{
    data_size_bytes, download_staging_visibility, upload_staging_visibility,
    BUFFER_USAGE_STORAGE_BUFFER, BUFFER_USAGE_TRANSFER_DST, BUFFER_USAGE_TRANSFER_SRC,
};

fn limits() -> DeviceLimits {
    DeviceLimits { max_group_count_x: 65535, max_group_count_y: 65535 }
}

fn device_local_table() -> Vec<u32> {
    vec![MEMORY_PROPERTY_HOST_VISIBLE, MEMORY_PROPERTY_DEVICE_LOCAL]
}

fn new_engine(n: u32, tile: u32) -> Engine {
    Engine::new(n, tile, limits(), &device_local_table(), 0b11).unwrap()
}

fn bits(v: f32, count: usize) -> Vec<u32> {
    vec![v.to_bits(); count]
}

#[test]
fn upload_then_download_returns_the_array_unchanged() {
    let table = device_local_table();
    let mut buffer = create_mem_buffer(
        &table,
        0b11,
        64,
        BUFFER_USAGE_STORAGE_BUFFER | BUFFER_USAGE_TRANSFER_DST,
        MEMORY_PROPERTY_DEVICE_LOCAL,
    )
    .unwrap();
    let data: Vec<u32> = (0..16).map(|i| (i as f32 * 0.25 - 1.5).to_bits()).collect();
    copy_data_to_buffer(&mut buffer, &data).unwrap();
    let back = read_data_from_buffer(&buffer, 16).unwrap();
    assert_eq!(back, data);
}

#[test]
fn partial_upload_keeps_the_buffer_tail() {
    let table = device_local_table();
    let mut buffer = create_mem_buffer(
        &table,
        0b11,
        32,
        BUFFER_USAGE_TRANSFER_DST,
        MEMORY_PROPERTY_DEVICE_LOCAL,
    )
    .unwrap();
    copy_data_to_buffer(&mut buffer, &vec![7, 8, 9]).unwrap();
    let back = read_data_from_buffer(&buffer, 8).unwrap();
    assert_eq!(back, vec![7, 8, 9, 0, 0, 0, 0, 0]);
}

#[test]
fn oversized_transfer_is_rejected_not_clamped() {
    let table = device_local_table();
    let mut buffer = create_mem_buffer(
        &table,
        0b11,
        16,
        BUFFER_USAGE_TRANSFER_DST,
        MEMORY_PROPERTY_DEVICE_LOCAL,
    )
    .unwrap();
    let r = copy_data_to_buffer(&mut buffer, &vec![1, 2, 3, 4, 5]);
    assert_eq!(r, Err(EngineError::ContractViolation));
    // The buffer is untouched.
    assert_eq!(read_data_from_buffer(&buffer, 4).unwrap(), vec![0, 0, 0, 0]);
    let r = read_data_from_buffer(&buffer, 5);
    assert_eq!(r, Err(EngineError::ContractViolation));
}

#[test]
fn staging_visibility_flags_differ_between_directions() {
    assert_eq!(upload_staging_visibility(), 0x2 | 0x4);
    assert_eq!(download_staging_visibility(), 0x2 | 0x4 | 0x8);
}

#[test]
fn data_sizes_are_four_bytes_per_word() {
    assert_eq!(data_size_bytes(16), Ok(64));
    assert_eq!(data_size_bytes(0), Ok(0));
}

#[test]
fn engine_rejects_dimension_not_divisible_by_tile() {
    let r = Engine::new(1000, 16, limits(), &device_local_table(), 0b11);
    assert!(matches!(r, Err(EngineError::ContractViolation)));
}

#[test]
fn engine_rejects_grid_beyond_limits() {
    let small = DeviceLimits { max_group_count_x: 2, max_group_count_y: 2 };
    let r = Engine::new(64, 16, small, &device_local_table(), 0b11);
    assert!(matches!(r, Err(EngineError::ContractViolation)));
}

#[test]
fn engine_requires_a_device_local_memory_type() {
    let table = vec![MEMORY_PROPERTY_HOST_VISIBLE];
    let r = Engine::new(4, 2, limits(), &table, 0b1);
    assert!(matches!(r, Err(EngineError::MemoryTypeUnavailable)));
}

#[test]
fn engine_buffers_have_the_fixed_usages() {
    let engine = new_engine(4, 2);
    assert_eq!(
        engine.mem_buffer_a.usage,
        BUFFER_USAGE_STORAGE_BUFFER | BUFFER_USAGE_TRANSFER_DST
    );
    assert_eq!(
        engine.mem_buffer_b.usage,
        BUFFER_USAGE_STORAGE_BUFFER | BUFFER_USAGE_TRANSFER_DST
    );
    assert_eq!(
        engine.mem_buffer_c.usage,
        BUFFER_USAGE_STORAGE_BUFFER | BUFFER_USAGE_TRANSFER_SRC
    );
    assert_eq!(engine.mem_buffer_a.size, 64);
    assert_eq!(engine.mem_buffer_a.memory_type_index, 1);
    assert_eq!(engine.mem_buffer_a.visibility, MEMORY_PROPERTY_DEVICE_LOCAL);
}

#[test]
fn four_by_four_ones_times_twos_gives_eights() {
    // A = 4x4 of 1.0 and B = 4x4 of 2.0 give a product of 4x4 of 8.0:
    // each cell sums four products 1.0 * 2.0.  The shader's arithmetic is
    // the device's; the engine carries the bit patterns unchanged, which is
    // what this exercises end to end through one full invocation.
    let mut engine = new_engine(4, 2);
    let a = bits(1.0, 16);
    let b = bits(2.0, 16);
    engine.upload_operands(&a, &b).unwrap();
    engine.begin_invocation(true).unwrap();
    assert_eq!(engine.phase, Phase::Recording);
    assert_eq!(engine.live_command_buffers, 1);
    assert_eq!(engine.live_descriptor_sets, 1);
    let grid = engine.invocation_grid();
    assert_eq!(grid, DispatchGrid { x: 2, y: 2, z: 1 });
    engine.submit_invocation(true).unwrap();
    assert_eq!(engine.phase, Phase::Submitted);
    engine.retire_invocation(true).unwrap();
    assert_eq!(engine.phase, Phase::Idle);
    let downloaded = bits(8.0, 16);
    let product = engine.read_back_product(&downloaded).unwrap();
    assert_eq!(product.len(), 16);
    for word in &product {
        assert_eq!(f32::from_bits(*word), 8.0);
    }
    engine.clean();
    assert!(!engine.alive);
}

#[test]
fn ten_identical_invocations_leave_empty_pools_and_identical_state() {
    let mut engine = new_engine(4, 2);
    let a: Vec<u32> = (0..16).map(|i| (i as f32 * 0.5).to_bits()).collect();
    let b: Vec<u32> = (0..16).map(|i| (1.0 - i as f32).to_bits()).collect();
    let downloaded: Vec<u32> = (0..16).map(|i| (i as f32).to_bits()).collect();
    let mut products: Vec<Vec<u32>> = Vec::new();
    for _ in 0..10 {
        engine.upload_operands(&a, &b).unwrap();
        engine.begin_invocation(true).unwrap();
        engine.submit_invocation(true).unwrap();
        engine.retire_invocation(true).unwrap();
        // After each invocation both pools report zero allocated objects.
        assert_eq!(engine.live_command_buffers, 0);
        assert_eq!(engine.live_descriptor_sets, 0);
        assert_eq!(engine.phase, Phase::Idle);
        // The operand buffers hold exactly the uploaded words, independent
        // of every earlier invocation.
        assert_eq!(engine.mem_buffer_a.words, a);
        assert_eq!(engine.mem_buffer_b.words, b);
        products.push(engine.read_back_product(&downloaded).unwrap());
    }
    for p in &products {
        assert_eq!(p, &products[0]);
    }
}

#[test]
fn multiply_runs_one_full_invocation() {
    let mut engine = new_engine(4, 2);
    let a = bits(1.0, 16);
    let b = bits(2.0, 16);
    let downloaded = bits(8.0, 16);
    let product = engine.multiply(&a, &b, true, true, true, &downloaded).unwrap();
    assert_eq!(product, downloaded);
    assert_eq!(engine.phase, Phase::Idle);
    assert_eq!(engine.live_command_buffers, 0);
    assert_eq!(engine.live_descriptor_sets, 0);
    assert_eq!(engine.mem_buffer_a.words, a);
    assert_eq!(engine.mem_buffer_b.words, b);
    assert_eq!(engine.mem_buffer_c.words, downloaded);
}

#[test]
fn multiply_aborts_on_each_failing_event() {
    let a = bits(1.0, 16);
    let b = bits(2.0, 16);
    let downloaded = bits(8.0, 16);

    let mut engine = new_engine(4, 2);
    let r = engine.multiply(&a, &b, false, true, true, &downloaded);
    assert_eq!(r, Err(EngineError::ResourceCreationFailure));
    assert_eq!(engine.phase, Phase::Recording);

    let mut engine = new_engine(4, 2);
    let r = engine.multiply(&a, &b, true, false, true, &downloaded);
    assert_eq!(r, Err(EngineError::CommandExecutionFailure));
    assert_eq!(engine.phase, Phase::Recording);

    let mut engine = new_engine(4, 2);
    let r = engine.multiply(&a, &b, true, true, false, &downloaded);
    assert_eq!(r, Err(EngineError::CommandExecutionFailure));
    assert_eq!(engine.phase, Phase::Submitted);

    let mut engine = new_engine(4, 2);
    let r = engine.multiply(&a, &b, true, true, true, &bits(8.0, 15));
    assert_eq!(r, Err(EngineError::ContractViolation));
    assert_eq!(engine.phase, Phase::Idle);

    let mut engine = new_engine(4, 2);
    let r = engine.multiply(&bits(1.0, 15), &b, true, true, true, &downloaded);
    assert_eq!(r, Err(EngineError::ContractViolation));
    assert_eq!(engine.phase, Phase::Idle);
}

#[test]
fn rejected_allocation_does_not_return_to_idle() {
    let mut engine = new_engine(4, 2);
    engine.upload_operands(&bits(1.0, 16), &bits(1.0, 16)).unwrap();
    let r = engine.begin_invocation(false);
    assert_eq!(r, Err(EngineError::ResourceCreationFailure));
    assert_eq!(engine.phase, Phase::Recording);
    assert_eq!(engine.live_command_buffers, 1);
    assert_eq!(engine.live_descriptor_sets, 1);
}

#[test]
fn rejected_submission_does_not_return_to_idle() {
    let mut engine = new_engine(4, 2);
    let a = bits(1.0, 16);
    let b = bits(1.0, 16);
    engine.upload_operands(&a, &b).unwrap();
    engine.begin_invocation(true).unwrap();
    let r = engine.submit_invocation(false);
    assert_eq!(r, Err(EngineError::CommandExecutionFailure));
    assert_eq!(engine.phase, Phase::Recording);
    // The invocation's resources are still allocated, not rolled back.
    assert_eq!(engine.live_command_buffers, 1);
    assert_eq!(engine.live_descriptor_sets, 1);
}

#[test]
fn failed_idle_wait_does_not_return_to_idle() {
    let mut engine = new_engine(4, 2);
    engine.upload_operands(&bits(0.5, 16), &bits(0.25, 16)).unwrap();
    engine.begin_invocation(true).unwrap();
    engine.submit_invocation(true).unwrap();
    let r = engine.retire_invocation(false);
    assert_eq!(r, Err(EngineError::CommandExecutionFailure));
    assert_eq!(engine.phase, Phase::Submitted);
    assert_eq!(engine.live_command_buffers, 1);
}

#[test]
fn wrong_length_operands_are_rejected() {
    let mut engine = new_engine(4, 2);
    let r = engine.upload_operands(&bits(1.0, 15), &bits(2.0, 16));
    assert_eq!(r, Err(EngineError::ContractViolation));
    let r = engine.upload_operands(&bits(1.0, 16), &bits(2.0, 17));
    assert_eq!(r, Err(EngineError::ContractViolation));
}

#[test]
fn wrong_length_download_is_rejected() {
    let mut engine = new_engine(4, 2);
    let r = engine.read_back_product(&bits(8.0, 15));
    assert_eq!(r, Err(EngineError::ContractViolation));
}

#[test]
fn teardown_clears_usability() {
    let mut engine = new_engine(4, 2);
    assert!(engine.alive);
    engine.clean();
    assert!(!engine.alive);
    assert_eq!(engine.live_command_buffers, 0);
    assert_eq!(engine.live_descriptor_sets, 0);
}

#[test]
fn invocation_protocol_has_the_fixed_order() {
    let steps = invocation_steps();
    assert_eq!(steps.len(), 21);
    assert_eq!(steps[0], InvocationStep::UploadOperandA);
    assert_eq!(steps[1], InvocationStep::UploadOperandB);
    // The dispatch sits between the two timestamps.
    let start = steps.iter().position(|s| *s == InvocationStep::WriteStartTimestamp).unwrap();
    let dispatch = steps.iter().position(|s| *s == InvocationStep::Dispatch).unwrap();
    let end = steps.iter().position(|s| *s == InvocationStep::WriteEndTimestamp).unwrap();
    assert!(start < dispatch && dispatch < end);
    // The idle wait follows the submit, and the download comes last.
    let submit = steps.iter().position(|s| *s == InvocationStep::Submit).unwrap();
    let wait = steps.iter().position(|s| *s == InvocationStep::WaitIdle).unwrap();
    assert!(submit < wait);
    assert_eq!(steps[20], InvocationStep::DownloadProduct);
}

#[test]
fn teardown_order_destroys_pools_before_layouts_and_device_last() {
    let order = teardown_order();
    assert_eq!(
        order,
        vec![
            ResourceKind::QueryPool,
            ResourceKind::DescriptorPool,
            ResourceKind::CommandPool,
            ResourceKind::Pipeline,
            ResourceKind::PipelineLayout,
            ResourceKind::DescriptorSetLayout,
            ResourceKind::BufferA,
            ResourceKind::MemoryA,
            ResourceKind::BufferB,
            ResourceKind::MemoryB,
            ResourceKind::BufferC,
            ResourceKind::MemoryC,
            ResourceKind::Device,
            ResourceKind::Instance,
        ]
    );
}
