use matmul_engine::device::{
    check_device_suitability, check_required_device_extensions, get_physical_device,
    get_queue_family, DeviceInfo, QueueFamilyInfo, QUEUE_FLAG_COMPUTE,
};
use matmul_engine::errors::{EngineError, InitFailure};
use matmul_engine::memtype::{
    get_supported_memory_property_index, MEMORY_PROPERTY_DEVICE_LOCAL,
    MEMORY_PROPERTY_HOST_CACHED, MEMORY_PROPERTY_HOST_COHERENT, MEMORY_PROPERTY_HOST_VISIBLE,
};

fn good_device(extensions: Vec<Vec<u8>>) -> DeviceInfo {
    DeviceInfo {
        api_version_major: 1,
        api_version_minor: 3,
        fragment_stores_and_atomics: true,
        vertex_pipeline_stores_and_atomics: true,
        timestamp_compute_and_graphics: true,
        timestamp_period_nonzero: true,
        supported_extensions: extensions,
    }
}

#[test]
fn memory_type_picks_first_qualifying_index() {
    let types = vec![
        MEMORY_PROPERTY_DEVICE_LOCAL,
        MEMORY_PROPERTY_HOST_VISIBLE | MEMORY_PROPERTY_HOST_COHERENT,
        MEMORY_PROPERTY_HOST_VISIBLE
            | MEMORY_PROPERTY_HOST_COHERENT
            | MEMORY_PROPERTY_HOST_CACHED,
    ];
    let desired = MEMORY_PROPERTY_HOST_VISIBLE | MEMORY_PROPERTY_HOST_COHERENT;
    let r = get_supported_memory_property_index(&types, 0b111, desired);
    assert_eq!(r, Ok(1));
}

#[test]
fn memory_type_chosen_index_satisfies_mask_and_flags() {
    let types = vec![
        MEMORY_PROPERTY_DEVICE_LOCAL,
        MEMORY_PROPERTY_HOST_VISIBLE | MEMORY_PROPERTY_HOST_COHERENT,
        MEMORY_PROPERTY_HOST_VISIBLE | MEMORY_PROPERTY_HOST_COHERENT,
    ];
    let desired = MEMORY_PROPERTY_HOST_VISIBLE;
    // The requirement mask excludes index 1, so the scan must land on 2.
    let mask = 0b101;
    let i = get_supported_memory_property_index(&types, mask, desired).unwrap();
    assert_eq!(i, 2);
    assert!(mask & (1u32 << i) != 0);
    assert_eq!(types[i as usize] & desired, desired);
}

#[test]
fn memory_type_unavailable_when_nothing_qualifies() {
    let types = vec![MEMORY_PROPERTY_DEVICE_LOCAL, MEMORY_PROPERTY_HOST_VISIBLE];
    let desired = MEMORY_PROPERTY_HOST_VISIBLE | MEMORY_PROPERTY_HOST_CACHED;
    let r = get_supported_memory_property_index(&types, 0b11, desired);
    assert_eq!(r, Err(EngineError::MemoryTypeUnavailable));
}

#[test]
fn memory_type_unavailable_when_mask_is_empty() {
    let types = vec![MEMORY_PROPERTY_HOST_VISIBLE];
    let r = get_supported_memory_property_index(&types, 0, MEMORY_PROPERTY_HOST_VISIBLE);
    assert_eq!(r, Err(EngineError::MemoryTypeUnavailable));
}

#[test]
fn suitable_device_passes_all_checks() {
    let required = vec![b"VK_KHR_shader_clock".to_vec()];
    let device = good_device(vec![
        b"VK_KHR_shader_clock".to_vec(),
        b"VK_KHR_shader_non_semantic_info".to_vec(),
    ]);
    assert_eq!(check_device_suitability(&device, &required), Ok(()));
}

#[test]
fn old_api_version_is_rejected_first() {
    let mut device = good_device(vec![]);
    device.api_version_major = 1;
    device.api_version_minor = 1;
    // Several checks would fail; the version check runs first.
    device.fragment_stores_and_atomics = false;
    let r = check_device_suitability(&device, &vec![]);
    assert_eq!(r, Err(InitFailure::UnsupportedApiVersion));
}

#[test]
fn missing_features_are_rejected_in_order() {
    let mut device = good_device(vec![]);
    device.fragment_stores_and_atomics = false;
    assert_eq!(
        check_device_suitability(&device, &vec![]),
        Err(InitFailure::MissingFragmentStoresAndAtomics)
    );

    let mut device = good_device(vec![]);
    device.vertex_pipeline_stores_and_atomics = false;
    assert_eq!(
        check_device_suitability(&device, &vec![]),
        Err(InitFailure::MissingVertexPipelineStoresAndAtomics)
    );

    let mut device = good_device(vec![]);
    device.timestamp_compute_and_graphics = false;
    assert_eq!(
        check_device_suitability(&device, &vec![]),
        Err(InitFailure::NoTimestampSupport)
    );

    let mut device = good_device(vec![]);
    device.timestamp_period_nonzero = false;
    assert_eq!(
        check_device_suitability(&device, &vec![]),
        Err(InitFailure::ZeroTimestampPeriod)
    );
}

#[test]
fn missing_extension_is_reported() {
    let supported = vec![b"VK_KHR_shader_clock".to_vec()];
    let required = vec![
        b"VK_KHR_shader_clock".to_vec(),
        b"VK_KHR_shader_non_semantic_info".to_vec(),
    ];
    assert_eq!(
        check_required_device_extensions(&supported, &required),
        Err(InitFailure::MissingDeviceExtension)
    );
    assert_eq!(
        check_required_device_extensions(&required, &supported),
        Ok(())
    );
}

#[test]
fn first_suitable_device_wins() {
    let required = vec![b"VK_KHR_shader_clock".to_vec()];
    let mut unsuitable = good_device(vec![]);
    unsuitable.timestamp_period_nonzero = false;
    let devices = vec![
        unsuitable,
        good_device(vec![b"VK_KHR_shader_clock".to_vec()]),
        good_device(vec![b"VK_KHR_shader_clock".to_vec()]),
    ];
    assert_eq!(get_physical_device(&devices, &required), Ok(1));
}

#[test]
fn no_suitable_device_fails_bootstrap() {
    let required = vec![b"VK_KHR_shader_clock".to_vec()];
    let devices = vec![good_device(vec![]), good_device(vec![b"other".to_vec()])];
    assert_eq!(
        get_physical_device(&devices, &required),
        Err(EngineError::InitializationFailure(
            InitFailure::NoSuitableDevice
        ))
    );
}

#[test]
fn queue_family_takes_first_compute_capable_family() {
    let families = vec![
        QueueFamilyInfo { queue_count: 1, queue_flags: 0x1 },
        QueueFamilyInfo { queue_count: 0, queue_flags: QUEUE_FLAG_COMPUTE },
        QueueFamilyInfo { queue_count: 2, queue_flags: QUEUE_FLAG_COMPUTE | 0x1 },
        QueueFamilyInfo { queue_count: 4, queue_flags: QUEUE_FLAG_COMPUTE },
    ];
    assert_eq!(get_queue_family(&families), Ok(2));
}

#[test]
fn no_compute_queue_fails_bootstrap() {
    let families = vec![
        QueueFamilyInfo { queue_count: 1, queue_flags: 0x1 },
        QueueFamilyInfo { queue_count: 0, queue_flags: QUEUE_FLAG_COMPUTE },
    ];
    assert_eq!(
        get_queue_family(&families),
        Err(EngineError::InitializationFailure(
            InitFailure::NoComputeQueue
        ))
    );
}
