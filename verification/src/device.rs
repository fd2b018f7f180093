//! Device context bootstrap: device suitability checks, device selection,
//! and compute queue-family selection.
//!
//! The native layer enumerates the devices and hands their capabilities over
//! as plain values; the functions here make every decision.  Selection takes
//! the first device passing all checks, in enumeration order, with no scoring
//! among multiple suitable devices.

use vstd::prelude::*;

use crate::errors::{EngineError, InitFailure};

verus! {

/// The queue-family flag bit for compute work.
pub const QUEUE_FLAG_COMPUTE: u32 = 0x2;

/// Capabilities of one enumerated device, as plain values.
///
/// Extension names are byte strings (the name without a trailing nul).
/// The timestamp tick period is a non-negative real reported by the device;
/// only whether it is nonzero matters for suitability, so that is what is
/// carried here.
pub struct DeviceInfo {
    pub api_version_major: u32,
    pub api_version_minor: u32,
    pub fragment_stores_and_atomics: bool,
    pub vertex_pipeline_stores_and_atomics: bool,
    pub timestamp_compute_and_graphics: bool,
    pub timestamp_period_nonzero: bool,
    pub supported_extensions: Vec<Vec<u8>>,
}

/// Properties of one queue family, as plain values.
pub struct QueueFamilyInfo {
    pub queue_count: u32,
    pub queue_flags: u32,
}

/// The device's API version is at least 1.2.
pub open spec fn api_version_ok(major: u32, minor: u32) -> bool {
    major > 1 || (major == 1 && minor >= 2)
}

/// `name` occurs among the supported extension names.
pub open spec fn extension_supported(supported: Seq<Seq<u8>>, name: Seq<u8>) -> bool {
    exists|i: int| 0 <= i < supported.len() && supported[i] == name
}

/// Every required extension name occurs among the supported ones.
pub open spec fn all_extensions_supported(supported: Seq<Seq<u8>>, required: Seq<Seq<u8>>) -> bool {
    forall|i: int| 0 <= i < required.len() ==> extension_supported(supported, #[trigger] required[i])
}

/// The view of a device's supported extension list.
pub open spec fn extensions_view(device: DeviceInfo) -> Seq<Seq<u8>> {
    device.supported_extensions@.map_values(|e: Vec<u8>| e@)
}

/// The verdict of the suitability checks, run in their fixed order; `None`
/// means the device passes every check.
pub open spec fn suitability_verdict(device: DeviceInfo, required: Seq<Seq<u8>>) -> Option<
    InitFailure,
> {
    if !api_version_ok(device.api_version_major, device.api_version_minor) {
        Some(InitFailure::UnsupportedApiVersion)
    } else if !device.fragment_stores_and_atomics {
        Some(InitFailure::MissingFragmentStoresAndAtomics)
    } else if !device.vertex_pipeline_stores_and_atomics {
        Some(InitFailure::MissingVertexPipelineStoresAndAtomics)
    } else if !device.timestamp_compute_and_graphics {
        Some(InitFailure::NoTimestampSupport)
    } else if !device.timestamp_period_nonzero {
        Some(InitFailure::ZeroTimestampPeriod)
    } else if !all_extensions_supported(extensions_view(device), required) {
        Some(InitFailure::MissingDeviceExtension)
    } else {
        None
    }
}

/// The device passes every suitability check.
pub open spec fn device_suitable(device: DeviceInfo, required: Seq<Seq<u8>>) -> bool {
    suitability_verdict(device, required) is None
}

/// The view of a required extension list.
pub open spec fn required_view(required: Seq<Vec<u8>>) -> Seq<Seq<u8>> {
    required.map_values(|e: Vec<u8>| e@)
}

/// Whether `name` occurs in `supported`.
fn extension_present(supported: &Vec<Vec<u8>>, name: &Vec<u8>) -> (r: bool)
    ensures
        r == extension_supported(supported@.map_values(|e: Vec<u8>| e@), name@),
{
    let ghost sup = supported@.map_values(|e: Vec<u8>| e@);
    let mut i: usize = 0;
    while i < supported.len()
        invariant
            sup == supported@.map_values(|e: Vec<u8>| e@),
            i <= supported@.len(),
            forall|j: int| 0 <= j < i as int ==> sup[j] != name@,
        decreases supported@.len() - i,
    {
        if &supported[i] == name {
            assert(sup[i as int] == name@);
            return true;
        }
        assert(sup[i as int] != name@);
        i = i + 1;
    }
    false
}

/// Checks that every required device extension is supported; the check that
/// fails, if one does, is `MissingDeviceExtension`.
pub fn check_required_device_extensions(
    supported: &Vec<Vec<u8>>,
    required: &Vec<Vec<u8>>,
) -> (r: Result<(), InitFailure>)
    ensures
        match r {
            Ok(()) => all_extensions_supported(
                supported@.map_values(|e: Vec<u8>| e@),
                required@.map_values(|e: Vec<u8>| e@),
            ),
            Err(f) => {
                &&& f == InitFailure::MissingDeviceExtension
                &&& !all_extensions_supported(
                    supported@.map_values(|e: Vec<u8>| e@),
                    required@.map_values(|e: Vec<u8>| e@),
                )
            },
        },
{
    let ghost sup = supported@.map_values(|e: Vec<u8>| e@);
    let ghost req = required@.map_values(|e: Vec<u8>| e@);
    let mut i: usize = 0;
    while i < required.len()
        invariant
            sup == supported@.map_values(|e: Vec<u8>| e@),
            req == required@.map_values(|e: Vec<u8>| e@),
            i <= required@.len(),
            forall|j: int| 0 <= j < i as int ==> extension_supported(sup, #[trigger] req[j]),
        decreases required@.len() - i,
    {
        if !extension_present(supported, &required[i]) {
            assert(!extension_supported(sup, req[i as int]));
            return Err(InitFailure::MissingDeviceExtension);
        }
        assert(extension_supported(sup, req[i as int]));
        i = i + 1;
    }
    Ok(())
}

/// Runs the suitability checks on one device, in their fixed order: API
/// version at least 1.2, stores-and-atomics for fragment and vertex/compute
/// stages, timestamp-capable queues, a nonzero timestamp period, and every
/// required extension present.  Returns the first failing check.
pub fn check_device_suitability(
    device: &DeviceInfo,
    required_extensions: &Vec<Vec<u8>>,
) -> (r: Result<(), InitFailure>)
    ensures
        match r {
            Ok(()) => device_suitable(*device, required_view(required_extensions@)),
            Err(f) => suitability_verdict(*device, required_view(required_extensions@)) == Some(f),
        },
{
    if !(device.api_version_major > 1
        || (device.api_version_major == 1 && device.api_version_minor >= 2)) {
        return Err(InitFailure::UnsupportedApiVersion);
    }
    if !device.fragment_stores_and_atomics {
        return Err(InitFailure::MissingFragmentStoresAndAtomics);
    }
    if !device.vertex_pipeline_stores_and_atomics {
        return Err(InitFailure::MissingVertexPipelineStoresAndAtomics);
    }
    if !device.timestamp_compute_and_graphics {
        return Err(InitFailure::NoTimestampSupport);
    }
    if !device.timestamp_period_nonzero {
        return Err(InitFailure::ZeroTimestampPeriod);
    }
    check_required_device_extensions(&device.supported_extensions, required_extensions)?;
    Ok(())
}

/// Selects the first device, in enumeration order, that passes every
/// suitability check; fails with `NoSuitableDevice` if none qualifies.
pub fn get_physical_device(
    devices: &Vec<DeviceInfo>,
    required_extensions: &Vec<Vec<u8>>,
) -> (r: Result<usize, EngineError>)
    ensures
        match r {
            Ok(i) => {
                &&& (i as int) < devices@.len()
                &&& device_suitable(devices@[i as int], required_view(required_extensions@))
                &&& forall|j: int|
                    0 <= j < i as int ==> !device_suitable(
                        #[trigger] devices@[j],
                        required_view(required_extensions@),
                    )
            },
            Err(e) => {
                &&& e == EngineError::InitializationFailure(InitFailure::NoSuitableDevice)
                &&& forall|j: int|
                    0 <= j < devices@.len() ==> !device_suitable(
                        #[trigger] devices@[j],
                        required_view(required_extensions@),
                    )
            },
        },
{
    let mut i: usize = 0;
    while i < devices.len()
        invariant
            i <= devices@.len(),
            forall|j: int|
                0 <= j < i as int ==> !device_suitable(
                    #[trigger] devices@[j],
                    required_view(required_extensions@),
                ),
        decreases devices@.len() - i,
    {
        if check_device_suitability(&devices[i], required_extensions).is_ok() {
            return Ok(i);
        }
        i = i + 1;
    }
    Err(EngineError::InitializationFailure(InitFailure::NoSuitableDevice))
}

/// The queue family offers compute work and has at least one queue.
pub open spec fn queue_family_accepts(family: QueueFamilyInfo) -> bool {
    family.queue_count > 0 && family.queue_flags & QUEUE_FLAG_COMPUTE != 0
}

/// Selects the first queue family, in index order, with a nonzero queue
/// count and compute capability; fails with `NoComputeQueue` otherwise.
pub fn get_queue_family(families: &Vec<QueueFamilyInfo>) -> (r: Result<u32, EngineError>)
    requires
        families@.len() <= u32::MAX,
    ensures
        match r {
            Ok(i) => {
                &&& (i as int) < families@.len()
                &&& queue_family_accepts(families@[i as int])
                &&& forall|j: int|
                    0 <= j < i as int ==> !queue_family_accepts(#[trigger] families@[j])
            },
            Err(e) => {
                &&& e == EngineError::InitializationFailure(InitFailure::NoComputeQueue)
                &&& forall|j: int|
                    0 <= j < families@.len() ==> !queue_family_accepts(#[trigger] families@[j])
            },
        },
{
    let mut i: usize = 0;
    while i < families.len()
        invariant
            families@.len() <= u32::MAX,
            i <= families@.len(),
            forall|j: int| 0 <= j < i as int ==> !queue_family_accepts(#[trigger] families@[j]),
        decreases families@.len() - i,
    {
        let family = &families[i];
        if family.queue_count > 0 && family.queue_flags & QUEUE_FLAG_COMPUTE != 0 {
            return Ok(i as u32);
        }
        i = i + 1;
    }
    Err(EngineError::InitializationFailure(InitFailure::NoComputeQueue))
}

} // verus!
