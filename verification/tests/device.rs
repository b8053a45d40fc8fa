use ash::vk;
use vkfetch_rs::device::{
    cstring_to_string, decode_version_number, resolve_vendor, CoreProperties, DeviceAnswers,
    DeviceError, DeviceLimits, DeviceType, DriverProperties, GPUCharacteristics, PhysicalDevice,
    ShaderCoreProperties, SmBuiltinsProperties, VendorTopology,
};
use vkfetch_rs::memory::{MemoryHeap, MemoryPressure};
use vkfetch_rs::native::decode_native_string;
use vkfetch_rs::queue::QueueFamily;
use vkfetch_rs::vendor::Vendor;

const GIB: u64 = 1024 * 1024 * 1024;

fn field(text: &str, width: usize) -> Vec<u8> {
    let mut bytes = text.as_bytes().to_vec();
    bytes.resize(width, 0);
    bytes
}

fn answers_of(vendor_id: u32, topology: VendorTopology) -> DeviceAnswers {
    DeviceAnswers {
        core: CoreProperties {
            device_name: field("Test Device", 256),
            device_type: 2,
            vendor_id,
            device_id: 0x73BF,
            api_version: (1 << 22) | (3 << 12) | 280,
            limits: DeviceLimits {
                max_image_dimension_2d: 16384,
                max_compute_shared_memory_size: 65536,
                max_compute_work_group_invocations: 1024,
            },
        },
        driver: DriverProperties {
            driver_name: field("test driver", 256),
            driver_info: field("1.2.3 (test)", 256),
        },
        heaps: vec![
            MemoryHeap { size: 32 * GIB, flags: 0, budget: 30 * GIB },
            MemoryHeap { size: 10 * GIB, flags: 1, budget: 8 * GIB },
        ],
        queue_families: vec![QueueFamily { flags: 0x7 }, QueueFamily { flags: 0x4 }],
        extensions: vec!["VK_KHR_swapchain".to_string(), "VK_KHR_ray_tracing_pipeline".to_string()],
        topology,
    }
}

fn shader_core() -> ShaderCoreProperties {
    ShaderCoreProperties {
        shader_engine_count: 4,
        shader_arrays_per_engine_count: 2,
        compute_units_per_shader_array: 10,
        simd_per_compute_unit: 2,
        wavefronts_per_simd: 16,
        wavefront_size: 32,
    }
}

#[test]
fn test_decode_version_number() {
    // Simulate a Vulkan version: variant 0, version 1.2.3
    let version: u32 = (1 << 22) | (2 << 12) | 3;
    let decoded = decode_version_number(version);
    assert_eq!(decoded, "0.1.2.3");
}

#[test]
fn test_cstring_to_string() {
    let text = "Hello, world!";
    let s = cstring_to_string(text.as_bytes());
    assert_eq!(s, text);
}

#[test]
fn test_device_type_from() {
    assert_eq!(DeviceType::from(0).name(), "Other");
    assert_eq!(DeviceType::from(1).name(), "Integrated GPU");
    assert_eq!(DeviceType::from(2).name(), "Discrete GPU");
    assert_eq!(DeviceType::from(3).name(), "Virtual GPU");
    assert_eq!(DeviceType::from(4).name(), "CPU");
    assert_eq!(DeviceType::from(99).name(), "Unknown");
}

#[test]
fn test_gpu_characteristics_defaults() {
    // Create dummy limits.
    let limits = vk::PhysicalDeviceLimits {
        max_image_dimension2_d: 8192,
        max_compute_shared_memory_size: 16384,
        max_compute_work_group_invocations: 1024,
        ..Default::default()
    };

    // Construct dummy GPUCharacteristics with only common limits.
    let characteristics = GPUCharacteristics {
        memory_pressure: MemoryPressure::Fraction { used: 1, total: 2 },
        compute_units: None,
        shader_engines: None,
        shader_arrays_per_engine_count: None,
        compute_units_per_shader_array: None,
        simd_per_compute_unit: None,
        wavefronts_per_simd: None,
        wavefront_size: None,
        streaming_multiprocessors: None,
        warps_per_sm: None,
        max_image_dimension_2d: limits.max_image_dimension2_d,
        max_compute_shared_memory_size: limits.max_compute_shared_memory_size,
        max_compute_work_group_invocations: limits.max_compute_work_group_invocations,
        dedicated_transfer_queue: false,
        dedicated_async_compute_queue: false,
        supports_ray_tracing: false,
    };

    assert_eq!(characteristics.max_image_dimension_2d, 8192);
    assert_eq!(characteristics.max_compute_shared_memory_size, 16384);
    assert_eq!(characteristics.max_compute_work_group_invocations, 1024);
    assert!(characteristics.compute_units.is_none());
}

#[test]
fn decode_version_number_extremes() {
    assert_eq!(decode_version_number(0), "0.0.0.0");
    assert_eq!(decode_version_number(u32::MAX), "7.127.1023.4095");
    assert_eq!(decode_version_number(1 << 29), "1.0.0.0");
    assert_eq!(decode_version_number(4095), "0.0.0.4095");
    assert_eq!(decode_version_number(4096), "0.0.1.0");
    assert_eq!(decode_version_number((1 << 22) | (3 << 12) | 280), "0.1.3.280");
}

#[test]
fn decode_version_number_agrees_with_the_field_accessors() {
    for raw in [0u32, 1, 0x0040_3000, 0x1234_5678, 0xDEAD_BEEF, u32::MAX] {
        let expected = format!(
            "{}.{}.{}.{}",
            vk::api_version_variant(raw),
            vk::api_version_major(raw),
            vk::api_version_minor(raw),
            vk::api_version_patch(raw)
        );
        assert_eq!(decode_version_number(raw), expected);
    }
}

#[test]
fn cstring_to_string_replaces_invalid_bytes() {
    assert_eq!(cstring_to_string(&[b'a', 0xFF, b'b']), "a\u{FFFD}b");
    assert_eq!(cstring_to_string(&[]), "");
    assert_eq!(cstring_to_string("Gr\u{fc}n".as_bytes()), "Gr\u{fc}n");
}

#[test]
fn decode_native_string_stops_at_the_first_terminator() {
    assert_eq!(decode_native_string(b"Radeon\0junk\0"), "Radeon");
    assert_eq!(decode_native_string(b"\0"), "");
    assert_eq!(decode_native_string(&field("GeForce", 256)), "GeForce");
    assert_eq!(decode_native_string(&[b'x', 0xC0, 0, b'y']), "x\u{FFFD}");
}

#[test]
fn decode_native_string_without_terminator_is_unknown() {
    assert_eq!(decode_native_string(b"unterminated"), "Unknown");
    assert_eq!(decode_native_string(b""), "Unknown");
}

#[test]
fn resolve_vendor_knows_the_table() {
    assert_eq!(resolve_vendor(0x1002), Ok(Vendor::AMD));
    assert_eq!(resolve_vendor(0x106B), Ok(Vendor::Apple));
    assert_eq!(resolve_vendor(0x10DE), Ok(Vendor::Nvidia));
    assert_eq!(resolve_vendor(0x8086), Ok(Vendor::Intel));
    assert_eq!(resolve_vendor(0xFFFF), Ok(Vendor::Unknown));
}

#[test]
fn resolve_vendor_rejects_what_is_not_in_the_table() {
    assert_eq!(resolve_vendor(0x9999), Err(DeviceError::UnknownVendor { vendor_id: 0x9999 }));
    assert_eq!(resolve_vendor(0), Err(DeviceError::UnknownVendor { vendor_id: 0 }));
    assert_eq!(resolve_vendor(0x10008), Err(DeviceError::UnknownVendor { vendor_id: 0x10008 }));
}

#[test]
fn new_fills_the_shader_core_group_for_its_vendor() {
    let answers = answers_of(0x1002, VendorTopology::ShaderCore(shader_core()));
    assert!(answers.is_computable());
    let device = PhysicalDevice::new(&answers).unwrap();
    let c = device.characteristics;
    assert_eq!(device.vendor, Vendor::AMD);
    assert_eq!(c.compute_units, Some(80));
    assert_eq!(c.shader_engines, Some(4));
    assert_eq!(c.shader_arrays_per_engine_count, Some(2));
    assert_eq!(c.compute_units_per_shader_array, Some(10));
    assert_eq!(c.simd_per_compute_unit, Some(2));
    assert_eq!(c.wavefronts_per_simd, Some(16));
    assert_eq!(c.wavefront_size, Some(32));
    assert_eq!(c.streaming_multiprocessors, None);
    assert_eq!(c.warps_per_sm, None);
}

#[test]
fn new_fills_the_multiprocessor_group_for_its_vendor() {
    let answers = answers_of(
        0x10DE,
        VendorTopology::SmBuiltins(SmBuiltinsProperties { shader_sm_count: 46, shader_warps_per_sm: 32 }),
    );
    let device = PhysicalDevice::new(&answers).unwrap();
    let c = device.characteristics;
    assert_eq!(device.vendor, Vendor::Nvidia);
    assert_eq!(c.streaming_multiprocessors, Some(46));
    assert_eq!(c.warps_per_sm, Some(32));
    assert_eq!(c.compute_units, None);
    assert_eq!(c.shader_engines, None);
    assert_eq!(c.shader_arrays_per_engine_count, None);
    assert_eq!(c.compute_units_per_shader_array, None);
    assert_eq!(c.simd_per_compute_unit, None);
    assert_eq!(c.wavefronts_per_simd, None);
    assert_eq!(c.wavefront_size, None);
}

#[test]
fn new_leaves_the_groups_unset_for_other_vendors() {
    for topology in [
        VendorTopology::Absent,
        VendorTopology::ShaderCore(shader_core()),
        VendorTopology::SmBuiltins(SmBuiltinsProperties { shader_sm_count: 1, shader_warps_per_sm: 2 }),
    ] {
        let device = PhysicalDevice::new(&answers_of(0x8086, topology)).unwrap();
        let c = device.characteristics;
        assert_eq!(device.vendor, Vendor::Intel);
        assert_eq!(
            (c.compute_units, c.shader_engines, c.shader_arrays_per_engine_count),
            (None, None, None)
        );
        assert_eq!(
            (c.compute_units_per_shader_array, c.simd_per_compute_unit, c.wavefronts_per_simd),
            (None, None, None)
        );
        assert_eq!((c.wavefront_size, c.streaming_multiprocessors, c.warps_per_sm), (None, None, None));
    }
}

#[test]
fn new_ignores_the_answer_of_the_other_family() {
    let amd = PhysicalDevice::new(&answers_of(
        0x1002,
        VendorTopology::SmBuiltins(SmBuiltinsProperties { shader_sm_count: 1, shader_warps_per_sm: 2 }),
    ))
    .unwrap();
    assert_eq!(amd.characteristics.streaming_multiprocessors, None);
    assert_eq!(amd.characteristics.compute_units, None);
    let nvidia =
        PhysicalDevice::new(&answers_of(0x10DE, VendorTopology::ShaderCore(shader_core()))).unwrap();
    assert_eq!(nvidia.characteristics.compute_units, None);
    assert_eq!(nvidia.characteristics.warps_per_sm, None);
}

#[test]
fn new_decodes_every_field() {
    let device = PhysicalDevice::new(&answers_of(0x8086, VendorTopology::Absent)).unwrap();
    assert_eq!(device.device_name, "Test Device");
    assert_eq!(device.device_type, DeviceType::DiscreteGPU);
    assert_eq!(device.device_id, 0x73BF);
    assert_eq!(device.vendor_id, 0x8086);
    assert_eq!(device.driver_name, "test driver");
    assert_eq!(device.driver_info, "1.2.3 (test)");
    assert_eq!(device.api_version, "0.1.3.280");
    assert_eq!(device.heapsize, 10 * GIB);
    assert_eq!(device.heapbudget, 8 * GIB);
    let c = device.characteristics;
    assert_eq!(c.memory_pressure, MemoryPressure::Fraction { used: 2 * GIB, total: 10 * GIB });
    assert_eq!(c.max_image_dimension_2d, 16384);
    assert_eq!(c.max_compute_shared_memory_size, 65536);
    assert_eq!(c.max_compute_work_group_invocations, 1024);
    assert!(c.dedicated_transfer_queue);
    assert!(!c.dedicated_async_compute_queue);
    assert!(c.supports_ray_tracing);
}

#[test]
fn new_fails_on_an_unknown_vendor() {
    let made = PhysicalDevice::new(&answers_of(0x1234, VendorTopology::Absent));
    assert_eq!(made, Err(DeviceError::UnknownVendor { vendor_id: 0x1234 }));
}

#[test]
fn new_reports_no_pressure_without_a_budget() {
    let mut answers = answers_of(0x8086, VendorTopology::Absent);
    answers.heaps = vec![MemoryHeap { size: 4 * GIB, flags: 1, budget: 0 }];
    let device = PhysicalDevice::new(&answers).unwrap();
    assert_eq!(device.characteristics.memory_pressure, MemoryPressure::Unreported);
    assert_eq!(device.heapsize, 4 * GIB);
    assert_eq!(device.heapbudget, 0);
}

#[test]
fn new_without_heaps_reads_an_empty_heap() {
    let mut answers = answers_of(0x8086, VendorTopology::Absent);
    answers.heaps = Vec::new();
    answers.queue_families = Vec::new();
    answers.extensions = Vec::new();
    let device = PhysicalDevice::new(&answers).unwrap();
    assert_eq!(device.heapsize, 0);
    assert_eq!(device.heapbudget, 0);
    assert_eq!(device.characteristics.memory_pressure, MemoryPressure::Unreported);
    assert!(!device.characteristics.dedicated_transfer_queue);
    assert!(!device.characteristics.dedicated_async_compute_queue);
    assert!(!device.characteristics.supports_ray_tracing);
}

#[test]
fn is_computable_tells_what_fits() {
    let mut over_budget = answers_of(0x8086, VendorTopology::Absent);
    over_budget.heaps = vec![MemoryHeap { size: 1, flags: 1, budget: 2 }];
    assert!(!over_budget.is_computable());
    over_budget.core.vendor_id = 0x1234;
    assert!(over_budget.is_computable());

    let huge = ShaderCoreProperties {
        shader_engine_count: 65536,
        shader_arrays_per_engine_count: 65536,
        compute_units_per_shader_array: 1,
        ..shader_core()
    };
    assert!(!huge.is_countable());
    assert!(!answers_of(0x1002, VendorTopology::ShaderCore(huge)).is_computable());
    assert!(answers_of(0x10DE, VendorTopology::ShaderCore(huge)).is_computable());
    let largest = ShaderCoreProperties {
        shader_engine_count: 65535,
        shader_arrays_per_engine_count: 65537,
        compute_units_per_shader_array: 1,
        ..shader_core()
    };
    assert!(largest.is_countable());
    assert_eq!(largest.count_compute_units(), u32::MAX);
    let nothing = ShaderCoreProperties { compute_units_per_shader_array: 0, ..huge };
    assert!(nothing.is_countable());
    assert_eq!(nothing.count_compute_units(), 0);
}
