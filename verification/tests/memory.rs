use ash::vk;
use vkfetch_rs::extension::{supports_ray_tracing, RAY_TRACING_NV, RAY_TRACING_PIPELINE_KHR};
use vkfetch_rs::memory::{
    memory_pressure, select_vram_heap, vram_heap_of, MemoryHeap, MemoryPressure,
};
use vkfetch_rs::queue::{detect_dedicated_queues, QueueCapability, QueueFamily};

const GIB: u64 = 1024 * 1024 * 1024;

fn heap(flags: u32) -> MemoryHeap {
    MemoryHeap { size: 100, flags, budget: 50 }
}

fn as_number(pressure: MemoryPressure) -> f32 {
    match pressure {
        MemoryPressure::Unreported => f32::NAN,
        MemoryPressure::Fraction { used, total } => used as f32 / total as f32,
    }
}

#[test]
fn vram_heap_is_the_first_device_local_one() {
    assert_eq!(select_vram_heap(&vec![heap(0), heap(1)]), 1);
    assert_eq!(select_vram_heap(&vec![heap(1), heap(1)]), 0);
    assert_eq!(select_vram_heap(&vec![heap(0), heap(2), heap(3), heap(1)]), 2);
}

#[test]
fn vram_heap_defaults_to_the_first() {
    assert_eq!(select_vram_heap(&vec![heap(0), heap(0)]), 0);
    assert_eq!(select_vram_heap(&vec![heap(2), heap(4)]), 0);
    assert_eq!(select_vram_heap(&Vec::new()), 0);
}

#[test]
fn vram_heap_of_reads_the_selected_heap() {
    let selected = MemoryHeap { size: 8, flags: 1, budget: 3 };
    assert_eq!(vram_heap_of(&vec![heap(0), selected, heap(1)]), selected);
    assert_eq!(vram_heap_of(&vec![heap(0)]), heap(0));
    assert_eq!(vram_heap_of(&Vec::new()), MemoryHeap { size: 0, flags: 0, budget: 0 });
}

#[test]
fn device_local_is_the_flag_of_the_binding() {
    assert_eq!(vk::MemoryHeapFlags::DEVICE_LOCAL.as_raw(), 1);
    assert!(heap(vk::MemoryHeapFlags::DEVICE_LOCAL.as_raw()).device_local());
    assert!(heap(3).device_local());
    assert!(!heap(vk::MemoryHeapFlags::MULTI_INSTANCE.as_raw()).device_local());
    assert!(!heap(0).device_local());
}

#[test]
fn memory_pressure_of_the_example() {
    let pressure = memory_pressure(10 * GIB, 8 * GIB);
    assert_eq!(pressure, MemoryPressure::Fraction { used: 2 * GIB, total: 10 * GIB });
    assert!((as_number(pressure) - 0.2).abs() < 1e-6);
}

#[test]
fn memory_pressure_is_unreported_without_a_budget() {
    assert_eq!(memory_pressure(10 * GIB, 0), MemoryPressure::Unreported);
    assert_eq!(memory_pressure(0, 0), MemoryPressure::Unreported);
    assert!(as_number(memory_pressure(10 * GIB, 0)).is_nan());
}

#[test]
fn memory_pressure_lies_in_the_unit_interval() {
    for (size, budget) in [(1u64, 1u64), (100, 1), (100, 99), (u64::MAX, 1), (u64::MAX, u64::MAX)] {
        let pressure = memory_pressure(size, budget);
        assert_eq!(pressure, MemoryPressure::Fraction { used: size - budget, total: size });
        let number = as_number(pressure);
        assert!((0.0..=1.0).contains(&number));
        assert!((number - (size - budget) as f32 / size as f32).abs() < 1e-6);
    }
}

#[test]
fn queue_flags_are_those_of_the_binding() {
    assert_eq!(QueueCapability::Graphics.flag(), vk::QueueFlags::GRAPHICS.as_raw());
    assert_eq!(QueueCapability::Compute.flag(), vk::QueueFlags::COMPUTE.as_raw());
    assert_eq!(QueueCapability::Transfer.flag(), vk::QueueFlags::TRANSFER.as_raw());
    let family = QueueFamily { flags: 0x6 };
    assert!(!family.supports(QueueCapability::Graphics));
    assert!(family.supports(QueueCapability::Compute));
    assert!(family.supports(QueueCapability::Transfer));
    assert!(!QueueFamily { flags: 0 }.supports(QueueCapability::Transfer));
}

#[test]
fn a_transfer_only_family_is_a_dedicated_transfer_queue() {
    let families = vec![QueueFamily { flags: 0x4 }, QueueFamily { flags: 0x3 }];
    let found = detect_dedicated_queues(&families);
    assert!(found.transfer);
    assert!(!found.async_compute);
}

#[test]
fn families_that_all_take_graphics_offer_no_async_compute() {
    let families =
        vec![QueueFamily { flags: 0x7 }, QueueFamily { flags: 0x3 }, QueueFamily { flags: 0x1 }];
    let found = detect_dedicated_queues(&families);
    assert!(!found.async_compute);
    assert!(!found.transfer);
}

#[test]
fn a_compute_family_without_graphics_is_async_compute() {
    let found = detect_dedicated_queues(&vec![QueueFamily { flags: 0x7 }, QueueFamily { flags: 0x6 }]);
    assert!(found.async_compute);
    assert!(!found.transfer);
    let sparse = detect_dedicated_queues(&vec![QueueFamily { flags: 0xC }, QueueFamily { flags: 0xA }]);
    assert!(sparse.transfer);
    assert!(sparse.async_compute);
    let none = detect_dedicated_queues(&Vec::new());
    assert!(!none.transfer);
    assert!(!none.async_compute);
}

#[test]
fn ray_tracing_is_known_by_either_extension() {
    assert!(supports_ray_tracing(&vec!["VK_KHR_ray_tracing_pipeline".to_string()]));
    assert!(supports_ray_tracing(&vec!["VK_KHR_swapchain".to_string(), "VK_NV_ray_tracing".to_string()]));
    assert!(supports_ray_tracing(&vec![RAY_TRACING_NV.to_string(), RAY_TRACING_PIPELINE_KHR.to_string()]));
}

#[test]
fn ray_tracing_needs_the_exact_name() {
    assert!(!supports_ray_tracing(&Vec::new()));
    assert!(!supports_ray_tracing(&vec!["VK_KHR_swapchain".to_string()]));
    assert!(!supports_ray_tracing(&vec!["vk_khr_ray_tracing_pipeline".to_string()]));
    assert!(!supports_ray_tracing(&vec!["VK_KHR_ray_tracing_pipeline ".to_string()]));
    assert!(!supports_ray_tracing(&vec!["VK_KHR_ray_tracing".to_string(), String::new()]));
}
