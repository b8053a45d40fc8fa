use vkfetch_rs::device::{DeviceType, GPUCharacteristics, PhysicalDevice};
use vkfetch_rs::memory::MemoryPressure;
use vkfetch_rs::report::{DeviceFigures, BLANK_ART};
use vkfetch_rs::vendor::Vendor;
use vkfetch_rs::{
    ansi_supported_on, enable_virtual_terminal_processing, fetch_device, get_device_info,
    is_ansi_supported, is_vt_enabled, set_side_by_side,
};

/// Creates a dummy PhysicalDevice instance for tests.
fn dummy_physical_device() -> PhysicalDevice {
    PhysicalDevice {
        vendor: Vendor::Unknown,
        device_name: "TestDevice".to_string(),
        device_type: DeviceType::DiscreteGPU,
        device_id: 0xDEADBEEF,
        vendor_id: 0xBEEF,
        driver_name: "TestDriver".to_string(),
        driver_info: "TestDriverInfo".to_string(),
        api_version: "1.2.3.4".to_string(),
        heapbudget: 8 * 1024 * 1024 * 1024, // 8 GB
        heapsize: 10 * 1024 * 1024 * 1024,  // 10 GB
        characteristics: GPUCharacteristics {
            // 20%
            memory_pressure: MemoryPressure::Fraction {
                used: 2 * 1024 * 1024 * 1024,
                total: 10 * 1024 * 1024 * 1024,
            },
            compute_units: Some(10),
            shader_engines: Some(2),
            shader_arrays_per_engine_count: Some(2),
            compute_units_per_shader_array: Some(5),
            simd_per_compute_unit: Some(64),
            wavefronts_per_simd: Some(4),
            wavefront_size: Some(32),
            streaming_multiprocessors: Some(46),
            warps_per_sm: Some(32),
            max_image_dimension_2d: 16384,
            max_compute_shared_memory_size: 65536,
            max_compute_work_group_invocations: 1024,
            dedicated_transfer_queue: true,
            dedicated_async_compute_queue: true,
            supports_ray_tracing: true,
        },
    }
}

fn dummy_figures() -> DeviceFigures {
    DeviceFigures {
        vram_budget: "8.000 GB".to_string(),
        vram_size: "10.000 GB".to_string(),
        meter_filled: 6,
        pressure_percent: "20.00".to_string(),
        max_compute_shared_memory_size: "64.000 KB".to_string(),
        max_compute_work_group_invocations: "1.000 KB".to_string(),
    }
}

#[test]
fn test_get_device_info() {
    let device = dummy_physical_device();
    let color = "\x1B[32m";
    let info = get_device_info(&device, color, &dummy_figures());
    assert!(info.len() >= 9);
    assert!(info[0].contains("TestDevice"));
    assert!(info[0].contains(device.device_type.name()));
    assert!(info[2].contains("0xDEADBEEF"));
    assert!(info[2].contains("0xBEEF"));
    assert!(info[7].contains("10") || info[7].contains("N/A"));
    assert!(info[8].contains("32") || info[8].contains("N/A"));
}

#[test]
fn device_info_has_every_line() {
    let device = dummy_physical_device();
    let info = get_device_info(&device, "<c>", &dummy_figures());
    let expected = vec![
        "\x1B[1m<c>TestDevice\x1B[0m: Discrete GPU".to_string(),
        format!("\x1B[1m<c>{}", "=".repeat(25)),
        "    <c>Device\x1B[0m: 0xDEADBEEF : 0xBEEF (Unknown)".to_string(),
        "    <c>Driver\x1B[0m: TestDriver : TestDriverInfo".to_string(),
        "    <c>API\x1B[0m: 1.2.3.4".to_string(),
        "    <c>VRAM\x1B[0m: <c>8.000 GB\x1B[0m / 10.000 GB".to_string(),
        format!("    [<c>||||||\x1B[0m{}] % <c>20.00\x1B[0m", " ".repeat(24)),
        "    <c>Compute Units\x1B[0m: 10".to_string(),
        "    <c>Shader Engines\x1B[0m: 2".to_string(),
        "    <c>Shader Arrays per Engine\x1B[0m: 2".to_string(),
        "    <c>Compute Units per Shader Array\x1B[0m: 5".to_string(),
        "    <c>SIMD per Compute Unit\x1B[0m: 64".to_string(),
        "    <c>Wavefronts per SIMD\x1B[0m: 4".to_string(),
        "    <c>Wavefront Size\x1B[0m: 32".to_string(),
        "    <c>Streaming Multiprocessors\x1B[0m: 46".to_string(),
        "    <c>Warps per SM\x1B[0m: 32".to_string(),
        "    <c>Max Compute Shared Memory Size\x1B[0m: 64.000 KB".to_string(),
        "    <c>Max Compute Work Group Invocations\x1B[0m: 1.000 KB".to_string(),
        "    <c>Raytracing\x1B[0m: [x] | <c>Dedicated Transfer Queue\x1B[0m: [x] | <c>Dedicated Async Compute Queue\x1B[0m: [x]".to_string(),
    ];
    assert_eq!(info, expected);
}

#[test]
fn device_info_leaves_out_what_is_not_reported() {
    let mut device = dummy_physical_device();
    device.device_name = "Gr\u{fc}n".to_string();
    device.device_type = DeviceType::CPU;
    device.device_id = 0;
    device.vendor_id = 0x10DE;
    device.vendor = Vendor::Nvidia;
    let c = &mut device.characteristics;
    c.compute_units = None;
    c.shader_engines = None;
    c.shader_arrays_per_engine_count = None;
    c.compute_units_per_shader_array = None;
    c.simd_per_compute_unit = None;
    c.wavefronts_per_simd = None;
    c.wavefront_size = None;
    c.warps_per_sm = Some(4294967295);
    c.supports_ray_tracing = false;
    c.dedicated_async_compute_queue = false;
    let mut figures = dummy_figures();
    figures.meter_filled = 30;
    let info = get_device_info(&device, "", &figures);
    assert_eq!(info.len(), 12);
    assert_eq!(info[0], "\x1B[1mGr\u{fc}n\x1B[0m: CPU");
    assert_eq!(info[1], format!("\x1B[1m{}", "=".repeat(5 + 3 + 3)));
    assert_eq!(info[2], "    Device\x1B[0m: 0x0 : 0x10DE (Nvidia)");
    assert_eq!(info[6], format!("    [{}\x1B[0m] % 20.00\x1B[0m", "|".repeat(30)));
    assert_eq!(info[7], "    Streaming Multiprocessors\x1B[0m: 46");
    assert_eq!(info[8], "    Warps per SM\x1B[0m: 4294967295");
    assert_eq!(
        info[11],
        "    Raytracing\x1B[0m: [ ] | Dedicated Transfer Queue\x1B[0m: [x] | Dedicated Async Compute Queue\x1B[0m: [ ]"
    );
    figures.meter_filled = 0;
    let empty = get_device_info(&device, "", &figures);
    assert_eq!(empty[6], format!("    [\x1B[0m{}] % 20.00\x1B[0m", " ".repeat(30)));
}

#[test]
fn side_by_side_pads_the_shorter_column() {
    let art = vec!["AA".to_string(), "BB".to_string(), "CC".to_string()];
    let info = vec!["one".to_string()];
    assert_eq!(
        set_side_by_side(&art, &info),
        vec![" AA one".to_string(), " BB ".to_string(), " CC ".to_string()]
    );
    assert_eq!(
        set_side_by_side(&info, &art),
        vec![
            " one AA".to_string(),
            format!(" {} BB", BLANK_ART),
            format!(" {} CC", BLANK_ART)
        ]
    );
    assert_eq!(BLANK_ART.len(), 47);
    assert!(set_side_by_side(&Vec::new(), &Vec::new()).is_empty());
}

#[test]
fn escape_sequences_need_no_enabling_here() {
    assert!(enable_virtual_terminal_processing().is_ok());
    assert!(is_vt_enabled());
    let supported = is_ansi_supported();
    assert_eq!(supported, atty::is(atty::Stream::Stdout));
}

#[test]
fn the_printed_report_sets_the_info_beside_the_picture() {
    let mut device = dummy_physical_device();
    device.vendor = Vendor::Intel;
    for bright in [false, true] {
        let art = device.vendor.get_ascii_art_in(bright);
        let style = if bright {
            device.vendor.get_alternative_style()
        } else {
            device.vendor.get_style()
        };
        let info = get_device_info(&device, style[0], &dummy_figures());
        let lines = fetch_device(&device, bright, &dummy_figures());
        assert_eq!(lines, set_side_by_side(&art, &info));
        assert_eq!(lines.len(), 19);
        assert_eq!(lines[0], format!(" {} {}", art[0], info[0]));
        assert_eq!(lines[18], format!(" {} {}", BLANK_ART, info[18]));
        assert!(lines[2].contains(style[0]));
    }
}

#[test]
fn bright_colours_need_a_terminal_that_processes_them() {
    assert!(ansi_supported_on(true, true));
    assert!(!ansi_supported_on(true, false));
    assert!(!ansi_supported_on(false, true));
    assert!(!ansi_supported_on(false, false));
    assert_eq!(is_ansi_supported(), ansi_supported_on(atty::is(atty::Stream::Stdout), is_vt_enabled()));
}
