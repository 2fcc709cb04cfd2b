use vkinit::{
    choice_message, family_string, graphics_queue_family, heap_string, next_action, pick_format,
    pick_format_index, push_decimal, swapchain_image_count, vulkan_info_lines, ApiVersion,
    DeviceInfo, LoopAction, LoopEvent, MemoryHeapInfo, QueueFamilyInfo, SurfaceFormat,
    COLOR_SPACE_SRGB_NONLINEAR, FORMAT_B8G8R8A8_SRGB,
};

fn sf(format: u32, color_space: u32) -> SurfaceFormat {
    SurfaceFormat { format, color_space }
}

fn dec(n: u64) -> String {
    let mut s = String::from("x");
    push_decimal(&mut s, n);
    s
}

#[test]
fn decimal_text() {
    assert_eq!(dec(0), "x0");
    assert_eq!(dec(9), "x9");
    assert_eq!(dec(10), "x10");
    assert_eq!(dec(1234567), "x1234567");
    assert_eq!(dec(u64::MAX), "x18446744073709551615");
}

#[test]
fn preferred_format_is_found_after_others() {
    let v = vec![sf(44, 0), sf(37, 0), sf(50, 0), sf(50, 0)];
    assert_eq!(pick_format_index(&v), 2);
    let (f, msg) = pick_format(&v);
    assert_eq!(f, sf(FORMAT_B8G8R8A8_SRGB, COLOR_SPACE_SRGB_NONLINEAR));
    assert_eq!(msg, "Using B8G8R8A8_SRGB format in SrgbNonLinear color space");
}

#[test]
fn fallback_is_first_format() {
    let v = vec![sf(44, 0), sf(50, 1000104001), sf(37, 0)];
    assert_eq!(pick_format_index(&v), 0);
    let (f, msg) = pick_format(&v);
    assert_eq!(f, sf(44, 0));
    assert_eq!(msg, "Using fallback format 44");
}

#[test]
fn single_format_is_taken() {
    let v = vec![sf(1000156033, 3)];
    let (f, msg) = pick_format(&v);
    assert_eq!(f, sf(1000156033, 3));
    assert_eq!(msg, "Using fallback format 1000156033");
    assert_eq!(choice_message(sf(50, 0)), "Using B8G8R8A8_SRGB format in SrgbNonLinear color space");
}

#[test]
fn heap_size_in_whole_mebibytes() {
    let h = MemoryHeapInfo { id: 1, size: 3 * 1048576 + 1048575, device_local: true };
    assert_eq!(heap_string(h), "  - id: 1, size (Mb): 3, device local: true");
    let small = MemoryHeapInfo { id: 0, size: 1048575, device_local: false };
    assert_eq!(heap_string(small), "  - id: 0, size (Mb): 0, device local: false");
}

#[test]
fn family_line_text() {
    let q = QueueFamilyInfo { id: 2, queues_count: 16, supports_graphics: false };
    assert_eq!(family_string(q), "  - id: 2, queue count: 16, graphical: false");
}

#[test]
fn listing_without_devices() {
    assert_eq!(vulkan_info_lines(&vec![]), vec!["Vulkan compatible devices:".to_string()]);
}

#[test]
fn listing_of_two_devices() {
    let gpu = DeviceInfo {
        index: 0,
        name: "Test GPU".to_string(),
        api_version: ApiVersion { major: 1, minor: 2, patch: 131 },
        driver_version: 1871708160,
        memory_heaps: vec![
            MemoryHeapInfo { id: 0, size: 8589934592, device_local: true },
            MemoryHeapInfo { id: 1, size: 25165824000, device_local: false },
        ],
        queue_families: vec![
            QueueFamilyInfo { id: 0, queues_count: 16, supports_graphics: true },
            QueueFamilyInfo { id: 1, queues_count: 2, supports_graphics: false },
        ],
    };
    let cpu = DeviceInfo {
        index: 1,
        name: "llvmpipe".to_string(),
        api_version: ApiVersion { major: 1, minor: 0, patch: 2 },
        driver_version: 1,
        memory_heaps: vec![],
        queue_families: vec![],
    };
    let lines = vulkan_info_lines(&vec![gpu, cpu]);
    let expected = vec![
        "Vulkan compatible devices:",
        "- index: 0, name: Test GPU, api version: 1.2.131, driver version: 1871708160",
        "  memory heaps:",
        "  - id: 0, size (Mb): 8192, device local: true",
        "  - id: 1, size (Mb): 24000, device local: false",
        "  queue families:",
        "  - id: 0, queue count: 16, graphical: true",
        "  - id: 1, queue count: 2, graphical: false",
        "- index: 1, name: llvmpipe, api version: 1.0.2, driver version: 1",
        "  memory heaps:",
        "  queue families:",
    ];
    assert_eq!(lines, expected);
}

#[test]
fn first_graphics_family() {
    let f = |id: u32, g: bool| QueueFamilyInfo { id, queues_count: 1, supports_graphics: g };
    assert_eq!(graphics_queue_family(&vec![]), None);
    assert_eq!(graphics_queue_family(&vec![f(0, false), f(1, false)]), None);
    assert_eq!(graphics_queue_family(&vec![f(0, true), f(1, true)]), Some(0));
    assert_eq!(graphics_queue_family(&vec![f(0, false), f(1, true), f(2, true)]), Some(1));
}

#[test]
fn loop_actions() {
    assert_eq!(next_action(LoopEvent::CloseRequested), LoopAction::Exit);
    assert_eq!(next_action(LoopEvent::MainEventsCleared), LoopAction::Sleep { millis: 1 });
    assert_eq!(next_action(LoopEvent::Other), LoopAction::Continue);
}

#[test]
fn image_count_is_one_above_minimum() {
    assert_eq!(swapchain_image_count(2), 3);
    assert_eq!(swapchain_image_count(0), 1);
    assert_eq!(swapchain_image_count(u32::MAX - 1), u32::MAX);
}
