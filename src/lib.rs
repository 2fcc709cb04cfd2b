//! Decisions and text behind opening a Vulkan window: which surface format
//! to use, which queue family to draw with, how the device listing reads,
//! and what the event loop does with each event.

mod decimal;
mod format;
mod report;
mod window;

pub use decimal::{decimal, digit_text, push_decimal};
pub use format::{
    choice_message, choice_text, is_pick, is_preferred, lemma_pick_unique, pick_format,
    pick_format_index, SurfaceFormat, COLOR_SPACE_SRGB_NONLINEAR, FORMAT_B8G8R8A8_SRGB,
};
pub use report::{
    bool_text, device_header, device_lines, devices_lines, family_line, family_string,
    graphics_queue_family, heap_line, heap_string, report_lines, texts, version_text,
    vulkan_info_lines, ApiVersion, DeviceInfo, MemoryHeapInfo, QueueFamilyInfo, MEBIBYTE,
};
pub use window::{next_action, swapchain_image_count, LoopAction, LoopEvent, IDLE_TICK_MILLIS};
