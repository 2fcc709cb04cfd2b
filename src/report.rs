use vstd::prelude::*;
use vstd::string::*;

use crate::decimal::{decimal, push_decimal};

verus! {

/// Bytes in one mebibyte, the unit in which heap sizes are listed.
pub const MEBIBYTE: u64 = 1048576;

/// A Vulkan API version.
#[derive(Clone, Copy, Debug, PartialEq, Eq, Structural)]
pub struct ApiVersion {
    pub major: u16,
    pub minor: u16,
    pub patch: u16,
}

/// What the listing shows of one memory heap of a device.
#[derive(Clone, Copy, Debug, PartialEq, Eq, Structural)]
pub struct MemoryHeapInfo {
    pub id: u32,
    /// Size in bytes.
    pub size: u64,
    pub device_local: bool,
}

/// What the listing shows of one queue family of a device.
#[derive(Clone, Copy, Debug, PartialEq, Eq, Structural)]
pub struct QueueFamilyInfo {
    pub id: u32,
    pub queues_count: u64,
    pub supports_graphics: bool,
}

/// What the listing shows of one physical device.
#[derive(Clone, Debug)]
pub struct DeviceInfo {
    pub index: u64,
    pub name: String,
    pub api_version: ApiVersion,
    pub driver_version: u32,
    pub memory_heaps: Vec<MemoryHeapInfo>,
    pub queue_families: Vec<QueueFamilyInfo>,
}

pub open spec fn bool_text(b: bool) -> Seq<char> {
    if b {
        "true"@
    } else {
        "false"@
    }
}

/// `major.minor.patch`.
pub open spec fn version_text(v: ApiVersion) -> Seq<char> {
    decimal(v.major as nat) + "."@ + decimal(v.minor as nat) + "."@ + decimal(v.patch as nat)
}

pub open spec fn device_header(d: DeviceInfo) -> Seq<char> {
    "- index: "@ + decimal(d.index as nat) + ", name: "@ + d.name@ + ", api version: "@
        + version_text(d.api_version) + ", driver version: "@ + decimal(d.driver_version as nat)
}

/// A heap's line; its size is shown in whole mebibytes, rounded down.
pub open spec fn heap_line(h: MemoryHeapInfo) -> Seq<char> {
    "  - id: "@ + decimal(h.id as nat) + ", size (Mb): "@ + decimal((h.size / MEBIBYTE) as nat)
        + ", device local: "@ + bool_text(h.device_local)
}

pub open spec fn family_line(q: QueueFamilyInfo) -> Seq<char> {
    "  - id: "@ + decimal(q.id as nat) + ", queue count: "@ + decimal(q.queues_count as nat)
        + ", graphical: "@ + bool_text(q.supports_graphics)
}

/// The lines of one device: its header, then its heaps, then its queue families.
pub open spec fn device_lines(d: DeviceInfo) -> Seq<Seq<char>> {
    seq![device_header(d), "  memory heaps:"@] + d.memory_heaps@.map_values(
        |h: MemoryHeapInfo| heap_line(h),
    ) + seq!["  queue families:"@] + d.queue_families@.map_values(
        |q: QueueFamilyInfo| family_line(q),
    )
}

/// The lines of each device in turn.
pub open spec fn devices_lines(ds: Seq<DeviceInfo>) -> Seq<Seq<char>>
    decreases ds.len(),
{
    if ds.len() == 0 {
        seq![]
    } else {
        devices_lines(ds.drop_last()) + device_lines(ds.last())
    }
}

/// The whole listing: a title line, then each device's lines.
pub open spec fn report_lines(ds: Seq<DeviceInfo>) -> Seq<Seq<char>> {
    seq!["Vulkan compatible devices:"@] + devices_lines(ds)
}

/// The texts of a list of strings.
pub open spec fn texts(v: Seq<String>) -> Seq<Seq<char>> {
    v.map_values(|s: String| s@)
}

proof fn lemma_texts_push(v: Seq<String>, s: String)
    ensures
        texts(v.push(s)) == texts(v) + seq![s@],
{
    assert(texts(v.push(s)) =~= texts(v) + seq![s@]);
}

fn push_line(out: &mut Vec<String>, s: String)
    ensures
        texts(final(out)@) == texts(old(out)@) + seq![s@],
{
    proof {
        lemma_texts_push(out@, s);
    }
    out.push(s);
}

fn bool_str(b: bool) -> (r: &'static str)
    ensures
        r@ == bool_text(b),
{
    if b {
        "true"
    } else {
        "false"
    }
}

fn header_string(d: &DeviceInfo) -> (r: String)
    ensures
        r@ == device_header(*d),
{
    let mut s = String::from_str("- index: ");
    push_decimal(&mut s, d.index);
    s.append(", name: ");
    s.append(d.name.as_str());
    s.append(", api version: ");
    push_decimal(&mut s, d.api_version.major as u64);
    s.append(".");
    push_decimal(&mut s, d.api_version.minor as u64);
    s.append(".");
    push_decimal(&mut s, d.api_version.patch as u64);
    s.append(", driver version: ");
    push_decimal(&mut s, d.driver_version as u64);
    s
}

/// The listing line of one memory heap.
pub fn heap_string(h: MemoryHeapInfo) -> (r: String)
    ensures
        r@ == heap_line(h),
{
    let mut s = String::from_str("  - id: ");
    push_decimal(&mut s, h.id as u64);
    s.append(", size (Mb): ");
    push_decimal(&mut s, h.size / MEBIBYTE);
    s.append(", device local: ");
    s.append(bool_str(h.device_local));
    s
}

/// The listing line of one queue family.
pub fn family_string(q: QueueFamilyInfo) -> (r: String)
    ensures
        r@ == family_line(q),
{
    let mut s = String::from_str("  - id: ");
    push_decimal(&mut s, q.id as u64);
    s.append(", queue count: ");
    push_decimal(&mut s, q.queues_count);
    s.append(", graphical: ");
    s.append(bool_str(q.supports_graphics));
    s
}

fn push_device_lines(out: &mut Vec<String>, d: &DeviceInfo)
    ensures
        texts(final(out)@) == texts(old(out)@) + device_lines(*d),
{
    let ghost start = texts(out@);
    push_line(out, header_string(d));
    push_line(out, String::from_str("  memory heaps:"));
    let ghost heads = start + seq![device_header(*d), "  memory heaps:"@];
    assert(texts(out@) =~= heads);
    let mut i: usize = 0;
    while i < d.memory_heaps.len()
        invariant
            0 <= i <= d.memory_heaps@.len(),
            texts(out@) == heads + d.memory_heaps@.subrange(0, i as int).map_values(
                |h: MemoryHeapInfo| heap_line(h),
            ),
        decreases d.memory_heaps@.len() - i,
    {
        push_line(out, heap_string(d.memory_heaps[i]));
        assert(d.memory_heaps@.subrange(0, i + 1) =~= d.memory_heaps@.subrange(
            0,
            i as int,
        ).push(d.memory_heaps@[i as int]));
        assert(texts(out@) =~= heads + d.memory_heaps@.subrange(0, i + 1).map_values(
            |h: MemoryHeapInfo| heap_line(h),
        ));
        i = i + 1;
    }
    assert(d.memory_heaps@.subrange(0, i as int) =~= d.memory_heaps@);
    push_line(out, String::from_str("  queue families:"));
    let ghost mid = texts(out@);
    assert(mid =~= heads + d.memory_heaps@.map_values(|h: MemoryHeapInfo| heap_line(h))
        + seq!["  queue families:"@]);
    let mut k: usize = 0;
    while k < d.queue_families.len()
        invariant
            0 <= k <= d.queue_families@.len(),
            texts(out@) == mid + d.queue_families@.subrange(0, k as int).map_values(
                |q: QueueFamilyInfo| family_line(q),
            ),
        decreases d.queue_families@.len() - k,
    {
        push_line(out, family_string(d.queue_families[k]));
        assert(d.queue_families@.subrange(0, k + 1) =~= d.queue_families@.subrange(
            0,
            k as int,
        ).push(d.queue_families@[k as int]));
        assert(texts(out@) =~= mid + d.queue_families@.subrange(0, k + 1).map_values(
            |q: QueueFamilyInfo| family_line(q),
        ));
        k = k + 1;
    }
    assert(d.queue_families@.subrange(0, k as int) =~= d.queue_families@);
    assert(texts(out@) =~= start + device_lines(*d));
}

/// The listing of the Vulkan devices found, one line per entry.
pub fn vulkan_info_lines(devices: &Vec<DeviceInfo>) -> (r: Vec<String>)
    ensures
        texts(r@) == report_lines(devices@),
{
    let mut out: Vec<String> = Vec::new();
    push_line(&mut out, String::from_str("Vulkan compatible devices:"));
    assert(texts(out@) =~= seq!["Vulkan compatible devices:"@]);
    let mut i: usize = 0;
    while i < devices.len()
        invariant
            0 <= i <= devices@.len(),
            texts(out@) == seq!["Vulkan compatible devices:"@] + devices_lines(
                devices@.subrange(0, i as int),
            ),
        decreases devices@.len() - i,
    {
        push_device_lines(&mut out, &devices[i]);
        let ghost next = devices@.subrange(0, i + 1);
        assert(next.drop_last() =~= devices@.subrange(0, i as int));
        assert(texts(out@) =~= seq!["Vulkan compatible devices:"@] + devices_lines(next));
        i = i + 1;
    }
    assert(devices@.subrange(0, i as int) =~= devices@);
    out
}

/// The position of the first queue family that supports graphics, if any.
pub fn graphics_queue_family(families: &Vec<QueueFamilyInfo>) -> (r: Option<usize>)
    ensures
        match r {
            Some(i) => i < families@.len() && families@[i as int].supports_graphics && forall|
                j: int,
            | 0 <= j < i ==> !(#[trigger] families@[j]).supports_graphics,
            None => forall|j: int|
                0 <= j < families@.len() ==> !(#[trigger] families@[j]).supports_graphics,
        },
{
    let mut i: usize = 0;
    while i < families.len()
        invariant
            0 <= i <= families@.len(),
            forall|j: int| 0 <= j < i ==> !(#[trigger] families@[j]).supports_graphics,
        decreases families@.len() - i,
    {
        if families[i].supports_graphics {
            return Some(i);
        }
        i = i + 1;
    }
    None
}

} // verus!
