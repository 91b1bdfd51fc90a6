//! Devices that Vulkan enumerates: which of them count as GPUs, what their
//! vendor is called, and how much device-local memory they have and have
//! free.

use vstd::prelude::*;
use crate::text::{numbered, decimal};
use super::{GpuDevice, GpuDeviceView};

verus! {

/// `VK_API_VERSION_1_0`, as `VK_MAKE_API_VERSION(0, 1, 0, 0)` encodes it.
pub const API_VERSION_1_0: u32 = 4194304;

/// `VK_API_VERSION_1_1`, as `VK_MAKE_API_VERSION(0, 1, 1, 0)` encodes it.
pub const API_VERSION_1_1: u32 = 4198400;

/// The name of the device extension that reports per-heap memory budgets.
pub const MEMORY_BUDGET_EXTENSION: &'static str = "VK_EXT_memory_budget";

/// The kind of a physical device, as `VkPhysicalDeviceType` tells it.
#[derive(Debug, Clone, Copy, PartialEq, Eq, Structural)]
pub enum DeviceKind {
    Other,
    IntegratedGpu,
    DiscreteGpu,
    VirtualGpu,
    Cpu,
}

/// A memory heap of a physical device.
#[derive(Debug, Clone, Copy)]
pub struct MemoryHeap {
    /// Size in bytes.
    pub size: u64,
    /// The heap carries `VK_MEMORY_HEAP_DEVICE_LOCAL_BIT`.
    pub device_local: bool,
}

/// What `VK_EXT_memory_budget` reports of one heap, in bytes.
#[derive(Debug, Clone, Copy)]
pub struct HeapBudget {
    pub budget: u64,
    pub usage: u64,
}

/// What Vulkan reports of one physical device.
#[derive(Debug, Clone)]
pub struct PhysicalDeviceInfo {
    pub kind: DeviceKind,
    pub vendor_id: u32,
    /// The device name.
    pub name: String,
    /// The memory heaps, in the order Vulkan lists them.
    pub heaps: Vec<MemoryHeap>,
    /// The per-heap budgets, at the heaps' positions, where they were queried.
    pub budgets: Option<Vec<HeapBudget>>,
}

/// A Vulkan device that counts as a GPU. Memory amounts are in bytes.
#[derive(Debug, Clone)]
pub struct VulkanDevice {
    /// Position among the devices that count as GPUs.
    pub index: usize,
    pub vendor_id: u32,
    pub description: String,
    pub memory_total: u64,
    pub memory_free: u64,
    pub device_type: String,
}

/// A Vulkan device with its texts as character sequences.
pub struct VulkanDeviceView {
    pub index: usize,
    pub vendor_id: u32,
    pub description: Seq<char>,
    pub memory_total: u64,
    pub memory_free: u64,
    pub device_type: Seq<char>,
}

impl View for VulkanDevice {
    type V = VulkanDeviceView;

    open spec fn view(&self) -> VulkanDeviceView {
        VulkanDeviceView {
            index: self.index,
            vendor_id: self.vendor_id,
            description: self.description@,
            memory_total: self.memory_total,
            memory_free: self.memory_free,
            device_type: self.device_type@,
        }
    }
}

/// The views of a list of Vulkan devices.
pub open spec fn vulkan_views(s: Seq<VulkanDevice>) -> Seq<VulkanDeviceView> {
    s.map_values(|d: VulkanDevice| d@)
}

/// `n` capped at the largest `u64`, as saturating arithmetic leaves it.
pub open spec fn saturated(n: nat) -> u64 {
    if n > u64::MAX {
        u64::MAX
    } else {
        n as u64
    }
}

/// The sizes of the device-local heaps among the first `n`, added up.
pub open spec fn local_size_sum(heaps: Seq<MemoryHeap>, n: int) -> nat
    decreases n,
{
    if n <= 0 {
        0
    } else {
        local_size_sum(heaps, n - 1) + if heaps[n - 1].device_local {
            heaps[n - 1].size as nat
        } else {
            0
        }
    }
}

/// What is left of a heap's budget after its usage, or nothing.
pub open spec fn headroom(b: HeapBudget) -> nat {
    if b.budget >= b.usage {
        (b.budget - b.usage) as nat
    } else {
        0
    }
}

/// The heap at `i` is device-local and has a budget reported.
pub open spec fn budget_counts(heaps: Seq<MemoryHeap>, budgets: Seq<HeapBudget>, i: int) -> bool {
    heaps[i].device_local && budgets[i].budget > 0
}

/// The headroom of the first `n` heaps that count, added up.
pub open spec fn headroom_sum(heaps: Seq<MemoryHeap>, budgets: Seq<HeapBudget>, n: int) -> nat
    decreases n,
{
    if n <= 0 {
        0
    } else {
        headroom_sum(heaps, budgets, n - 1) + if budget_counts(heaps, budgets, n - 1) {
            headroom(budgets[n - 1])
        } else {
            0
        }
    }
}

/// Some heap counts, so the budgets say how much is free.
pub open spec fn budget_reported(heaps: Seq<MemoryHeap>, budgets: Seq<HeapBudget>) -> bool {
    exists|i: int| 0 <= i < heaps.len() && #[trigger] budget_counts(heaps, budgets, i)
}

/// Budgets, where there are any, cover every heap.
pub open spec fn budgets_fit(heaps: Seq<MemoryHeap>, budgets: Option<Vec<HeapBudget>>) -> bool {
    budgets matches Some(b) ==> b@.len() >= heaps.len()
}

/// The memory that a device reports, as (total, free): the total is the
/// size of the device-local heaps; the free amount is the headroom of the
/// device-local heaps with a budget where some has one, and the total where
/// none has or no budgets were queried. Both sums saturate at the largest
/// `u64`.
pub open spec fn memory_of(heaps: Seq<MemoryHeap>, budgets: Option<Vec<HeapBudget>>) -> (u64, u64) {
    let total = saturated(local_size_sum(heaps, heaps.len() as int));
    match budgets {
        Some(b) => if budget_reported(heaps, b@) {
            (total, saturated(headroom_sum(heaps, b@, heaps.len() as int)))
        } else {
            (total, total)
        },
        None => (total, total),
    }
}

/// The total and free device-local memory of a device, in bytes.
pub fn device_memory(heaps: &Vec<MemoryHeap>, budgets: &Option<Vec<HeapBudget>>) -> (r: (u64, u64))
    requires
        budgets_fit(heaps@, *budgets),
    ensures
        r == memory_of(heaps@, *budgets),
{
    let n = heaps.len();
    let mut total: u64 = 0;
    for i in 0..n
        invariant
            n == heaps@.len(),
            total == saturated(local_size_sum(heaps@, i as int)),
    {
        if heaps[i].device_local {
            total = total.saturating_add(heaps[i].size);
        }
    }
    match budgets {
        Some(b) => {
            let mut free: u64 = 0;
            let mut reported = false;
            for i in 0..n
                invariant
                    n == heaps@.len(),
                    b@.len() >= n,
                    free == saturated(headroom_sum(heaps@, b@, i as int)),
                    reported == exists|j: int| 0 <= j < i && #[trigger] budget_counts(heaps@, b@, j),
            {
                if heaps[i].device_local && b[i].budget > 0 {
                    free = free.saturating_add(b[i].budget.saturating_sub(b[i].usage));
                    reported = true;
                    assert(budget_counts(heaps@, b@, i as int));
                }
            }
            if reported {
                (total, free)
            } else {
                (total, total)
            }
        },
        None => (total, total),
    }
}

/// The device type that the report gives a device of kind `kind`, or none
/// for a CPU, which the report leaves out.
pub open spec fn kind_label(kind: DeviceKind) -> Option<Seq<char>> {
    match kind {
        DeviceKind::DiscreteGpu => Some("Gpu"@),
        DeviceKind::IntegratedGpu => Some("IntegratedGpu"@),
        DeviceKind::VirtualGpu => Some("Gpu"@),
        DeviceKind::Cpu => None,
        DeviceKind::Other => Some("Unknown"@),
    }
}

/// The device type that the report gives a device of kind `kind`; `None`
/// for a CPU.
pub fn device_type_label(kind: DeviceKind) -> (r: Option<&'static str>)
    ensures
        match r {
            Some(t) => kind_label(kind) == Some(t@),
            None => kind_label(kind) is None,
        },
{
    match kind {
        DeviceKind::DiscreteGpu => Some("Gpu"),
        DeviceKind::IntegratedGpu => Some("IntegratedGpu"),
        DeviceKind::VirtualGpu => Some("Gpu"),
        DeviceKind::Cpu => None,
        DeviceKind::Other => Some("Unknown"),
    }
}

/// The vendor name of a PCI vendor id.
pub open spec fn vendor_label(vendor_id: u32) -> Seq<char> {
    if vendor_id == 0x10DE {
        "nvidia"@
    } else if vendor_id == 0x1002 || vendor_id == 0x1022 {
        "amd"@
    } else if vendor_id == 0x8086 {
        "intel"@
    } else if vendor_id == 0x13B5 {
        "arm"@
    } else if vendor_id == 0x5143 {
        "qualcomm"@
    } else if vendor_id == 0x1010 {
        "imgtec"@
    } else {
        "other"@
    }
}

/// The vendor name of a PCI vendor id: NVIDIA, AMD, Intel, ARM, Qualcomm and
/// Imagination by name, any other as `other`.
pub fn vendor_name(vendor_id: u32) -> (r: &'static str)
    ensures
        r@ == vendor_label(vendor_id),
{
    match vendor_id {
        0x10DE => "nvidia",
        0x1002 | 0x1022 => "amd",
        0x8086 => "intel",
        0x13B5 => "arm",
        0x5143 => "qualcomm",
        0x1010 => "imgtec",
        _ => "other",
    }
}

/// The Vulkan device that `info` makes at position `index`, or none for a
/// CPU.
pub open spec fn vulkan_entry(info: PhysicalDeviceInfo, index: usize) -> Option<VulkanDeviceView> {
    match kind_label(info.kind) {
        Some(t) => {
            let m = memory_of(info.heaps@, info.budgets);
            Some(
                VulkanDeviceView {
                    index,
                    vendor_id: info.vendor_id,
                    description: info.name@,
                    memory_total: m.0,
                    memory_free: m.1,
                    device_type: t,
                },
            )
        },
        None => None,
    }
}

/// The device `info` as a Vulkan device at position `index`; `None` for a
/// CPU.
pub fn vulkan_device(info: &PhysicalDeviceInfo, index: usize) -> (r: Option<VulkanDevice>)
    requires
        budgets_fit(info.heaps@, info.budgets),
    ensures
        match r {
            Some(d) => vulkan_entry(*info, index) == Some(d@),
            None => vulkan_entry(*info, index) is None,
        },
{
    match device_type_label(info.kind) {
        Some(t) => {
            let (total, free) = device_memory(&info.heaps, &info.budgets);
            Some(
                VulkanDevice {
                    index,
                    vendor_id: info.vendor_id,
                    description: info.name.clone(),
                    memory_total: total,
                    memory_free: free,
                    device_type: t.to_owned(),
                },
            )
        },
        None => None,
    }
}

/// The Vulkan devices that a list of physical devices makes, each numbered
/// by its position among those that are not CPUs.
pub open spec fn enumerated(infos: Seq<PhysicalDeviceInfo>) -> Seq<VulkanDeviceView>
    decreases infos.len(),
{
    if infos.len() == 0 {
        seq![]
    } else {
        let rest = enumerated(infos.drop_last());
        match vulkan_entry(infos.last(), rest.len() as usize) {
            Some(d) => rest.push(d),
            None => rest,
        }
    }
}

/// Every listed device has budgets for all its heaps, where it has any.
pub open spec fn all_budgets_fit(infos: Seq<PhysicalDeviceInfo>) -> bool {
    forall|i: int| 0 <= i < infos.len() ==> budgets_fit(#[trigger] infos[i].heaps@, infos[i].budgets)
}

/// The Vulkan devices among the enumerated physical devices: CPUs are left
/// out and the others numbered in order.
pub fn devices(infos: &Vec<PhysicalDeviceInfo>) -> (r: Vec<VulkanDevice>)
    requires
        all_budgets_fit(infos@),
    ensures
        vulkan_views(r@) == enumerated(infos@),
{
    let mut out: Vec<VulkanDevice> = Vec::new();
    let n = infos.len();
    assert(infos@.subrange(0, 0) =~= Seq::<PhysicalDeviceInfo>::empty());
    for i in 0..n
        invariant
            n == infos@.len(),
            all_budgets_fit(infos@),
            vulkan_views(out@) == enumerated(infos@.subrange(0, i as int)),
            out@.len() <= i,
    {
        let ghost before = out@;
        assert(budgets_fit(infos@[i as int].heaps@, infos@[i as int].budgets));
        assert(infos@.subrange(0, i + 1).drop_last() =~= infos@.subrange(0, i as int));
        assert(infos@.subrange(0, i + 1).last() == infos@[i as int]);
        match vulkan_device(&infos[i], out.len()) {
            Some(d) => {
                out.push(d);
                assert(vulkan_views(out@) =~= vulkan_views(before).push(d@));
            },
            None => {},
        }
    }
    assert(infos@.subrange(0, n as int) =~= infos@);
    out
}

/// The report entry of the Vulkan device `info` at position `index`, or none
/// for a CPU: named after its position, with the vendor named after its id.
pub open spec fn gpu_entry(info: PhysicalDeviceInfo, index: usize) -> Option<GpuDeviceView> {
    match vulkan_entry(info, index) {
        Some(d) => Some(
            GpuDeviceView {
                index,
                name: "Vulkan"@ + decimal(index as nat),
                description: d.description,
                vendor: vendor_label(d.vendor_id),
                backend: "Vulkan"@,
                memory_total: d.memory_total,
                memory_free: d.memory_free,
                device_type: d.device_type,
            },
        ),
        None => None,
    }
}

/// The report entry of the Vulkan device `info` at position `index`; `None`
/// for a CPU.
pub fn describe_device(info: &PhysicalDeviceInfo, index: usize) -> (r: Option<GpuDevice>)
    requires
        budgets_fit(info.heaps@, info.budgets),
    ensures
        match r {
            Some(g) => gpu_entry(*info, index) == Some(g@),
            None => gpu_entry(*info, index) is None,
        },
{
    match vulkan_device(info, index) {
        Some(d) => {
            let vendor = vendor_name(d.vendor_id);
            Some(
                GpuDevice {
                    index,
                    name: numbered("Vulkan", index as u64),
                    description: d.description,
                    vendor: vendor.to_owned(),
                    backend: "Vulkan".to_owned(),
                    memory_total: d.memory_total,
                    memory_free: d.memory_free,
                    device_type: d.device_type,
                },
            )
        },
        None => None,
    }
}

/// The Vulkan API version to create an instance with, given the version that
/// the loader reports (none from a 1.0 loader): 1.1 where the loader has it,
/// 1.0 otherwise.
pub fn pick_api_version(instance_version: Option<u32>) -> (r: u32)
    ensures
        r == (match instance_version {
            Some(v) => if v >= API_VERSION_1_1 {
                API_VERSION_1_1
            } else {
                API_VERSION_1_0
            },
            None => API_VERSION_1_0,
        }),
{
    let v = match instance_version {
        Some(v) => v,
        None => API_VERSION_1_0,
    };
    if v >= API_VERSION_1_1 {
        API_VERSION_1_1
    } else {
        API_VERSION_1_0
    }
}

/// Memory budgets are queried when the instance speaks Vulkan 1.1 and the
/// device offers the memory budget extension.
pub fn budget_query_allowed(api_version: u32, extensions: &Vec<String>) -> (r: bool)
    ensures
        r == (api_version >= API_VERSION_1_1 && exists|i: int|
            0 <= i < extensions@.len() && #[trigger] extensions@[i]@ == MEMORY_BUDGET_EXTENSION@),
{
    if api_version < API_VERSION_1_1 {
        return false;
    }
    let wanted = MEMORY_BUDGET_EXTENSION.to_owned();
    let n = extensions.len();
    for i in 0..n
        invariant
            n == extensions@.len(),
            wanted@ == MEMORY_BUDGET_EXTENSION@,
            api_version >= API_VERSION_1_1,
            forall|j: int| 0 <= j < i ==> #[trigger] extensions@[j]@ != MEMORY_BUDGET_EXTENSION@,
    {
        if extensions[i] == wanted {
            assert(extensions@[i as int]@ == MEMORY_BUDGET_EXTENSION@);
            return true;
        }
    }
    false
}

/// The report entry of the Vulkan device `d` under the vendor name `vendor`.
pub open spec fn vendor_entry(d: VulkanDeviceView, vendor: Seq<char>) -> GpuDeviceView {
    GpuDeviceView {
        index: 0,
        name: "Vulkan"@ + decimal(d.index as nat),
        description: d.description,
        vendor,
        backend: "Vulkan"@,
        memory_total: d.memory_total,
        memory_free: d.memory_free,
        device_type: d.device_type,
    }
}

/// The report entries of the devices of `devs` whose vendor id is
/// `vendor_id`, in order, under the vendor name `vendor`.
pub open spec fn vendor_gpus(devs: Seq<VulkanDeviceView>, vendor_id: u32, vendor: Seq<char>) -> Seq<
    GpuDeviceView,
>
    decreases devs.len(),
{
    if devs.len() == 0 {
        seq![]
    } else {
        let rest = vendor_gpus(devs.drop_last(), vendor_id, vendor);
        if devs.last().vendor_id == vendor_id {
            rest.push(vendor_entry(devs.last(), vendor))
        } else {
            rest
        }
    }
}

/// The report entries of the devices of one vendor, in order.
pub fn vendor_devices(devices: &Vec<VulkanDevice>, vendor_id: u32, vendor: &str) -> (r: Vec<GpuDevice>)
    ensures
        super::gpu_views(r@) == vendor_gpus(vulkan_views(devices@), vendor_id, vendor@),
{
    let mut out: Vec<GpuDevice> = Vec::new();
    let n = devices.len();
    assert(vulkan_views(devices@).subrange(0, 0) =~= Seq::<VulkanDeviceView>::empty());
    for i in 0..n
        invariant
            n == devices@.len(),
            super::gpu_views(out@) == vendor_gpus(
                vulkan_views(devices@).subrange(0, i as int),
                vendor_id,
                vendor@,
            ),
    {
        let ghost before = out@;
        let ghost vs = vulkan_views(devices@);
        assert(vs.subrange(0, i + 1).drop_last() =~= vs.subrange(0, i as int));
        assert(vs.subrange(0, i + 1).last() == devices@[i as int]@);
        let d = &devices[i];
        if d.vendor_id == vendor_id {
            let g = GpuDevice {
                index: 0,
                name: numbered("Vulkan", d.index as u64),
                description: d.description.clone(),
                vendor: vendor.to_owned(),
                backend: "Vulkan".to_owned(),
                memory_total: d.memory_total,
                memory_free: d.memory_free,
                device_type: d.device_type.clone(),
            };
            out.push(g);
            assert(super::gpu_views(out@) =~= super::gpu_views(before).push(g@));
        }
    }
    assert(vulkan_views(devices@).subrange(0, n as int) =~= vulkan_views(devices@));
    out
}

/// Without budgets, or with none reported for a device-local heap, a device
/// reports all its device-local memory as free.
pub proof fn lemma_memory_without_budget(heaps: Seq<MemoryHeap>, budgets: Option<Vec<HeapBudget>>)
    requires
        match budgets {
            Some(b) => !budget_reported(heaps, b@),
            None => true,
        },
    ensures
        memory_of(heaps, budgets).1 == memory_of(heaps, budgets).0,
{
}

/// `g` is the entry of some device of `devs` with the vendor id `vendor_id`.
pub open spec fn entry_of_vendor(
    devs: Seq<VulkanDeviceView>,
    vendor_id: u32,
    vendor: Seq<char>,
    g: GpuDeviceView,
) -> bool {
    exists|j: int|
        #![trigger devs[j]]
        0 <= j < devs.len() && devs[j].vendor_id == vendor_id && g == vendor_entry(devs[j], vendor)
}

/// Each entry of a vendor's list comes from a device with that vendor id
/// (and so carries the vendor's name and the Vulkan backend), and the list
/// is no longer than the devices.
pub proof fn lemma_vendor_gpus_of_vendor(devs: Seq<VulkanDeviceView>, vendor_id: u32, vendor: Seq<char>)
    ensures
        vendor_gpus(devs, vendor_id, vendor).len() <= devs.len(),
        forall|k: int|
            0 <= k < vendor_gpus(devs, vendor_id, vendor).len() ==> entry_of_vendor(
                devs,
                vendor_id,
                vendor,
                #[trigger] vendor_gpus(devs, vendor_id, vendor)[k],
            ),
    decreases devs.len(),
{
    if devs.len() > 0 {
        let rest = devs.drop_last();
        lemma_vendor_gpus_of_vendor(rest, vendor_id, vendor);
        let all = vendor_gpus(devs, vendor_id, vendor);
        let part = vendor_gpus(rest, vendor_id, vendor);
        assert forall|k: int| 0 <= k < all.len() implies entry_of_vendor(
            devs,
            vendor_id,
            vendor,
            #[trigger] all[k],
        ) by {
            if k < part.len() {
                assert(entry_of_vendor(rest, vendor_id, vendor, part[k]));
                let j = choose|j: int|
                    #![trigger rest[j]]
                    0 <= j < rest.len() && rest[j].vendor_id == vendor_id && part[k]
                        == vendor_entry(rest[j], vendor);
                assert(devs[j] == rest[j]);
                assert(all[k] == part[k]);
            } else {
                let j = devs.len() - 1;
                assert(devs[j] == devs.last());
                assert(all[k] == vendor_entry(devs[j], vendor));
            }
        }
    }
}

/// The devices that enumeration keeps are numbered by their position, and
/// there are no more of them than physical devices.
pub proof fn lemma_enumerated_numbered(infos: Seq<PhysicalDeviceInfo>)
    requires
        infos.len() <= usize::MAX,
    ensures
        enumerated(infos).len() <= infos.len(),
        forall|i: int| 0 <= i < enumerated(infos).len() ==> #[trigger] enumerated(infos)[i].index == i,
    decreases infos.len(),
{
    if infos.len() > 0 {
        lemma_enumerated_numbered(infos.drop_last());
    }
}


/// A device that is not a CPU becomes an entry whose memory is what its
/// heaps and budgets give, both total and free, described by its own name and
/// vendor id at the given position; a CPU becomes no entry. Its report entry
/// carries the same memory and the vendor named after the id.
pub proof fn lemma_vulkan_entry_fields(info: PhysicalDeviceInfo, index: usize)
    ensures
        info.kind == DeviceKind::Cpu <==> vulkan_entry(info, index) is None,
        info.kind == DeviceKind::Cpu <==> gpu_entry(info, index) is None,
        info.kind != DeviceKind::Cpu ==> {
            let d = vulkan_entry(info, index)->0;
            let g = gpu_entry(info, index)->0;
            &&& d.memory_total == memory_of(info.heaps@, info.budgets).0
            &&& d.memory_free == memory_of(info.heaps@, info.budgets).1
            &&& d.description == info.name@
            &&& d.vendor_id == info.vendor_id
            &&& d.index == index
            &&& g.memory_total == memory_of(info.heaps@, info.budgets).0
            &&& g.memory_free == memory_of(info.heaps@, info.budgets).1
            &&& g.description == info.name@
            &&& g.vendor == vendor_label(info.vendor_id)
            &&& g.index == index
        },
{
}

/// One device-local heap with a reported budget: the total is the heap's
/// size and the free amount is its budget less its usage (nothing once the
/// usage exceeds the budget); heaps that are not device-local add nothing.
pub proof fn lemma_budgeted_heap_memory(
    local: MemoryHeap,
    other: MemoryHeap,
    b: HeapBudget,
    c: HeapBudget,
    budgets: Option<Vec<HeapBudget>>,
)
    requires
        local.device_local,
        !other.device_local,
        b.budget > 0,
        budgets matches Some(v) && v@ == seq![b, c],
    ensures
        memory_of(seq![local, other], budgets) == (
            local.size,
            if b.budget >= b.usage {
                (b.budget - b.usage) as u64
            } else {
                0u64
            },
        ),
{
    let heaps = seq![local, other];
    let v = budgets->0;
    assert(local_size_sum(heaps, 2) == local.size) by {
        reveal_with_fuel(local_size_sum, 3);
    }
    assert(headroom_sum(heaps, v@, 2) == headroom(b)) by {
        reveal_with_fuel(headroom_sum, 3);
        assert(!budget_counts(heaps, v@, 1));
    }
    assert(budget_counts(heaps, v@, 0));
}

/// `g` copies the device `d` of vendor `vendor_id`: its description, device
/// type and memory are the device's, its name is `Vulkan` and the device's
/// position, and it carries the vendor's name and the Vulkan backend.
pub open spec fn copies_device(
    d: VulkanDeviceView,
    vendor_id: u32,
    vendor: Seq<char>,
    g: GpuDeviceView,
) -> bool {
    &&& d.vendor_id == vendor_id
    &&& g.description == d.description
    &&& g.device_type == d.device_type
    &&& g.memory_total == d.memory_total
    &&& g.memory_free == d.memory_free
    &&& g.name == "Vulkan"@ + decimal(d.index as nat)
    &&& g.vendor == vendor
    &&& g.backend == "Vulkan"@
    &&& g.index == 0
}

/// Each entry of a vendor's list copies a device of that vendor.
pub proof fn lemma_vendor_entries_copy_device(
    devs: Seq<VulkanDeviceView>,
    vendor_id: u32,
    vendor: Seq<char>,
)
    ensures
        forall|k: int|
            0 <= k < vendor_gpus(devs, vendor_id, vendor).len() ==> exists|j: int|
                #![trigger devs[j]]
                0 <= j < devs.len() && copies_device(
                    devs[j],
                    vendor_id,
                    vendor,
                    #[trigger] vendor_gpus(devs, vendor_id, vendor)[k],
                ),
{
    lemma_vendor_gpus_of_vendor(devs, vendor_id, vendor);
    assert forall|k: int| 0 <= k < vendor_gpus(devs, vendor_id, vendor).len() implies exists|j: int|
        #![trigger devs[j]]
        0 <= j < devs.len() && copies_device(
            devs[j],
            vendor_id,
            vendor,
            #[trigger] vendor_gpus(devs, vendor_id, vendor)[k],
        ) by {
        let g = vendor_gpus(devs, vendor_id, vendor)[k];
        assert(entry_of_vendor(devs, vendor_id, vendor, g));
        let j = choose|j: int|
            #![trigger devs[j]]
            0 <= j < devs.len() && devs[j].vendor_id == vendor_id && g == vendor_entry(
                devs[j],
                vendor,
            );
        assert(copies_device(devs[j], vendor_id, vendor, g));
    }
}

} // verus!
