//! GPUs of the machine as the report lists them, gathered per vendor.

use vstd::prelude::*;

pub mod amd;
pub mod apple;
pub mod intel;
pub mod nvidia;
pub mod vulkan;

use vulkan::{VulkanDevice, vulkan_views};

verus! {

/// One GPU of the report. Memory amounts are in bytes.
#[derive(Debug, Clone)]
pub struct GpuDevice {
    pub index: usize,
    pub name: String,
    pub description: String,
    pub vendor: String,
    pub backend: String,
    pub memory_total: u64,
    pub memory_free: u64,
    pub device_type: String,
}

/// A GPU of the report with its texts as character sequences.
pub struct GpuDeviceView {
    pub index: usize,
    pub name: Seq<char>,
    pub description: Seq<char>,
    pub vendor: Seq<char>,
    pub backend: Seq<char>,
    pub memory_total: u64,
    pub memory_free: u64,
    pub device_type: Seq<char>,
}

impl View for GpuDevice {
    type V = GpuDeviceView;

    open spec fn view(&self) -> GpuDeviceView {
        GpuDeviceView {
            index: self.index,
            name: self.name@,
            description: self.description@,
            vendor: self.vendor@,
            backend: self.backend@,
            memory_total: self.memory_total,
            memory_free: self.memory_free,
            device_type: self.device_type@,
        }
    }
}

/// The views of a list of GPUs.
pub open spec fn gpu_views(s: Seq<GpuDevice>) -> Seq<GpuDeviceView> {
    s.map_values(|g: GpuDevice| g@)
}

/// The list `s` with each GPU numbered by its position.
pub open spec fn reindexed(s: Seq<GpuDeviceView>) -> Seq<GpuDeviceView> {
    Seq::new(s.len(), |i: int| GpuDeviceView { index: i as usize, ..s[i] })
}

/// The GPUs that the report lists on a machine other than a Mac: the NVIDIA
/// ones, then the AMD and then the Intel ones among the Vulkan devices,
/// numbered in that order.
pub open spec fn gathered(
    nvidia: Seq<GpuDeviceView>,
    vulkan_devices: Seq<vulkan::VulkanDeviceView>,
) -> Seq<GpuDeviceView> {
    reindexed(
        nvidia + amd::amd_gpus(vulkan_devices) + intel::intel_gpus(vulkan_devices),
    )
}

/// A copy of `g` numbered `index`.
fn renumbered(g: &GpuDevice, index: usize) -> (r: GpuDevice)
    ensures
        r@ == (GpuDeviceView { index, ..g@ }),
{
    GpuDevice {
        index,
        name: g.name.clone(),
        description: g.description.clone(),
        vendor: g.vendor.clone(),
        backend: g.backend.clone(),
        memory_total: g.memory_total,
        memory_free: g.memory_free,
        device_type: g.device_type.clone(),
    }
}

/// The GPUs in the given order, each numbered by its position.
pub fn index_devices(gpus: Vec<GpuDevice>) -> (r: Vec<GpuDevice>)
    ensures
        gpu_views(r@) == reindexed(gpu_views(gpus@)),
{
    let mut out: Vec<GpuDevice> = Vec::new();
    let n = gpus.len();
    for i in 0..n
        invariant
            n == gpus@.len(),
            out@.len() == i,
            forall|j: int|
                0 <= j < i ==> #[trigger] out@[j]@ == (GpuDeviceView {
                    index: j as usize,
                    ..gpus@[j]@
                }),
    {
        let g = renumbered(&gpus[i], i);
        out.push(g);
    }
    assert(gpu_views(out@) =~= reindexed(gpu_views(gpus@)));
    out
}

/// The GPUs of a machine other than a Mac, from the devices that NVML
/// reported and those that Vulkan enumerated: the NVIDIA ones first, then
/// the AMD and the Intel Vulkan devices, numbered from 0 in that order.
pub fn collect_gpus(nvidia: Vec<GpuDevice>, vulkan_devices: &Vec<VulkanDevice>) -> (r: Vec<
    GpuDevice,
>)
    ensures
        gpu_views(r@) == gathered(gpu_views(nvidia@), vulkan_views(vulkan_devices@)),
{
    let mut gpus = nvidia;
    let mut amd = amd::collect(vulkan_devices);
    let mut intel = intel::collect(vulkan_devices);
    let ghost g0 = gpus@;
    let ghost a0 = amd@;
    let ghost i0 = intel@;
    gpus.append(&mut amd);
    gpus.append(&mut intel);
    assert(gpu_views(gpus@) =~= gpu_views(g0) + gpu_views(a0) + gpu_views(i0));
    index_devices(gpus)
}

/// Numbering a list keeps its length and its entries apart from their
/// index, gives each entry its position, and numbering again changes
/// nothing.
pub proof fn lemma_reindexed_numbered(s: Seq<GpuDeviceView>)
    requires
        s.len() <= usize::MAX,
    ensures
        reindexed(s).len() == s.len(),
        forall|i: int| 0 <= i < s.len() ==> #[trigger] reindexed(s)[i].index == i,
        forall|i: int|
            0 <= i < s.len() ==> #[trigger] reindexed(s)[i] == (GpuDeviceView {
                index: reindexed(s)[i].index,
                ..s[i]
            }),
        reindexed(reindexed(s)) == reindexed(s),
{
    assert(reindexed(reindexed(s)) =~= reindexed(s));
}

/// The gathered list holds the NVIDIA GPUs first, unchanged but for their
/// index, then the AMD and the Intel Vulkan devices, and numbers every GPU by
/// its position.
pub proof fn lemma_gathered_layout(
    nvidia: Seq<GpuDeviceView>,
    vulkan_devices: Seq<vulkan::VulkanDeviceView>,
)
    requires
        nvidia.len() + amd::amd_gpus(vulkan_devices).len() + intel::intel_gpus(vulkan_devices).len()
            <= usize::MAX,
    ensures
        gathered(nvidia, vulkan_devices).len() == nvidia.len() + amd::amd_gpus(vulkan_devices).len()
            + intel::intel_gpus(vulkan_devices).len(),
        forall|i: int|
            0 <= i < gathered(nvidia, vulkan_devices).len() ==> #[trigger] gathered(
                nvidia,
                vulkan_devices,
            )[i].index == i,
        forall|i: int|
            0 <= i < nvidia.len() ==> #[trigger] gathered(nvidia, vulkan_devices)[i] == (
            GpuDeviceView { index: i as usize, ..nvidia[i] }),
{
    let all = nvidia + amd::amd_gpus(vulkan_devices) + intel::intel_gpus(vulkan_devices);
    assert forall|i: int| 0 <= i < nvidia.len() implies #[trigger] all[i] == nvidia[i] by {}
}

} // verus!
