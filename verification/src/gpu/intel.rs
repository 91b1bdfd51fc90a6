//! Intel GPUs, as Vulkan enumerates them.

use vstd::prelude::*;
use super::GpuDevice;
use super::vulkan::{VulkanDevice, VulkanDeviceView, vendor_gpus, vendor_devices, vulkan_views};

verus! {

/// The PCI vendor id of Intel's GPUs.
pub const INTEL_VENDOR_ID: u32 = 0x8086;

/// The report entries of the Intel devices among `devs`, in order.
pub open spec fn intel_gpus(devs: Seq<VulkanDeviceView>) -> Seq<super::GpuDeviceView> {
    vendor_gpus(devs, INTEL_VENDOR_ID, "intel"@)
}

/// The Intel GPUs among the Vulkan devices, named after their Vulkan position.
pub fn collect(devices: &Vec<VulkanDevice>) -> (r: Vec<GpuDevice>)
    ensures
        super::gpu_views(r@) == intel_gpus(vulkan_views(devices@)),
{
    vendor_devices(devices, INTEL_VENDOR_ID, "intel")
}

} // verus!
