//! AMD GPUs, as Vulkan enumerates them.

use vstd::prelude::*;
use super::GpuDevice;
use super::vulkan::{VulkanDevice, VulkanDeviceView, vendor_gpus, vendor_devices, vulkan_views};

verus! {

/// The PCI vendor id of AMD's GPUs.
pub const AMD_VENDOR_ID: u32 = 0x1002;

/// The report entries of the AMD devices among `devs`, in order.
pub open spec fn amd_gpus(devs: Seq<VulkanDeviceView>) -> Seq<super::GpuDeviceView> {
    vendor_gpus(devs, AMD_VENDOR_ID, "amd"@)
}

/// The AMD GPUs among the Vulkan devices, named after their Vulkan position.
pub fn collect(devices: &Vec<VulkanDevice>) -> (r: Vec<GpuDevice>)
    ensures
        super::gpu_views(r@) == amd_gpus(vulkan_views(devices@)),
{
    vendor_devices(devices, AMD_VENDOR_ID, "amd")
}

} // verus!
