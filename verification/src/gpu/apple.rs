//! GPUs of a Mac, as Metal reports them.

use vstd::prelude::*;
use crate::text::{numbered, decimal, lowercase, occurs_in, to_lowercase, contains_text};
use super::{GpuDevice, GpuDeviceView, gpu_views};

verus! {

/// What Metal reports of one device.
#[derive(Debug, Clone)]
pub struct MetalDevice {
    /// The device name.
    pub name: String,
    /// The device shares memory with the CPU.
    pub unified_memory: bool,
    /// The working set size that Metal recommends, in bytes.
    pub recommended_max_working_set_size: u64,
    /// The memory the device has allocated, in bytes.
    pub current_allocated_size: u64,
}

/// The vendor of a Metal device: Apple for unified memory; otherwise AMD
/// when its lowercased name mentions `amd` or `radeon`, Intel when it
/// mentions `intel`, and Apple for any other.
pub open spec fn metal_vendor(unified: bool, name: Seq<char>) -> Seq<char> {
    if unified {
        "apple"@
    } else {
        let lower = lowercase(name);
        if occurs_in("amd"@, lower) || occurs_in("radeon"@, lower) {
            "amd"@
        } else if occurs_in("intel"@, lower) {
            "intel"@
        } else {
            "apple"@
        }
    }
}

/// The name of the Metal device at `index`: `Metal` for the first, `Metal`
/// and its index for the others.
pub open spec fn metal_name(index: usize) -> Seq<char> {
    if index == 0 {
        "Metal"@
    } else {
        "Metal"@ + decimal(index as nat)
    }
}

/// The report entry of the Metal device `d` at position `index`: its free
/// memory is what is left of the recommended working set after what it has
/// allocated, or nothing.
pub open spec fn metal_entry(d: MetalDevice, index: usize) -> GpuDeviceView {
    let total = d.recommended_max_working_set_size;
    let used = d.current_allocated_size;
    GpuDeviceView {
        index,
        name: metal_name(index),
        description: d.name@,
        vendor: metal_vendor(d.unified_memory, d.name@),
        backend: "Metal"@,
        memory_total: total,
        memory_free: if total >= used {
            (total - used) as u64
        } else {
            0
        },
        device_type: "Gpu"@,
    }
}

/// The vendor of a Metal device.
pub fn vendor_for(device: &MetalDevice) -> (r: String)
    ensures
        r@ == metal_vendor(device.unified_memory, device.name@),
{
    if device.unified_memory {
        return "apple".to_owned();
    }
    let name = to_lowercase(device.name.as_str());
    if contains_text(name.as_str(), "amd") || contains_text(name.as_str(), "radeon") {
        "amd".to_owned()
    } else if contains_text(name.as_str(), "intel") {
        "intel".to_owned()
    } else {
        "apple".to_owned()
    }
}

/// The report entry of the Metal device at position `index`.
pub fn describe(device: &MetalDevice, index: usize) -> (r: GpuDevice)
    ensures
        r@ == metal_entry(*device, index),
{
    let total = device.recommended_max_working_set_size;
    let name = if index == 0 {
        "Metal".to_owned()
    } else {
        numbered("Metal", index as u64)
    };
    GpuDevice {
        index,
        name,
        description: device.name.clone(),
        vendor: vendor_for(device),
        backend: "Metal".to_owned(),
        memory_total: total,
        memory_free: total.saturating_sub(device.current_allocated_size),
        device_type: "Gpu".to_owned(),
    }
}

/// The GPUs of a Mac, one per Metal device, numbered in order.
pub fn collect(devices: &Vec<MetalDevice>) -> (r: Vec<GpuDevice>)
    ensures
        gpu_views(r@) == Seq::new(devices@.len(), |i: int| metal_entry(devices@[i], i as usize)),
{
    let mut out: Vec<GpuDevice> = Vec::new();
    let n = devices.len();
    for i in 0..n
        invariant
            n == devices@.len(),
            out@.len() == i,
            forall|j: int| 0 <= j < i ==> #[trigger] out@[j]@ == metal_entry(devices@[j], j as usize),
    {
        out.push(describe(&devices[i], i));
    }
    assert(gpu_views(out@) =~= Seq::new(
        devices@.len(),
        |i: int| metal_entry(devices@[i], i as usize),
    ));
    out
}


/// A Metal entry reports the recommended working set as its total, whatever
/// the device has allocated; its free memory is the total less the
/// allocation, and nothing once the allocation exceeds the total. The entry
/// describes the device by its name.
pub proof fn lemma_metal_entry_memory(d: MetalDevice, index: usize)
    ensures
        metal_entry(d, index).memory_total == d.recommended_max_working_set_size,
        metal_entry(d, index).memory_free <= metal_entry(d, index).memory_total,
        d.current_allocated_size <= d.recommended_max_working_set_size ==> metal_entry(
            d,
            index,
        ).memory_free + d.current_allocated_size == d.recommended_max_working_set_size,
        d.current_allocated_size > d.recommended_max_working_set_size ==> metal_entry(
            d,
            index,
        ).memory_free == 0,
        metal_entry(d, index).description == d.name@,
        metal_entry(d, index).index == index,
{
}

} // verus!
