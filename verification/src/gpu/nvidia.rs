//! NVIDIA GPUs, as NVML reports them.

use vstd::prelude::*;
use crate::text::{numbered, decimal};
use super::{GpuDevice, GpuDeviceView, gpu_views};

verus! {

/// The memory that NVML reports of a device, in bytes.
#[derive(Debug, Clone, Copy)]
pub struct NvmlMemory {
    pub total: u64,
    pub free: u64,
}

/// What NVML answered about the device at one index.
#[derive(Debug, Clone)]
pub struct NvmlProbe {
    /// The NVML device index.
    pub index: u32,
    /// The device's memory; `None` when the device or its memory information
    /// could not be read.
    pub memory: Option<NvmlMemory>,
    /// The device's name; `None` when it could not be read.
    pub name: Option<String>,
}

/// The report entry of a probed device, or none when its memory could not be
/// read: named `CUDA` and its index, described by its name or, lacking one,
/// as `NVIDIA GPU` and its index.
pub open spec fn nvidia_entry(probe: NvmlProbe) -> Option<GpuDeviceView> {
    match probe.memory {
        Some(m) => Some(
            GpuDeviceView {
                index: 0,
                name: "CUDA"@ + decimal(probe.index as nat),
                description: match probe.name {
                    Some(n) => n@,
                    None => "NVIDIA GPU "@ + decimal(probe.index as nat),
                },
                vendor: "nvidia"@,
                backend: "CUDA"@,
                memory_total: m.total,
                memory_free: m.free,
                device_type: "Gpu"@,
            },
        ),
        None => None,
    }
}

/// The report entries of the probed devices, in order, leaving out those
/// whose memory could not be read.
pub open spec fn nvidia_gpus(probes: Seq<NvmlProbe>) -> Seq<GpuDeviceView>
    decreases probes.len(),
{
    if probes.len() == 0 {
        seq![]
    } else {
        let rest = nvidia_gpus(probes.drop_last());
        match nvidia_entry(probes.last()) {
            Some(g) => rest.push(g),
            None => rest,
        }
    }
}

/// The report entry of one probed device; `None` when its memory could not
/// be read.
pub fn describe(probe: &NvmlProbe) -> (r: Option<GpuDevice>)
    ensures
        match r {
            Some(g) => nvidia_entry(*probe) == Some(g@),
            None => nvidia_entry(*probe) is None,
        },
{
    match probe.memory {
        Some(m) => {
            let description = match &probe.name {
                Some(n) => n.clone(),
                None => numbered("NVIDIA GPU ", probe.index as u64),
            };
            Some(
                GpuDevice {
                    index: 0,
                    name: numbered("CUDA", probe.index as u64),
                    description,
                    vendor: "nvidia".to_owned(),
                    backend: "CUDA".to_owned(),
                    memory_total: m.total,
                    memory_free: m.free,
                    device_type: "Gpu".to_owned(),
                },
            )
        },
        None => None,
    }
}

/// The NVIDIA GPUs among the probed devices, in order; a device whose memory
/// could not be read is left out.
pub fn collect(probes: &Vec<NvmlProbe>) -> (r: Vec<GpuDevice>)
    ensures
        gpu_views(r@) == nvidia_gpus(probes@),
{
    let mut out: Vec<GpuDevice> = Vec::new();
    let n = probes.len();
    assert(probes@.subrange(0, 0) =~= Seq::<NvmlProbe>::empty());
    for i in 0..n
        invariant
            n == probes@.len(),
            gpu_views(out@) == nvidia_gpus(probes@.subrange(0, i as int)),
    {
        let ghost before = out@;
        assert(probes@.subrange(0, i + 1).drop_last() =~= probes@.subrange(0, i as int));
        assert(probes@.subrange(0, i + 1).last() == probes@[i as int]);
        match describe(&probes[i]) {
            Some(g) => {
                out.push(g);
                assert(gpu_views(out@) =~= gpu_views(before).push(g@));
            },
            None => {},
        }
    }
    assert(probes@.subrange(0, n as int) =~= probes@);
    out
}

} // verus!
