//! The hardware report that the service answers with.

use vstd::prelude::*;
use crate::gpu::GpuDevice;
use crate::text::{trim_text, trimmed, white_space, lemma_trimmed_shape};

verus! {

/// Version of the report's layout.
pub const SCHEMA_VERSION: u32 = 1;

/// What the operating system reports of the machine.
#[derive(Debug, Clone)]
pub struct SystemSnapshot {
    /// The host name, where the system has one.
    pub hostname: Option<String>,
    pub os: String,
    pub arch: String,
    pub available_memory_bytes: u64,
    pub total_memory_bytes: u64,
    /// The brand string of each logical CPU, in order.
    pub cpu_brands: Vec<String>,
    /// CPU and GPU share one memory.
    pub unified_memory: bool,
}

/// The hardware report. Memory amounts are in bytes.
#[derive(Debug, Clone)]
pub struct SpecsResponse {
    pub schema_version: u32,
    pub hostname: String,
    pub os: String,
    pub arch: String,
    pub available_memory_bytes: u64,
    pub total_memory_bytes: u64,
    pub cpu_name: String,
    pub cpu_cores: usize,
    pub unified_memory: bool,
    pub gpus: Vec<GpuDevice>,
}

/// The CPU name that the report gives: the first CPU's brand, trimmed, or
/// nothing where no CPU is listed.
pub open spec fn cpu_name_of(brands: Seq<String>) -> Seq<char> {
    if brands.len() > 0 {
        trimmed(brands[0]@)
    } else {
        seq![]
    }
}

/// The report of a machine from what its system reports and the GPUs found.
pub fn collect(snapshot: SystemSnapshot, gpus: Vec<GpuDevice>) -> (r: SpecsResponse)
    ensures
        r.schema_version == SCHEMA_VERSION,
        r.hostname@ == (match snapshot.hostname {
            Some(h) => h@,
            None => Seq::<char>::empty(),
        }),
        r.os == snapshot.os,
        r.arch == snapshot.arch,
        r.available_memory_bytes == snapshot.available_memory_bytes,
        r.total_memory_bytes == snapshot.total_memory_bytes,
        r.cpu_name@ == cpu_name_of(snapshot.cpu_brands@),
        r.cpu_cores == snapshot.cpu_brands@.len(),
        r.unified_memory == snapshot.unified_memory,
        r.gpus == gpus,
{
    let cpu_name = if snapshot.cpu_brands.len() > 0 {
        trim_text(snapshot.cpu_brands[0].as_str())
    } else {
        String::new()
    };
    let cpu_cores = snapshot.cpu_brands.len();
    let hostname = match snapshot.hostname {
        Some(h) => h,
        None => String::new(),
    };
    SpecsResponse {
        schema_version: SCHEMA_VERSION,
        hostname,
        os: snapshot.os,
        arch: snapshot.arch,
        available_memory_bytes: snapshot.available_memory_bytes,
        total_memory_bytes: snapshot.total_memory_bytes,
        cpu_name,
        cpu_cores,
        unified_memory: snapshot.unified_memory,
        gpus,
    }
}


/// The report's CPU name is the first CPU's brand with the white space at
/// both ends cut off: it neither starts nor ends with white space, it is a
/// run of the brand's characters, and only white space of the brand lies
/// outside it. Without CPUs the name is empty.
pub proof fn lemma_cpu_name_trimmed(brands: Seq<String>)
    ensures
        brands.len() == 0 ==> cpu_name_of(brands).len() == 0,
        cpu_name_of(brands).len() > 0 ==> !white_space(cpu_name_of(brands)[0]),
        cpu_name_of(brands).len() > 0 ==> !white_space(cpu_name_of(brands).last()),
        brands.len() > 0 ==> exists|a: int|
            #![trigger brands[0]@.subrange(a, a + cpu_name_of(brands).len())]
            0 <= a && a + cpu_name_of(brands).len() <= brands[0]@.len() && brands[0]@.subrange(
                a,
                a + cpu_name_of(brands).len(),
            ) == cpu_name_of(brands) && (forall|i: int|
                0 <= i < a ==> white_space(#[trigger] brands[0]@[i])) && (forall|i: int|
                a + cpu_name_of(brands).len() <= i < brands[0]@.len() ==> white_space(
                    #[trigger] brands[0]@[i],
                )),
{
    if brands.len() > 0 {
        let a = lemma_trimmed_shape(brands[0]@);
        assert(brands[0]@.subrange(a, a + cpu_name_of(brands).len()) == cpu_name_of(brands));
    }
}

} // verus!
