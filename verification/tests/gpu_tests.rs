use sprout::gpu::apple::{self, MetalDevice};
use sprout::gpu::nvidia::{self, NvmlMemory, NvmlProbe};
use sprout::gpu::vulkan::{
    budget_query_allowed, describe_device, device_memory, device_type_label, devices,
    pick_api_version, vendor_name, DeviceKind, HeapBudget, MemoryHeap, PhysicalDeviceInfo,
    VulkanDevice, API_VERSION_1_0, API_VERSION_1_1,
};
use sprout::gpu::{amd, collect_gpus, index_devices, intel, GpuDevice};

fn heap(size: u64, device_local: bool) -> MemoryHeap {
    MemoryHeap { size, device_local }
}

fn budget(budget: u64, usage: u64) -> HeapBudget {
    HeapBudget { budget, usage }
}

fn info(kind: DeviceKind, vendor_id: u32, name: &str) -> PhysicalDeviceInfo {
    PhysicalDeviceInfo {
        kind,
        vendor_id,
        name: name.to_string(),
        heaps: vec![heap(8 << 30, true), heap(16 << 30, false)],
        budgets: None,
    }
}

fn vk(index: usize, vendor_id: u32, description: &str) -> VulkanDevice {
    VulkanDevice {
        index,
        vendor_id,
        description: description.to_string(),
        memory_total: 100 + index as u64,
        memory_free: 50,
        device_type: "Gpu".to_string(),
    }
}

fn gpu(name: &str) -> GpuDevice {
    GpuDevice {
        index: 7,
        name: name.to_string(),
        description: name.to_string(),
        vendor: "nvidia".to_string(),
        backend: "CUDA".to_string(),
        memory_total: 1,
        memory_free: 1,
        device_type: "Gpu".to_string(),
    }
}

#[test]
fn memory_counts_device_local_heaps_only() {
    let heaps = vec![heap(100, true), heap(1000, false), heap(20, true)];
    assert_eq!(device_memory(&heaps, &None), (120, 120));
}

#[test]
fn memory_total_saturates() {
    let heaps = vec![heap(u64::MAX, true), heap(5, true)];
    assert_eq!(device_memory(&heaps, &None), (u64::MAX, u64::MAX));
}

#[test]
fn memory_free_from_budgets() {
    let heaps = vec![heap(100, true), heap(1000, false), heap(20, true)];
    let budgets = vec![budget(90, 30), budget(900, 0), budget(10, 15)];
    assert_eq!(device_memory(&heaps, &Some(budgets)), (120, 60));
}

#[test]
fn memory_free_skips_heaps_without_budget() {
    let heaps = vec![heap(100, true), heap(20, true)];
    let budgets = vec![budget(0, 30), budget(15, 5)];
    assert_eq!(device_memory(&heaps, &Some(budgets)), (120, 10));
}

#[test]
fn memory_without_reported_budget_is_all_free() {
    let heaps = vec![heap(100, true), heap(1000, false)];
    let budgets = vec![budget(0, 0), budget(500, 0)];
    assert_eq!(device_memory(&heaps, &Some(budgets)), (100, 100));
}

#[test]
fn memory_free_saturates() {
    let heaps = vec![heap(1, true), heap(1, true)];
    let budgets = vec![budget(u64::MAX, 0), budget(u64::MAX, 0)];
    assert_eq!(device_memory(&heaps, &Some(budgets)), (2, u64::MAX));
}

#[test]
fn vendor_names() {
    assert_eq!(vendor_name(0x10DE), "nvidia");
    assert_eq!(vendor_name(0x1002), "amd");
    assert_eq!(vendor_name(0x1022), "amd");
    assert_eq!(vendor_name(0x8086), "intel");
    assert_eq!(vendor_name(0x13B5), "arm");
    assert_eq!(vendor_name(0x5143), "qualcomm");
    assert_eq!(vendor_name(0x1010), "imgtec");
    assert_eq!(vendor_name(0x1234), "other");
}

#[test]
fn device_type_labels() {
    assert_eq!(device_type_label(DeviceKind::DiscreteGpu), Some("Gpu"));
    assert_eq!(device_type_label(DeviceKind::IntegratedGpu), Some("IntegratedGpu"));
    assert_eq!(device_type_label(DeviceKind::VirtualGpu), Some("Gpu"));
    assert_eq!(device_type_label(DeviceKind::Other), Some("Unknown"));
    assert_eq!(device_type_label(DeviceKind::Cpu), None);
}

#[test]
fn api_version_choice() {
    assert_eq!(API_VERSION_1_0, (1 << 22));
    assert_eq!(API_VERSION_1_1, (1 << 22) | (1 << 12));
    assert_eq!(pick_api_version(None), API_VERSION_1_0);
    assert_eq!(pick_api_version(Some(API_VERSION_1_0)), API_VERSION_1_0);
    assert_eq!(pick_api_version(Some(API_VERSION_1_1)), API_VERSION_1_1);
    assert_eq!(pick_api_version(Some((1 << 22) | (3 << 12))), API_VERSION_1_1);
}

#[test]
fn budget_query_needs_extension_and_version() {
    let exts = vec!["VK_KHR_swapchain".to_string(), "VK_EXT_memory_budget".to_string()];
    assert!(budget_query_allowed(API_VERSION_1_1, &exts));
    assert!(!budget_query_allowed(API_VERSION_1_0, &exts));
    assert!(!budget_query_allowed(API_VERSION_1_1, &vec!["VK_KHR_swapchain".to_string()]));
}

#[test]
fn describe_device_names_by_position() {
    let g = describe_device(&info(DeviceKind::DiscreteGpu, 0x10DE, "NVIDIA GeForce RTX 4060"), 3)
        .unwrap();
    assert_eq!(g.index, 3);
    assert_eq!(g.name, "Vulkan3");
    assert_eq!(g.description, "NVIDIA GeForce RTX 4060");
    assert_eq!(g.vendor, "nvidia");
    assert_eq!(g.backend, "Vulkan");
    assert_eq!(g.memory_total, 8 << 30);
    assert_eq!(g.memory_free, 8 << 30);
    assert_eq!(g.device_type, "Gpu");
    assert!(describe_device(&info(DeviceKind::Cpu, 0x10005, "llvmpipe"), 0).is_none());
}

#[test]
fn enumeration_skips_cpus_and_numbers_the_rest() {
    let infos = vec![
        info(DeviceKind::Cpu, 0x10005, "llvmpipe"),
        info(DeviceKind::IntegratedGpu, 0x8086, "Intel UHD"),
        info(DeviceKind::DiscreteGpu, 0x1002, "Radeon RX 7900"),
    ];
    let devs = devices(&infos);
    assert_eq!(devs.len(), 2);
    assert_eq!(devs[0].index, 0);
    assert_eq!(devs[0].description, "Intel UHD");
    assert_eq!(devs[0].device_type, "IntegratedGpu");
    assert_eq!(devs[1].index, 1);
    assert_eq!(devs[1].vendor_id, 0x1002);
}

#[test]
fn amd_and_intel_filter_by_vendor() {
    let devs = vec![vk(0, 0x8086, "Intel UHD"), vk(1, 0x1002, "Radeon"), vk(2, 0x10DE, "RTX")];
    let a = amd::collect(&devs);
    assert_eq!(a.len(), 1);
    assert_eq!(a[0].name, "Vulkan1");
    assert_eq!(a[0].vendor, "amd");
    assert_eq!(a[0].backend, "Vulkan");
    assert_eq!(a[0].index, 0);
    assert_eq!(a[0].memory_total, 101);
    let i = intel::collect(&devs);
    assert_eq!(i.len(), 1);
    assert_eq!(i[0].name, "Vulkan0");
    assert_eq!(i[0].vendor, "intel");
}

#[test]
fn gpus_are_gathered_and_numbered() {
    let devs = vec![vk(0, 0x8086, "Intel UHD"), vk(1, 0x1002, "Radeon"), vk(2, 0x10DE, "RTX")];
    let all = collect_gpus(vec![gpu("CUDA0")], &devs);
    let names: Vec<&str> = all.iter().map(|g| g.name.as_str()).collect();
    assert_eq!(names, vec!["CUDA0", "Vulkan1", "Vulkan0"]);
    for (position, g) in all.iter().enumerate() {
        assert_eq!(g.index, position);
    }
}

#[test]
fn no_devices_no_gpus() {
    assert!(collect_gpus(Vec::new(), &Vec::new()).is_empty());
}

#[test]
fn numbering_twice_changes_nothing() {
    let once = index_devices(vec![gpu("a"), gpu("b")]);
    let twice = index_devices(index_devices(vec![gpu("a"), gpu("b")]));
    assert_eq!(once.len(), twice.len());
    for (x, y) in once.iter().zip(twice.iter()) {
        assert_eq!(x.index, y.index);
        assert_eq!(x.name, y.name);
    }
    assert_eq!(once[1].index, 1);
}

#[test]
fn nvidia_devices_from_probes() {
    let probes = vec![
        NvmlProbe { index: 0, memory: Some(NvmlMemory { total: 8, free: 6 }), name: Some("RTX 4060".to_string()) },
        NvmlProbe { index: 1, memory: None, name: Some("broken".to_string()) },
        NvmlProbe { index: 2, memory: Some(NvmlMemory { total: 24, free: 20 }), name: None },
    ];
    let gpus = nvidia::collect(&probes);
    assert_eq!(gpus.len(), 2);
    assert_eq!(gpus[0].name, "CUDA0");
    assert_eq!(gpus[0].description, "RTX 4060");
    assert_eq!(gpus[0].vendor, "nvidia");
    assert_eq!(gpus[0].backend, "CUDA");
    assert_eq!(gpus[0].memory_total, 8);
    assert_eq!(gpus[0].memory_free, 6);
    assert_eq!(gpus[1].name, "CUDA2");
    assert_eq!(gpus[1].description, "NVIDIA GPU 2");
    assert_eq!(gpus[1].device_type, "Gpu");
}

fn metal(name: &str, unified: bool, total: u64, used: u64) -> MetalDevice {
    MetalDevice {
        name: name.to_string(),
        unified_memory: unified,
        recommended_max_working_set_size: total,
        current_allocated_size: used,
    }
}

#[test]
fn metal_vendors() {
    assert_eq!(apple::vendor_for(&metal("AMD Radeon Pro 5500M", true, 0, 0)), "apple");
    assert_eq!(apple::vendor_for(&metal("AMD Radeon Pro 5500M", false, 0, 0)), "amd");
    assert_eq!(apple::vendor_for(&metal("RADEON", false, 0, 0)), "amd");
    assert_eq!(apple::vendor_for(&metal("INTEL Iris Plus", false, 0, 0)), "intel");
    assert_eq!(apple::vendor_for(&metal("Apple M2", false, 0, 0)), "apple");
}

#[test]
fn metal_devices() {
    let gpus = apple::collect(&vec![metal("Apple M2", true, 100, 30), metal("AMD", false, 10, 20)]);
    assert_eq!(gpus.len(), 2);
    assert_eq!(gpus[0].name, "Metal");
    assert_eq!(gpus[0].index, 0);
    assert_eq!(gpus[0].memory_free, 70);
    assert_eq!(gpus[0].backend, "Metal");
    assert_eq!(gpus[1].name, "Metal1");
    assert_eq!(gpus[1].memory_free, 0);
    assert_eq!(gpus[1].vendor, "amd");
}
