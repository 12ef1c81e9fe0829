use simon::gpu::is_jetson_device;
use simon::gpu::{kill_request, SignalKind};
use simon::gpu::amd::{fdinfo_memory_checked, parse_fdinfo_memory, read_gpu_name, read_sysfs_mhz, AmdGpu, AmdProbe};
use simon::gpu::amd_rocm;
use simon::gpu::intel::{parse_engine_time, read_intel_gpu_name, IntelDriver, IntelGpu, IntelProbe};
use simon::gpu::traits::{FanSpeed, Vendor};
use simon::gpu::GpuVendor;

#[test]
fn test_amd_gpu_creation() {
    // Nothing can be read from the card's directory on a machine without an
    // AMD GPU; creation must still not panic.
    let result = AmdGpu::new(
        0,
        "0000:03:00.0".to_string(),
        "/sys/class/drm/card0".to_string(),
        AmdProbe::default(),
    );
    let _ = result;
}

#[test]
fn test_intel_gpu_creation() {
    let result = IntelGpu::new(
        0,
        "0000:00:02.0".to_string(),
        "/sys/class/drm/card0".to_string(),
        IntelDriver::I915,
        IntelProbe::default(),
    );
    let _ = result;
}

#[test]
fn test_driver_name() {
    assert_eq!(IntelDriver::I915.name(), "i915");
    assert_eq!(IntelDriver::Xe.name(), "xe");
}

#[test]
fn amd_gpu_without_sysfs_data_is_named_by_index() {
    let gpu = AmdGpu::new(3, "0000:03:00.0".to_string(), "/sys/class/drm/card3".to_string(), AmdProbe::default()).unwrap();
    assert_eq!(gpu.name(), "AMD GPU 3");
    assert_eq!(gpu.index(), 3);
    assert_eq!(gpu.vendor(), GpuVendor::Amd);
}

#[test]
fn amd_gpu_name_sources_in_order() {
    let mut p = AmdProbe::default();
    p.product_name = Some("  Radeon RX 7900 XTX\n".to_string());
    p.uevent = Some("DRIVER=amdgpu\nPCI_ID=1002:744C\n".to_string());
    assert_eq!(read_gpu_name(&p).as_deref(), Some("Radeon RX 7900 XTX"));
    p.product_name = Some("   \n".to_string());
    assert_eq!(read_gpu_name(&p).as_deref(), Some("AMD GPU [1002:744C]"));
    p.uevent = Some("DRIVER=amdgpu\n".to_string());
    p.vendor = Some("0x1002\n".to_string());
    p.device = Some("0x744c\n".to_string());
    assert_eq!(read_gpu_name(&p).as_deref(), Some("AMD GPU [0x1002:0x744c]"));
    p.device = None;
    assert_eq!(read_gpu_name(&p), None);
}

#[test]
fn amd_static_info_marks_apus_integrated() {
    let mut p = AmdProbe::default();
    p.product_name = Some("AMD Radeon Vega 8 Graphics".to_string());
    let gpu = AmdGpu::new(0, "0000:05:00.0".to_string(), "/sys/class/drm/card0".to_string(), p).unwrap();
    let info = gpu.static_info(Some("113-RENOIR\n".to_string()), None);
    assert!(info.integrated);
    assert_eq!(info.vbios_version.as_deref(), Some("113-RENOIR"));
    assert_eq!(info.pci_bus_id.as_deref(), Some("0000:05:00.0"));
    let mut q = AmdProbe::default();
    q.product_name = Some("Radeon RX 6800".to_string());
    let gpu = AmdGpu::new(1, "x".to_string(), "y".to_string(), q).unwrap();
    assert!(!gpu.static_info(None, None).integrated);
}

#[test]
fn fdinfo_memory_units() {
    assert_eq!(parse_fdinfo_memory("drm-memory-vram:\t1234 KiB"), Some(1234 * 1024));
    assert_eq!(parse_fdinfo_memory("drm-memory-gtt: 2 MiB"), Some(2 * 1024 * 1024));
    assert_eq!(parse_fdinfo_memory("drm-memory-vram: 3 gib"), Some(3 * 1024 * 1024 * 1024));
    assert_eq!(parse_fdinfo_memory("drm-memory-vram: 77"), Some(77));
    assert_eq!(parse_fdinfo_memory("drm-memory-vram: 77 pages"), Some(77));
    assert_eq!(parse_fdinfo_memory("drm-memory-vram:"), None);
    assert_eq!(parse_fdinfo_memory("drm-memory-vram: lots KiB"), None);
    assert_eq!(fdinfo_memory_checked("drm-memory-vram: 18446744073709551615 KiB"), None);
    assert_eq!(fdinfo_memory_checked("drm-memory-vram: 5 KB"), Some(Some(5120)));
}

#[test]
fn sysfs_frequency_in_mhz() {
    assert_eq!(read_sysfs_mhz(Some("1850000000\n")), Some(1850));
    assert_eq!(read_sysfs_mhz(Some("garbage")), None);
    assert_eq!(read_sysfs_mhz(None), None);
}

#[test]
fn rocm_card_requires_device_directory() {
    assert!(amd_rocm::AmdGpu::new(0, "/sys/class/drm/card0".to_string(), false).is_err());
    let g = amd_rocm::AmdGpu::new(2, "/sys/class/drm/card2".to_string(), true).unwrap();
    assert_eq!(g.device_path(), "/sys/class/drm/card2/device");
    assert_eq!(g.vendor(), Vendor::Amd);
    assert_eq!(g.name(None, Some("0x73bf\n".to_string())).unwrap(), "AMD GPU 0x73bf");
    assert_eq!(g.name(None, None).unwrap(), "AMD GPU #2");
    assert_eq!(g.name(Some("Navi 21\n".to_string()), None).unwrap(), "Navi 21");
    assert_eq!(g.uuid(Some("0x1002".to_string()), Some("0x73bf".to_string()), None).unwrap(), "GPU-0x1002-0x73bf-2");
}

#[test]
fn rocm_current_clock_is_the_starred_level() {
    let table = "0: 500Mhz\n1: 800Mhz *\n2: 1200Mhz\n".to_string();
    assert_eq!(amd_rocm::AmdGpu::read_current_clock(Some(table)), Some(800));
    assert_eq!(amd_rocm::AmdGpu::read_current_clock(Some("0: 500Mhz\n".to_string())), None);
    assert_eq!(amd_rocm::AmdGpu::read_current_clock(None), None);
    let g = amd_rocm::AmdGpu::new(0, "c".to_string(), true).unwrap();
    let c = g.clocks(Some("0: 96Mhz *\n".to_string()), None).unwrap();
    assert_eq!((c.graphics, c.memory), (96, 0));
}

#[test]
fn rocm_memory_and_fan() {
    let g = amd_rocm::AmdGpu::new(0, "c".to_string(), true).unwrap();
    let m = g.memory(Some("100\n".to_string()), Some("150\n".to_string())).unwrap();
    assert_eq!((m.total, m.used, m.free), (100, 150, 0));
    assert_eq!(amd_rocm::fan_speed(Some(128), None, Some(900)), Some(FanSpeed::Percent(50)));
    assert_eq!(amd_rocm::fan_speed(None, None, Some(900)), Some(FanSpeed::Rpm(900)));
    assert_eq!(amd_rocm::card_index("card12"), Some(12));
    assert_eq!(amd_rocm::card_index("card0-DP-1"), None);
    assert_eq!(amd_rocm::card_index("renderD128"), None);
    assert!(amd_rocm::is_amd_vendor("0x1002\n"));
    assert!(!amd_rocm::is_amd_vendor("0x10de"));
}

#[test]
fn intel_names_from_device_id() {
    assert_eq!(read_intel_gpu_name(Some("0x56a0\n"), &IntelDriver::I915).as_deref(), Some("Intel Arc A580"));
    assert_eq!(read_intel_gpu_name(Some("0x1234"), &IntelDriver::Xe).as_deref(), Some("Intel Graphics [0x1234] (xe)"));
    assert_eq!(read_intel_gpu_name(None, &IntelDriver::Xe), None);
    let g = IntelGpu::new(1, "0000:00:02.0".to_string(), "c".to_string(), IntelDriver::Xe, IntelProbe::default()).unwrap();
    assert_eq!(g.name(), "Intel GPU 1 (xe)");
    assert_eq!(g.driver(), IntelDriver::Xe);
    assert!(g.static_info(None).integrated);
    let mut p = IntelProbe::default();
    p.device = Some("0x5690".to_string());
    let g = IntelGpu::new(0, "b".to_string(), "c".to_string(), IntelDriver::I915, p).unwrap();
    assert!(!g.static_info(Some("1.0\n".to_string())).integrated);
    assert_eq!(IntelDriver::from_driver_name("i915"), Some(IntelDriver::I915));
    assert_eq!(IntelDriver::from_driver_name("amdgpu"), None);
}

#[test]
fn intel_engine_time() {
    assert_eq!(parse_engine_time("drm-engine-render:\t12345 ns"), Some(12345));
    assert_eq!(parse_engine_time("drm-engine-render:"), None);
    assert_eq!(parse_engine_time("drm-engine-video: x ns"), None);
}

#[test]
fn vendor_labels() {
    assert_eq!(GpuVendor::Nvidia.label(), "NVIDIA");
    assert_eq!(GpuVendor::from_vendor(Vendor::Intel), GpuVendor::Intel);
    assert_eq!(Vendor::Apple.label(), "Apple");
}

#[test]
fn jetson_detection() {
    assert!(is_jetson_device(Some("Orin (nvgpu)"), false));
    assert!(!is_jetson_device(Some("NVIDIA GeForce RTX 4090"), true));
    assert!(is_jetson_device(None, false));
    assert!(!is_jetson_device(None, true));
}

#[test]
fn killing_a_missing_process_fails() {
    // PIDs on Linux stay below 2^22; this one cannot exist.
    match simon::gpu::kill_process(2_000_000_000) {
        Err(simon::error::Error::ProcessError(m)) => assert!(m.starts_with("Failed to kill process 2000000000: ")),
        _ => panic!("expected a process error"),
    }
}

#[test]
fn kill_requests_sigterm_for_the_pid() {
    assert_eq!(kill_request(1234), (1234, SignalKind::Term));
    assert_eq!(kill_request(u32::MAX), (-1, SignalKind::Term));
}

#[test]
fn jetson_names_in_any_case() {
    assert!(is_jetson_device(Some("NVIDIA Jetson AGX Orin"), true));
    assert!(!is_jetson_device(Some("NVIDIA GeForce RTX 4090"), true));
}
