use simon::gpu::amd::{AmdGpu, AmdProbe, AmdReadings};
use simon::sysfs::{millidegrees_to_degrees, read_sysfs_degrees, read_sysfs_u32};
use simon::gpu::intel::{IntelDriver, IntelGpu, IntelProbe, IntelReadings};
use simon::gpu::nvidia::{nvidia_dynamic_info, NvidiaReadings};

fn s(v: &str) -> Option<String> {
    Some(v.to_string())
}

fn amd_readings() -> AmdReadings {
    AmdReadings {
        gpu_busy_percent: s("37\n"),
        mem_info_vram_total: s("8589934592\n"),
        mem_info_vram_used: s("2147483648\n"),
        freq1_input: s("1800000000\n"),
        freq2_input: s("1000000000\n"),
        power1_average: s("45500000\n"),
        temp1_input: s("61250\n"),
        temp1_crit: s("110000\n"),
        fan1_input: s("1200\n"),
        pwm1: s("128\n"),
    }
}

fn amd_card(hwmon: bool) -> AmdGpu {
    let mut p = AmdProbe::default();
    if hwmon {
        p.hwmon_path = s("/sys/class/drm/card0/device/hwmon/hwmon3");
    }
    AmdGpu::new(0, "0000:03:00.0".to_string(), "/sys/class/drm/card0".to_string(), p).unwrap()
}

#[test]
fn amd_dynamic_figures_with_hwmon() {
    let d = amd_card(true).dynamic_info(&amd_readings(), 25, 50);
    assert_eq!(d.utilization, 37);
    assert_eq!(d.memory.total, 8589934592);
    assert_eq!(d.memory.used, 2147483648);
    assert_eq!(d.memory.free, 6442450944);
    assert_eq!(d.memory.utilization, 25);
    assert_eq!(d.clocks.graphics, Some(1800));
    assert_eq!(d.clocks.memory, Some(1000));
    assert_eq!(d.power.draw, Some(45500));
    assert_eq!(d.thermal.temperature, Some(61));
    assert_eq!(d.thermal.critical_temperature, Some(110));
    assert_eq!(d.thermal.fan_rpm, Some(1200));
    assert_eq!(d.thermal.fan_speed, Some(50));
    assert_eq!(d.engines.graphics, Some(37));
    assert!(d.processes.is_empty());
}

#[test]
fn amd_dynamic_figures_without_hwmon() {
    let d = amd_card(false).dynamic_info(&amd_readings(), 25, 50);
    assert_eq!(d.utilization, 37);
    assert_eq!(d.clocks.graphics, None);
    assert_eq!(d.power.draw, None);
    assert_eq!(d.thermal.temperature, None);
    assert_eq!(d.thermal.fan_speed, None);
}

#[test]
fn amd_dynamic_figures_unreadable() {
    let r = AmdReadings {
        gpu_busy_percent: s("busy"),
        mem_info_vram_total: None,
        mem_info_vram_used: s("100"),
        freq1_input: None,
        freq2_input: None,
        power1_average: None,
        temp1_input: s("-4500"),
        temp1_crit: None,
        fan1_input: None,
        pwm1: s("x"),
    };
    let d = amd_card(true).dynamic_info(&r, 99, 99);
    assert_eq!(d.utilization, 0);
    assert_eq!(d.memory.total, 0);
    assert_eq!(d.memory.free, 0);
    assert_eq!(d.memory.utilization, 0);
    assert_eq!(d.thermal.temperature, Some(-4));
    assert_eq!(d.thermal.fan_speed, None);
}

#[test]
fn whole_degrees_round_toward_zero() {
    assert_eq!(millidegrees_to_degrees(61999), 61);
    assert_eq!(millidegrees_to_degrees(-1999), -1);
    assert_eq!(millidegrees_to_degrees(i32::MIN), i32::MIN / 1000);
    assert_eq!(millidegrees_to_degrees(i32::MAX), i32::MAX / 1000);
    assert_eq!(read_sysfs_degrees(Some(" 45000 ")), Some(45));
    assert_eq!(read_sysfs_u32(Some("4294967296")), None);
}

#[test]
fn intel_frequency_files() {
    let i915 = IntelGpu::new(0, "a".to_string(), "c".to_string(), IntelDriver::I915, IntelProbe::default()).unwrap();
    assert_eq!(i915.frequency_files(), ("gt_cur_freq_mhz", "gt_max_freq_mhz"));
    let xe = IntelGpu::new(0, "a".to_string(), "c".to_string(), IntelDriver::Xe, IntelProbe::default()).unwrap();
    assert_eq!(xe.frequency_files(), ("gt/gt0/freq0/cur_freq", "gt/gt0/freq0/max_freq"));
}

#[test]
fn intel_dynamic_figures() {
    let mut p = IntelProbe::default();
    p.hwmon_path = s("/sys/class/drm/card1/device/hwmon/hwmon5");
    let g = IntelGpu::new(1, "a".to_string(), "c".to_string(), IntelDriver::I915, p).unwrap();
    let r = IntelReadings { cur_freq: s("650\n"), max_freq: s("1300\n"), power1_average: s("12345678"), temp1_input: s("48000") };
    let d = g.dynamic_info(&r, 50);
    assert_eq!(d.utilization, 50);
    assert_eq!(d.clocks.graphics, Some(650));
    assert_eq!(d.clocks.graphics_max, Some(1300));
    assert_eq!(d.power.draw, Some(12345));
    assert_eq!(d.thermal.temperature, Some(48));
    assert_eq!(d.memory.total, 0);
    assert_eq!(d.engines.graphics, Some(50));
    let zero_max = IntelReadings { cur_freq: s("650"), max_freq: s("0"), power1_average: None, temp1_input: None };
    assert_eq!(g.dynamic_info(&zero_max, 50).utilization, 0);
    let no_hwmon = IntelGpu::new(1, "a".to_string(), "c".to_string(), IntelDriver::Xe, IntelProbe::default()).unwrap();
    let d = no_hwmon.dynamic_info(&r, 50);
    assert_eq!(d.power.draw, None);
    assert_eq!(d.thermal.temperature, None);
}

#[test]
fn nvidia_dynamic_figures() {
    let r = NvidiaReadings {
        gpu_utilization: Some(300),
        memory: Some((1000, 400, 600)),
        graphics_clock: Some(1500),
        graphics_clock_max: Some(2100),
        memory_clock: Some(7000),
        memory_clock_max: Some(7500),
        sm_clock: Some(1500),
        video_clock: None,
        power_usage: Some(150000),
        power_limit: Some(0),
        power_limit_default: Some(250000),
        temperature: Some(66),
        fan_speed: Some(45),
        slowdown_threshold: Some(90),
        shutdown_threshold: Some(95),
        pcie_gen: Some(4),
        pcie_gen_max: Some(4),
        pcie_width: Some(16),
        pcie_width_max: Some(16),
        encoder_utilization: Some(5),
        decoder_utilization: None,
    };
    let d = nvidia_dynamic_info(&r, 40, 60, Vec::new());
    assert_eq!(d.utilization, 44);
    assert_eq!(d.memory.total, 1000);
    assert_eq!(d.memory.free, 600);
    assert_eq!(d.memory.utilization, 40);
    assert_eq!(d.power.usage_percent, None);
    assert_eq!(d.thermal.temperature, Some(66));
    assert_eq!(d.thermal.max_temperature, Some(90));
    assert_eq!(d.thermal.fan_speed, Some(45));
    assert_eq!(d.pcie.current_width, Some(16));
    assert_eq!(d.engines.encoder, Some(5));
    assert_eq!(d.engines.decoder, None);
    let mut r2 = r;
    r2.power_limit = Some(300000);
    r2.memory = None;
    let d2 = nvidia_dynamic_info(&r2, 40, 50, Vec::new());
    assert_eq!(d2.power.usage_percent, Some(50));
    assert_eq!(d2.memory.utilization, 0);
    assert_eq!(d2.memory.total, 0);
}
