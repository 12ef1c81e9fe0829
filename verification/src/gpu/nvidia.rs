//! NVIDIA GPUs: the dynamic figures of a snapshot, from what NVML answered.
use vstd::prelude::*;

use crate::gpu::{
    GpuClocks, GpuDynamicInfo, GpuEngines, GpuMemory, GpuPower, GpuProcess, GpuThermal,
    PcieLinkInfo,
};

verus! {

/// What NVML answered for a device in one snapshot (`None`: the query
/// failed).
#[derive(Debug, Clone, Copy)]
pub struct NvidiaReadings {
    /// GPU utilization rate (percent)
    pub gpu_utilization: Option<u32>,
    /// Memory: total, used and free bytes
    pub memory: Option<(u64, u64, u64)>,
    /// Graphics clock (MHz)
    pub graphics_clock: Option<u32>,
    /// Maximum graphics clock (MHz)
    pub graphics_clock_max: Option<u32>,
    /// Memory clock (MHz)
    pub memory_clock: Option<u32>,
    /// Maximum memory clock (MHz)
    pub memory_clock_max: Option<u32>,
    /// SM clock (MHz)
    pub sm_clock: Option<u32>,
    /// Video clock (MHz)
    pub video_clock: Option<u32>,
    /// Power usage (milliwatts)
    pub power_usage: Option<u32>,
    /// Power management limit (milliwatts)
    pub power_limit: Option<u32>,
    /// Default power management limit (milliwatts)
    pub power_limit_default: Option<u32>,
    /// GPU temperature (°C)
    pub temperature: Option<u32>,
    /// Speed of fan 0 (percent)
    pub fan_speed: Option<u32>,
    /// Slowdown temperature threshold (°C)
    pub slowdown_threshold: Option<u32>,
    /// Shutdown temperature threshold (°C)
    pub shutdown_threshold: Option<u32>,
    /// Current PCIe link generation
    pub pcie_gen: Option<u32>,
    /// Maximum PCIe link generation
    pub pcie_gen_max: Option<u32>,
    /// Current PCIe link width
    pub pcie_width: Option<u32>,
    /// Maximum PCIe link width
    pub pcie_width_max: Option<u32>,
    /// Encoder utilization (percent)
    pub encoder_utilization: Option<u32>,
    /// Decoder utilization (percent)
    pub decoder_utilization: Option<u32>,
}

/// An optional count taken as a `u8` (keeping its low byte).
pub open spec fn low_byte(v: Option<u32>) -> Option<u8> {
    match v {
        Some(x) => Some(x as u8),
        None => None,
    }
}

/// An optional temperature taken as an `i32`.
pub open spec fn as_signed(v: Option<u32>) -> Option<i32> {
    match v {
        Some(x) => Some(x as i32),
        None => None,
    }
}

fn low_byte_exec(v: Option<u32>) -> (r: Option<u8>)
    ensures
        r == low_byte(v),
{
    match v {
        Some(x) => Some(x as u8),
        None => None,
    }
}

fn as_signed_exec(v: Option<u32>) -> (r: Option<i32>)
    ensures
        r == as_signed(v),
{
    match v {
        Some(x) => Some(x as i32),
        None => None,
    }
}

/// The dynamic figures of an NVIDIA GPU from what NVML answered, with the
/// running processes: counts and percentages taken as `u8`, temperatures as
/// `i32`, and what NVML could not tell left out (memory as 0). The two
/// ratios are given: `memory_percent` of memory in use (it counts when the
/// memory figures were read), and `power_percent` of the power limit drawn
/// (it counts when both were read and the limit is above 0).
pub fn nvidia_dynamic_info(
    r: &NvidiaReadings,
    memory_percent: u8,
    power_percent: u8,
    processes: Vec<GpuProcess>,
) -> (d: GpuDynamicInfo)
    ensures
        d.utilization == (match r.gpu_utilization {
            Some(u) => u as u8,
            None => 0,
        }),
        d.memory.total == (match r.memory {
            Some(m) => m.0,
            None => 0,
        }),
        d.memory.used == (match r.memory {
            Some(m) => m.1,
            None => 0,
        }),
        d.memory.free == (match r.memory {
            Some(m) => m.2,
            None => 0,
        }),
        d.memory.utilization == (match r.memory {
            Some(_) => memory_percent,
            None => 0,
        }),
        d.clocks.graphics == r.graphics_clock && d.clocks.graphics_max == r.graphics_clock_max
            && d.clocks.memory == r.memory_clock && d.clocks.memory_max == r.memory_clock_max
            && d.clocks.sm == r.sm_clock && d.clocks.video == r.video_clock,
        d.power.draw == r.power_usage && d.power.limit == r.power_limit && d.power.default_limit
            == r.power_limit_default,
        d.power.usage_percent == (match (r.power_usage, r.power_limit) {
            (Some(_), Some(limit)) => if limit > 0 {
                Some(power_percent)
            } else {
                None
            },
            _ => None,
        }),
        d.thermal.temperature == as_signed(r.temperature),
        d.thermal.max_temperature == as_signed(r.slowdown_threshold),
        d.thermal.critical_temperature == as_signed(r.shutdown_threshold),
        d.thermal.fan_speed == low_byte(r.fan_speed),
        d.thermal.fan_rpm is None,
        d.pcie.current_gen == low_byte(r.pcie_gen) && d.pcie.max_gen == low_byte(r.pcie_gen_max)
            && d.pcie.current_width == low_byte(r.pcie_width) && d.pcie.max_width == low_byte(
            r.pcie_width_max,
        ),
        d.pcie.current_speed is None && d.pcie.max_speed is None && d.pcie.tx_throughput is None
            && d.pcie.rx_throughput is None,
        d.engines.graphics == Some(d.utilization),
        d.engines.encoder == low_byte(r.encoder_utilization),
        d.engines.decoder == low_byte(r.decoder_utilization),
        d.engines.compute is None && d.engines.copy is None && d.engines.vendor_specific@.len()
            == 0,
        d.processes@ == processes@,
{
    let utilization: u8 = match r.gpu_utilization {
        Some(u) => u as u8,
        None => 0,
    };
    let memory = match r.memory {
        Some((total, used, free)) => GpuMemory { total, used, free, utilization: memory_percent },
        None => GpuMemory { total: 0, used: 0, free: 0, utilization: 0 },
    };
    let usage_percent = match (r.power_usage, r.power_limit) {
        (Some(_), Some(limit)) => if limit > 0 {
            Some(power_percent)
        } else {
            None
        },
        _ => None,
    };
    GpuDynamicInfo {
        utilization,
        memory,
        clocks: GpuClocks {
            graphics: r.graphics_clock,
            graphics_max: r.graphics_clock_max,
            memory: r.memory_clock,
            memory_max: r.memory_clock_max,
            sm: r.sm_clock,
            video: r.video_clock,
        },
        power: GpuPower {
            draw: r.power_usage,
            limit: r.power_limit,
            default_limit: r.power_limit_default,
            usage_percent,
        },
        thermal: GpuThermal {
            temperature: as_signed_exec(r.temperature),
            max_temperature: as_signed_exec(r.slowdown_threshold),
            critical_temperature: as_signed_exec(r.shutdown_threshold),
            fan_speed: low_byte_exec(r.fan_speed),
            fan_rpm: None,
        },
        pcie: PcieLinkInfo {
            current_gen: low_byte_exec(r.pcie_gen),
            max_gen: low_byte_exec(r.pcie_gen_max),
            current_width: low_byte_exec(r.pcie_width),
            max_width: low_byte_exec(r.pcie_width_max),
            current_speed: None,
            max_speed: None,
            tx_throughput: None,
            rx_throughput: None,
        },
        engines: GpuEngines {
            graphics: Some(utilization),
            compute: None,
            encoder: low_byte_exec(r.encoder_utilization),
            decoder: low_byte_exec(r.decoder_utilization),
            copy: None,
            vendor_specific: Vec::new(),
        },
        processes,
    }
}

} // verus!
