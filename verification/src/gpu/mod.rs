//! GPUs: vendor-neutral descriptions of a device (static facts and a
//! snapshot of its state) and the sysfs readings of AMD and Intel devices.
use vstd::prelude::*;

pub mod amd;
pub mod amd_rocm;
pub mod intel;
pub mod nvidia;
pub mod processes;
pub mod traits;

use crate::gpu::traits::Vendor;
use crate::num::{dec, push_dec};
use crate::text::{
    ascii_lower, is_ascii_seq,
    chars_of, contains, contains_exec, extend_str, lowercase, starts_with, string_of, to_lower,
};

verus! {

/// GPU vendor identifier
#[derive(Debug, Clone, Copy, PartialEq, Eq, Hash, Structural)]
pub enum GpuVendor {
    /// NVIDIA GPUs (NVML-based, Jetson and desktop)
    Nvidia,
    /// AMD GPUs (amdgpu driver via libdrm)
    Amd,
    /// Intel GPUs (i915/xe driver via DRM)
    Intel,
    /// Apple GPUs (Metal-based, M1/M2/M3/M4)
    Apple,
}

pub open spec fn gpu_vendor_label(v: GpuVendor) -> Seq<char> {
    match v {
        GpuVendor::Nvidia => "NVIDIA"@,
        GpuVendor::Amd => "AMD"@,
        GpuVendor::Intel => "Intel"@,
        GpuVendor::Apple => "Apple"@,
    }
}

impl GpuVendor {
    /// The vendor's name as shown.
    pub fn label(&self) -> (s: &'static str)
        ensures
            s@ == gpu_vendor_label(*self),
    {
        match self {
            GpuVendor::Nvidia => "NVIDIA",
            GpuVendor::Amd => "AMD",
            GpuVendor::Intel => "Intel",
            GpuVendor::Apple => "Apple",
        }
    }

    /// The vendor of the vendor-neutral interface's vendor.
    pub fn from_vendor(v: Vendor) -> (g: GpuVendor)
        ensures
            gpu_vendor_label(g) == crate::gpu::traits::vendor_label(v),
    {
        match v {
            Vendor::Nvidia => GpuVendor::Nvidia,
            Vendor::Amd => GpuVendor::Amd,
            Vendor::Intel => GpuVendor::Intel,
            Vendor::Apple => GpuVendor::Apple,
        }
    }
}

/// GPU process type
#[derive(Debug, Clone, Copy, PartialEq, Eq, Structural)]
pub enum GpuProcessType {
    /// Graphics/rendering workload
    Graphics,
    /// Compute workload
    Compute,
    /// Mixed graphics and compute
    GraphicsAndCompute,
    /// Unknown/unclassified
    Unknown,
}

/// GPU process information
#[derive(Debug, Clone)]
pub struct GpuProcess {
    /// Process ID
    pub pid: u32,
    /// Process name/command
    pub name: String,
    /// User running the process
    pub user: String,
    /// Process type
    pub process_type: GpuProcessType,
    /// GPU utilization percentage (0-100)
    pub gpu_usage: Option<u8>,
    /// Memory usage in bytes
    pub memory_usage: Option<u64>,
    /// Memory usage percentage (0-100)
    pub memory_usage_percent: Option<u8>,
    /// Encoder utilization percentage (0-100)
    pub encoder_usage: Option<u8>,
    /// Decoder utilization percentage (0-100)
    pub decoder_usage: Option<u8>,
    /// CPU usage percentage (0-100)
    pub cpu_usage: Option<u8>,
    /// CPU memory usage in bytes
    pub cpu_memory: Option<u64>,
}

/// GPU memory information
#[derive(Debug, Clone, Copy)]
pub struct GpuMemory {
    /// Total memory in bytes
    pub total: u64,
    /// Used memory in bytes
    pub used: u64,
    /// Free memory in bytes
    pub free: u64,
    /// Memory utilization percentage (0-100)
    pub utilization: u8,
}

/// GPU clock information
#[derive(Debug, Clone, Copy)]
pub struct GpuClocks {
    /// Current graphics/shader clock in MHz
    pub graphics: Option<u32>,
    /// Maximum graphics/shader clock in MHz
    pub graphics_max: Option<u32>,
    /// Current memory clock in MHz
    pub memory: Option<u32>,
    /// Maximum memory clock in MHz
    pub memory_max: Option<u32>,
    /// Current SM/compute clock in MHz
    pub sm: Option<u32>,
    /// Current video clock in MHz
    pub video: Option<u32>,
}

/// GPU power information
#[derive(Debug, Clone, Copy)]
pub struct GpuPower {
    /// Current power draw in milliwatts
    pub draw: Option<u32>,
    /// Maximum power limit in milliwatts
    pub limit: Option<u32>,
    /// Default power limit in milliwatts
    pub default_limit: Option<u32>,
    /// Power usage percentage (0-100)
    pub usage_percent: Option<u8>,
}

/// GPU thermal information
#[derive(Debug, Clone, Copy)]
pub struct GpuThermal {
    /// Current temperature in Celsius
    pub temperature: Option<i32>,
    /// Maximum temperature threshold in Celsius
    pub max_temperature: Option<i32>,
    /// Critical temperature threshold in Celsius
    pub critical_temperature: Option<i32>,
    /// Fan speed percentage (0-100)
    pub fan_speed: Option<u8>,
    /// Fan speed in RPM
    pub fan_rpm: Option<u32>,
}

/// PCIe link information
#[derive(Debug, Clone, Copy)]
pub struct PcieLinkInfo {
    /// Current PCIe generation (1-6)
    pub current_gen: Option<u8>,
    /// Maximum PCIe generation (1-6)
    pub max_gen: Option<u8>,
    /// Current link width (lanes)
    pub current_width: Option<u8>,
    /// Maximum link width (lanes)
    pub max_width: Option<u8>,
    /// Current link speed in MT/s (Megatransfers per second)
    pub current_speed: Option<u32>,
    /// Maximum link speed in MT/s
    pub max_speed: Option<u32>,
    /// TX throughput in bytes/sec
    pub tx_throughput: Option<u64>,
    /// RX throughput in bytes/sec
    pub rx_throughput: Option<u64>,
}

/// GPU hardware engine utilization
#[derive(Debug, Clone)]
pub struct GpuEngines {
    /// Graphics/3D engine utilization (0-100)
    pub graphics: Option<u8>,
    /// Compute engine utilization (0-100)
    pub compute: Option<u8>,
    /// Video encoder utilization (0-100)
    pub encoder: Option<u8>,
    /// Video decoder utilization (0-100)
    pub decoder: Option<u8>,
    /// Copy/DMA engine utilization (0-100)
    pub copy: Option<u8>,
    /// Vendor-specific engines (e.g., DLA on Jetson)
    pub vendor_specific: Vec<(String, u8)>,
}

/// Static GPU information (doesn't change during runtime)
#[derive(Debug, Clone)]
pub struct GpuStaticInfo {
    /// GPU index/ID
    pub index: usize,
    /// GPU vendor
    pub vendor: GpuVendor,
    /// GPU name/model
    pub name: String,
    /// PCI bus ID (e.g., "0000:01:00.0")
    pub pci_bus_id: Option<String>,
    /// GPU UUID (vendor-specific format)
    pub uuid: Option<String>,
    /// VBIOS version
    pub vbios_version: Option<String>,
    /// Driver version
    pub driver_version: Option<String>,
    /// Compute capability (for NVIDIA)
    pub compute_capability: Option<(u32, u32)>,
    /// CUDA cores / Shader units / Execution units
    pub shader_cores: Option<u32>,
    /// L2 cache size in bytes
    pub l2_cache: Option<u64>,
    /// Number of execution engines
    pub num_engines: Option<u32>,
    /// Is integrated GPU (shares system memory)
    pub integrated: bool,
}

/// Dynamic GPU information (updated each snapshot)
#[derive(Debug, Clone)]
pub struct GpuDynamicInfo {
    /// GPU utilization percentage (0-100)
    pub utilization: u8,
    /// Memory information
    pub memory: GpuMemory,
    /// Clock speeds
    pub clocks: GpuClocks,
    /// Power information
    pub power: GpuPower,
    /// Thermal information
    pub thermal: GpuThermal,
    /// PCIe link information
    pub pcie: PcieLinkInfo,
    /// Hardware engine utilization
    pub engines: GpuEngines,
    /// Running processes on this GPU
    pub processes: Vec<GpuProcess>,
}

/// Complete GPU information (static + dynamic)
#[derive(Debug, Clone)]
pub struct GpuInfo {
    /// Static information
    pub static_info: GpuStaticInfo,
    /// Dynamic information
    pub dynamic_info: GpuDynamicInfo,
}

impl GpuInfo {
    /// Get GPU index
    pub fn index(&self) -> (r: usize)
        ensures
            r == self.static_info.index,
    {
        self.static_info.index
    }

    /// Get GPU vendor
    pub fn vendor(&self) -> (r: GpuVendor)
        ensures
            r == self.static_info.vendor,
    {
        self.static_info.vendor
    }

    /// Get GPU name
    pub fn name(&self) -> (r: &str)
        ensures
            r@ == self.static_info.name@,
    {
        self.static_info.name.as_str()
    }

    /// Get GPU utilization
    pub fn utilization(&self) -> (r: u8)
        ensures
            r == self.dynamic_info.utilization,
    {
        self.dynamic_info.utilization
    }

    /// Get GPU temperature
    pub fn temperature(&self) -> (r: Option<i32>)
        ensures
            r == self.dynamic_info.thermal.temperature,
    {
        self.dynamic_info.thermal.temperature
    }

    /// Get memory usage percentage
    pub fn memory_utilization(&self) -> (r: u8)
        ensures
            r == self.dynamic_info.memory.utilization,
    {
        self.dynamic_info.memory.utilization
    }

    /// Get number of running processes
    pub fn num_processes(&self) -> (r: usize)
        ensures
            r == self.dynamic_info.processes@.len(),
    {
        self.dynamic_info.processes.len()
    }
}

/// No link information.
pub fn no_pcie_link() -> (p: PcieLinkInfo)
    ensures
        p.current_gen is None && p.max_gen is None && p.current_width is None && p.max_width is None
            && p.current_speed is None && p.max_speed is None && p.tx_throughput is None
            && p.rx_throughput is None,
{
    PcieLinkInfo {
        current_gen: None,
        max_gen: None,
        current_width: None,
        max_width: None,
        current_speed: None,
        max_speed: None,
        tx_throughput: None,
        rx_throughput: None,
    }
}

/// A signal the library sends to a process.
#[derive(Debug, Clone, Copy, PartialEq, Eq, Structural)]
pub enum SignalKind {
    /// `SIGTERM`: ask the process to terminate
    Term,
}

/// `nix::sys::signal::kill(Pid::from_raw(pid), signal)`, the signal being
/// nix's `Signal` of the same name as `sig`: asks `kill(2)` to deliver it to
/// the process (or, for 0 and negative values, the process group or every
/// process, as `kill(2)` defines). Whether it succeeds depends on the
/// system, so nothing is stated of the result.
#[verifier::external_body]
fn send_signal(pid: i32, sig: SignalKind) -> Result<(), nix::errno::Errno> {
    let signal = match sig {
        SignalKind::Term => nix::sys::signal::Signal::SIGTERM,
    };
    nix::sys::signal::kill(nix::unistd::Pid::from_raw(pid), signal)
}

/// What killing the process `pid` asks of the system: the PID taken as an
/// `i32` (its bits kept), and `SIGTERM`.
pub fn kill_request(pid: u32) -> (r: (i32, SignalKind))
    ensures
        r.0 == pid as i32,
        r.1 == SignalKind::Term,
{
    #[verifier::truncate]
    let raw = pid as i32;
    (raw, SignalKind::Term)
}

/// Kill a process by PID: the signal and target `kill_request` gives are
/// handed to `kill(2)`; a refusal is a `ProcessError` whose message starts
/// with `Failed to kill process {pid}: ` and gives the system's reason.
pub fn kill_process(pid: u32) -> (r: Result<(), crate::error::Error>)
    ensures
        r matches Err(e) ==> (e matches crate::error::Error::ProcessError(m) && starts_with(
            m@,
            "Failed to kill process "@ + dec(pid as nat) + ": "@,
        )),
{
    let (target, signal) = kill_request(pid);
    match send_signal(target, signal) {
        Ok(()) => Ok(()),
        Err(e) => {
            let mut m: Vec<char> = Vec::new();
            extend_str(&mut m, "Failed to kill process ");
            push_dec(&mut m, pid as u64);
            extend_str(&mut m, ": ");
            let n = m.len();
            let ghost prefix = m@;
            let t = crate::error::errno_text(&e);
            extend_str(&mut m, t.as_str());
            assert(m@.subrange(0, n as int) =~= prefix);
            Err(crate::error::Error::ProcessError(string_of(m)))
        },
    }
}

/// Whether a lower-case NVIDIA GPU name is that of a Jetson (integrated)
/// part.
pub open spec fn is_jetson_name(l: Seq<char>) -> bool {
    contains(l, "tegra"@) || contains(l, "orin"@) || contains(l, "xavier"@) || contains(
        l,
        "nano"@,
    ) || contains(l, "tx1"@) || contains(l, "tx2"@) || contains(l, "agx"@) || contains(
        l,
        "gv11b"@,
    ) || contains(l, "gp10b"@) || contains(l, "ga10b"@)
}

fn has(s: &Vec<char>, p: &str) -> (b: bool)
    ensures
        b == contains(s@, p@),
{
    contains_exec(s, &chars_of(p))
}

/// Whether an NVIDIA GPU is a Jetson: by its name in lower case when the
/// driver gives one, else by its lack of PCI information.
pub fn is_jetson_device(name: Option<&str>, has_pci_info: bool) -> (b: bool)
    ensures
        b == (match name {
            Some(n) => is_jetson_name(lowercase(n@)),
            None => !has_pci_info,
        }),
        name matches Some(n) ==> (is_ascii_seq(n@) ==> b == is_jetson_name(
            n@.map_values(|c: char| ascii_lower(c)),
        )),
{
    match name {
        Some(n) => {
            let lower = to_lower(n);
            let l = chars_of(lower.as_str());
            has(&l, "tegra") || has(&l, "orin") || has(&l, "xavier") || has(&l, "nano") || has(
                &l,
                "tx1",
            ) || has(&l, "tx2") || has(&l, "agx") || has(&l, "gv11b") || has(&l, "gp10b") || has(
                &l,
                "ga10b",
            )
        },
        None => !has_pci_info,
    }
}

} // verus!
