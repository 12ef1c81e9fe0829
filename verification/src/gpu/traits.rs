//! Types of the vendor-neutral GPU interface.
use vstd::prelude::*;

verus! {

/// GPU vendor
#[derive(Debug, Clone, Copy, PartialEq, Eq, Hash, Structural)]
pub enum Vendor {
    /// NVIDIA
    Nvidia,
    /// AMD
    Amd,
    /// Intel
    Intel,
    /// Apple
    Apple,
}

pub open spec fn vendor_label(v: Vendor) -> Seq<char> {
    match v {
        Vendor::Nvidia => "NVIDIA"@,
        Vendor::Amd => "AMD"@,
        Vendor::Intel => "Intel"@,
        Vendor::Apple => "Apple"@,
    }
}

impl Vendor {
    /// The vendor's name as shown.
    pub fn label(&self) -> (s: &'static str)
        ensures
            s@ == vendor_label(*self),
    {
        match self {
            Vendor::Nvidia => "NVIDIA",
            Vendor::Amd => "AMD",
            Vendor::Intel => "Intel",
            Vendor::Apple => "Apple",
        }
    }
}

/// PCI information of a device
#[derive(Debug, Clone)]
pub struct PciInfo {
    /// PCI domain
    pub domain: u32,
    /// PCI bus
    pub bus: u8,
    /// PCI device
    pub device: u8,
    /// PCI function
    pub function: u8,
    /// Bus ID string, `"0000:01:00.0"`
    pub bus_id: String,
    /// PCIe generation
    pub pcie_generation: Option<u32>,
    /// PCIe link width
    pub pcie_link_width: Option<u32>,
}

/// Temperature status
#[derive(Debug, Clone, Copy, PartialEq, Eq, Structural)]
pub enum TemperatureStatus {
    /// Below all thresholds
    Normal,
    /// At or above the slowdown threshold
    Throttling,
    /// At or above the shutdown threshold
    Shutdown,
    /// At or above the critical threshold
    Critical,
    /// No reading
    Unknown,
}

pub open spec fn temperature_status_label(s: TemperatureStatus) -> Seq<char> {
    match s {
        TemperatureStatus::Normal => "Normal"@,
        TemperatureStatus::Throttling => "Throttling"@,
        TemperatureStatus::Shutdown => "Shutdown Warning"@,
        TemperatureStatus::Critical => "CRITICAL"@,
        TemperatureStatus::Unknown => "Unknown"@,
    }
}

impl TemperatureStatus {
    /// The status as shown.
    pub fn label(&self) -> (s: &'static str)
        ensures
            s@ == temperature_status_label(*self),
    {
        match self {
            TemperatureStatus::Normal => "Normal",
            TemperatureStatus::Throttling => "Throttling",
            TemperatureStatus::Shutdown => "Shutdown Warning",
            TemperatureStatus::Critical => "CRITICAL",
            TemperatureStatus::Unknown => "Unknown",
        }
    }
}

/// Clock frequencies in MHz
#[derive(Debug, Clone, Copy)]
pub struct Clocks {
    /// Graphics clock
    pub graphics: u32,
    /// Memory clock
    pub memory: u32,
    /// SM clock
    pub sm: Option<u32>,
    /// Video clock
    pub video: Option<u32>,
}

/// Device memory in bytes
#[derive(Debug, Clone, Copy)]
pub struct Memory {
    /// Total memory
    pub total: u64,
    /// Used memory
    pub used: u64,
    /// Free memory
    pub free: u64,
    /// BAR1 total
    pub bar1_total: Option<u64>,
    /// BAR1 used
    pub bar1_used: Option<u64>,
}

/// Fan speed, as RPM or as a percentage
#[derive(Debug, Clone, Copy, PartialEq, Eq, Structural)]
pub enum FanSpeed {
    /// Revolutions per minute
    Rpm(u32),
    /// Percent of the maximum
    Percent(u32),
}

/// Kind of GPU process
#[derive(Debug, Clone, Copy, PartialEq, Eq, Structural)]
pub enum ProcessType {
    /// Compute work
    Compute,
    /// Graphics work
    Graphics,
    /// Both
    Mixed,
}

/// Compute mode of a device
#[derive(Debug, Clone, Copy, PartialEq, Eq, Structural)]
pub enum ComputeMode {
    /// Several contexts per device
    Default,
    /// One context per thread
    ExclusiveThread,
    /// No contexts
    Prohibited,
    /// One context per process
    ExclusiveProcess,
}

/// NVLink status
#[derive(Debug, Clone)]
pub struct NvLinkStatus {
    /// Link ID
    pub link_id: u32,
    /// State of the link
    pub state: LinkState,
    /// NVLink version
    pub version: u32,
    /// Remote device type
    pub remote_device_type: String,
    /// Remote PCI bus ID
    pub remote_pci_bus_id: String,
}

/// State of a link
#[derive(Debug, Clone, Copy, PartialEq, Eq, Structural)]
pub enum LinkState {
    /// Active
    Active,
    /// Inactive
    Inactive,
    /// Unknown
    Unknown,
}

/// Multi-instance GPU mode
#[derive(Debug, Clone, Copy)]
pub struct MigMode {
    /// Current mode
    pub current: bool,
    /// Pending mode (after reset)
    pub pending: bool,
}

/// ECC error counts
#[derive(Debug, Clone, Copy)]
pub struct EccErrors {
    /// Volatile single-bit errors
    pub volatile_single_bit: u64,
    /// Volatile double-bit errors
    pub volatile_double_bit: u64,
    /// Aggregate single-bit errors
    pub aggregate_single_bit: u64,
    /// Aggregate double-bit errors
    pub aggregate_double_bit: u64,
}

/// Errors of the vendor-neutral GPU interface.
#[derive(Debug)]
pub enum Error {
    /// Operation not supported on this device
    NotSupported,
    /// No GPU devices found
    NoDevicesFound,
    /// Device initialization failed
    InitializationFailed(String),
    /// Failed to query device
    QueryFailed(String),
    /// Failed to control device
    ControlFailed(String),
    /// Insufficient permissions
    PermissionDenied(String),
    /// Invalid argument
    InvalidArgument(String),
    /// NVML error
    NvmlError(nvml_wrapper::error::NvmlError),
    /// Unknown error
    Unknown(String),
}

} // verus!
