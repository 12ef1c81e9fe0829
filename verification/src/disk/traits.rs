//! Types shared by the disk back ends.
use vstd::prelude::*;

pub mod smart_ids;

verus! {

/// Disk type classification
#[derive(Debug, Clone, Copy, PartialEq, Eq, Hash, Structural)]
pub enum DiskType {
    /// NVMe SSD
    NvmeSsd,
    /// SATA SSD
    SataSsd,
    /// SATA HDD
    SataHdd,
    /// SCSI device
    Scsi,
    /// USB-attached storage
    Usb,
    /// Virtual disk (VM, cloud)
    Virtual,
    /// Unknown type
    Unknown,
}

/// Static disk information
#[derive(Debug, Clone)]
pub struct DiskInfo {
    /// Device name
    pub name: String,
    /// Device model
    pub model: String,
    /// Serial number
    pub serial: Option<String>,
    /// Firmware version
    pub firmware: Option<String>,
    /// Total capacity in bytes
    pub capacity: u64,
    /// Block size in bytes
    pub block_size: u32,
    /// Disk type
    pub disk_type: DiskType,
    /// Physical sector size in bytes
    pub physical_sector_size: Option<u32>,
    /// Logical sector size in bytes
    pub logical_sector_size: Option<u32>,
    /// Rotation speed (RPM) for HDDs
    pub rotation_rate: Option<u32>,
    /// Vendor
    pub vendor: Option<String>,
}

/// I/O Statistics
#[derive(Debug, Clone, Copy)]
pub struct DiskIoStats {
    /// Total bytes read since boot
    pub read_bytes: u64,
    /// Total bytes written since boot
    pub write_bytes: u64,
    /// Total read operations
    pub read_ops: u64,
    /// Total write operations
    pub write_ops: u64,
    /// Time spent reading (milliseconds)
    pub read_time_ms: Option<u64>,
    /// Time spent writing (milliseconds)
    pub write_time_ms: Option<u64>,
    /// Current queue depth
    pub queue_depth: Option<u32>,
    /// Average I/O latency (microseconds), as the bit pattern of an `f64`
    pub avg_latency_us: Option<u64>,
    /// Read throughput (bytes/sec) - calculated from recent samples
    pub read_throughput: Option<u64>,
    /// Write throughput (bytes/sec) - calculated from recent samples
    pub write_throughput: Option<u64>,
}

impl DiskIoStats {
    /// Calculate IOPS (operations per second) - requires delta calculation
    pub fn total_ops(&self) -> (r: u64)
        requires
            self.read_ops + self.write_ops <= u64::MAX,
        ensures
            r == self.read_ops + self.write_ops,
    {
        self.read_ops + self.write_ops
    }

    /// Calculate total bytes transferred
    pub fn total_bytes(&self) -> (r: u64)
        requires
            self.read_bytes + self.write_bytes <= u64::MAX,
        ensures
            r == self.read_bytes + self.write_bytes,
    {
        self.read_bytes + self.write_bytes
    }
}

/// Individual SMART attribute
#[derive(Debug, Clone)]
pub struct SmartAttribute {
    /// Attribute ID
    pub id: u8,
    /// Attribute name
    pub name: String,
    /// Current value (0-255)
    pub value: u8,
    /// Worst value seen (0-255)
    pub worst: u8,
    /// Threshold value
    pub threshold: u8,
    /// Raw value (interpretation varies by attribute)
    pub raw_value: u64,
    /// Whether this attribute is critical
    pub critical: bool,
}

/// Filesystem information
#[derive(Debug, Clone)]
pub struct FilesystemInfo {
    /// Mount point
    pub mount_point: String,
    /// Filesystem type (ext4, ntfs, apfs, etc.)
    pub fs_type: String,
    /// Total size in bytes
    pub total_size: u64,
    /// Used space in bytes
    pub used_size: u64,
    /// Available space in bytes
    pub available_size: u64,
    /// Total inodes (Unix-like systems)
    pub total_inodes: Option<u64>,
    /// Used inodes
    pub used_inodes: Option<u64>,
    /// Read-only flag
    pub read_only: bool,
}

/// Overall disk health status
#[derive(Debug, Clone, Copy, PartialEq, Eq, Structural)]
pub enum DiskHealth {
    /// Healthy, no issues detected
    Healthy,
    /// Warning - some metrics are concerning
    Warning,
    /// Critical - imminent failure likely
    Critical,
    /// Failed - disk has failed
    Failed,
    /// Unknown - cannot determine health
    Unknown,
}

/// Per-process disk I/O statistics
#[derive(Debug, Clone, Copy)]
pub struct ProcessDiskIo {
    /// Process ID
    pub pid: u32,
    /// Bytes read
    pub read_bytes: u64,
    /// Bytes written
    pub write_bytes: u64,
    /// Read syscalls
    pub read_syscalls: u64,
    /// Write syscalls
    pub write_syscalls: u64,
    /// Cancelled write bytes (Linux)
    pub cancelled_write_bytes: Option<u64>,
}

/// Errors of the disk back ends.
#[derive(Debug)]
pub enum Error {
    /// Operation not supported on this device
    NotSupported,
    /// No disk devices found
    NoDevicesFound,
    /// Device not found
    NotFound,
    /// Device initialization failed
    InitializationFailed(String),
    /// Failed to query device
    QueryFailed(String),
    /// Insufficient permissions
    PermissionDenied(String),
    /// I/O error
    IoError(std::io::Error),
    /// Parse error
    ParseError(String),
    /// Unknown error
    Unknown(String),
}

} // verus!
