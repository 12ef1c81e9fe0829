//! SMART attribute IDs (common across vendors)
use vstd::prelude::*;

verus! {

/// Raw read error rate
pub const READ_ERROR_RATE: u8 = 0x01;

/// Throughput performance
pub const THROUGHPUT_PERFORMANCE: u8 = 0x02;

/// Spin-up time
pub const SPIN_UP_TIME: u8 = 0x03;

/// Start/Stop count
pub const START_STOP_COUNT: u8 = 0x04;

/// Reallocated sectors count
pub const REALLOCATED_SECTORS: u8 = 0x05;

/// Seek error rate
pub const SEEK_ERROR_RATE: u8 = 0x07;

/// Seek time performance
pub const SEEK_TIME_PERFORMANCE: u8 = 0x08;

/// Power-on hours
pub const POWER_ON_HOURS: u8 = 0x09;

/// Spin retry count
pub const SPIN_RETRY_COUNT: u8 = 0x0A;

/// Recalibration retries
pub const CALIBRATION_RETRY_COUNT: u8 = 0x0B;

/// Power cycle count
pub const POWER_CYCLE_COUNT: u8 = 0x0C;

/// Current pending sector count
pub const PENDING_SECTORS: u8 = 0xC5;

/// Offline uncorrectable sector count
pub const UNCORRECTABLE_SECTORS: u8 = 0xC6;

/// UltraDMA CRC error count
pub const UDMA_CRC_ERROR: u8 = 0xC7;

/// Temperature (Celsius)
pub const TEMPERATURE: u8 = 0xC2;

/// Hardware ECC recovered
pub const HARDWARE_ECC_RECOVERED: u8 = 0xC3;

/// Reallocation event count
pub const REALLOCATION_EVENTS: u8 = 0xC4;

} // verus!
