//! Hardware sensors: what a sensor measures, what hardware it belongs to,
//! and how Linux hwmon chips and their inputs are named.
use vstd::prelude::*;

pub mod linux;
pub mod smart;

verus! {

/// What a sensor measures
#[derive(Debug, Clone, Copy, PartialEq, Eq, Structural)]
pub enum HwSensorType {
    /// Temperature
    Temperature,
    /// Voltage
    Voltage,
    /// Fan speed
    Fan,
    /// Power
    Power,
    /// Clock frequency
    Clock,
    /// Load
    Load,
    /// Data amount
    Data,
    /// Small data amount
    SmallData,
    /// Throughput
    Throughput,
    /// PWM control values
    Control,
    /// Energy counters (Joules)
    Energy,
}

/// What hardware a sensor belongs to
#[derive(Debug, Clone, Copy, PartialEq, Eq, Structural)]
pub enum HwType {
    /// Processor
    Cpu,
    /// Graphics processor
    Gpu,
    /// Motherboard
    Motherboard,
    /// Storage
    Storage,
    /// Memory
    Memory,
    /// Network
    Network,
    /// Power supply
    Psu,
    /// Anything else
    Other,
}

} // verus!
