use vstd::prelude::*;

pub mod disk;
pub mod error;
pub mod fan_control;
pub mod gpu;
pub mod gui;
pub mod health;
pub mod hwmon;
pub mod memory_management;
pub mod num;
pub mod pci;
pub mod sysfs;
pub mod text;

verus! {

} // verus!
