//! Storage devices: their classification and static information, I/O
//! counters, filesystems and health, with the Linux, macOS and Windows
//! readings turned into those values.
pub mod linux;
pub mod macos;
pub mod traits;
pub mod windows;
