//! Memory and swap state: pressure levels, swap devices, compressed RAM,
//! a health score, and the text that describes sizes.
use vstd::prelude::*;

pub mod procfs;

use crate::num::{dec, f64_of, f64_of_exec, push_dec, round_div_even, round_div_even_exec};
use crate::text::{extend_str, string_of};

verus! {

/// Memory pressure level classification
#[derive(Debug, Clone, Copy, PartialEq, Eq, Structural)]
pub enum MemoryPressure {
    /// Memory is plentiful, system is healthy
    Low,
    /// Memory usage is moderate, might need attention
    Medium,
    /// Memory is under pressure, consider freeing resources
    High,
    /// Critical memory pressure, system may become unstable
    Critical,
}

/// The pressure level of `used` out of `total`: below 60% low, below 80%
/// medium, below 95% high, critical above; an empty total counts as 0%.
pub open spec fn pressure_of(used: nat, total: nat) -> MemoryPressure {
    if total == 0 || used * 100 < 60 * total {
        MemoryPressure::Low
    } else if used * 100 < 80 * total {
        MemoryPressure::Medium
    } else if used * 100 < 95 * total {
        MemoryPressure::High
    } else {
        MemoryPressure::Critical
    }
}

/// How severe a pressure level is (0 for low up to 3 for critical).
pub open spec fn pressure_rank(p: MemoryPressure) -> nat {
    match p {
        MemoryPressure::Low => 0,
        MemoryPressure::Medium => 1,
        MemoryPressure::High => 2,
        MemoryPressure::Critical => 3,
    }
}

pub open spec fn pressure_description(p: MemoryPressure) -> Seq<char> {
    match p {
        MemoryPressure::Low => "Memory pressure is low, system is healthy"@,
        MemoryPressure::Medium => "Memory usage is moderate"@,
        MemoryPressure::High => "High memory pressure, consider freeing resources"@,
        MemoryPressure::Critical => "Critical memory pressure, system may become unstable"@,
    }
}

pub open spec fn pressure_emoji(p: MemoryPressure) -> Seq<char> {
    match p {
        MemoryPressure::Low => "\u{1F7E2}"@,
        MemoryPressure::Medium => "\u{1F7E1}"@,
        MemoryPressure::High => "\u{1F7E0}"@,
        MemoryPressure::Critical => "\u{1F534}"@,
    }
}

impl MemoryPressure {
    /// The pressure level of `used` bytes out of `total`.
    pub fn from_ratio(used: u64, total: u64) -> (p: MemoryPressure)
        ensures
            p == pressure_of(used as nat, total as nat),
    {
        let u = used as u128 * 100;
        let t = total as u128;
        if total == 0 || u < 60 * t {
            MemoryPressure::Low
        } else if u < 80 * t {
            MemoryPressure::Medium
        } else if u < 95 * t {
            MemoryPressure::High
        } else {
            MemoryPressure::Critical
        }
    }

    /// Get a human-readable description
    pub fn description(&self) -> (s: &'static str)
        ensures
            s@ == pressure_description(*self),
    {
        match self {
            MemoryPressure::Low => "Memory pressure is low, system is healthy",
            MemoryPressure::Medium => "Memory usage is moderate",
            MemoryPressure::High => "High memory pressure, consider freeing resources",
            MemoryPressure::Critical => "Critical memory pressure, system may become unstable",
        }
    }

    /// Get emoji representation
    pub fn emoji(&self) -> (s: &'static str)
        ensures
            s@ == pressure_emoji(*self),
    {
        match self {
            MemoryPressure::Low => "\u{1F7E2}",
            MemoryPressure::Medium => "\u{1F7E1}",
            MemoryPressure::High => "\u{1F7E0}",
            MemoryPressure::Critical => "\u{1F534}",
        }
    }
}

/// Swap type classification
#[derive(Debug, Clone, Copy, PartialEq, Eq, Structural)]
pub enum SwapType {
    /// File-based swap (swapfile)
    File,
    /// Partition-based swap
    Partition,
    /// Compressed RAM (zram/zswap)
    Zram,
    /// Unknown swap type
    Unknown,
}

pub open spec fn swap_type_label(t: SwapType) -> Seq<char> {
    match t {
        SwapType::File => "File"@,
        SwapType::Partition => "Partition"@,
        SwapType::Zram => "ZRAM"@,
        SwapType::Unknown => "Unknown"@,
    }
}

impl SwapType {
    /// The name under which the swap type is shown.
    pub fn label(&self) -> (s: &'static str)
        ensures
            s@ == swap_type_label(*self),
    {
        match self {
            SwapType::File => "File",
            SwapType::Partition => "Partition",
            SwapType::Zram => "ZRAM",
            SwapType::Unknown => "Unknown",
        }
    }
}

/// Information about a swap device/file
#[derive(Debug, Clone)]
pub struct SwapDevice {
    /// Path to swap device/file
    pub path: String,
    /// Type of swap
    pub swap_type: SwapType,
    /// Total size in bytes
    pub total_bytes: u64,
    /// Used size in bytes
    pub used_bytes: u64,
    /// Priority (higher = preferred)
    pub priority: i32,
    /// Whether the swap is currently active
    pub active: bool,
}

pub open spec fn kib() -> nat {
    1024
}

pub open spec fn mib() -> nat {
    1048576
}

pub open spec fn gib() -> nat {
    1073741824
}

/// `x` tenths written with one decimal place: `"{}.{}"`.
pub open spec fn one_decimal(tenths: nat) -> Seq<char> {
    dec(tenths / 10) + seq!['.'] + dec(tenths % 10)
}

/// `format!("{:.1}", b as f64 / unit as f64)` for a power-of-two `unit`:
/// the value of `b as f64` divided by `unit`, rounded to tenths with ties
/// to even.
pub open spec fn scaled_one_decimal(b: nat, unit: nat) -> Seq<char> {
    one_decimal(round_div_even(10 * f64_of(b), unit))
}

/// The human-readable size: whole bytes below 1 KB, otherwise KB, MB or GB
/// (units of 1024) with one decimal place.
pub open spec fn size_text(bytes: nat) -> Seq<char> {
    if bytes >= gib() {
        scaled_one_decimal(bytes, gib()) + " GB"@
    } else if bytes >= mib() {
        scaled_one_decimal(bytes, mib()) + " MB"@
    } else if bytes >= kib() {
        scaled_one_decimal(bytes, kib()) + " KB"@
    } else {
        dec(bytes) + " B"@
    }
}

fn push_scaled(v: &mut Vec<char>, bytes: u64, unit: u64)
    requires
        unit == 1024 || unit == 1048576 || unit == 1073741824,
    ensures
        final(v)@ == old(v)@ + scaled_one_decimal(bytes as nat, unit as nat),
{
    let f = f64_of_exec(bytes);
    let q = round_div_even_exec(10 * f, unit as u128);
    proof {
        let ghost n: int = 10 * f;
        let ghost d: int = unit as int;
        assert(q <= n / d + 1) by (nonlinear_arith)
            requires
                q == round_div_even(n as nat, d as nat),
                d >= 1,
                n >= 0,
        ;
        assert(n / d <= n) by (nonlinear_arith)
            requires
                d >= 1,
                n >= 0,
        ;
    }
    push_dec(v, (q / 10) as u64);
    v.push('.');
    push_dec(v, (q % 10) as u64);
    assert(v@ =~= old(v)@ + scaled_one_decimal(bytes as nat, unit as nat));
}

impl SwapDevice {
    /// Get available bytes
    pub fn available_bytes(&self) -> (r: u64)
        ensures
            r == (if self.used_bytes <= self.total_bytes {
                self.total_bytes - self.used_bytes
            } else {
                0
            }),
    {
        self.total_bytes.saturating_sub(self.used_bytes)
    }

    /// Format size for display
    pub fn format_size(bytes: u64) -> (s: String)
        ensures
            s@ == size_text(bytes as nat),
    {
        let mut v: Vec<char> = Vec::new();
        if bytes >= 1073741824 {
            push_scaled(&mut v, bytes, 1073741824);
            extend_str(&mut v, " GB");
        } else if bytes >= 1048576 {
            push_scaled(&mut v, bytes, 1048576);
            extend_str(&mut v, " MB");
        } else if bytes >= 1024 {
            push_scaled(&mut v, bytes, 1024);
            extend_str(&mut v, " KB");
        } else {
            push_dec(&mut v, bytes);
            extend_str(&mut v, " B");
        }
        assert(v@ =~= size_text(bytes as nat));
        string_of(v)
    }
}

/// Format bytes as human-readable string
pub fn format_bytes(bytes: u64) -> (s: String)
    ensures
        s@ == size_text(bytes as nat),
{
    SwapDevice::format_size(bytes)
}

/// ZRAM (compressed RAM) information
#[derive(Debug, Clone)]
pub struct ZramInfo {
    /// Device name (e.g., zram0)
    pub device: String,
    /// Total disksize in bytes
    pub disksize: u64,
    /// Compressed data size
    pub compressed_bytes: u64,
    /// Original (uncompressed) data size
    pub original_bytes: u64,
    /// Memory used for compressed storage
    pub mem_used_bytes: u64,
    /// Compression algorithm
    pub algorithm: String,
    /// Number of streams
    pub streams: u32,
}

impl ZramInfo {
    /// Calculate memory savings from compression
    pub fn memory_savings(&self) -> (r: u64)
        ensures
            r == (if self.mem_used_bytes <= self.original_bytes {
                self.original_bytes - self.mem_used_bytes
            } else {
                0
            }),
    {
        self.original_bytes.saturating_sub(self.mem_used_bytes)
    }
}

/// Detailed memory information
#[derive(Debug, Clone, Copy)]
pub struct MemoryInfo {
    /// Total physical RAM in bytes
    pub total: u64,
    /// Available memory in bytes (includes cached)
    pub available: u64,
    /// Free memory in bytes (not counting cached)
    pub free: u64,
    /// Used memory in bytes
    pub used: u64,
    /// Cached memory in bytes
    pub cached: u64,
    /// Buffer memory in bytes
    pub buffers: u64,
    /// Shared memory in bytes
    pub shared: u64,
    /// Slab reclaimable memory (Linux)
    pub slab_reclaimable: u64,
    /// Active memory
    pub active: u64,
    /// Inactive memory
    pub inactive: u64,
    /// Dirty pages awaiting write
    pub dirty: u64,
    /// Memory currently being written back
    pub writeback: u64,
    /// Mapped memory (memory-mapped files)
    pub mapped: u64,
    /// Memory locked in RAM
    pub mlocked: u64,
    /// Huge pages total
    pub hugepages_total: u64,
    /// Huge pages free
    pub hugepages_free: u64,
    /// Huge page size
    pub hugepage_size: u64,
}

impl MemoryInfo {
    /// A record with every quantity zero.
    pub fn zeroed() -> (m: MemoryInfo)
        ensures
            m.total == 0 && m.available == 0 && m.free == 0 && m.used == 0 && m.cached == 0
                && m.buffers == 0 && m.shared == 0 && m.slab_reclaimable == 0 && m.active == 0
                && m.inactive == 0 && m.dirty == 0 && m.writeback == 0 && m.mapped == 0
                && m.mlocked == 0 && m.hugepages_total == 0 && m.hugepages_free == 0
                && m.hugepage_size == 0,
    {
        MemoryInfo {
            total: 0,
            available: 0,
            free: 0,
            used: 0,
            cached: 0,
            buffers: 0,
            shared: 0,
            slab_reclaimable: 0,
            active: 0,
            inactive: 0,
            dirty: 0,
            writeback: 0,
            mapped: 0,
            mlocked: 0,
            hugepages_total: 0,
            hugepages_free: 0,
            hugepage_size: 0,
        }
    }

    /// Get memory pressure level
    pub fn pressure(&self) -> (p: MemoryPressure)
        ensures
            p == pressure_of(self.used as nat, self.total as nat),
    {
        MemoryPressure::from_ratio(self.used, self.total)
    }

    /// Get effective available memory (includes reclaimable)
    pub fn effective_available(&self) -> (r: u64)
        requires
            self.available + self.slab_reclaimable <= u64::MAX,
        ensures
            r == self.available + self.slab_reclaimable,
    {
        self.available + self.slab_reclaimable
    }
}

/// Total swap information
#[derive(Debug, Clone)]
pub struct SwapInfo {
    /// Total swap size in bytes
    pub total: u64,
    /// Used swap in bytes
    pub used: u64,
    /// Free swap in bytes
    pub free: u64,
    /// List of swap devices
    pub devices: Vec<SwapDevice>,
    /// ZRAM information if available
    pub zram: Option<ZramInfo>,
}

impl SwapInfo {
    /// Check if swap is configured
    pub fn has_swap(&self) -> (b: bool)
        ensures
            b == (self.total > 0),
    {
        self.total > 0
    }

    /// Check if ZRAM is configured
    pub fn has_zram(&self) -> (b: bool)
        ensures
            b == self.zram.is_some(),
    {
        self.zram.is_some()
    }
}

/// Memory statistics over time
#[derive(Debug, Clone, Copy, Default)]
pub struct MemoryStats {
    /// Page faults (minor)
    pub page_faults_minor: u64,
    /// Page faults (major - required disk IO)
    pub page_faults_major: u64,
    /// Pages swapped in
    pub swap_in: u64,
    /// Pages swapped out
    pub swap_out: u64,
    /// Pages allocated
    pub pages_allocated: u64,
    /// Pages freed
    pub pages_freed: u64,
    /// OOM killer invocations
    pub oom_kills: u64,
}

/// Memory state gathered for management: RAM, swap, counters and the
/// `vm.*` settings read, in the order they were read.
#[derive(Debug, Clone)]
pub struct MemoryMonitor {
    /// Memory information
    pub memory: MemoryInfo,
    /// Swap information
    pub swap: SwapInfo,
    /// Memory statistics
    pub stats: MemoryStats,
    /// VM settings (name, value)
    pub vm_settings: Vec<(String, String)>,
}

/// The part of the health score that memory pressure contributes.
pub open spec fn memory_score(p: MemoryPressure) -> nat {
    match p {
        MemoryPressure::Low => 50,
        MemoryPressure::Medium => 35,
        MemoryPressure::High => 20,
        MemoryPressure::Critical => 5,
    }
}

/// The part of the health score that swap contributes: neutral without swap,
/// else by swap pressure.
pub open spec fn swap_score(used: nat, total: nat) -> nat {
    if total == 0 {
        25
    } else {
        match pressure_of(used, total) {
            MemoryPressure::Low => 25,
            MemoryPressure::Medium => 20,
            MemoryPressure::High => 10,
            MemoryPressure::Critical => 0,
        }
    }
}

/// The bonus for compressed RAM: 10 above a 2:1 ratio, 5 above 3:2.
pub open spec fn zram_bonus(z: Option<ZramInfo>) -> nat {
    match z {
        Some(z) => if z.compressed_bytes > 0 && z.original_bytes > 2 * z.compressed_bytes {
            10
        } else if z.compressed_bytes > 0 && 2 * z.original_bytes > 3 * z.compressed_bytes {
            5
        } else {
            0
        },
        None => 0,
    }
}

/// The memory health score (at most 100).
pub open spec fn health_score_of(m: MemoryMonitor) -> nat {
    let s = memory_score(pressure_of(m.memory.used as nat, m.memory.total as nat)) + swap_score(
        m.swap.used as nat,
        m.swap.total as nat,
    ) + zram_bonus(m.swap.zram);
    if s < 100 {
        s
    } else {
        100
    }
}

impl MemoryMonitor {
    /// Get memory pressure level
    pub fn pressure(&self) -> (p: MemoryPressure)
        ensures
            p == pressure_of(self.memory.used as nat, self.memory.total as nat),
    {
        self.memory.pressure()
    }

    /// Check if swap is being heavily used
    pub fn swap_pressure(&self) -> (p: MemoryPressure)
        ensures
            p == pressure_of(self.swap.used as nat, self.swap.total as nat),
    {
        MemoryPressure::from_ratio(self.swap.used, self.swap.total)
    }

    /// Get system health based on memory and swap
    pub fn health_score(&self) -> (r: u32)
        ensures
            r == health_score_of(*self),
    {
        let mem_score: u32 = match self.pressure() {
            MemoryPressure::Low => 50,
            MemoryPressure::Medium => 35,
            MemoryPressure::High => 20,
            MemoryPressure::Critical => 5,
        };
        let swap_score: u32 = if !self.swap.has_swap() {
            25
        } else {
            match self.swap_pressure() {
                MemoryPressure::Low => 25,
                MemoryPressure::Medium => 20,
                MemoryPressure::High => 10,
                MemoryPressure::Critical => 0,
            }
        };
        let zram_bonus: u32 = match &self.swap.zram {
            Some(zram) => {
                let c = zram.compressed_bytes as u128;
                let o = zram.original_bytes as u128;
                if c > 0 && o > 2 * c {
                    10
                } else if c > 0 && 2 * o > 3 * c {
                    5
                } else {
                    0
                }
            },
            None => 0,
        };
        let s = mem_score + swap_score + zram_bonus;
        if s < 100 {
            s
        } else {
            100
        }
    }
}

// ---------------------------------------------------------------------------
// Laws
// ---------------------------------------------------------------------------
/// The memory health score always lies between 5 and 85.
pub proof fn lemma_health_score_bounds(m: MemoryMonitor)
    ensures
        5 <= health_score_of(m) <= 85,
{
}

/// More memory in use (out of the same total) never means a lower pressure
/// level.
pub proof fn lemma_pressure_monotone(used1: nat, used2: nat, total: nat)
    requires
        used1 <= used2,
    ensures
        pressure_rank(pressure_of(used1, total)) <= pressure_rank(pressure_of(used2, total)),
{
}

/// A higher memory pressure never raises the memory health score.
pub proof fn lemma_health_score_antitone(m1: MemoryMonitor, m2: MemoryMonitor)
    requires
        m1.swap.used == m2.swap.used,
        m1.swap.total == m2.swap.total,
        m1.swap.zram == m2.swap.zram,
        pressure_rank(pressure_of(m1.memory.used as nat, m1.memory.total as nat)) <= pressure_rank(
            pressure_of(m2.memory.used as nat, m2.memory.total as nat),
        ),
    ensures
        health_score_of(m2) <= health_score_of(m1),
{
}

/// A higher swap pressure (with the same memory and compressed RAM)
/// lowers the memory health score, strictly: each level of swap pressure
/// costs points, and critical swap pressure scores 25 less than none.
pub proof fn lemma_health_score_antitone_in_swap(m1: MemoryMonitor, m2: MemoryMonitor)
    requires
        m1.memory.used == m2.memory.used,
        m1.memory.total == m2.memory.total,
        m1.swap.zram == m2.swap.zram,
    ensures
        pressure_rank(pressure_of(m1.swap.used as nat, m1.swap.total as nat)) < pressure_rank(
            pressure_of(m2.swap.used as nat, m2.swap.total as nat),
        ) ==> health_score_of(m2) < health_score_of(m1),
        pressure_rank(pressure_of(m1.swap.used as nat, m1.swap.total as nat)) == pressure_rank(
            pressure_of(m2.swap.used as nat, m2.swap.total as nat),
        ) ==> health_score_of(m2) == health_score_of(m1),
        pressure_of(m1.swap.used as nat, m1.swap.total as nat) == MemoryPressure::Low
            && pressure_of(m2.swap.used as nat, m2.swap.total as nat) == MemoryPressure::Critical
            ==> health_score_of(m2) + 25 == health_score_of(m1),
{
}

/// A higher memory pressure (with the same swap and compressed RAM)
/// strictly lowers the memory health score.
pub proof fn lemma_health_score_strictly_antitone(m1: MemoryMonitor, m2: MemoryMonitor)
    requires
        m1.swap.used == m2.swap.used,
        m1.swap.total == m2.swap.total,
        m1.swap.zram == m2.swap.zram,
        pressure_rank(pressure_of(m1.memory.used as nat, m1.memory.total as nat)) < pressure_rank(
            pressure_of(m2.memory.used as nat, m2.memory.total as nat),
        ),
    ensures
        health_score_of(m2) < health_score_of(m1),
{
}

/// Without swap the score is that of unpressured swap: a machine without
/// swap scores as one whose swap is barely used.
pub proof fn lemma_no_swap_scores_as_low_pressure(m1: MemoryMonitor, m2: MemoryMonitor)
    requires
        m1.memory.used == m2.memory.used,
        m1.memory.total == m2.memory.total,
        m1.swap.zram == m2.swap.zram,
        m1.swap.total == 0,
        pressure_of(m2.swap.used as nat, m2.swap.total as nat) == MemoryPressure::Low,
    ensures
        health_score_of(m1) == health_score_of(m2),
{
}

/// The pressure levels by share of use: below 60% low, from 60% medium,
/// from 80% high, from 95% critical; nothing in use of nothing is low.
pub proof fn lemma_pressure_thresholds(used: nat, total: nat)
    ensures
        total == 0 ==> pressure_of(used, total) == MemoryPressure::Low,
        total > 0 && used * 100 < total * 60 ==> pressure_of(used, total) == MemoryPressure::Low,
        total > 0 && total * 60 <= used * 100 < total * 80 ==> pressure_of(used, total)
            == MemoryPressure::Medium,
        total > 0 && total * 80 <= used * 100 < total * 95 ==> pressure_of(used, total)
            == MemoryPressure::High,
        total > 0 && total * 95 <= used * 100 ==> pressure_of(used, total)
            == MemoryPressure::Critical,
        used == 0 ==> pressure_of(used, total) == MemoryPressure::Low,
        total > 0 && used >= total ==> pressure_of(used, total) == MemoryPressure::Critical,
{
}

/// Compressed RAM earns a bonus by its compression ratio: 10 points when
/// it holds more than twice what it takes, 5 when more than one and a half
/// times, nothing otherwise (or when it holds nothing compressed); and the
/// score of a machine is the score without compressed RAM plus that bonus,
/// as long as it stays within 100.
pub proof fn lemma_zram_bonus(m: MemoryMonitor, z: ZramInfo)
    ensures
        z.compressed_bytes > 0 && z.original_bytes > 2 * z.compressed_bytes ==> zram_bonus(Some(z))
            == 10,
        z.compressed_bytes > 0 && 2 * z.original_bytes > 3 * z.compressed_bytes
            && z.original_bytes <= 2 * z.compressed_bytes ==> zram_bonus(Some(z)) == 5,
        z.compressed_bytes == 0 || 2 * z.original_bytes <= 3 * z.compressed_bytes ==> zram_bonus(
            Some(z),
        ) == 0,
        zram_bonus(None) == 0,
        health_score_of(MemoryMonitor { swap: SwapInfo { zram: Some(z), ..m.swap }, ..m })
            == health_score_of(MemoryMonitor { swap: SwapInfo { zram: None, ..m.swap }, ..m })
            + zram_bonus(Some(z)),
{
}

/// The score's parts: 50, 35, 20 or 5 for low to critical memory pressure,
/// plus 25, 20, 10 or 0 for low to critical swap pressure (25 without
/// swap), plus the compressed-RAM bonus.
pub proof fn lemma_health_score_parts(m: MemoryMonitor)
    ensures
        m.swap.zram is None && pressure_of(m.memory.used as nat, m.memory.total as nat)
            == MemoryPressure::Low && pressure_of(m.swap.used as nat, m.swap.total as nat)
            == MemoryPressure::Low ==> health_score_of(m) == 75,
        m.swap.zram is None && pressure_of(m.memory.used as nat, m.memory.total as nat)
            == MemoryPressure::Medium && pressure_of(m.swap.used as nat, m.swap.total as nat)
            == MemoryPressure::Medium ==> health_score_of(m) == 55,
        m.swap.zram is None && pressure_of(m.memory.used as nat, m.memory.total as nat)
            == MemoryPressure::High && pressure_of(m.swap.used as nat, m.swap.total as nat)
            == MemoryPressure::High ==> health_score_of(m) == 30,
        m.swap.zram is None && pressure_of(m.memory.used as nat, m.memory.total as nat)
            == MemoryPressure::Critical && pressure_of(m.swap.used as nat, m.swap.total as nat)
            == MemoryPressure::Critical ==> health_score_of(m) == 5,
        m.swap.zram is None && pressure_of(m.memory.used as nat, m.memory.total as nat)
            == MemoryPressure::Low && pressure_of(m.swap.used as nat, m.swap.total as nat)
            == MemoryPressure::Critical ==> health_score_of(m) == 50,
{
}

/// Sizes are written in the largest unit (of 1024) they reach: bytes below
/// 1024, kilobytes below 1024 KB, megabytes below 1024 MB, gigabytes from
/// there on, each unit with one decimal place.
pub proof fn lemma_size_text_units(bytes: nat)
    ensures
        bytes < 1024 ==> size_text(bytes) == dec(bytes) + " B"@,
        1024 <= bytes < 1024 * 1024 ==> size_text(bytes) == scaled_one_decimal(bytes, 1024)
            + " KB"@,
        1024 * 1024 <= bytes < 1024 * 1024 * 1024 ==> size_text(bytes) == scaled_one_decimal(
            bytes,
            1024 * 1024,
        ) + " MB"@,
        1024 * 1024 * 1024 <= bytes ==> size_text(bytes) == scaled_one_decimal(
            bytes,
            1024 * 1024 * 1024,
        ) + " GB"@,
{
}

} // verus!