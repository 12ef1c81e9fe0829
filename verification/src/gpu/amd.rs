//! AMD GPUs driven by `amdgpu`: naming a card from what its sysfs directory
//! holds, and the figures of its sysfs and fdinfo files.
use vstd::prelude::*;

use crate::error::Error;
use crate::gpu::{
    GpuClocks, GpuDynamicInfo, GpuEngines, GpuMemory, GpuPower, GpuStaticInfo, GpuThermal,
    GpuVendor, no_pcie_link,
};
use crate::num::{dec, parse_u64, parse_u64_chars, push_dec};
use crate::sysfs::{
    as_str_opt, read_sysfs_degrees, read_sysfs_u32, read_sysfs_u64, read_sysfs_u8, sysfs_degrees,
    sysfs_u32, sysfs_u64, sysfs_u8,
};
use crate::text::{
    ascii_lower, ascii_upper, is_ascii_seq,
    chars_of, contains, contains_exec, extend, extend_str, lines, lines_of, lowercase,
    opt_string_view, owned, starts_with, starts_with_exec, string_of, strip_prefixes,
    strip_prefixes_exec, to_lower, to_upper, trim, trim_chars, uppercase, words, words_of,
};

verus! {

/// What the sysfs `device` directory of a card holds, as read: the files
/// that could be read, and the first `hwmon` subdirectory found.
#[derive(Debug, Clone)]
pub struct AmdProbe {
    /// `product_name`
    pub product_name: Option<String>,
    /// `uevent`
    pub uevent: Option<String>,
    /// `vendor`
    pub vendor: Option<String>,
    /// `device`
    pub device: Option<String>,
    /// The first directory under `hwmon`
    pub hwmon_path: Option<String>,
}

impl Default for AmdProbe {
    fn default() -> (p: Self)
        ensures
            p.product_name is None && p.uevent is None && p.vendor is None && p.device is None
                && p.hwmon_path is None,
    {
        AmdProbe { product_name: None, uevent: None, vendor: None, device: None, hwmon_path: None }
    }
}

/// AMD GPU implementation
pub struct AmdGpu {
    index: usize,
    name: String,
    pci_bus_id: String,
    card_path: String,
    hwmon_path: Option<String>,
}

/// The first line of `ls` that starts with `PCI_ID=`, as its index, or
/// `ls.len()` when there is none.
pub open spec fn first_pci_id_line(ls: Seq<Seq<char>>) -> int
    decreases ls.len(),
{
    if ls.len() == 0 {
        0
    } else if starts_with(ls[0], "PCI_ID="@) {
        0
    } else {
        1 + first_pci_id_line(ls.skip(1))
    }
}

/// The name of a card: its trimmed `product_name` when not empty, else the
/// PCI ID of its `uevent`, else its vendor and device IDs.
pub open spec fn amd_gpu_name(p: AmdProbe) -> Option<Seq<char>> {
    let product = match p.product_name {
        Some(n) => trim(n@),
        None => Seq::empty(),
    };
    if product.len() > 0 {
        Some(product)
    } else if p.uevent is Some && first_pci_id_line(lines(p.uevent->0@)) < lines(
        p.uevent->0@,
    ).len() {
        let l = lines(p.uevent->0@)[first_pci_id_line(lines(p.uevent->0@))];
        Some("AMD GPU ["@ + strip_prefixes(l, "PCI_ID="@) + "]"@)
    } else if p.vendor is Some && p.device is Some {
        Some("AMD GPU ["@ + trim(p.vendor->0@) + ":"@ + trim(p.device->0@) + "]"@)
    } else {
        None
    }
}

proof fn lemma_first_pci_id_line(ls: Seq<Seq<char>>, i: int)
    requires
        0 <= i <= ls.len(),
        forall|j: int| 0 <= j < i ==> !starts_with(ls[j], "PCI_ID="@),
    ensures
        first_pci_id_line(ls) == i + first_pci_id_line(ls.skip(i)),
    decreases i,
{
    if i > 0 {
        assert(!starts_with(ls[0], "PCI_ID="@));
        assert(ls.skip(1).skip(i - 1) =~= ls.skip(i));
        lemma_first_pci_id_line(ls.skip(1), i - 1);
    } else {
        assert(ls.skip(0) =~= ls);
    }
}

/// The name of a card from what its device directory holds.
pub fn read_gpu_name(p: &AmdProbe) -> (r: Option<String>)
    ensures
        opt_string_view(r) == amd_gpu_name(*p),
{
    if let Some(n) = &p.product_name {
        let c = chars_of(n.as_str());
        let t = trim_chars(&c);
        if t.len() > 0 {
            return Some(string_of(t));
        }
    }
    if let Some(u) = &p.uevent {
        let c = chars_of(u.as_str());
        let ls = lines_of(&c);
        let ghost all = lines(u@);
        let prefix = chars_of("PCI_ID=");
        let mut i: usize = 0;
        while i < ls.len()
            invariant
                i <= ls@.len(),
                ls@.len() == all.len(),
                forall|j: int| 0 <= j < ls@.len() ==> ls@[j]@ == all[j],
                prefix@ == "PCI_ID="@,
                forall|j: int| 0 <= j < i ==> !starts_with(all[j], "PCI_ID="@),
                all == lines(p.uevent->0@),
                p.uevent is Some,
                match p.product_name {
                    Some(n) => trim(n@).len() == 0,
                    None => true,
                },
            decreases ls@.len() - i,
        {
            if starts_with_exec(&ls[i], &prefix) {
                proof {
                    lemma_first_pci_id_line(all, i as int);
                    assert(all.skip(i as int)[0] == all[i as int]);
                }
                let id = strip_prefixes_exec(&ls[i], &prefix);
                let mut v: Vec<char> = Vec::new();
                extend_str(&mut v, "AMD GPU [");
                extend(&mut v, &id);
                extend_str(&mut v, "]");
                return Some(string_of(v));
            }
            i = i + 1;
        }
        proof {
            lemma_first_pci_id_line(all, i as int);
            assert(all.skip(i as int).len() == 0);
        }
    }
    if let (Some(v), Some(d)) = (&p.vendor, &p.device) {
        let vc = chars_of(v.as_str());
        let dc = chars_of(d.as_str());
        let mut out: Vec<char> = Vec::new();
        extend_str(&mut out, "AMD GPU [");
        extend(&mut out, &trim_chars(&vc));
        extend_str(&mut out, ":");
        extend(&mut out, &trim_chars(&dc));
        extend_str(&mut out, "]");
        return Some(string_of(out));
    }
    None
}

impl AmdGpu {
    pub closed spec fn spec_index(self) -> usize {
        self.index
    }

    pub closed spec fn spec_name(self) -> Seq<char> {
        self.name@
    }

    pub closed spec fn spec_pci_bus_id(self) -> Seq<char> {
        self.pci_bus_id@
    }

    pub closed spec fn spec_card_path(self) -> Seq<char> {
        self.card_path@
    }

    pub closed spec fn spec_hwmon_path(self) -> Option<Seq<char>> {
        opt_string_view(self.hwmon_path)
    }

    /// Create new AMD GPU instance from what the card's device directory
    /// holds: it is named from there, or `AMD GPU {index}` when nothing
    /// there names it.
    pub fn new(index: usize, pci_bus_id: String, card_path: String, probe: AmdProbe) -> (r: Result<
        Self,
        Error,
    >)
        ensures
            r matches Ok(g) && g.spec_index() == index && g.spec_name() == (match amd_gpu_name(
                probe,
            ) {
                Some(n) => n,
                None => "AMD GPU "@ + dec(index as nat),
            }) && g.spec_pci_bus_id() == pci_bus_id@ && g.spec_card_path() == card_path@
                && g.spec_hwmon_path() == opt_string_view(probe.hwmon_path),
    {
        let name = match read_gpu_name(&probe) {
            Some(n) => n,
            None => {
                let mut v: Vec<char> = Vec::new();
                extend_str(&mut v, "AMD GPU ");
                push_dec(&mut v, index as u64);
                string_of(v)
            },
        };
        Ok(AmdGpu { index, name, pci_bus_id, card_path, hwmon_path: probe.hwmon_path })
    }

    /// Get GPU index
    pub fn index(&self) -> (r: usize)
        ensures
            r == self.spec_index(),
    {
        self.index
    }

    /// Get GPU vendor
    pub fn vendor(&self) -> (v: GpuVendor)
        ensures
            v == GpuVendor::Amd,
    {
        GpuVendor::Amd
    }

    /// Get GPU name
    pub fn name(&self) -> (r: String)
        ensures
            r@ == self.spec_name(),
    {
        owned(self.name.as_str())
    }

    /// The hwmon directory of the card, if it has one.
    pub fn hwmon_path(&self) -> (r: Option<&str>)
        ensures
            match r {
                Some(s) => self.spec_hwmon_path() == Some(s@),
                None => self.spec_hwmon_path() is None,
            },
    {
        match &self.hwmon_path {
            Some(h) => Some(h.as_str()),
            None => None,
        }
    }

    /// Static information, given the contents of `vbios_version` and of the
    /// driver's `version` file when they could be read: the card counts as
    /// integrated when its lower-case name mentions an APU family.
    pub fn static_info(&self, vbios_version: Option<String>, driver_version: Option<String>) -> (s:
        GpuStaticInfo)
        ensures
            s.index == self.spec_index(),
            s.vendor == GpuVendor::Amd,
            s.name@ == self.spec_name(),
            opt_string_view(s.pci_bus_id) == Some(self.spec_pci_bus_id()),
            s.uuid is None,
            opt_string_view(s.vbios_version) == (match vbios_version {
                Some(v) => Some(trim(v@)),
                None => None,
            }),
            opt_string_view(s.driver_version) == (match driver_version {
                Some(v) => Some(trim(v@)),
                None => None,
            }),
            s.compute_capability is None,
            s.shader_cores is None,
            s.l2_cache is None,
            s.num_engines is None,
            s.integrated == is_apu_name(lowercase(self.spec_name())),
            is_ascii_seq(self.spec_name()) ==> s.integrated == is_apu_name(
                self.spec_name().map_values(|c: char| ascii_lower(c)),
            ),
    {
        let lower = to_lower(self.name.as_str());
        let integrated = is_apu_name_exec(lower.as_str());
        let vbios = match vbios_version {
            Some(v) => Some(string_of(trim_chars(&chars_of(v.as_str())))),
            None => None,
        };
        let driver = match driver_version {
            Some(v) => Some(string_of(trim_chars(&chars_of(v.as_str())))),
            None => None,
        };
        GpuStaticInfo {
            index: self.index,
            vendor: GpuVendor::Amd,
            name: owned(self.name.as_str()),
            pci_bus_id: Some(owned(self.pci_bus_id.as_str())),
            uuid: None,
            vbios_version: vbios,
            driver_version: driver,
            compute_capability: None,
            shader_cores: None,
            l2_cache: None,
            num_engines: None,
            integrated,
        }
    }
}

/// A lower-case card name that names an integrated (APU) part.
pub open spec fn is_apu_name(l: Seq<char>) -> bool {
    contains(l, "vega"@) || contains(l, "integrated"@) || contains(l, "renoir"@) || contains(
        l,
        "cezanne"@,
    ) || contains(l, "phoenix"@)
}

fn has(s: &Vec<char>, p: &str) -> (b: bool)
    ensures
        b == contains(s@, p@),
{
    let q = chars_of(p);
    contains_exec(s, &q)
}

fn is_apu_name_exec(l: &str) -> (b: bool)
    ensures
        b == is_apu_name(l@),
{
    let c = chars_of(l);
    has(&c, "vega") || has(&c, "integrated") || has(&c, "renoir") || has(&c, "cezanne") || has(
        &c,
        "phoenix",
    )
}

// ---------------------------------------------------------------------------
// sysfs figures
// ---------------------------------------------------------------------------
/// A byte count from sysfs, 0 when it cannot be read.
pub fn read_sysfs_bytes(content: Option<&str>) -> (r: u64)
    ensures
        r == (match sysfs_u64(
            match content {
                Some(c) => Some(c@),
                None => None,
            },
        ) {
            Some(v) => v,
            None => 0,
        }),
{
    match read_sysfs_u64(content) {
        Some(v) => v,
        None => 0,
    }
}

/// A frequency from sysfs in Hz, as whole MHz (taken as a `u32`).
pub fn read_sysfs_mhz(content: Option<&str>) -> (r: Option<u32>)
    ensures
        r == (match sysfs_u64(
            match content {
                Some(c) => Some(c@),
                None => None,
            },
        ) {
            Some(hz) => Some((hz / 1_000_000) as u32),
            None => None,
        }),
{
    match read_sysfs_u64(content) {
        Some(hz) => Some((hz / 1_000_000) as u32),
        None => None,
    }
}

/// A power from sysfs in microwatts, as whole milliwatts (taken as a
/// `u32`).
pub fn read_sysfs_microwatts(content: Option<&str>) -> (r: Option<u32>)
    ensures
        r == (match sysfs_u64(
            match content {
                Some(c) => Some(c@),
                None => None,
            },
        ) {
            Some(uw) => Some((uw / 1000) as u32),
            None => None,
        }),
{
    match read_sysfs_u64(content) {
        Some(uw) => Some((uw / 1000) as u32),
        None => None,
    }
}

/// What the sysfs files of an `amdgpu` card held when read for a snapshot
/// (`None`: the file could not be read). The last seven are read from the
/// card's hwmon directory.
#[derive(Debug, Clone)]
pub struct AmdReadings {
    /// `device/gpu_busy_percent`
    pub gpu_busy_percent: Option<String>,
    /// `device/mem_info_vram_total`
    pub mem_info_vram_total: Option<String>,
    /// `device/mem_info_vram_used`
    pub mem_info_vram_used: Option<String>,
    /// `freq1_input` (graphics clock, Hz)
    pub freq1_input: Option<String>,
    /// `freq2_input` (memory clock, Hz)
    pub freq2_input: Option<String>,
    /// `power1_average` (microwatts)
    pub power1_average: Option<String>,
    /// `temp1_input` (millidegrees)
    pub temp1_input: Option<String>,
    /// `temp1_crit` (millidegrees)
    pub temp1_crit: Option<String>,
    /// `fan1_input` (RPM)
    pub fan1_input: Option<String>,
    /// `pwm1` (0-255)
    pub pwm1: Option<String>,
}

/// What a file of the hwmon directory tells, when the card has one.
pub open spec fn from_hwmon<T>(has_hwmon: bool, v: Option<T>) -> Option<T> {
    if has_hwmon {
        v
    } else {
        None
    }
}

impl AmdGpu {
    /// The dynamic figures of a snapshot, from what the card's sysfs files
    /// held: the busy percentage (0 when unreadable), VRAM sizes (0 when
    /// unreadable, the free part stopping at 0), and, when the card has a
    /// hwmon directory, its clocks, power, temperatures and fan. The two
    /// percentages that are ratios are given: `memory_percent` of VRAM in
    /// use (it counts only when the total is known), and `fan_percent` of the
    /// fan's PWM duty (it counts only when `pwm1` was read).
    pub fn dynamic_info(&self, r: &AmdReadings, memory_percent: u8, fan_percent: u8) -> (d:
        GpuDynamicInfo)
        ensures
            d.utilization == (match sysfs_u8(opt_string_view(r.gpu_busy_percent)) {
                Some(u) => u,
                None => 0,
            }),
            d.memory.total == (match sysfs_u64(opt_string_view(r.mem_info_vram_total)) {
                Some(v) => v,
                None => 0,
            }),
            d.memory.used == (match sysfs_u64(opt_string_view(r.mem_info_vram_used)) {
                Some(v) => v,
                None => 0,
            }),
            d.memory.free == (if d.memory.used <= d.memory.total {
                d.memory.total - d.memory.used
            } else {
                0
            }),
            d.memory.utilization == (if d.memory.total > 0 {
                memory_percent
            } else {
                0
            }),
            d.clocks.graphics == from_hwmon(
                self.spec_hwmon_path() is Some,
                match sysfs_u64(opt_string_view(r.freq1_input)) {
                    Some(hz) => Some((hz / 1_000_000) as u32),
                    None => None,
                },
            ),
            d.clocks.memory == from_hwmon(
                self.spec_hwmon_path() is Some,
                match sysfs_u64(opt_string_view(r.freq2_input)) {
                    Some(hz) => Some((hz / 1_000_000) as u32),
                    None => None,
                },
            ),
            d.clocks.graphics_max is None && d.clocks.memory_max is None && d.clocks.sm is None
                && d.clocks.video is None,
            d.power.draw == from_hwmon(
                self.spec_hwmon_path() is Some,
                match sysfs_u64(opt_string_view(r.power1_average)) {
                    Some(uw) => Some((uw / 1000) as u32),
                    None => None,
                },
            ),
            d.power.limit is None && d.power.default_limit is None && d.power.usage_percent is None,
            d.thermal.temperature == from_hwmon(
                self.spec_hwmon_path() is Some,
                sysfs_degrees(opt_string_view(r.temp1_input)),
            ),
            d.thermal.critical_temperature == from_hwmon(
                self.spec_hwmon_path() is Some,
                sysfs_degrees(opt_string_view(r.temp1_crit)),
            ),
            d.thermal.max_temperature is None,
            d.thermal.fan_rpm == from_hwmon(
                self.spec_hwmon_path() is Some,
                sysfs_u32(opt_string_view(r.fan1_input)),
            ),
            d.thermal.fan_speed == from_hwmon(
                self.spec_hwmon_path() is Some,
                match sysfs_u32(opt_string_view(r.pwm1)) {
                    Some(_) => Some(fan_percent),
                    None => None,
                },
            ),
            d.pcie.current_gen is None && d.pcie.max_gen is None && d.pcie.current_width is None
                && d.pcie.max_width is None && d.pcie.current_speed is None && d.pcie.max_speed is None
                && d.pcie.tx_throughput is None && d.pcie.rx_throughput is None,
            d.engines.graphics == Some(d.utilization),
            d.engines.compute is None && d.engines.encoder is None && d.engines.decoder is None
                && d.engines.copy is None && d.engines.vendor_specific@.len() == 0,
            d.processes@.len() == 0,
    {
        let utilization = match read_sysfs_u8(as_str_opt(&r.gpu_busy_percent)) {
            Some(u) => u,
            None => 0,
        };
        let total = read_sysfs_bytes(as_str_opt(&r.mem_info_vram_total));
        let used = read_sysfs_bytes(as_str_opt(&r.mem_info_vram_used));
        let free = total.saturating_sub(used);
        let mem_util = if total > 0 {
            memory_percent
        } else {
            0
        };
        let has_hwmon = self.hwmon_path.is_some();
        let (graphics, memory_clock, draw, temperature, critical, fan_rpm, fan_speed) = if has_hwmon {
            (
                read_sysfs_mhz(as_str_opt(&r.freq1_input)),
                read_sysfs_mhz(as_str_opt(&r.freq2_input)),
                read_sysfs_microwatts(as_str_opt(&r.power1_average)),
                read_sysfs_degrees(as_str_opt(&r.temp1_input)),
                read_sysfs_degrees(as_str_opt(&r.temp1_crit)),
                read_sysfs_u32(as_str_opt(&r.fan1_input)),
                match read_sysfs_u32(as_str_opt(&r.pwm1)) {
                    Some(_) => Some(fan_percent),
                    None => None,
                },
            )
        } else {
            (None, None, None, None, None, None, None)
        };
        GpuDynamicInfo {
            utilization,
            memory: GpuMemory { total, used, free, utilization: mem_util },
            clocks: GpuClocks {
                graphics,
                graphics_max: None,
                memory: memory_clock,
                memory_max: None,
                sm: None,
                video: None,
            },
            power: GpuPower { draw, limit: None, default_limit: None, usage_percent: None },
            thermal: GpuThermal {
                temperature,
                max_temperature: None,
                critical_temperature: critical,
                fan_speed,
                fan_rpm,
            },
            pcie: no_pcie_link(),
            engines: GpuEngines {
                graphics: Some(utilization),
                compute: None,
                encoder: None,
                decoder: None,
                copy: None,
                vendor_specific: Vec::new(),
            },
            processes: Vec::new(),
        }
    }
}

// ---------------------------------------------------------------------------
// fdinfo
// ---------------------------------------------------------------------------
/// The number of bytes in one unit of an fdinfo memory line, by the unit's
/// upper-case name.
pub open spec fn unit_factor(u: Seq<char>) -> nat {
    if u == "KIB"@ || u == "KB"@ {
        1024
    } else if u == "MIB"@ || u == "MB"@ {
        1048576
    } else if u == "GIB"@ || u == "GB"@ {
        1073741824
    } else {
        1
    }
}

/// The unit of an fdinfo memory line split into words (bytes when it has
/// none).
pub open spec fn fdinfo_unit(w: Seq<Seq<char>>) -> Seq<char> {
    if w.len() >= 3 {
        w[2]
    } else {
        "B"@
    }
}

/// The memory an fdinfo line such as `drm-memory-vram:\t1234 KiB` gives,
/// in bytes: its second word as a count of the unit its third word names.
pub open spec fn fdinfo_memory(line: Seq<char>) -> Option<nat> {
    let w = words(line);
    if w.len() >= 2 && parse_u64(w[1]) is Some {
        Some((parse_u64(w[1])->0 as nat) * unit_factor(uppercase(fdinfo_unit(w))))
    } else {
        None
    }
}

/// `fdinfo_memory` for a line whose unit is ASCII, its upper-case form
/// spelled out character by character.
pub open spec fn fdinfo_memory_ascii(line: Seq<char>) -> Option<nat> {
    let w = words(line);
    if w.len() >= 2 && parse_u64(w[1]) is Some {
        Some((parse_u64(w[1])->0 as nat) * unit_factor(
            fdinfo_unit(w).map_values(|c: char| ascii_upper(c)),
        ))
    } else {
        None
    }
}

/// The byte count of an fdinfo memory line fits in a `u64`.
pub open spec fn fdinfo_fits(line: Seq<char>) -> bool {
    fdinfo_memory(line) matches Some(b) ==> b <= u64::MAX
}

fn eq_str(v: &Vec<char>, s: &str) -> (b: bool)
    ensures
        b == (v@ == s@),
{
    let t = chars_of(s);
    crate::text::eq_chars(v, &t)
}

fn unit_factor_exec(u: &Vec<char>) -> (f: u64)
    ensures
        f == unit_factor(u@),
{
    if eq_str(u, "KIB") || eq_str(u, "KB") {
        1024
    } else if eq_str(u, "MIB") || eq_str(u, "MB") {
        1048576
    } else if eq_str(u, "GIB") || eq_str(u, "GB") {
        1073741824
    } else {
        1
    }
}

/// The memory of an fdinfo line in bytes, with the unit's factor, or `None`
/// when the line has fewer than two words or its count does not parse.
pub fn parse_fdinfo_memory(line: &str) -> (r: Option<u64>)
    requires
        fdinfo_fits(line@),
    ensures
        match fdinfo_memory(line@) {
            Some(b) => r == Some(b as u64),
            None => r is None,
        },
        is_ascii_seq(fdinfo_unit(words(line@))) ==> match fdinfo_memory_ascii(line@) {
            Some(b) => r == Some(b as u64),
            None => r is None,
        },
{
    match fdinfo_memory_checked(line) {
        Some(r) => r,
        None => None,
    }
}

/// The memory of an fdinfo line when its byte count fits in a `u64`
/// (`Some` of what `parse_fdinfo_memory` gives), `None` when it does not.
pub fn fdinfo_memory_checked(line: &str) -> (r: Option<Option<u64>>)
    ensures
        fdinfo_fits(line@) <==> r is Some,
        r matches Some(x) ==> match fdinfo_memory(line@) {
            Some(b) => x == Some(b as u64),
            None => x is None,
        },
        is_ascii_seq(fdinfo_unit(words(line@))) ==> fdinfo_memory_ascii(line@) == fdinfo_memory(
            line@,
        ),
{
    let c = chars_of(line);
    let w = words_of(&c);
    if w.len() < 2 {
        return Some(None);
    }
    let value = match parse_u64_chars(&w[1]) {
        Some(v) => v,
        None => {
            return Some(None);
        },
    };
    let unit = if w.len() >= 3 {
        string_of(crate::text::subvec(&w[2], 0, w[2].len()))
    } else {
        owned("B")
    };
    assert(unit@ == fdinfo_unit(crate::text::views(w@))) by {
        if w@.len() >= 3 {
            assert(w@[2]@.subrange(0, w@[2]@.len() as int) =~= w@[2]@);
        }
    }
    let up = to_upper(unit.as_str());
    let f = unit_factor_exec(&chars_of(up.as_str()));
    match value.checked_mul(f) {
        Some(b) => Some(Some(b)),
        None => None,
    }
}

/// An fdinfo file of a DRM client of the `amdgpu` driver.
pub open spec fn is_amdgpu_client(content: Seq<char>) -> bool {
    contains(content, "drm-driver:\tamdgpu"@)
}

/// VRAM and GTT memory after one fdinfo line: a `drm-memory-vram:` or
/// `drm-memory-gtt:` line whose memory reads sets that figure.
pub open spec fn client_memory_step(acc: (u64, u64), l: Seq<char>) -> (u64, u64) {
    if starts_with(l, "drm-memory-vram:"@) {
        match fdinfo_memory(l) {
            Some(b) => (b as u64, acc.1),
            None => acc,
        }
    } else if starts_with(l, "drm-memory-gtt:"@) {
        match fdinfo_memory(l) {
            Some(b) => (acc.0, b as u64),
            None => acc,
        }
    } else {
        acc
    }
}

/// VRAM and GTT memory after the given lines, from zero.
pub open spec fn client_memory(ls: Seq<Seq<char>>) -> (u64, u64)
    decreases ls.len(),
{
    if ls.len() == 0 {
        (0, 0)
    } else {
        client_memory_step(client_memory(ls.drop_last()), ls.last())
    }
}

/// Every memory line of the lines fits in bytes.
pub open spec fn client_lines_fit(ls: Seq<Seq<char>>) -> bool {
    forall|i: int|
        0 <= i < ls.len() && (starts_with(ls[i], "drm-memory-vram:"@) || starts_with(
            ls[i],
            "drm-memory-gtt:"@,
        )) ==> #[trigger] fdinfo_fits(ls[i])
}

/// The VRAM and GTT memory an fdinfo file of an `amdgpu` client gives
/// (none for other files), or `None` when a memory line does not fit in
/// bytes.
pub fn amdgpu_client_memory_checked(content: &str) -> (r: Option<Option<(u64, u64)>>)
    ensures
        r is Some <==> (is_amdgpu_client(content@) ==> client_lines_fit(lines(content@))),
        r matches Some(x) ==> x == (if is_amdgpu_client(content@) {
            Some(client_memory(lines(content@)))
        } else {
            None
        }),
{
    let c = chars_of(content);
    if !contains_exec(&c, &chars_of("drm-driver:\tamdgpu")) {
        return Some(None);
    }
    let ls = lines_of(&c);
    let ghost all = lines(content@);
    let vram_prefix = chars_of("drm-memory-vram:");
    let gtt_prefix = chars_of("drm-memory-gtt:");
    let mut acc: (u64, u64) = (0, 0);
    let mut i: usize = 0;
    while i < ls.len()
        invariant
            i <= ls@.len(),
            crate::text::views(ls@) == all,
            vram_prefix@ == "drm-memory-vram:"@,
            gtt_prefix@ == "drm-memory-gtt:"@,
            acc == client_memory(all.take(i as int)),
            client_lines_fit(all.take(i as int)),
            all == lines(content@),
            is_amdgpu_client(content@),
        decreases ls@.len() - i,
    {
        assert(all.take(i + 1).drop_last() =~= all.take(i as int));
        assert(all.take(i + 1).last() == ls@[i as int]@);
        let l = &ls[i];
        let is_vram = starts_with_exec(l, &vram_prefix);
        let is_gtt = !is_vram && starts_with_exec(l, &gtt_prefix);
        if is_vram || is_gtt {
            let text = string_of(crate::text::subvec(l, 0, l.len()));
            assert(text@ =~= l@);
            match fdinfo_memory_checked(text.as_str()) {
                None => {
                    assert(!client_lines_fit(all)) by {
                        assert(all[i as int] == l@);
                        assert(!fdinfo_fits(all[i as int]));
                    }
                    return None;
                },
                Some(None) => {},
                Some(Some(b)) => {
                    if is_vram {
                        acc = (b, acc.1);
                    } else {
                        acc = (acc.0, b);
                    }
                },
            }
        }
        assert(client_lines_fit(all.take(i + 1))) by {
            assert forall|j: int|
                0 <= j < all.take(i + 1).len() && (starts_with(
                    all.take(i + 1)[j],
                    "drm-memory-vram:"@,
                ) || starts_with(all.take(i + 1)[j], "drm-memory-gtt:"@)) implies #[trigger] fdinfo_fits(
                all.take(i + 1)[j],
            ) by {
                if j < i {
                    assert(all.take(i + 1)[j] == all.take(i as int)[j]);
                }
            }
        }
        i = i + 1;
    }
    assert(all.take(ls@.len() as int) =~= all);
    Some(Some(acc))
}

/// The VRAM and GTT memory an fdinfo file of an `amdgpu` client gives,
/// none for other files.
pub fn amdgpu_client_memory(content: &str) -> (r: Option<(u64, u64)>)
    requires
        is_amdgpu_client(content@) ==> client_lines_fit(lines(content@)),
    ensures
        r == (if is_amdgpu_client(content@) {
            Some(client_memory(lines(content@)))
        } else {
            None
        }),
{
    match amdgpu_client_memory_checked(content) {
        Some(x) => x,
        None => None,
    }
}

// ---------------------------------------------------------------------------
// Laws
// ---------------------------------------------------------------------------
/// The units of fdinfo memory lines: KiB (or KB) are 1024 bytes, MiB (or
/// MB) 1024 KiB, GiB (or GB) 1024 MiB; anything else counts bytes.
pub proof fn lemma_fdinfo_units()
    ensures
        unit_factor("KIB"@) == 1024 && unit_factor("KB"@) == 1024,
        unit_factor("MIB"@) == 1024 * 1024 && unit_factor("MB"@) == 1024 * 1024,
        unit_factor("GIB"@) == 1024 * 1024 * 1024 && unit_factor("GB"@) == 1024 * 1024 * 1024,
        unit_factor("B"@) == 1,
{
    reveal_strlit("KIB");
    reveal_strlit("KB");
    reveal_strlit("MIB");
    reveal_strlit("MB");
    reveal_strlit("GIB");
    reveal_strlit("GB");
    reveal_strlit("B");
    assert("MIB"@ != "KIB"@) by {
        assert("MIB"@[0] != "KIB"@[0]);
    }
    assert("GIB"@ != "KIB"@) by {
        assert("GIB"@[0] != "KIB"@[0]);
    }
    assert("GIB"@ != "MIB"@) by {
        assert("GIB"@[0] != "MIB"@[0]);
    }
    assert("MB"@ != "KB"@) by {
        assert("MB"@[0] != "KB"@[0]);
    }
    assert("GB"@ != "KB"@) by {
        assert("GB"@[0] != "KB"@[0]);
    }
    assert("GB"@ != "MB"@) by {
        assert("GB"@[0] != "MB"@[0]);
    }
    assert("KIB"@.len() == 3 && "MIB"@.len() == 3 && "GIB"@.len() == 3 && "KB"@.len() == 2
        && "MB"@.len() == 2 && "GB"@.len() == 2 && "B"@.len() == 1);
}

/// A `drm-memory-vram:` line whose memory reads sets the VRAM figure, a
/// `drm-memory-gtt:` line the GTT figure, each leaving the other; other
/// lines change nothing.
pub proof fn lemma_client_memory_lines(acc: (u64, u64), l: Seq<char>)
    ensures
        starts_with(l, "drm-memory-vram:"@) && fdinfo_memory(l) is Some ==> client_memory_step(
            acc,
            l,
        ) == (fdinfo_memory(l)->0 as u64, acc.1),
        starts_with(l, "drm-memory-gtt:"@) && fdinfo_memory(l) is Some ==> client_memory_step(
            acc,
            l,
        ) == (acc.0, fdinfo_memory(l)->0 as u64),
        !starts_with(l, "drm-memory-vram:"@) && !starts_with(l, "drm-memory-gtt:"@)
            ==> client_memory_step(acc, l) == acc,
        fdinfo_memory(l) is None ==> client_memory_step(acc, l) == acc,
{
    reveal_strlit("drm-memory-vram:");
    reveal_strlit("drm-memory-gtt:");
    if starts_with(l, "drm-memory-gtt:"@) && starts_with(l, "drm-memory-vram:"@) {
        assert(l[11] == "drm-memory-gtt:"@[11]);
        assert(l[11] == "drm-memory-vram:"@[11]);
    }
}

} // verus!
