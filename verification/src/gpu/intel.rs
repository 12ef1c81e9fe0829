//! Intel GPUs driven by `i915` or `xe`: naming a card from its PCI device
//! ID, and the figures of its fdinfo files.
use vstd::prelude::*;

use crate::error::Error;
use crate::gpu::amd::{from_hwmon, read_sysfs_microwatts};
use crate::sysfs::{as_str_opt, read_sysfs_degrees, read_sysfs_u32, sysfs_degrees, sysfs_u32, sysfs_u64};
use crate::gpu::{
    GpuClocks, GpuDynamicInfo, GpuEngines, GpuMemory, GpuPower, GpuStaticInfo, GpuThermal,
    GpuVendor, no_pcie_link,
};
use crate::num::{dec, parse_u64, parse_u64_chars, push_dec};
use crate::text::{
    ascii_lower, is_ascii_seq,
    chars_of, contains, contains_exec, extend, extend_str, lines, lines_of, lowercase,
    opt_string_view, owned, starts_with, starts_with_exec, string_of, to_lower, trim, trim_chars,
    words, words_of,
};

verus! {

/// Intel GPU driver type
#[derive(Debug, Clone, Copy, PartialEq, Eq, Structural)]
pub enum IntelDriver {
    /// Legacy i915 driver
    I915,
    /// Modern Xe driver
    Xe,
}

pub open spec fn driver_name(d: IntelDriver) -> Seq<char> {
    match d {
        IntelDriver::I915 => "i915"@,
        IntelDriver::Xe => "xe"@,
    }
}

impl IntelDriver {
    /// Get driver name
    pub fn name(&self) -> (s: &'static str)
        ensures
            s@ == driver_name(*self),
    {
        match self {
            IntelDriver::I915 => "i915",
            IntelDriver::Xe => "xe",
        }
    }

    /// The driver a card's `driver` link names, if it is an Intel one.
    pub fn from_driver_name(name: &str) -> (d: Option<IntelDriver>)
        ensures
            d == (if name@ == "i915"@ {
                Some(IntelDriver::I915)
            } else if name@ == "xe"@ {
                Some(IntelDriver::Xe)
            } else {
                None
            }),
    {
        if crate::text::str_eq(name, "i915") {
            Some(IntelDriver::I915)
        } else if crate::text::str_eq(name, "xe") {
            Some(IntelDriver::Xe)
        } else {
            None
        }
    }
}

/// What the sysfs `device` directory of a card holds, as read.
#[derive(Debug, Clone)]
pub struct IntelProbe {
    /// `device` (the PCI device ID)
    pub device: Option<String>,
    /// The first directory under `hwmon`
    pub hwmon_path: Option<String>,
}

impl Default for IntelProbe {
    fn default() -> (p: Self)
        ensures
            p.device is None && p.hwmon_path is None,
    {
        IntelProbe { device: None, hwmon_path: None }
    }
}

/// Intel GPU implementation
pub struct IntelGpu {
    index: usize,
    name: String,
    pci_bus_id: String,
    driver: IntelDriver,
    card_path: String,
    hwmon_path: Option<String>,
}

/// The marketing name of a known Intel PCI device ID.
pub open spec fn known_device_name(id: Seq<char>) -> Option<Seq<char>> {
    if id == "0x9a49"@ || id == "0x9a40"@ {
        Some("Intel UHD Graphics (Tiger Lake)"@)
    } else if id == "0x46a6"@ || id == "0x46a8"@ {
        Some("Intel UHD Graphics (Alder Lake)"@)
    } else if id == "0xa7a0"@ || id == "0xa7a1"@ {
        Some("Intel UHD Graphics (Raptor Lake)"@)
    } else if id == "0x7d55"@ || id == "0x7d45"@ {
        Some("Intel UHD Graphics (Meteor Lake)"@)
    } else if id == "0x5917"@ || id == "0x5912"@ {
        Some("Intel UHD Graphics 620 (Kaby Lake)"@)
    } else if id == "0x3e92"@ || id == "0x3e91"@ {
        Some("Intel UHD Graphics 630 (Coffee Lake)"@)
    } else if id == "0x8a52"@ || id == "0x8a56"@ {
        Some("Intel UHD Graphics (Ice Lake)"@)
    } else if id == "0x5690"@ || id == "0x5691"@ || id == "0x5692"@ {
        Some("Intel Arc A770"@)
    } else if id == "0x5693"@ || id == "0x5694"@ {
        Some("Intel Arc A750"@)
    } else if id == "0x56a0"@ || id == "0x56a1"@ {
        Some("Intel Arc A580"@)
    } else if id == "0x5696"@ || id == "0x5697"@ {
        Some("Intel Arc A380"@)
    } else if id == "0x56a5"@ || id == "0x56a6"@ {
        Some("Intel Arc A310"@)
    } else if id == "0x0bd0"@ || id == "0x0bd5"@ || id == "0x0bd6"@ || id == "0x0bd7"@ {
        Some("Intel Data Center GPU Max"@)
    } else {
        None
    }
}

/// The name of a card from its device ID file: the known name of the
/// trimmed ID, else `Intel Graphics [{id}] ({driver})`; none without the
/// file.
pub open spec fn intel_gpu_name(device: Option<Seq<char>>, d: IntelDriver) -> Option<Seq<char>> {
    match device {
        Some(c) => match known_device_name(trim(c)) {
            Some(n) => Some(n),
            None => Some("Intel Graphics ["@ + trim(c) + "] ("@ + driver_name(d) + ")"@),
        },
        None => None,
    }
}

fn is(v: &Vec<char>, s: &str) -> (b: bool)
    ensures
        b == (v@ == s@),
{
    crate::text::eq_chars(v, &chars_of(s))
}

fn known_device_name_exec(id: &Vec<char>) -> (r: Option<&'static str>)
    ensures
        match r {
            Some(s) => known_device_name(id@) == Some(s@),
            None => known_device_name(id@) is None,
        },
{
    if is(id, "0x9a49") || is(id, "0x9a40") {
        Some("Intel UHD Graphics (Tiger Lake)")
    } else if is(id, "0x46a6") || is(id, "0x46a8") {
        Some("Intel UHD Graphics (Alder Lake)")
    } else if is(id, "0xa7a0") || is(id, "0xa7a1") {
        Some("Intel UHD Graphics (Raptor Lake)")
    } else if is(id, "0x7d55") || is(id, "0x7d45") {
        Some("Intel UHD Graphics (Meteor Lake)")
    } else if is(id, "0x5917") || is(id, "0x5912") {
        Some("Intel UHD Graphics 620 (Kaby Lake)")
    } else if is(id, "0x3e92") || is(id, "0x3e91") {
        Some("Intel UHD Graphics 630 (Coffee Lake)")
    } else if is(id, "0x8a52") || is(id, "0x8a56") {
        Some("Intel UHD Graphics (Ice Lake)")
    } else if is(id, "0x5690") || is(id, "0x5691") || is(id, "0x5692") {
        Some("Intel Arc A770")
    } else if is(id, "0x5693") || is(id, "0x5694") {
        Some("Intel Arc A750")
    } else if is(id, "0x56a0") || is(id, "0x56a1") {
        Some("Intel Arc A580")
    } else if is(id, "0x5696") || is(id, "0x5697") {
        Some("Intel Arc A380")
    } else if is(id, "0x56a5") || is(id, "0x56a6") {
        Some("Intel Arc A310")
    } else if is(id, "0x0bd0") || is(id, "0x0bd5") || is(id, "0x0bd6") || is(id, "0x0bd7") {
        Some("Intel Data Center GPU Max")
    } else {
        None
    }
}

/// The name of a card from the content of its device ID file.
pub fn read_intel_gpu_name(device: Option<&str>, driver: &IntelDriver) -> (r: Option<String>)
    ensures
        opt_string_view(r) == intel_gpu_name(
            match device {
                Some(d) => Some(d@),
                None => None,
            },
            *driver,
        ),
{
    let d = match device {
        Some(d) => d,
        None => {
            return None;
        },
    };
    let id = trim_chars(&chars_of(d));
    match known_device_name_exec(&id) {
        Some(n) => Some(owned(n)),
        None => {
            let mut v: Vec<char> = Vec::new();
            extend_str(&mut v, "Intel Graphics [");
            extend(&mut v, &id);
            extend_str(&mut v, "] (");
            extend_str(&mut v, driver.name());
            extend_str(&mut v, ")");
            Some(string_of(v))
        },
    }
}

impl IntelGpu {
    pub closed spec fn spec_index(self) -> usize {
        self.index
    }

    pub closed spec fn spec_name(self) -> Seq<char> {
        self.name@
    }

    pub closed spec fn spec_pci_bus_id(self) -> Seq<char> {
        self.pci_bus_id@
    }

    pub closed spec fn spec_driver(self) -> IntelDriver {
        self.driver
    }

    pub closed spec fn spec_card_path(self) -> Seq<char> {
        self.card_path@
    }

    pub closed spec fn spec_hwmon_path(self) -> Option<Seq<char>> {
        opt_string_view(self.hwmon_path)
    }

    /// Create new Intel GPU instance from what the card's device directory
    /// holds: named from its device ID, or `Intel GPU {index} ({driver})`
    /// when that cannot be read.
    pub fn new(
        index: usize,
        pci_bus_id: String,
        card_path: String,
        driver: IntelDriver,
        probe: IntelProbe,
    ) -> (r: Result<Self, Error>)
        ensures
            r matches Ok(g) && g.spec_index() == index && g.spec_name() == (match intel_gpu_name(
                opt_string_view(probe.device),
                driver,
            ) {
                Some(n) => n,
                None => "Intel GPU "@ + dec(index as nat) + " ("@ + driver_name(driver) + ")"@,
            }) && g.spec_pci_bus_id() == pci_bus_id@ && g.spec_driver() == driver
                && g.spec_card_path() == card_path@ && g.spec_hwmon_path() == opt_string_view(
                probe.hwmon_path,
            ),
    {
        let dev = match &probe.device {
            Some(d) => Some(d.as_str()),
            None => None,
        };
        let name = match read_intel_gpu_name(dev, &driver) {
            Some(n) => n,
            None => {
                let mut v: Vec<char> = Vec::new();
                extend_str(&mut v, "Intel GPU ");
                push_dec(&mut v, index as u64);
                extend_str(&mut v, " (");
                extend_str(&mut v, driver.name());
                extend_str(&mut v, ")");
                string_of(v)
            },
        };
        Ok(IntelGpu { index, name, pci_bus_id, driver, card_path, hwmon_path: probe.hwmon_path })
    }

    /// The hwmon directory of the card, if it has one.
    pub fn hwmon_path(&self) -> (r: Option<&str>)
        ensures
            match r {
                Some(s) => self.spec_hwmon_path() == Some(s@),
                None => self.spec_hwmon_path() is None,
            },
    {
        match &self.hwmon_path {
            Some(h) => Some(h.as_str()),
            None => None,
        }
    }

    /// Get driver type
    pub fn driver(&self) -> (d: IntelDriver)
        ensures
            d == self.spec_driver(),
    {
        self.driver
    }

    /// Get GPU index
    pub fn index(&self) -> (r: usize)
        ensures
            r == self.spec_index(),
    {
        self.index
    }

    /// Get GPU vendor
    pub fn vendor(&self) -> (v: GpuVendor)
        ensures
            v == GpuVendor::Intel,
    {
        GpuVendor::Intel
    }

    /// Get GPU name
    pub fn name(&self) -> (r: String)
        ensures
            r@ == self.spec_name(),
    {
        owned(self.name.as_str())
    }

    /// Static information, given the content of the driver's `version` file
    /// when it could be read: the card counts as discrete when its
    /// lower-case name mentions Arc or the data center line.
    pub fn static_info(&self, driver_version: Option<String>) -> (s: GpuStaticInfo)
        ensures
            s.index == self.spec_index(),
            s.vendor == GpuVendor::Intel,
            s.name@ == self.spec_name(),
            opt_string_view(s.pci_bus_id) == Some(self.spec_pci_bus_id()),
            s.uuid is None,
            s.vbios_version is None,
            opt_string_view(s.driver_version) == (match driver_version {
                Some(v) => Some(trim(v@)),
                None => None,
            }),
            s.compute_capability is None,
            s.shader_cores is None,
            s.l2_cache is None,
            s.num_engines is None,
            s.integrated == !is_discrete_name(lowercase(self.spec_name())),
            is_ascii_seq(self.spec_name()) ==> s.integrated == !is_discrete_name(
                self.spec_name().map_values(|c: char| ascii_lower(c)),
            ),
    {
        let lower = to_lower(self.name.as_str());
        let l = chars_of(lower.as_str());
        let discrete = contains_exec(&l, &chars_of("arc")) || contains_exec(
            &l,
            &chars_of("data center"),
        );
        let driver = match driver_version {
            Some(v) => Some(string_of(trim_chars(&chars_of(v.as_str())))),
            None => None,
        };
        GpuStaticInfo {
            index: self.index,
            vendor: GpuVendor::Intel,
            name: owned(self.name.as_str()),
            pci_bus_id: Some(owned(self.pci_bus_id.as_str())),
            uuid: None,
            vbios_version: None,
            driver_version: driver,
            compute_capability: None,
            shader_cores: None,
            l2_cache: None,
            num_engines: None,
            integrated: !discrete,
        }
    }
}

/// A lower-case card name of a discrete part.
pub open spec fn is_discrete_name(l: Seq<char>) -> bool {
    contains(l, "arc"@) || contains(l, "data center"@)
}

/// The busy time of an fdinfo engine line such as
/// `drm-engine-render:\t12345 ns`: its second word as a number.
pub open spec fn engine_time(line: Seq<char>) -> Option<u64> {
    let w = words(line);
    if w.len() >= 2 {
        parse_u64(w[1])
    } else {
        None
    }
}

/// The busy time of an fdinfo engine line.
pub fn parse_engine_time(line: &str) -> (r: Option<u64>)
    ensures
        r == engine_time(line@),
{
    let c = chars_of(line);
    let w = words_of(&c);
    if w.len() >= 2 {
        parse_u64_chars(&w[1])
    } else {
        None
    }
}

/// An fdinfo file of a DRM client of the given driver.
pub open spec fn is_client_of(content: Seq<char>, d: IntelDriver) -> bool {
    contains(content, "drm-driver:\t"@ + driver_name(d))
}

/// The busy time of the `drm-engine-*` lines among `ls` (lines whose time
/// does not read count as 0).
pub open spec fn engine_total(ls: Seq<Seq<char>>) -> nat
    decreases ls.len(),
{
    if ls.len() == 0 {
        0
    } else {
        engine_total(ls.drop_last()) + if starts_with(ls.last(), "drm-engine-"@) {
            match engine_time(ls.last()) {
                Some(t) => t as nat,
                None => 0nat,
            }
        } else {
            0nat
        }
    }
}

proof fn lemma_engine_total_prefix(ls: Seq<Seq<char>>, k: int)
    requires
        0 <= k <= ls.len(),
    ensures
        engine_total(ls.take(k)) <= engine_total(ls),
    decreases ls.len() - k,
{
    if k < ls.len() {
        lemma_engine_total_prefix(ls, k + 1);
        assert(ls.take(k + 1).drop_last() =~= ls.take(k));
    } else {
        assert(ls.take(k) =~= ls);
    }
}

/// The total engine busy time of a DRM client of the driver, from its
/// fdinfo file; none for files of other drivers.
pub fn client_engine_time(content: &str, driver: IntelDriver) -> (r: Option<u64>)
    requires
        is_client_of(content@, driver) ==> engine_total(lines(content@)) <= u64::MAX,
    ensures
        r == (if is_client_of(content@, driver) {
            Some(engine_total(lines(content@)) as u64)
        } else {
            None
        }),
{
    let c = chars_of(content);
    let mut m: Vec<char> = Vec::new();
    extend_str(&mut m, "drm-driver:\t");
    extend_str(&mut m, driver.name());
    if !contains_exec(&c, &m) {
        return None;
    }
    let ls = lines_of(&c);
    let ghost all = lines(content@);
    let prefix = chars_of("drm-engine-");
    let mut total: u64 = 0;
    let mut i: usize = 0;
    while i < ls.len()
        invariant
            i <= ls@.len(),
            crate::text::views(ls@) == all,
            prefix@ == "drm-engine-"@,
            engine_total(all) <= u64::MAX,
            total == engine_total(all.take(i as int)),
        decreases ls@.len() - i,
    {
        assert(all.take(i + 1).drop_last() =~= all.take(i as int));
        assert(all.take(i + 1).last() == ls@[i as int]@);
        proof {
            lemma_engine_total_prefix(all, i + 1);
        }
        if starts_with_exec(&ls[i], &prefix) {
            let text = string_of(crate::text::subvec(&ls[i], 0, ls[i].len()));
            assert(text@ =~= ls@[i as int]@);
            if let Some(t) = parse_engine_time(text.as_str()) {
                total = total + t;
            }
        }
        i = i + 1;
    }
    assert(all.take(ls@.len() as int) =~= all);
    Some(total)
}

/// Whether the engine times of a DRM client of the driver add up within a
/// `u64` (files of other drivers always do: they are not added up).
pub fn client_engine_time_fits(content: &str, driver: IntelDriver) -> (b: bool)
    ensures
        b == (is_client_of(content@, driver) ==> engine_total(lines(content@)) <= u64::MAX),
{
    let c = chars_of(content);
    let mut m: Vec<char> = Vec::new();
    extend_str(&mut m, "drm-driver:\t");
    extend_str(&mut m, driver.name());
    proof {
        reveal_strlit("drm-driver:\t");
    }
    assert(m@ =~= "drm-driver:\t"@ + driver_name(driver));
    !contains_exec(&c, &m) || engine_time_fits(content)
}

/// Whether the engine times of an fdinfo file add up within a `u64`.
pub fn engine_time_fits(content: &str) -> (b: bool)
    ensures
        b == (engine_total(lines(content@)) <= u64::MAX),
{
    let c = chars_of(content);
    let ls = lines_of(&c);
    let ghost all = lines(content@);
    let prefix = chars_of("drm-engine-");
    let mut total: u64 = 0;
    let mut i: usize = 0;
    while i < ls.len()
        invariant
            i <= ls@.len(),
            crate::text::views(ls@) == all,
            all == lines(content@),
            prefix@ == "drm-engine-"@,
            total == engine_total(all.take(i as int)),
        decreases ls@.len() - i,
    {
        assert(all.take(i + 1).drop_last() =~= all.take(i as int));
        assert(all.take(i + 1).last() == ls@[i as int]@);
        if starts_with_exec(&ls[i], &prefix) {
            let text = string_of(crate::text::subvec(&ls[i], 0, ls[i].len()));
            assert(text@ =~= ls@[i as int]@);
            if let Some(t) = parse_engine_time(text.as_str()) {
                match total.checked_add(t) {
                    Some(s) => total = s,
                    None => {
                        proof {
                            lemma_engine_total_prefix(all, i + 1);
                        }
                        return false;
                    },
                }
            }
        }
        i = i + 1;
    }
    assert(all.take(ls@.len() as int) =~= all);
    true
}

/// What the sysfs files of an Intel card held when read for a snapshot
/// (`None`: the file could not be read): the current and maximum graphics
/// frequency (MHz, from the files `frequency_files` names) and, from the
/// card's hwmon directory, power and temperature.
#[derive(Debug, Clone)]
pub struct IntelReadings {
    /// Current graphics frequency (MHz)
    pub cur_freq: Option<String>,
    /// Maximum graphics frequency (MHz)
    pub max_freq: Option<String>,
    /// `power1_average` (microwatts)
    pub power1_average: Option<String>,
    /// `temp1_input` (millidegrees)
    pub temp1_input: Option<String>,
}

/// The files, under the card's `device` directory, of the current and the
/// maximum graphics frequency.
pub open spec fn frequency_file_names(d: IntelDriver) -> (Seq<char>, Seq<char>) {
    match d {
        IntelDriver::I915 => ("gt_cur_freq_mhz"@, "gt_max_freq_mhz"@),
        IntelDriver::Xe => ("gt/gt0/freq0/cur_freq"@, "gt/gt0/freq0/max_freq"@),
    }
}

impl IntelGpu {
    /// The files, under the card's `device` directory, that hold the current
    /// and the maximum graphics frequency for the card's driver.
    pub fn frequency_files(&self) -> (r: (&'static str, &'static str))
        ensures
            (r.0@, r.1@) == frequency_file_names(self.spec_driver()),
    {
        match self.driver {
            IntelDriver::I915 => {
                let r = ("gt_cur_freq_mhz", "gt_max_freq_mhz");
                proof {
                    reveal_strlit("gt_cur_freq_mhz");
                    reveal_strlit("gt_max_freq_mhz");
                }
                r
            },
            IntelDriver::Xe => {
                let r = ("gt/gt0/freq0/cur_freq", "gt/gt0/freq0/max_freq");
                proof {
                    reveal_strlit("gt/gt0/freq0/cur_freq");
                    reveal_strlit("gt/gt0/freq0/max_freq");
                }
                r
            },
        }
    }

    /// The dynamic figures of a snapshot, from what the card's sysfs files
    /// held: the graphics clock and its maximum, the utilization as the
    /// current clock's share of the maximum (`frequency_percent`, given; 0
    /// unless both were read and the maximum is above 0), and, when the card
    /// has a hwmon directory, power and temperature. Memory is not reported.
    pub fn dynamic_info(&self, r: &IntelReadings, frequency_percent: u8) -> (d: GpuDynamicInfo)
        ensures
            d.clocks.graphics == sysfs_u32(opt_string_view(r.cur_freq)),
            d.clocks.graphics_max == sysfs_u32(opt_string_view(r.max_freq)),
            d.utilization == (match (d.clocks.graphics, d.clocks.graphics_max) {
                (Some(_), Some(max)) => if max > 0 {
                    frequency_percent
                } else {
                    0
                },
                _ => 0,
            }),
            d.clocks.memory is None && d.clocks.memory_max is None && d.clocks.sm is None
                && d.clocks.video is None,
            d.memory.total == 0 && d.memory.used == 0 && d.memory.free == 0
                && d.memory.utilization == 0,
            d.power.draw == from_hwmon(
                self.spec_hwmon_path() is Some,
                match sysfs_u64(opt_string_view(r.power1_average)) {
                    Some(uw) => Some((uw / 1000) as u32),
                    None => None,
                },
            ),
            d.power.limit is None && d.power.default_limit is None && d.power.usage_percent is None,
            d.thermal.temperature == from_hwmon(
                self.spec_hwmon_path() is Some,
                sysfs_degrees(opt_string_view(r.temp1_input)),
            ),
            d.thermal.max_temperature is None && d.thermal.critical_temperature is None
                && d.thermal.fan_speed is None && d.thermal.fan_rpm is None,
            d.pcie.current_gen is None && d.pcie.max_gen is None && d.pcie.current_width is None
                && d.pcie.max_width is None && d.pcie.current_speed is None && d.pcie.max_speed is None
                && d.pcie.tx_throughput is None && d.pcie.rx_throughput is None,
            d.engines.graphics == Some(d.utilization),
            d.engines.compute is None && d.engines.encoder is None && d.engines.decoder is None
                && d.engines.copy is None && d.engines.vendor_specific@.len() == 0,
            d.processes@.len() == 0,
    {
        let graphics = read_sysfs_u32(as_str_opt(&r.cur_freq));
        let graphics_max = read_sysfs_u32(as_str_opt(&r.max_freq));
        let utilization = match (graphics, graphics_max) {
            (Some(_), Some(max)) => if max > 0 {
                frequency_percent
            } else {
                0
            },
            _ => 0,
        };
        let (draw, temperature) = if self.hwmon_path.is_some() {
            (
                read_sysfs_microwatts(as_str_opt(&r.power1_average)),
                read_sysfs_degrees(as_str_opt(&r.temp1_input)),
            )
        } else {
            (None, None)
        };
        GpuDynamicInfo {
            utilization,
            memory: GpuMemory { total: 0, used: 0, free: 0, utilization: 0 },
            clocks: GpuClocks {
                graphics,
                graphics_max,
                memory: None,
                memory_max: None,
                sm: None,
                video: None,
            },
            power: GpuPower { draw, limit: None, default_limit: None, usage_percent: None },
            thermal: GpuThermal {
                temperature,
                max_temperature: None,
                critical_temperature: None,
                fan_speed: None,
                fan_rpm: None,
            },
            pcie: no_pcie_link(),
            engines: GpuEngines {
                graphics: Some(utilization),
                compute: None,
                encoder: None,
                decoder: None,
                copy: None,
                vendor_specific: Vec::new(),
            },
            processes: Vec::new(),
        }
    }
}

} // verus!
