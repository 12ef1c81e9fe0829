//! AMD GPUs through the vendor-neutral interface: sysfs figures of a card's
//! `device` directory.
use vstd::prelude::*;

use crate::error::io_error_text;
use crate::gpu::traits::{Clocks, Error, FanSpeed, Memory, PciInfo, Vendor};
use crate::pci::{bus_id, bus_id_text, link_text_address, read_link_address, LinkComponent};
use crate::num::{dec, parse_u32, parse_u32_chars, parse_u64, parse_u64_chars, push_dec};
use crate::text::{
    chars_of, contains_char, extend_str, lines, lines_of, opt_string_view, owned, remove_all,
    remove_all_exec, split_by, split_chars, starts_with, starts_with_exec, string_of,
    strip_prefixes, strip_prefixes_exec, trim, trim_chars,
};

verus! {

/// AMD GPU seen through its sysfs `device` directory
pub struct AmdGpu {
    index: u32,
    card_path: String,
    device_path: String,
}

/// The trimmed content of a sysfs file that could be read.
pub open spec fn sysfs_text(content: Option<String>) -> Option<Seq<char>> {
    match content {
        Some(c) => Some(trim(c@)),
        None => None,
    }
}

impl AmdGpu {
    pub closed spec fn spec_index(self) -> u32 {
        self.index
    }

    pub closed spec fn spec_card_path(self) -> Seq<char> {
        self.card_path@
    }

    pub closed spec fn spec_device_path(self) -> Seq<char> {
        self.device_path@
    }

    /// The card at `card_path` (its device directory is `{card_path}/device`),
    /// refused when that directory does not exist.
    pub fn new(index: u32, card_path: String, device_path_exists: bool) -> (r: Result<Self, Error>)
        ensures
            !device_path_exists ==> (r matches Err(Error::InitializationFailed(m)) && m@
                == "Device path does not exist"@),
            device_path_exists ==> (r matches Ok(g) && g.spec_index() == index && g.spec_card_path()
                == card_path@ && g.spec_device_path() == card_path@ + "/device"@),
    {
        if !device_path_exists {
            return Err(Error::InitializationFailed(owned("Device path does not exist")));
        }
        let mut dp: Vec<char> = Vec::new();
        extend_str(&mut dp, card_path.as_str());
        extend_str(&mut dp, "/device");
        Ok(AmdGpu { index, card_path, device_path: string_of(dp) })
    }

    /// The card's index
    pub fn index(&self) -> (r: u32)
        ensures
            r == self.spec_index(),
    {
        self.index
    }

    /// The card's vendor
    pub fn vendor(&self) -> (v: Vendor)
        ensures
            v == Vendor::Amd,
    {
        Vendor::Amd
    }

    /// The card's `device` directory
    pub fn device_path(&self) -> (s: &str)
        ensures
            s@ == self.spec_device_path(),
    {
        self.device_path.as_str()
    }

    /// The card's PCI address, from its device link (the result of reading
    /// it): the last component of the link that reads as
    /// `domain:bus:device.function` in hexadecimal.
    pub fn pci_info(&self, link: Result<String, std::io::Error>) -> (r: Result<PciInfo, Error>)
        requires
            link matches Ok(l) ==> !(link_text_address(l@) is SplitCharacter),
        ensures
            link is Err ==> (r matches Err(Error::QueryFailed(m)) && starts_with(
                m@,
                "Failed to read device link: "@,
            )),
            link matches Ok(l) ==> match link_text_address(l@) {
                LinkComponent::Address(d, b, v, f) => (r matches Ok(p) && p.domain == d as u32
                    && p.bus == b && p.device == v && p.function == f && p.bus_id@ == bus_id_text(
                    d,
                    b,
                    v,
                    f,
                ) && p.pcie_generation is None && p.pcie_link_width is None),
                _ => (r matches Err(Error::QueryFailed(m)) && m@ == "Could not parse PCI info"@),
            },
    {
        let l = match link {
            Ok(l) => l,
            Err(e) => {
                let mut v: Vec<char> = Vec::new();
                extend_str(&mut v, "Failed to read device link: ");
                let ghost prefix = v@;
                extend_str(&mut v, io_error_text(&e).as_str());
                proof {
                    reveal_strlit("Failed to read device link: ");
                }
                assert(v@.subrange(0, prefix.len() as int) =~= prefix);
                return Err(Error::QueryFailed(string_of(v)));
            },
        };
        match read_link_address(l.as_str()) {
            LinkComponent::Address(d, b, v, f) => Ok(
                PciInfo {
                    domain: d as u32,
                    bus: b,
                    device: v,
                    function: f,
                    bus_id: bus_id(d, b, v, f),
                    pcie_generation: None,
                    pcie_link_width: None,
                },
            ),
            _ => Err(Error::QueryFailed(owned("Could not parse PCI info"))),
        }
    }

    /// The trimmed content of a sysfs attribute that could be read.
    pub fn read_sysfs_string(content: Option<String>) -> (r: Option<String>)
        ensures
            opt_string_view(r) == sysfs_text(content),
    {
        match content {
            Some(c) => Some(string_of(trim_chars(&chars_of(c.as_str())))),
            None => None,
        }
    }

    /// A sysfs attribute as a number, when it could be read and parses.
    pub fn read_sysfs_u64(content: Option<String>) -> (r: Option<u64>)
        ensures
            r == (match sysfs_text(content) {
                Some(t) => parse_u64(t),
                None => None,
            }),
    {
        match Self::read_sysfs_string(content) {
            Some(t) => parse_u64_chars(&chars_of(t.as_str())),
            None => None,
        }
    }

    /// The current level of a `pp_dpm_*` file that could be read (lines
    /// such as `1: 800Mhz *`, the star marking the current one).
    pub fn read_current_clock(content: Option<String>) -> (r: Option<u32>)
        ensures
            r == (match sysfs_text(content) {
                Some(t) => current_clock(lines(t)),
                None => None,
            }),
    {
        let ghost gc = sysfs_text(content);
        let t = match Self::read_sysfs_string(content) {
            Some(t) => t,
            None => {
                return None;
            },
        };
        let c = chars_of(t.as_str());
        let ls = lines_of(&c);
        let ghost all = lines(t@);
        let mhz = chars_of("Mhz");
        let star = chars_of("*");
        proof {
            reveal_strlit("Mhz");
            reveal_strlit("*");
        }
        assert(all.skip(0) =~= all);
        let mut i: usize = 0;
        while i < ls.len()
            invariant
                i <= ls@.len(),
                ls@.len() == all.len(),
                forall|j: int| 0 <= j < ls@.len() ==> ls@[j]@ == all[j],
                mhz@ == "Mhz"@,
                star@ == "*"@,
                mhz@.len() > 0,
                star@.len() > 0,
                gc == Some(t@),
                gc == sysfs_text(content),
                all == lines(t@),
                current_clock(all) == current_clock(all.skip(i as int)),
            decreases ls@.len() - i,
        {
            let ghost rest = all.skip(i as int);
            assert(rest[0] == all[i as int]);
            assert(rest.skip(1) =~= all.skip(i + 1));
            let l = &ls[i];
            if contains_char(l, '*') {
                let parts = split_chars(l, ':');
                if parts.len() >= 2 {
                    assert(parts@[1]@ == split_by(l@, ':')[1]);
                    assert(parts@.len() == split_by(l@, ':').len());
                    let a = trim_chars(&parts[1]);
                    let b = remove_all_exec(&a, &mhz);
                    let d = remove_all_exec(&b, &star);
                    let e = trim_chars(&d);
                    if let Some(f) = parse_u32_chars(&e) {
                        assert(clock_of_line(all[i as int]) == Some(f));
                        return Some(f);
                    }
                }
            }
            i = i + 1;
        }
        assert(all.skip(i as int) =~= Seq::<Seq<char>>::empty());
        None
    }
}

/// The frequency a `pp_dpm_*` line gives when it is the starred one and its
/// part after the first `:` reads as a number once `Mhz` and `*` are
/// removed.
pub open spec fn clock_of_line(l: Seq<char>) -> Option<u32> {
    let parts = split_by(l, ':');
    if l.contains('*') && parts.len() >= 2 {
        parse_u32(trim(remove_all(remove_all(trim(parts[1]), "Mhz"@), "*"@)))
    } else {
        None
    }
}

/// The first frequency that a line of `ls` gives.
pub open spec fn current_clock(ls: Seq<Seq<char>>) -> Option<u32>
    decreases ls.len(),
{
    if ls.len() == 0 {
        None
    } else if clock_of_line(ls[0]) is Some {
        clock_of_line(ls[0])
    } else {
        current_clock(ls.skip(1))
    }
}

impl AmdGpu {
    /// The card's name: its `product_name`, else `AMD GPU {device id}`, else
    /// `AMD GPU #{index}`.
    pub fn name(&self, product_name: Option<String>, device: Option<String>) -> (r: Result<
        String,
        Error,
    >)
        ensures
            r matches Ok(n) && n@ == (match sysfs_text(product_name) {
                Some(p) => p,
                None => match sysfs_text(device) {
                    Some(d) => "AMD GPU "@ + d,
                    None => "AMD GPU #"@ + dec(self.spec_index() as nat),
                },
            }),
    {
        if let Some(n) = Self::read_sysfs_string(product_name) {
            return Ok(n);
        }
        let mut v: Vec<char> = Vec::new();
        if let Some(d) = Self::read_sysfs_string(device) {
            extend_str(&mut v, "AMD GPU ");
            extend_str(&mut v, d.as_str());
            return Ok(string_of(v));
        }
        extend_str(&mut v, "AMD GPU #");
        push_dec(&mut v, self.index as u64);
        Ok(string_of(v))
    }

    /// An identifier made of the vendor and device IDs and the serial
    /// number (the index when there is none): `GPU-{vendor}-{device}-{serial}`.
    pub fn uuid(&self, vendor: Option<String>, device: Option<String>, serial: Option<String>) -> (r:
        Result<String, Error>)
        ensures
            r matches Ok(u) && u@ == "GPU-"@ + (match sysfs_text(vendor) {
                Some(t) => t,
                None => Seq::empty(),
            }) + "-"@ + (match sysfs_text(device) {
                Some(t) => t,
                None => Seq::empty(),
            }) + "-"@ + (match sysfs_text(serial) {
                Some(t) => t,
                None => dec(self.spec_index() as nat),
            }),
    {
        let mut v: Vec<char> = Vec::new();
        extend_str(&mut v, "GPU-");
        if let Some(t) = Self::read_sysfs_string(vendor) {
            extend_str(&mut v, t.as_str());
        }
        extend_str(&mut v, "-");
        if let Some(t) = Self::read_sysfs_string(device) {
            extend_str(&mut v, t.as_str());
        }
        extend_str(&mut v, "-");
        match Self::read_sysfs_string(serial) {
            Some(t) => extend_str(&mut v, t.as_str()),
            None => push_dec(&mut v, self.index as u64),
        }
        Ok(string_of(v))
    }

    /// The current graphics and memory clocks from `pp_dpm_sclk` and
    /// `pp_dpm_mclk` (0 when unknown).
    pub fn clocks(&self, sclk: Option<String>, mclk: Option<String>) -> (r: Result<Clocks, Error>)
        ensures
            r matches Ok(c) && c.graphics == (match sysfs_text(sclk) {
                Some(t) => match current_clock(lines(t)) {
                    Some(f) => f,
                    None => 0,
                },
                None => 0,
            }) && c.memory == (match sysfs_text(mclk) {
                Some(t) => match current_clock(lines(t)) {
                    Some(f) => f,
                    None => 0,
                },
                None => 0,
            }) && c.sm is None && c.video is None,
    {
        let graphics = match Self::read_current_clock(sclk) {
            Some(f) => f,
            None => 0,
        };
        let memory = match Self::read_current_clock(mclk) {
            Some(f) => f,
            None => 0,
        };
        Ok(Clocks { graphics, memory, sm: None, video: None })
    }

    /// VRAM from `mem_info_vram_total` and `mem_info_vram_used` (0 when
    /// unknown); free memory is the difference, 0 when more is used than
    /// there is.
    pub fn memory(&self, total: Option<String>, used: Option<String>) -> (r: Result<Memory, Error>)
        ensures
            r matches Ok(m) && m.total == (match sysfs_text(total) {
                Some(t) => match parse_u64(t) {
                    Some(v) => v,
                    None => 0,
                },
                None => 0,
            }) && m.used == (match sysfs_text(used) {
                Some(t) => match parse_u64(t) {
                    Some(v) => v,
                    None => 0,
                },
                None => 0,
            }) && m.free == (if m.used <= m.total {
                m.total - m.used
            } else {
                0
            }) && m.bar1_total is None && m.bar1_used is None,
    {
        let total = match Self::read_sysfs_u64(total) {
            Some(v) => v,
            None => 0,
        };
        let used = match Self::read_sysfs_u64(used) {
            Some(v) => v,
            None => 0,
        };
        Ok(
            Memory {
                total,
                used,
                free: total.saturating_sub(used),
                bar1_total: None,
                bar1_used: None,
            },
        )
    }
}

/// The fan speed of a card's hwmon directory: a percentage of `pwm1_max`
/// (255 when unknown) when `pwm1` reads, else the RPM of `fan1_input`.
pub open spec fn fan_speed_of(pwm: Option<u32>, pwm_max: Option<u32>, rpm: Option<u32>) -> Option<
    FanSpeed,
> {
    match pwm {
        Some(p) => Some(
            FanSpeed::Percent(
                ((p * 100) / (match pwm_max {
                    Some(m) => m,
                    None => 255,
                }) as int) as u32,
            ),
        ),
        None => match rpm {
            Some(r) => Some(FanSpeed::Rpm(r)),
            None => None,
        },
    }
}

/// The fan speed from the values of `pwm1`, `pwm1_max` and `fan1_input`
/// that parsed.
pub fn fan_speed(pwm: Option<u32>, pwm_max: Option<u32>, rpm: Option<u32>) -> (r: Option<FanSpeed>)
    requires
        pwm matches Some(p) ==> p * 100 <= u32::MAX,
        pwm is Some ==> pwm_max != Some(0u32),
    ensures
        r == fan_speed_of(pwm, pwm_max, rpm),
{
    match pwm {
        Some(p) => {
            let m = match pwm_max {
                Some(m) => m,
                None => 255,
            };
            Some(FanSpeed::Percent((p * 100) / m))
        },
        None => match rpm {
            Some(r) => Some(FanSpeed::Rpm(r)),
            None => None,
        },
    }
}

/// The card number of a `/sys/class/drm` entry such as `card0` (entries
/// with a `-`, which are connectors, have none).
pub open spec fn drm_card_index(name: Seq<char>) -> Option<u32> {
    if starts_with(name, "card"@) && !name.contains('-') {
        parse_u32(strip_prefixes(name, "card"@))
    } else {
        None
    }
}

/// The card number of a `/sys/class/drm` entry.
pub fn card_index(name: &str) -> (r: Option<u32>)
    ensures
        r == drm_card_index(name@),
{
    let n = chars_of(name);
    let card = chars_of("card");
    if starts_with_exec(&n, &card) && !contains_char(&n, '-') {
        let rest = strip_prefixes_exec(&n, &card);
        parse_u32_chars(&rest)
    } else {
        None
    }
}

/// Whether a PCI vendor ID file names AMD (`0x1002`).
pub fn is_amd_vendor(vendor_id: &str) -> (b: bool)
    ensures
        b == (trim(vendor_id@) == "0x1002"@),
{
    let t = trim_chars(&chars_of(vendor_id));
    crate::text::eq_chars(&t, &chars_of("0x1002"))
}

/// The fan speed prefers the PWM duty: with `pwm1` read it is the share of
/// `pwm1_max` (255 when unknown) in whole percent, rounded down; only
/// without it does `fan1_input` give the speed in RPM.
pub proof fn lemma_fan_speed_prefers_pwm(pwm: Option<u32>, pwm_max: Option<u32>, rpm: Option<u32>)
    requires
        pwm_max != Some(0u32),
        pwm matches Some(p) ==> p * 100 <= u32::MAX,
    ensures
        pwm matches Some(p) ==> (fan_speed_of(pwm, pwm_max, rpm) matches Some(FanSpeed::Percent(q))
            && {
            let m: int = match pwm_max {
                Some(m) => m as int,
                None => 255,
            };
            q * m <= p * 100 < (q + 1) * m
        }),
        pwm is None ==> fan_speed_of(pwm, pwm_max, rpm) == (match rpm {
            Some(r) => Some(FanSpeed::Rpm(r)),
            None => None,
        }),
{
    if let Some(p) = pwm {
        let m: int = match pwm_max {
            Some(m) => m as int,
            None => 255,
        };
        let n: int = p * 100;
        assert(m > 0);
        assert((n / m) * m <= n < (n / m + 1) * m) by (nonlinear_arith)
            requires
                m > 0,
                n >= 0,
        ;
        assert(n / m <= n) by (nonlinear_arith)
            requires
                m > 0,
                n >= 0,
        ;
    }
}

} // verus!
