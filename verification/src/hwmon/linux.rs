//! Linux hwmon chips: which hardware a chip belongs to, and the names of its
//! sensors.
use vstd::prelude::*;

use crate::hwmon::HwType;
use crate::num::{dec, push_dec};
use crate::text::{
    ascii_lower, is_ascii_seq,
    chars_of, contains, contains_exec, eq_chars, extend, extend_str, lemma_contains_middle,
    lowercase, starts_with,
    starts_with_exec, string_of, to_lower, trim, trim_chars,
};

verus! {

/// The hardware a lower-case chip name belongs to, the first matching rule
/// winning: CPU, GPU, storage, motherboard (Super I/O) chips.
pub open spec fn chip_type_of(l: Seq<char>) -> HwType {
    if contains(l, "coretemp"@) || contains(l, "k10temp"@) || contains(l, "zenpower"@) || contains(
        l,
        "cpu"@,
    ) {
        HwType::Cpu
    } else if contains(l, "amdgpu"@) || contains(l, "nvidia"@) || contains(l, "radeon"@)
        || contains(l, "nouveau"@) || contains(l, "i915"@) {
        HwType::Gpu
    } else if contains(l, "nvme"@) || contains(l, "drivetemp"@) || contains(l, "ata"@) {
        HwType::Storage
    } else if contains(l, "nct"@) || contains(l, "it87"@) || contains(l, "f7"@) || contains(
        l,
        "nuvoton"@,
    ) || contains(l, "fintek"@) || contains(l, "smsc"@) {
        HwType::Motherboard
    } else {
        HwType::Other
    }
}

fn has(s: &Vec<char>, p: &str) -> (b: bool)
    ensures
        b == contains(s@, p@),
{
    contains_exec(s, &chars_of(p))
}

/// The hardware a lower-case chip name belongs to.
pub fn chip_type_of_lowercase(l: &str) -> (t: HwType)
    ensures
        t == chip_type_of(l@),
{
    let c = chars_of(l);
    if has(&c, "coretemp") || has(&c, "k10temp") || has(&c, "zenpower") || has(&c, "cpu") {
        HwType::Cpu
    } else if has(&c, "amdgpu") || has(&c, "nvidia") || has(&c, "radeon") || has(&c, "nouveau")
        || has(&c, "i915") {
        HwType::Gpu
    } else if has(&c, "nvme") || has(&c, "drivetemp") || has(&c, "ata") {
        HwType::Storage
    } else if has(&c, "nct") || has(&c, "it87") || has(&c, "f7") || has(&c, "nuvoton") || has(
        &c,
        "fintek",
    ) || has(&c, "smsc") {
        HwType::Motherboard
    } else {
        HwType::Other
    }
}

/// The hardware an hwmon chip belongs to, by its name in lower case.
pub fn classify_hwmon_chip(name: &str) -> (t: HwType)
    ensures
        t == chip_type_of(lowercase(name@)),
        is_ascii_seq(name@) ==> t == chip_type_of(name@.map_values(|c: char| ascii_lower(c))),
{
    let lower = to_lower(name);
    chip_type_of_lowercase(lower.as_str())
}

/// The name of the `i`-th input of a kind (`Temp`, `Fan`, ...) of a chip:
/// `{chip} {label}` when the input's label file gives a label other than
/// the default `{kind} {i}`, else `{chip} {kind} {i}`.
pub open spec fn sensor_name(chip: Seq<char>, kind: Seq<char>, i: nat, label: Option<Seq<char>>) -> Seq<char> {
    let default_label = kind + " "@ + dec(i);
    let l = match label {
        Some(t) => trim(t),
        None => default_label,
    };
    if l != default_label {
        chip + " "@ + l
    } else {
        chip + " "@ + default_label
    }
}

/// The name of an input of a chip, given the content of its label file
/// when it could be read.
pub fn input_sensor_name(chip: &str, kind: &str, i: u32, label: Option<&str>) -> (s: String)
    ensures
        s@ == sensor_name(
            chip@,
            kind@,
            i as nat,
            match label {
                Some(t) => Some(t@),
                None => None,
            },
        ),
{
    let mut d: Vec<char> = Vec::new();
    extend_str(&mut d, kind);
    extend_str(&mut d, " ");
    push_dec(&mut d, i as u64);
    let l = match label {
        Some(t) => trim_chars(&chars_of(t)),
        None => {
            let mut c: Vec<char> = Vec::new();
            extend(&mut c, &d);
            c
        },
    };
    let mut out: Vec<char> = Vec::new();
    extend_str(&mut out, chip);
    extend_str(&mut out, " ");
    if !eq_chars(&l, &d) {
        extend(&mut out, &l);
    } else {
        extend(&mut out, &d);
    }
    string_of(out)
}

/// The name of an unlabelled input: `{chip} {kind} {i}`, followed by
/// `suffix` when it is not empty (` Avg` for an average power input).
pub fn indexed_sensor_name(chip: &str, kind: &str, i: u32, suffix: &str) -> (s: String)
    ensures
        s@ == chip@ + " "@ + kind@ + " "@ + dec(i as nat) + suffix@,
{
    let mut out: Vec<char> = Vec::new();
    extend_str(&mut out, chip);
    extend_str(&mut out, " ");
    extend_str(&mut out, kind);
    extend_str(&mut out, " ");
    push_dec(&mut out, i as u64);
    extend_str(&mut out, suffix);
    string_of(out)
}

/// The name of a RAPL domain's figure: `RAPL {domain} {what}`
/// (`Energy`, `Power Limit`).
pub fn rapl_sensor_name(domain: &str, what: &str) -> (s: String)
    ensures
        s@ == "RAPL "@ + domain@ + " "@ + what@,
{
    let mut out: Vec<char> = Vec::new();
    extend_str(&mut out, "RAPL ");
    extend_str(&mut out, domain);
    extend_str(&mut out, " ");
    extend_str(&mut out, what);
    string_of(out)
}

/// A `/sys/class/powercap` entry that is a RAPL domain.
pub fn is_rapl_domain(name: &str) -> (b: bool)
    ensures
        b == starts_with(name@, "intel-rapl"@),
{
    starts_with_exec(&chars_of(name), &chars_of("intel-rapl"))
}

/// A hwmon chip whose temperatures are the CPU cores' (by its name as
/// read, case kept).
pub fn is_cpu_temperature_chip(name: &str) -> (b: bool)
    ensures
        b == (contains(name@, "coretemp"@) || contains(name@, "k10temp"@) || contains(
            name@,
            "cpu"@,
        )),
{
    let c = chars_of(name);
    has(&c, "coretemp") || has(&c, "k10temp") || has(&c, "cpu")
}

/// The name of a CPU chip's `i`-th temperature (counted from 1): its label,
/// trimmed, when the label file could be read, else `Core {i - 1}`.
pub fn core_temperature_name(label: Option<&str>, i: u32) -> (s: String)
    requires
        i >= 1,
    ensures
        s@ == (match label {
            Some(l) => trim(l@),
            None => "Core "@ + dec((i - 1) as nat),
        }),
{
    match label {
        Some(l) => string_of(trim_chars(&chars_of(l))),
        None => {
            let mut v: Vec<char> = Vec::new();
            extend_str(&mut v, "Core ");
            push_dec(&mut v, (i - 1) as u64);
            string_of(v)
        },
    }
}

/// A `/sys/class/block` entry of a whole disk rather than a partition: a
/// three-byte `sd?` name, or an NVMe namespace `nvme?n1` without a
/// partition suffix.
pub open spec fn is_whole_disk(name: Seq<char>) -> bool {
    (starts_with(name, "sd"@) && name.len() == 3 && (name[2] as u32) < 128) || (starts_with(
        name,
        "nvme"@,
    ) && contains(name, "n1"@) && !name.contains('p'))
}

/// Whether a block device name is that of a whole disk.
pub fn is_whole_disk_name(name: &str) -> (b: bool)
    ensures
        b == is_whole_disk(name@),
{
    let c = chars_of(name);
    (starts_with_exec(&c, &chars_of("sd")) && c.len() == 3 && (c[2] as u32) < 128) || (
    starts_with_exec(&c, &chars_of("nvme")) && has(&c, "n1") && !crate::text::contains_char(
        &c,
        'p',
    ))
}

/// A hwmon chip that reports a storage temperature.
pub fn is_storage_chip(name: &str) -> (b: bool)
    ensures
        b == (contains(name@, "nvme"@) || contains(name@, "drivetemp"@)),
{
    let c = chars_of(name);
    has(&c, "nvme") || has(&c, "drivetemp")
}

/// A `/sys/devices/system/cpu` entry of a CPU: `cpu` followed only by
/// digits (the number may be empty).
pub open spec fn is_cpu_dir(name: Seq<char>) -> bool {
    starts_with(name, "cpu"@) && forall|i: int| 3 <= i < name.len() ==> '0' <= #[trigger] name[i]
        <= '9'
}

/// The number of a CPU directory (`cpu3` gives `3`), none for other
/// entries.
pub fn cpu_number(name: &str) -> (r: Option<String>)
    ensures
        match r {
            Some(n) => is_cpu_dir(name@) && n@ == name@.skip(3),
            None => !is_cpu_dir(name@),
        },
{
    let c = chars_of(name);
    if !starts_with_exec(&c, &chars_of("cpu")) {
        return None;
    }
    proof {
        reveal_strlit("cpu");
    }
    let mut i: usize = 3;
    while i < c.len()
        invariant
            3 <= i <= c@.len(),
            c@ == name@,
            forall|j: int| 3 <= j < i ==> '0' <= #[trigger] c@[j] <= '9',
        decreases c@.len() - i,
    {
        if !('0' <= c[i] && c[i] <= '9') {
            assert(!('0' <= name@[i as int] <= '9'));
            return None;
        }
        i = i + 1;
    }
    let rest = crate::text::subvec(&c, 3, c.len());
    assert(rest@ =~= name@.skip(3));
    Some(string_of(rest))
}

// ---------------------------------------------------------------------------
// Laws
// ---------------------------------------------------------------------------
/// None of the names of CPU sensor chips.
pub open spec fn no_cpu_chip_word(l: Seq<char>) -> bool {
    !contains(l, "coretemp"@) && !contains(l, "k10temp"@) && !contains(l, "zenpower"@)
        && !contains(l, "cpu"@)
}

/// None of the names of GPU sensor chips.
pub open spec fn no_gpu_chip_word(l: Seq<char>) -> bool {
    !contains(l, "amdgpu"@) && !contains(l, "nvidia"@) && !contains(l, "radeon"@) && !contains(
        l,
        "nouveau"@,
    ) && !contains(l, "i915"@)
}

/// None of the names of storage sensor chips.
pub open spec fn no_storage_chip_word(l: Seq<char>) -> bool {
    !contains(l, "nvme"@) && !contains(l, "drivetemp"@) && !contains(l, "ata"@)
}

/// How a lower-case chip name is classified: a name with a CPU sensor
/// driver's name in it (`coretemp`, `k10temp`, `zenpower`, `cpu`) is a CPU
/// chip; else with a GPU driver's (`amdgpu`, `nvidia`, `radeon`, `nouveau`,
/// `i915`) a GPU chip; else with a storage one's (`nvme`, `drivetemp`,
/// `ata`) a storage chip; else a Super I/O chip's (`nct`, `it87`, `f7`,
/// `nuvoton`, `fintek`, `smsc`) is the motherboard's; anything else is other.
pub proof fn lemma_chip_type_words(a: Seq<char>, b: Seq<char>)
    ensures
        chip_type_of(a + "coretemp"@ + b) == HwType::Cpu,
        chip_type_of(a + "k10temp"@ + b) == HwType::Cpu,
        chip_type_of(a + "zenpower"@ + b) == HwType::Cpu,
        chip_type_of(a + "cpu"@ + b) == HwType::Cpu,
        no_cpu_chip_word(a + "amdgpu"@ + b) ==> chip_type_of(a + "amdgpu"@ + b) == HwType::Gpu,
        no_cpu_chip_word(a + "nvidia"@ + b) ==> chip_type_of(a + "nvidia"@ + b) == HwType::Gpu,
        no_cpu_chip_word(a + "radeon"@ + b) ==> chip_type_of(a + "radeon"@ + b) == HwType::Gpu,
        no_cpu_chip_word(a + "nouveau"@ + b) ==> chip_type_of(a + "nouveau"@ + b) == HwType::Gpu,
        no_cpu_chip_word(a + "i915"@ + b) ==> chip_type_of(a + "i915"@ + b) == HwType::Gpu,
        no_cpu_chip_word(a + "nvme"@ + b) && no_gpu_chip_word(a + "nvme"@ + b) ==> chip_type_of(
            a + "nvme"@ + b,
        ) == HwType::Storage,
        no_cpu_chip_word(a + "drivetemp"@ + b) && no_gpu_chip_word(a + "drivetemp"@ + b)
            ==> chip_type_of(a + "drivetemp"@ + b) == HwType::Storage,
        no_cpu_chip_word(a + "ata"@ + b) && no_gpu_chip_word(a + "ata"@ + b) ==> chip_type_of(
            a + "ata"@ + b,
        ) == HwType::Storage,
        no_cpu_chip_word(a + "nct"@ + b) && no_gpu_chip_word(a + "nct"@ + b)
            && no_storage_chip_word(a + "nct"@ + b) ==> chip_type_of(a + "nct"@ + b)
            == HwType::Motherboard,
        no_cpu_chip_word(a + "it87"@ + b) && no_gpu_chip_word(a + "it87"@ + b)
            && no_storage_chip_word(a + "it87"@ + b) ==> chip_type_of(a + "it87"@ + b)
            == HwType::Motherboard,
        no_cpu_chip_word(a + "f7"@ + b) && no_gpu_chip_word(a + "f7"@ + b) && no_storage_chip_word(
            a + "f7"@ + b,
        ) ==> chip_type_of(a + "f7"@ + b) == HwType::Motherboard,
        no_cpu_chip_word(a + "nuvoton"@ + b) && no_gpu_chip_word(a + "nuvoton"@ + b)
            && no_storage_chip_word(a + "nuvoton"@ + b) ==> chip_type_of(a + "nuvoton"@ + b)
            == HwType::Motherboard,
        no_cpu_chip_word(a + "fintek"@ + b) && no_gpu_chip_word(a + "fintek"@ + b)
            && no_storage_chip_word(a + "fintek"@ + b) ==> chip_type_of(a + "fintek"@ + b)
            == HwType::Motherboard,
        no_cpu_chip_word(a + "smsc"@ + b) && no_gpu_chip_word(a + "smsc"@ + b)
            && no_storage_chip_word(a + "smsc"@ + b) ==> chip_type_of(a + "smsc"@ + b)
            == HwType::Motherboard,
{
    lemma_contains_middle(a, "coretemp"@, b);
    lemma_contains_middle(a, "k10temp"@, b);
    lemma_contains_middle(a, "zenpower"@, b);
    lemma_contains_middle(a, "cpu"@, b);
    lemma_contains_middle(a, "amdgpu"@, b);
    lemma_contains_middle(a, "nvidia"@, b);
    lemma_contains_middle(a, "radeon"@, b);
    lemma_contains_middle(a, "nouveau"@, b);
    lemma_contains_middle(a, "i915"@, b);
    lemma_contains_middle(a, "nvme"@, b);
    lemma_contains_middle(a, "drivetemp"@, b);
    lemma_contains_middle(a, "ata"@, b);
    lemma_contains_middle(a, "nct"@, b);
    lemma_contains_middle(a, "it87"@, b);
    lemma_contains_middle(a, "f7"@, b);
    lemma_contains_middle(a, "nuvoton"@, b);
    lemma_contains_middle(a, "fintek"@, b);
    lemma_contains_middle(a, "smsc"@, b);
}

/// A chip name with none of the known drivers' names in it is other.
pub proof fn lemma_chip_type_other(l: Seq<char>)
    ensures
        no_cpu_chip_word(l) && no_gpu_chip_word(l) && no_storage_chip_word(l) && !contains(
            l,
            "nct"@,
        ) && !contains(l, "it87"@) && !contains(l, "f7"@) && !contains(l, "nuvoton"@) && !contains(
            l,
            "fintek"@,
        ) && !contains(l, "smsc"@) ==> chip_type_of(l) == HwType::Other,
{
}

} // verus!
