//! Fan control: profiles and their names, control modes, fan types, and the
//! values written to sysfs to select a profile.
use vstd::prelude::*;

use crate::error::SimonError;
use crate::num::{dec, push_dec};
use crate::text::{
    ascii_lower, chars_of, contains, contains_exec, extend_str, is_ascii_seq, lemma_contains_middle,
    lowercase, string_of, to_lower,
};

verus! {

/// Fan profile presets
#[derive(Debug, Clone, Copy, PartialEq, Eq, Hash, Structural)]
pub enum FanProfile {
    /// Silent operation - minimum fan speed
    Silent,
    /// Quiet operation - balanced noise/cooling
    Quiet,
    /// Cool operation - prioritize cooling
    Cool,
    /// Performance - maximum cooling
    Performance,
    /// Manual - user-controlled speed
    Manual,
    /// Automatic - system-controlled based on temperature
    Auto,
    /// Temperature-controlled (legacy Jetson)
    TempControl,
}

/// The name under which a profile is shown.
pub open spec fn profile_label(p: FanProfile) -> Seq<char> {
    match p {
        FanProfile::Silent => "silent"@,
        FanProfile::Quiet => "quiet"@,
        FanProfile::Cool => "cool"@,
        FanProfile::Performance => "performance"@,
        FanProfile::Manual => "manual"@,
        FanProfile::Auto => "auto"@,
        FanProfile::TempControl => "temp_control"@,
    }
}

/// The profile a lower-case name stands for (`automatic` is another name
/// of `auto`).
pub open spec fn profile_of(name: Seq<char>) -> Option<FanProfile> {
    if name == "silent"@ {
        Some(FanProfile::Silent)
    } else if name == "quiet"@ {
        Some(FanProfile::Quiet)
    } else if name == "cool"@ {
        Some(FanProfile::Cool)
    } else if name == "performance"@ {
        Some(FanProfile::Performance)
    } else if name == "manual"@ {
        Some(FanProfile::Manual)
    } else if name == "auto"@ || name == "automatic"@ {
        Some(FanProfile::Auto)
    } else if name == "temp_control"@ {
        Some(FanProfile::TempControl)
    } else {
        None
    }
}

/// The result of reading a profile from text whose lower-case form is
/// `lower`.
pub open spec fn parsed_profile(s: Seq<char>, lower: Seq<char>, r: Result<FanProfile, SimonError>) -> bool {
    match profile_of(lower) {
        Some(p) => r == Ok::<FanProfile, SimonError>(p),
        None => r matches Err(SimonError::InvalidValue(m)) && m@ == "Unknown fan profile: "@ + s,
    }
}

impl FanProfile {
    /// The profile's name (`silent`, `quiet`, `cool`, `performance`,
    /// `manual`, `auto`, `temp_control`).
    pub fn label(&self) -> (s: &'static str)
        ensures
            s@ == profile_label(*self),
    {
        match self {
            FanProfile::Silent => "silent",
            FanProfile::Quiet => "quiet",
            FanProfile::Cool => "cool",
            FanProfile::Performance => "performance",
            FanProfile::Manual => "manual",
            FanProfile::Auto => "auto",
            FanProfile::TempControl => "temp_control",
        }
    }

    /// The profile named by `s`, whatever its letter case; an unknown name
    /// is an `InvalidValue` error naming it.
    pub fn parse(s: &str) -> (r: Result<FanProfile, SimonError>)
        ensures
            parsed_profile(s@, lowercase(s@), r),
            is_ascii_seq(s@) ==> parsed_profile(
                s@,
                s@.map_values(|c: char| ascii_lower(c)),
                r,
            ),
            forall|p: FanProfile| #[trigger] profile_label(p) == s@ ==> r == Ok::<
                FanProfile,
                SimonError,
            >(p),
    {
        let r = Self::parse_lowered(s);
        proof {
            assert forall|p: FanProfile| #[trigger] profile_label(p) == s@ implies r == Ok::<
                FanProfile,
                SimonError,
            >(p) by {
                lemma_profile_name_round_trip(p);
            }
        }
        r
    }

    fn parse_lowered(s: &str) -> (r: Result<FanProfile, SimonError>)
        ensures
            parsed_profile(s@, lowercase(s@), r),
            is_ascii_seq(s@) ==> parsed_profile(
                s@,
                s@.map_values(|c: char| ascii_lower(c)),
                r,
            ),
    {
        let lower = to_lower(s);
        let l = lower.as_str();
        if crate::text::str_eq(l, "silent") {
            Ok(FanProfile::Silent)
        } else if crate::text::str_eq(l, "quiet") {
            Ok(FanProfile::Quiet)
        } else if crate::text::str_eq(l, "cool") {
            Ok(FanProfile::Cool)
        } else if crate::text::str_eq(l, "performance") {
            Ok(FanProfile::Performance)
        } else if crate::text::str_eq(l, "manual") {
            Ok(FanProfile::Manual)
        } else if crate::text::str_eq(l, "auto") || crate::text::str_eq(l, "automatic") {
            Ok(FanProfile::Auto)
        } else if crate::text::str_eq(l, "temp_control") {
            Ok(FanProfile::TempControl)
        } else {
            let mut m: Vec<char> = Vec::new();
            extend_str(&mut m, "Unknown fan profile: ");
            extend_str(&mut m, s);
            Err(SimonError::InvalidValue(string_of(m)))
        }
    }
}

impl std::str::FromStr for FanProfile {
    type Err = SimonError;

    fn from_str(s: &str) -> (r: Result<Self, SimonError>)
        ensures
            parsed_profile(s@, lowercase(s@), r),
            is_ascii_seq(s@) ==> parsed_profile(
                s@,
                s@.map_values(|c: char| ascii_lower(c)),
                r,
            ),
            forall|p: FanProfile| #[trigger] profile_label(p) == s@ ==> r == Ok::<
                FanProfile,
                SimonError,
            >(p),
    {
        FanProfile::parse(s)
    }
}

/// Fan control mode
#[derive(Debug, Clone, Copy, PartialEq, Eq, Structural)]
pub enum FanControlMode {
    /// PWM control (0-255 or 0-100%)
    Pwm,
    /// RPM target control
    Rpm,
    /// DC voltage control
    Dc,
    /// Automatic/thermal control
    Auto,
}

/// The control mode a hwmon `pwmN_enable` value selects: 0 is DC, 1 PWM,
/// anything else automatic.
pub open spec fn mode_of_enable(enable: u8) -> FanControlMode {
    if enable == 0 {
        FanControlMode::Dc
    } else if enable == 1 {
        FanControlMode::Pwm
    } else {
        FanControlMode::Auto
    }
}

impl FanControlMode {
    /// The control mode of a hwmon `pwmN_enable` value.
    pub fn from_pwm_enable(enable: u8) -> (m: FanControlMode)
        ensures
            m == mode_of_enable(enable),
    {
        match enable {
            0 => FanControlMode::Dc,
            1 => FanControlMode::Pwm,
            _ => FanControlMode::Auto,
        }
    }
}

/// A fan is under software control when its `pwmN_enable` value is below 2.
pub fn is_controllable(enable: u8) -> (b: bool)
    ensures
        b == (enable < 2),
{
    enable < 2
}

/// Fan type classification
#[derive(Debug, Clone, Copy, PartialEq, Eq, Structural)]
pub enum FanType {
    /// CPU cooler fan
    Cpu,
    /// GPU cooler fan
    Gpu,
    /// Case/chassis fan
    Case,
    /// Power supply fan
    Psu,
    /// Chipset fan
    Chipset,
    /// System/generic fan
    System,
    /// Unknown type
    Unknown,
}

pub open spec fn fan_type_label(t: FanType) -> Seq<char> {
    match t {
        FanType::Cpu => "CPU"@,
        FanType::Gpu => "GPU"@,
        FanType::Case => "Case"@,
        FanType::Psu => "PSU"@,
        FanType::Chipset => "Chipset"@,
        FanType::System => "System"@,
        FanType::Unknown => "Unknown"@,
    }
}

impl FanType {
    /// The name under which the fan type is shown.
    pub fn label(&self) -> (s: &'static str)
        ensures
            s@ == fan_type_label(*self),
    {
        match self {
            FanType::Cpu => "CPU",
            FanType::Gpu => "GPU",
            FanType::Case => "Case",
            FanType::Psu => "PSU",
            FanType::Chipset => "Chipset",
            FanType::System => "System",
            FanType::Unknown => "Unknown",
        }
    }
}

/// The fan type a lower-case description names, the first matching rule
/// winning: CPU, GPU, PSU, case, chipset.
pub open spec fn fan_type_of(l: Seq<char>) -> FanType {
    if contains(l, "cpu"@) || contains(l, "processor"@) {
        FanType::Cpu
    } else if contains(l, "gpu"@) || contains(l, "nvidia"@) || contains(l, "amd"@) {
        FanType::Gpu
    } else if contains(l, "psu"@) || contains(l, "power"@) {
        FanType::Psu
    } else if contains(l, "case"@) || contains(l, "chassis"@) || contains(l, "sys"@) {
        FanType::Case
    } else if contains(l, "chip"@) || contains(l, "pch"@) {
        FanType::Chipset
    } else {
        FanType::Unknown
    }
}

fn has(s: &Vec<char>, p: &str) -> (b: bool)
    ensures
        b == contains(s@, p@),
{
    let q = chars_of(p);
    contains_exec(s, &q)
}

/// The fan type named by a lower-case description.
pub fn fan_type_of_lowercase(l: &str) -> (t: FanType)
    ensures
        t == fan_type_of(l@),
{
    let c = chars_of(l);
    if has(&c, "cpu") || has(&c, "processor") {
        FanType::Cpu
    } else if has(&c, "gpu") || has(&c, "nvidia") || has(&c, "amd") {
        FanType::Gpu
    } else if has(&c, "psu") || has(&c, "power") {
        FanType::Psu
    } else if has(&c, "case") || has(&c, "chassis") || has(&c, "sys") {
        FanType::Case
    } else if has(&c, "chip") || has(&c, "pch") {
        FanType::Chipset
    } else {
        FanType::Unknown
    }
}

/// Classify fan type based on device/fan name: the two names joined by a
/// space, in lower case.
pub fn classify_fan_type(device_name: &str, fan_name: &str) -> (t: FanType)
    ensures
        t == fan_type_of(lowercase(device_name@ + " "@ + fan_name@)),
        is_ascii_seq(device_name@ + " "@ + fan_name@) ==> t == fan_type_of(
            (device_name@ + " "@ + fan_name@).map_values(|c: char| ascii_lower(c)),
        ),
{
    let mut j: Vec<char> = Vec::new();
    extend_str(&mut j, device_name);
    extend_str(&mut j, " ");
    extend_str(&mut j, fan_name);
    let joined = string_of(j);
    let lower = to_lower(joined.as_str());
    fan_type_of_lowercase(lower.as_str())
}

/// The name of the `i`-th fan of a hwmon device: `{device}_{i}`.
pub fn hwmon_fan_name(device_name: &str, i: u32) -> (s: String)
    ensures
        s@ == device_name@ + "_"@ + dec(i as nat),
{
    let mut v: Vec<char> = Vec::new();
    extend_str(&mut v, device_name);
    extend_str(&mut v, "_");
    push_dec(&mut v, i as u64);
    string_of(v)
}

/// The `pwm1_enable` value that selects a profile on a hwmon fan: manual
/// control (1) for the manual and silent profiles, automatic (2) for the
/// others.
pub open spec fn profile_pwm_enable(p: FanProfile) -> u8 {
    match p {
        FanProfile::Manual | FanProfile::Silent => 1,
        _ => 2,
    }
}

pub fn pwm_enable_for_profile(p: FanProfile) -> (v: u8)
    ensures
        v == profile_pwm_enable(p),
{
    match p {
        FanProfile::Manual => 1,
        FanProfile::Auto | FanProfile::Quiet | FanProfile::Cool | FanProfile::Performance => 2,
        FanProfile::Silent => 1,
        FanProfile::TempControl => 2,
    }
}

/// The `temp_control` value that selects a profile on a Jetson fan: `0` for
/// manual control, `1` otherwise.
pub fn temp_control_for_profile(p: FanProfile) -> (v: &'static str)
    ensures
        v@ == (if p == FanProfile::Manual {
            "0"@
        } else {
            "1"@
        }),
{
    match p {
        FanProfile::TempControl | FanProfile::Auto => "1",
        FanProfile::Manual => "0",
        _ => "1",
    }
}

/// The profile a Jetson fan reports through its `temp_control` file: `1`
/// (after trimming) means temperature control, anything else manual.
pub fn jetson_profile(temp_control: &str) -> (p: FanProfile)
    ensures
        p == (if crate::text::trim(temp_control@) == "1"@ {
            FanProfile::TempControl
        } else {
            FanProfile::Manual
        }),
{
    let c = chars_of(temp_control);
    let t = crate::text::trim_chars(&c);
    let one = chars_of("1");
    if crate::text::eq_chars(&t, &one) {
        FanProfile::TempControl
    } else {
        FanProfile::Manual
    }
}

/// A Jetson fan's `target_pwm` as a PWM value: values above 255 count as
/// 255.
pub fn jetson_pwm_value(target_pwm: u32) -> (v: u8)
    ensures
        v == (if target_pwm > 255 {
            255
        } else {
            target_pwm
        }),
{
    if target_pwm > 255 {
        255
    } else {
        target_pwm as u8
    }
}

// ---------------------------------------------------------------------------
// Laws
// ---------------------------------------------------------------------------
/// Reading a profile back from its name gives the profile: the name is
/// ASCII, already in lower case, and names that profile.
pub proof fn lemma_profile_name_round_trip(p: FanProfile)
    ensures
        is_ascii_seq(profile_label(p)),
        profile_label(p).map_values(|c: char| ascii_lower(c)) == profile_label(p),
        profile_of(profile_label(p)) == Some(p),
{
    reveal_strlit("silent");
    reveal_strlit("quiet");
    reveal_strlit("cool");
    reveal_strlit("performance");
    reveal_strlit("manual");
    reveal_strlit("auto");
    reveal_strlit("automatic");
    reveal_strlit("temp_control");
    assert("manual"@ != "silent"@) by {
        assert("manual"@[0] != "silent"@[0]);
    }
    assert("auto"@ != "cool"@) by {
        assert("auto"@[0] != "cool"@[0]);
    }
    let l = profile_label(p);
    assert(l.map_values(|c: char| ascii_lower(c)) =~= l);
}

/// How a lower-case fan description is classified, by the first group of
/// keywords it holds: `cpu`/`processor` make a CPU fan; else
/// `gpu`/`nvidia`/`amd` a GPU fan; else `psu`/`power` a power-supply fan;
/// else `case`/`chassis`/`sys` a case fan; else `chip`/`pch` a chipset fan;
/// a description with none of them is unknown.
pub proof fn lemma_fan_type_keywords(l: Seq<char>)
    ensures
        contains(l, "cpu"@) || contains(l, "processor"@) ==> fan_type_of(l) == FanType::Cpu,
        !contains(l, "cpu"@) && !contains(l, "processor"@) && (contains(l, "gpu"@) || contains(
            l,
            "nvidia"@,
        ) || contains(l, "amd"@)) ==> fan_type_of(l) == FanType::Gpu,
        !contains(l, "cpu"@) && !contains(l, "processor"@) && !contains(l, "gpu"@) && !contains(
            l,
            "nvidia"@,
        ) && !contains(l, "amd"@) && (contains(l, "psu"@) || contains(l, "power"@))
            ==> fan_type_of(l) == FanType::Psu,
        no_earlier_case_keyword(l) && (contains(l, "case"@) || contains(l, "chassis"@) || contains(
            l,
            "sys"@,
        )) ==> fan_type_of(l) == FanType::Case,
        no_earlier_case_keyword(l) && !contains(l, "case"@) && !contains(l, "chassis"@)
            && !contains(l, "sys"@) && (contains(l, "chip"@) || contains(l, "pch"@))
            ==> fan_type_of(l) == FanType::Chipset,
        fan_type_of(l) == FanType::Unknown <==> no_earlier_case_keyword(l) && !contains(
            l,
            "case"@,
        ) && !contains(l, "chassis"@) && !contains(l, "sys"@) && !contains(l, "chip"@)
            && !contains(l, "pch"@),
{
}

/// None of the keywords of CPU, GPU and power-supply fans.
pub open spec fn no_earlier_case_keyword(l: Seq<char>) -> bool {
    &&& !contains(l, "cpu"@)
    &&& !contains(l, "processor"@)
    &&& !contains(l, "gpu"@)
    &&& !contains(l, "nvidia"@)
    &&& !contains(l, "amd"@)
    &&& !contains(l, "psu"@)
    &&& !contains(l, "power"@)
}

/// A description with `sys`, `case` or `chassis` in it (such as
/// `nct6798 sys_fan1`) and no CPU, GPU or power-supply keyword is a case
/// fan.
pub proof fn lemma_case_fan_words(a: Seq<char>, b: Seq<char>)
    ensures
        no_earlier_case_keyword(a + "sys"@ + b) ==> fan_type_of(a + "sys"@ + b) == FanType::Case,
        no_earlier_case_keyword(a + "case"@ + b) ==> fan_type_of(a + "case"@ + b)
            == FanType::Case,
        no_earlier_case_keyword(a + "chassis"@ + b) ==> fan_type_of(a + "chassis"@ + b)
            == FanType::Case,
{
    lemma_contains_middle(a, "sys"@, b);
    lemma_contains_middle(a, "case"@, b);
    lemma_contains_middle(a, "chassis"@, b);
}

/// A description with `cpu` or `processor` in it is a CPU fan, whatever
/// else it says.
pub proof fn lemma_cpu_fan_words(a: Seq<char>, b: Seq<char>)
    ensures
        fan_type_of(a + "cpu"@ + b) == FanType::Cpu,
        fan_type_of(a + "processor"@ + b) == FanType::Cpu,
{
    lemma_contains_middle(a, "cpu"@, b);
    lemma_contains_middle(a, "processor"@, b);
}

/// A description with a GPU keyword (`gpu`, `nvidia`, `amd`) and no CPU
/// keyword is a GPU fan; with a power-supply keyword (`psu`, `power`) and
/// neither a CPU nor a GPU keyword a power-supply fan; with a chipset
/// keyword (`chip`, `pch`) and no earlier one a chipset fan.
pub proof fn lemma_fan_type_words(a: Seq<char>, b: Seq<char>)
    ensures
        !contains(a + "gpu"@ + b, "cpu"@) && !contains(a + "gpu"@ + b, "processor"@)
            ==> fan_type_of(a + "gpu"@ + b) == FanType::Gpu,
        !contains(a + "nvidia"@ + b, "cpu"@) && !contains(a + "nvidia"@ + b, "processor"@)
            ==> fan_type_of(a + "nvidia"@ + b) == FanType::Gpu,
        !contains(a + "amd"@ + b, "cpu"@) && !contains(a + "amd"@ + b, "processor"@)
            ==> fan_type_of(a + "amd"@ + b) == FanType::Gpu,
        !contains(a + "psu"@ + b, "cpu"@) && !contains(a + "psu"@ + b, "processor"@) && !contains(
            a + "psu"@ + b,
            "gpu"@,
        ) && !contains(a + "psu"@ + b, "nvidia"@) && !contains(a + "psu"@ + b, "amd"@)
            ==> fan_type_of(a + "psu"@ + b) == FanType::Psu,
        !contains(a + "power"@ + b, "cpu"@) && !contains(a + "power"@ + b, "processor"@)
            && !contains(a + "power"@ + b, "gpu"@) && !contains(a + "power"@ + b, "nvidia"@)
            && !contains(a + "power"@ + b, "amd"@) ==> fan_type_of(a + "power"@ + b)
            == FanType::Psu,
        no_earlier_case_keyword(a + "chip"@ + b) && !contains(a + "chip"@ + b, "case"@)
            && !contains(a + "chip"@ + b, "chassis"@) && !contains(a + "chip"@ + b, "sys"@)
            ==> fan_type_of(a + "chip"@ + b) == FanType::Chipset,
        no_earlier_case_keyword(a + "pch"@ + b) && !contains(a + "pch"@ + b, "case"@)
            && !contains(a + "pch"@ + b, "chassis"@) && !contains(a + "pch"@ + b, "sys"@)
            ==> fan_type_of(a + "pch"@ + b) == FanType::Chipset,
{
    lemma_contains_middle(a, "gpu"@, b);
    lemma_contains_middle(a, "nvidia"@, b);
    lemma_contains_middle(a, "amd"@, b);
    lemma_contains_middle(a, "psu"@, b);
    lemma_contains_middle(a, "power"@, b);
    lemma_contains_middle(a, "chip"@, b);
    lemma_contains_middle(a, "pch"@, b);
}

/// The `pwmN_enable` values: 0 is DC control, 1 PWM control, anything
/// higher automatic control.
pub proof fn lemma_enable_values(enable: u8)
    ensures
        enable == 0 ==> mode_of_enable(enable) == FanControlMode::Dc,
        enable == 1 ==> mode_of_enable(enable) == FanControlMode::Pwm,
        enable >= 2 ==> mode_of_enable(enable) == FanControlMode::Auto,
{
}

/// The manual and silent profiles put a hwmon fan under manual PWM
/// control; every other profile hands it to automatic control.
pub proof fn lemma_profile_control_modes(p: FanProfile)
    ensures
        (p == FanProfile::Manual || p == FanProfile::Silent) ==> mode_of_enable(
            profile_pwm_enable(p),
        ) == FanControlMode::Pwm,
        !(p == FanProfile::Manual || p == FanProfile::Silent) ==> mode_of_enable(
            profile_pwm_enable(p),
        ) == FanControlMode::Auto,
{
}

/// Each profile is read from its own name, and `automatic` is a second
/// name of the automatic profile; no two profiles share a name.
pub proof fn lemma_profile_names(p: FanProfile, q: FanProfile)
    ensures
        p == FanProfile::Silent <==> profile_label(p) == "silent"@,
        p == FanProfile::Quiet <==> profile_label(p) == "quiet"@,
        p == FanProfile::Cool <==> profile_label(p) == "cool"@,
        p == FanProfile::Performance <==> profile_label(p) == "performance"@,
        p == FanProfile::Manual <==> profile_label(p) == "manual"@,
        p == FanProfile::Auto <==> profile_label(p) == "auto"@,
        p == FanProfile::TempControl <==> profile_label(p) == "temp_control"@,
        profile_of("automatic"@) == Some(FanProfile::Auto),
        profile_label(p) == profile_label(q) ==> p == q,
{
    lemma_profile_name_round_trip(p);
    lemma_profile_name_round_trip(q);
    lemma_profile_name_round_trip(FanProfile::Silent);
    lemma_profile_name_round_trip(FanProfile::Quiet);
    lemma_profile_name_round_trip(FanProfile::Cool);
    lemma_profile_name_round_trip(FanProfile::Performance);
    lemma_profile_name_round_trip(FanProfile::Manual);
    lemma_profile_name_round_trip(FanProfile::Auto);
    lemma_profile_name_round_trip(FanProfile::TempControl);
    reveal_strlit("automatic");
    reveal_strlit("auto");
    reveal_strlit("silent");
    reveal_strlit("quiet");
    reveal_strlit("cool");
    reveal_strlit("performance");
    reveal_strlit("manual");
    reveal_strlit("temp_control");
    assert("automatic"@.len() == 9);
}

/// A hwmon fan is under software control exactly when its enable value
/// selects DC or PWM control rather than automatic control.
pub proof fn lemma_controllable_iff_manual_mode(enable: u8)
    ensures
        (enable < 2) == (mode_of_enable(enable) != FanControlMode::Auto),
{
}

/// Choosing a profile on a hwmon fan never turns the fan off: the enable
/// value is 1 or 2, which is PWM or automatic control.
pub proof fn lemma_profile_keeps_fan_driven(p: FanProfile)
    ensures
        mode_of_enable(profile_pwm_enable(p)) != FanControlMode::Dc,
{
}

} // verus!
