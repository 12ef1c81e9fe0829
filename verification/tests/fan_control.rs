use simon::error::SimonError;
use simon::fan_control::{
    classify_fan_type, hwmon_fan_name, is_controllable, jetson_profile, jetson_pwm_value,
    pwm_enable_for_profile, temp_control_for_profile, FanControlMode, FanProfile, FanType,
};

const ALL: [FanProfile; 7] = [
    FanProfile::Silent,
    FanProfile::Quiet,
    FanProfile::Cool,
    FanProfile::Performance,
    FanProfile::Manual,
    FanProfile::Auto,
    FanProfile::TempControl,
];

#[test]
fn profile_names_round_trip() {
    for p in ALL {
        assert_eq!(FanProfile::parse(p.label()).unwrap(), p);
        assert_eq!(p.label().parse::<FanProfile>().unwrap(), p);
    }
}

#[test]
fn profile_parsing_ignores_case() {
    assert_eq!(FanProfile::parse("Automatic").unwrap(), FanProfile::Auto);
    assert_eq!(FanProfile::parse("QUIET").unwrap(), FanProfile::Quiet);
    match FanProfile::parse("turbo") {
        Err(SimonError::InvalidValue(m)) => assert_eq!(m, "Unknown fan profile: turbo"),
        _ => panic!("expected an invalid value"),
    }
}

#[test]
fn control_modes() {
    assert_eq!(FanControlMode::from_pwm_enable(0), FanControlMode::Dc);
    assert_eq!(FanControlMode::from_pwm_enable(1), FanControlMode::Pwm);
    assert_eq!(FanControlMode::from_pwm_enable(2), FanControlMode::Auto);
    assert_eq!(FanControlMode::from_pwm_enable(5), FanControlMode::Auto);
    assert!(is_controllable(1));
    assert!(!is_controllable(2));
}

#[test]
fn fan_types() {
    assert_eq!(classify_fan_type("nct6798", "cpu_fan"), FanType::Cpu);
    assert_eq!(classify_fan_type("amdgpu", "amdgpu_1"), FanType::Gpu);
    assert_eq!(classify_fan_type("Corsair PSU", "fan"), FanType::Psu);
    assert_eq!(classify_fan_type("CHASSIS", "fan2"), FanType::Case);
    assert_eq!(classify_fan_type("pch_fan", "x"), FanType::Chipset);
    assert_eq!(classify_fan_type("thinkpad", "fan1"), FanType::Unknown);
    assert_eq!(FanType::Psu.label(), "PSU");
}

#[test]
fn sysfs_values_for_profiles() {
    assert_eq!(pwm_enable_for_profile(FanProfile::Manual), 1);
    assert_eq!(pwm_enable_for_profile(FanProfile::Silent), 1);
    assert_eq!(pwm_enable_for_profile(FanProfile::Performance), 2);
    assert_eq!(temp_control_for_profile(FanProfile::Manual), "0");
    assert_eq!(temp_control_for_profile(FanProfile::Cool), "1");
    assert_eq!(jetson_profile("1\n"), FanProfile::TempControl);
    assert_eq!(jetson_profile("0"), FanProfile::Manual);
    assert_eq!(jetson_pwm_value(300), 255);
    assert_eq!(jetson_pwm_value(100), 100);
    assert_eq!(hwmon_fan_name("nct6798", 2), "nct6798_2");
}
