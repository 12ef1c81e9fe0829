use simon::hwmon::linux::{core_temperature_name, is_cpu_temperature_chip};
use simon::hwmon::linux::{indexed_sensor_name, is_rapl_domain, rapl_sensor_name};
use simon::sysfs::pid_of_name;
use simon::hwmon::linux::{classify_hwmon_chip, input_sensor_name, is_storage_chip, is_whole_disk_name};
use simon::hwmon::HwType;

#[test]
fn hwmon_chip_classes() {
    assert_eq!(classify_hwmon_chip("coretemp"), HwType::Cpu);
    assert_eq!(classify_hwmon_chip("K10TEMP"), HwType::Cpu);
    assert_eq!(classify_hwmon_chip("amdgpu"), HwType::Gpu);
    assert_eq!(classify_hwmon_chip("nvme"), HwType::Storage);
    assert_eq!(classify_hwmon_chip("nct6798"), HwType::Motherboard);
    assert_eq!(classify_hwmon_chip("acpitz"), HwType::Other);
}

#[test]
fn hwmon_sensor_names() {
    assert_eq!(input_sensor_name("coretemp", "Temp", 1, Some("Package id 0\n")), "coretemp Package id 0");
    assert_eq!(input_sensor_name("coretemp", "Temp", 2, None), "coretemp Temp 2");
    assert_eq!(input_sensor_name("nct", "Fan", 3, Some("Fan 3")), "nct Fan 3");
}

#[test]
fn whole_disks_and_storage_chips() {
    assert!(is_whole_disk_name("sda"));
    assert!(!is_whole_disk_name("sda1"));
    assert!(!is_whole_disk_name("sd\u{e9}"));
    assert!(is_whole_disk_name("nvme0n1"));
    assert!(!is_whole_disk_name("nvme0n1p2"));
    assert!(is_storage_chip("drivetemp"));
    assert!(!is_storage_chip("coretemp"));
}

#[test]
fn cpu_directories() {
    assert_eq!(simon::hwmon::linux::cpu_number("cpu12").as_deref(), Some("12"));
    assert_eq!(simon::hwmon::linux::cpu_number("cpu").as_deref(), Some(""));
    assert_eq!(simon::hwmon::linux::cpu_number("cpufreq"), None);
    assert_eq!(simon::hwmon::linux::cpu_number("node0"), None);
}

#[test]
fn plain_sensor_names() {
    assert_eq!(indexed_sensor_name("nct6775", "PWM", 2, ""), "nct6775 PWM 2");
    assert_eq!(indexed_sensor_name("amdgpu", "Power", 1, " Avg"), "amdgpu Power 1 Avg");
    assert_eq!(rapl_sensor_name("package-0", "Power Limit"), "RAPL package-0 Power Limit");
    assert!(is_rapl_domain("intel-rapl:0"));
    assert!(!is_rapl_domain("dtpm"));
}

#[test]
fn process_ids_of_names() {
    assert_eq!(pid_of_name("1234"), Some(1234));
    assert_eq!(pid_of_name("self"), None);
    assert_eq!(pid_of_name(" 12"), None);
}

#[test]
fn cpu_temperature_chips_and_names() {
    assert!(is_cpu_temperature_chip("coretemp"));
    assert!(is_cpu_temperature_chip("k10temp"));
    assert!(!is_cpu_temperature_chip("nvme"));
    assert_eq!(core_temperature_name(Some("Package id 0\n"), 1), "Package id 0");
    assert_eq!(core_temperature_name(None, 3), "Core 2");
}

#[test]
fn ascii_chip_names_in_any_case() {
    assert_eq!(classify_hwmon_chip("NCT6798"), HwType::Motherboard);
    assert_eq!(classify_hwmon_chip("CoreTemp"), HwType::Cpu);
}
