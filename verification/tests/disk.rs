use simon::disk::linux::sectors_fit;
use simon::disk::macos::{disk_details, is_partition_name, parse_list_line, smart_status_health};
use simon::disk::traits::DiskHealth;
use simon::disk::windows::choose_counters;
use simon::disk::linux::{get_process_io, is_monitored_device_name, stat_fits, DiskAttributeReads, LinuxDisk};
use simon::disk::macos::MacDisk;
use simon::disk::traits::{DiskIoStats, DiskType, Error, FilesystemInfo};
use simon::disk::windows::{classify_wmi_disk, WindowsDisk, WindowsDiskMonitor};
use std::io;

fn missing() -> io::Error {
    io::Error::new(io::ErrorKind::NotFound, "missing")
}

fn disk(name: &str) -> LinuxDisk {
    LinuxDisk::new(name.to_string(), Ok("259:0\n".to_string()), Some("0\n".to_string())).unwrap()
}

#[test]
fn linux_disk_from_dev_file() {
    let d = disk("nvme0n1");
    assert_eq!(d.name(), "nvme0n1");
    assert_eq!(d.device_path(), "/dev/nvme0n1");
    assert_eq!(d.disk_type(), DiskType::NvmeSsd);
    assert_eq!(d.numbers(), (259, 0));
    match LinuxDisk::new("sda".to_string(), Err(missing()), None) {
        Err(Error::QueryFailed(m)) => assert!(m.starts_with("Failed to read /sys/block/sda/dev: ")),
        _ => panic!("expected a query failure"),
    }
}

#[test]
fn linux_disk_types() {
    assert_eq!(LinuxDisk::detect_disk_type("sda", Some("1\n")).unwrap(), DiskType::SataHdd);
    assert_eq!(LinuxDisk::detect_disk_type("sda", Some("0\n")).unwrap(), DiskType::SataSsd);
    assert_eq!(LinuxDisk::detect_disk_type("sdb", None).unwrap(), DiskType::SataSsd);
    assert_eq!(LinuxDisk::detect_disk_type("mmcblk0", None).unwrap(), DiskType::Unknown);
    assert_eq!(LinuxDisk::detect_disk_type("nvme1n1", Some("1")).unwrap(), DiskType::NvmeSsd);
}

#[test]
fn linux_sysfs_numbers() {
    let d = disk("sda");
    assert_eq!(d.read_sysfs_u64("size", Ok(" 976773168\n".to_string())).unwrap(), 976773168);
    match d.read_sysfs_u64("size", Ok("abc".to_string())) {
        Err(Error::ParseError(m)) => assert_eq!(m, "Failed to parse size: invalid digit found in string"),
        _ => panic!("expected a parse error"),
    }
    match d.read_sysfs_u64("size", Ok("\n".to_string())) {
        Err(Error::ParseError(m)) => assert_eq!(m, "Failed to parse size: cannot parse integer from empty string"),
        _ => panic!("expected a parse error"),
    }
    assert_eq!(d.read_sysfs_string("device/model", Ok("  Samsung SSD \n".to_string())).unwrap(), "Samsung SSD");
}

#[test]
fn linux_disk_info() {
    let d = disk("sda");
    let info = d
        .info(DiskAttributeReads {
            model: Err(missing()),
            vendor: Ok("ATA     \n".to_string()),
            rev: Err(missing()),
            size: Ok("2048\n".to_string()),
            logical_block_size: Ok("512\n".to_string()),
            physical_block_size: Ok("4096\n".to_string()),
            rotational: Ok("1\n".to_string()),
        })
        .unwrap();
    assert_eq!(info.model, "Unknown");
    assert_eq!(info.vendor.as_deref(), Some("ATA"));
    assert_eq!(info.firmware, None);
    assert_eq!(info.capacity, 2048 * 512);
    assert_eq!(info.block_size, 512);
    assert_eq!(info.physical_sector_size, Some(4096));
    assert_eq!(info.rotation_rate, Some(1));
    let failed = d.info(DiskAttributeReads {
        model: Err(missing()),
        vendor: Err(missing()),
        rev: Err(missing()),
        size: Err(missing()),
        logical_block_size: Err(missing()),
        physical_block_size: Err(missing()),
        rotational: Err(missing()),
    });
    assert!(matches!(failed, Err(Error::QueryFailed(_))));
}

#[test]
fn linux_io_stats() {
    let d = disk("sda");
    let line = "  100 5 2000 30 40 6 800 70 2 90 100\n";
    assert!(stat_fits(line));
    let s: DiskIoStats = d.io_stats(Ok(line.to_string())).unwrap();
    assert_eq!((s.read_ops, s.read_bytes, s.read_time_ms), (100, 2000 * 512, Some(30)));
    assert_eq!((s.write_ops, s.write_bytes, s.write_time_ms), (40, 800 * 512, Some(70)));
    assert_eq!(s.queue_depth, Some(2));
    match d.io_stats(Ok("1 2 3".to_string())) {
        Err(Error::ParseError(m)) => assert_eq!(m, "Invalid stat format"),
        _ => panic!("expected a parse error"),
    }
    assert!(!stat_fits("1 2 36028797018963968 4 5 6 7 8 9 10 11"));
}

#[test]
fn linux_mounts_of_a_disk() {
    let d = disk("sda");
    let mounts = "/dev/sda1 / ext4 rw 0 0\nproc /proc proc rw 0 0\n/dev/sda2 /home xfs rw 0 0\n/dev/sdb1 /mnt ext4 rw 0 0\n";
    let m = d.mounts(mounts);
    assert_eq!(m, vec![("/".to_string(), "ext4".to_string()), ("/home".to_string(), "xfs".to_string())]);
    let f = FilesystemInfo::from_statvfs("/".to_string(), "ext4".to_string(), 1000, 4096, 300, 400, 50, 20, false);
    assert_eq!((f.total_size, f.used_size, f.available_size), (4096000, 600 * 4096, 300 * 4096));
    assert_eq!(f.used_inodes, Some(30));
}

#[test]
fn linux_enumeration_filter() {
    assert!(is_monitored_device_name("sda"));
    assert!(!is_monitored_device_name("loop0"));
    assert!(!is_monitored_device_name("ram1"));
    assert!(!is_monitored_device_name("dm-0"));
}

#[test]
fn linux_process_io() {
    let io = get_process_io(
        42,
        Ok("rchar: 100\nwchar: 200\nsyscr: 3\nsyscw: 4\nread_bytes: 9\ncancelled_write_bytes: 5\n".to_string()),
    )
    .unwrap();
    assert_eq!((io.pid, io.read_bytes, io.write_bytes, io.read_syscalls, io.write_syscalls), (42, 100, 200, 3, 4));
    assert_eq!(io.cancelled_write_bytes, Some(5));
    match get_process_io(7, Err(missing())) {
        Err(Error::QueryFailed(m)) => assert!(m.starts_with("Failed to read /proc/7/io: ")),
        _ => panic!("expected a query failure"),
    }
}

#[test]
fn windows_disk_from_index() {
    let d = WindowsDisk::from_index(3).unwrap();
    assert_eq!(d.name(), "PhysicalDrive3");
    assert_eq!(d.device_path(), "\\\\.\\PhysicalDrive3");
    assert_eq!(d.disk_type(), DiskType::Unknown);
    let info = d.info().unwrap();
    assert_eq!(info.model, "Unknown");
    assert_eq!(info.rotation_rate, Some(7200));
    let s = d.io_stats((1, 2, 3, 4)).unwrap();
    assert_eq!((s.read_bytes, s.write_bytes, s.read_ops, s.write_ops), (1, 2, 3, 4));
}

#[test]
fn windows_disk_classification() {
    assert_eq!(classify_wmi_disk(Some("Samsung SSD 990 PRO 2TB"), None), DiskType::NvmeSsd);
    assert_eq!(classify_wmi_disk(Some("Samsung ssd 860"), Some("Fixed hard disk media")), DiskType::SataSsd);
    assert_eq!(classify_wmi_disk(Some("WDC WD10EZEX"), Some("Fixed hard disk media")), DiskType::SataHdd);
    assert_eq!(classify_wmi_disk(Some("Generic"), Some("Solid state")), DiskType::SataSsd);
    assert_eq!(classify_wmi_disk(None, Some("Solid state")), DiskType::Unknown);
    assert_eq!(classify_wmi_disk(None, Some("Removable Media")), DiskType::Usb);
    assert_eq!(classify_wmi_disk(None, None), DiskType::Unknown);
}

#[test]
fn windows_monitor_keeps_one_drive_per_name() {
    let a = WindowsDisk::new("PhysicalDrive0".to_string(), "p0".to_string(), DiskType::SataHdd, Some("A".to_string()), None, 10);
    let b = WindowsDisk::new("PhysicalDrive1".to_string(), "p1".to_string(), DiskType::SataSsd, None, None, 20);
    let c = WindowsDisk::new("PhysicalDrive0".to_string(), "p0b".to_string(), DiskType::NvmeSsd, None, None, 30);
    let m = WindowsDiskMonitor::new(Ok(vec![a, b, c])).unwrap();
    assert_eq!(m.disks().len(), 2);
    let d0 = m.disk_by_name("PhysicalDrive0").unwrap();
    assert_eq!(d0.device_path(), "p0b");
    assert_eq!(d0.disk_type(), DiskType::NvmeSsd);
    assert_eq!(d0.info().unwrap().capacity, 0);
    assert!(m.disk_by_name("PhysicalDrive9").is_none());
    assert!(matches!(WindowsDiskMonitor::new(Err(Error::NotFound)), Err(Error::NotFound)));
    assert!(matches!(WindowsDiskMonitor::new(Err(Error::QueryFailed("wmi".to_string()))), Err(Error::QueryFailed(m)) if m == "wmi"));
}

#[test]
fn mac_disk_with_info() {
    let d = MacDisk::new("disk0".to_string(), "/dev/disk0".to_string(), DiskType::SataSsd)
        .with_info(Some("APPLE SSD".to_string()), None, Some(500107862016));
    let info = d.info().unwrap();
    assert_eq!(info.model, "APPLE SSD");
    assert_eq!(info.capacity, 500107862016);
    assert_eq!(info.rotation_rate, Some(0));
    assert_eq!(d.name(), "disk0");
}

#[test]
fn io_totals() {
    let s = DiskIoStats {
        read_bytes: 5,
        write_bytes: 7,
        read_ops: 1,
        write_ops: 2,
        read_time_ms: None,
        write_time_ms: None,
        queue_depth: None,
        avg_latency_us: None,
        read_throughput: None,
        write_throughput: None,
    };
    assert_eq!(s.total_ops(), 3);
    assert_eq!(s.total_bytes(), 12);
}

#[test]
fn diskutil_details() {
    let text = "   Device Identifier:         disk0\n   Device / Media Name:       APPLE SSD AP0512Q \n   Disk Size:                 500.3 GB (500277790720 Bytes) (exactly 977105060 512-Byte-Units)\n";
    let (model, serial, size) = disk_details(text);
    assert_eq!(model.as_deref(), Some("APPLE SSD AP0512Q"));
    assert_eq!(serial, None);
    assert_eq!(size, Some(500277790720));
}

#[test]
fn diskutil_list_lines() {
    // The part after the first `s` must be digits: in `disk0s1` that part is
    // `k0s1`, so such names are kept; a name like `s12` is a partition.
    assert!(!is_partition_name("disk0s1"));
    assert!(is_partition_name("s12"));
    assert!(!is_partition_name("s12a"));
    assert!(!is_partition_name("disk0"));
    assert!(!is_partition_name("disks"));
    let (path, name, t) = parse_list_line("/dev/disk0 (internal, physical):").unwrap();
    assert_eq!((path.as_str(), name.as_str(), t), ("/dev/disk0", "disk0", DiskType::Unknown));
    let (_, _, t) = parse_list_line("/dev/disk1 (internal, Apple SSD):").unwrap();
    assert_eq!(t, DiskType::SataSsd);
    assert!(parse_list_line("/dev/disk3 (synthesized):").is_none());
    assert!(parse_list_line("/dev/disk4 (disk image):").is_none());
    assert!(parse_list_line("   0:  GUID_partition_scheme   *500.3 GB   disk0").is_none());
    assert!(parse_list_line("/dev/disk0s2 (internal):").is_some());
}

#[test]
fn diskutil_smart_status() {
    assert_eq!(smart_status_health("   SMART Status:              Verified\n"), DiskHealth::Healthy);
    assert_eq!(smart_status_health("   SMART Status:              Failing\n"), DiskHealth::Critical);
    assert_eq!(smart_status_health("   SMART Status:              Not Supported\n"), DiskHealth::Unknown);
    assert_eq!(smart_status_health(""), DiskHealth::Unknown);
}

#[test]
fn windows_perf_query() {
    let d = WindowsDisk::from_index(2).unwrap();
    assert!(d.perf_query().ends_with("WHERE Name LIKE '%2'"));
    assert_eq!(choose_counters(None, Some((1, 2, 3, 4))), (1, 2, 3, 4));
    assert_eq!(choose_counters(Some((5, 6, 7, 8)), Some((1, 2, 3, 4))), (5, 6, 7, 8));
    assert_eq!(choose_counters(None, None), (0, 0, 0, 0));
}

#[test]
fn sector_counts_fit() {
    assert!(sectors_fit(&Ok("1953525168\n".to_string())));
    assert!(sectors_fit(&Ok("36028797018963967".to_string())));
    assert!(!sectors_fit(&Ok("36028797018963968".to_string())));
    assert!(sectors_fit(&Ok("not a number".to_string())));
    assert!(sectors_fit(&Err(std::io::Error::new(std::io::ErrorKind::NotFound, "missing"))));
}

#[test]
fn wmi_models_classified_in_any_case() {
    assert_eq!(classify_wmi_disk(Some("Samsung SSD 990 Pro 2TB"), None), DiskType::NvmeSsd);
    assert_eq!(classify_wmi_disk(Some("kingston nvme a2000"), None), DiskType::NvmeSsd);
    assert_eq!(classify_wmi_disk(Some("crucial ssd"), None), DiskType::SataSsd);
}
