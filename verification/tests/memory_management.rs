use simon::memory_management::{format_bytes, MemoryPressure, SwapDevice, SwapType};

fn float_reference(bytes: u64) -> String {
    const KB: u64 = 1024;
    const MB: u64 = KB * 1024;
    const GB: u64 = MB * 1024;
    if bytes >= GB {
        format!("{:.1} GB", bytes as f64 / GB as f64)
    } else if bytes >= MB {
        format!("{:.1} MB", bytes as f64 / MB as f64)
    } else if bytes >= KB {
        format!("{:.1} KB", bytes as f64 / KB as f64)
    } else {
        format!("{} B", bytes)
    }
}

#[test]
fn test_format_bytes() {
    assert_eq!(format_bytes(500), "500 B");
    assert_eq!(format_bytes(1024), "1.0 KB");
    assert_eq!(format_bytes(1024 * 1024), "1.0 MB");
    assert_eq!(format_bytes(1024 * 1024 * 1024), "1.0 GB");
}

#[test]
fn format_bytes_rounds_ties_to_even() {
    // 1280 bytes are exactly 1.25 KB
    assert_eq!(format_bytes(1280), "1.2 KB");
    // 1331.2 bytes would be 1.3 KB; 1331 bytes are 1.2998 KB
    assert_eq!(format_bytes(1331), "1.3 KB");
    assert_eq!(format_bytes(1023), "1023 B");
    assert_eq!(format_bytes(0), "0 B");
}

#[test]
fn format_bytes_matches_float_formatting() {
    let mut samples: Vec<u64> = vec![
        0, 1, 9, 10, 1023, 1024, 1025, 1075, 1076, 1280, 1331, 1536, 10240, 1048575, 1048576,
        1101004, 1101005, 5 * 1024 * 1024 + 52428, 1073741823, 1073741824, 1181116006,
        16_000_000_000, 1 << 53, (1 << 53) + 1, (1 << 54) + 3, (1 << 60) - 1, u64::MAX,
        u64::MAX - 1024, 123_456_789_012_345_678,
    ];
    let mut x: u64 = 0x9E37_79B9_7F4A_7C15;
    for _ in 0..2000 {
        x ^= x << 13;
        x ^= x >> 7;
        x ^= x << 17;
        samples.push(x >> (x % 60));
    }
    for b in samples {
        assert_eq!(format_bytes(b), float_reference(b), "bytes = {}", b);
    }
}

#[test]
fn test_swap_device_usage() {
    let device = SwapDevice {
        path: "/swapfile".to_string(),
        swap_type: SwapType::File,
        total_bytes: 1024 * 1024 * 1024,
        used_bytes: 512 * 1024 * 1024,
        priority: 0,
        active: true,
    };
    assert_eq!(device.available_bytes(), 512 * 1024 * 1024);
    let over = SwapDevice { used_bytes: 2 * 1024 * 1024 * 1024, ..device };
    assert_eq!(over.available_bytes(), 0);
}

#[test]
fn test_memory_pressure() {
    assert_eq!(MemoryPressure::from_ratio(50, 100), MemoryPressure::Low);
    assert_eq!(MemoryPressure::from_ratio(70, 100), MemoryPressure::Medium);
    assert_eq!(MemoryPressure::from_ratio(90, 100), MemoryPressure::High);
    assert_eq!(MemoryPressure::from_ratio(99, 100), MemoryPressure::Critical);
    assert_eq!(MemoryPressure::from_ratio(60, 100), MemoryPressure::Medium);
    assert_eq!(MemoryPressure::from_ratio(5, 0), MemoryPressure::Low);
    assert_eq!(MemoryPressure::Low.description(), "Memory pressure is low, system is healthy");
    assert_eq!(MemoryPressure::Critical.emoji(), "\u{1F534}");
}
