use simon::memory_management::procfs::largest_first;
use simon::memory_management::procfs::parse_process_csv_row;
use simon::memory_management::procfs::macos_swap_devices;
use simon::memory_management::procfs::{ps_line_fits, swaps_fit};
use simon::memory_management::procfs::{
    pagefile_devices, parse_listed_pagefiles, parse_ps_line, parse_wmic_pagefiles, vm_stat_fits, drop_caches_level, meminfo_fits, process_memory_from_status, process_name_from_cmdline,
    status_fits, swappiness_value, vm_settings_read, ZramFiles,
};
use simon::memory_management::{MemoryInfo, MemoryMonitor, MemoryStats, SwapInfo, SwapType};

fn monitor() -> MemoryMonitor {
    MemoryMonitor {
        memory: MemoryInfo::zeroed(),
        swap: SwapInfo { total: 0, used: 0, free: 0, devices: Vec::new(), zram: None },
        stats: MemoryStats::default(),
        vm_settings: Vec::new(),
    }
}

const MEMINFO: &str = "MemTotal:       16000000 kB\nMemFree:         2000000 kB\nMemAvailable:    9000000 kB\nBuffers:          500000 kB\nCached:          4000000 kB\nSwapCached:            0 kB\nShmem:            300000 kB\nSReclaimable:     200000 kB\nSwapTotal:       8000000 kB\nSwapFree:        6000000 kB\nHugePages_Total:       0\nHugepagesize:       2048 kB\n";

#[test]
fn meminfo_figures() {
    assert!(meminfo_fits(MEMINFO));
    let mut m = monitor();
    m.read_meminfo(MEMINFO);
    assert_eq!(m.memory.total, 16000000 * 1024);
    assert_eq!(m.memory.free, 2000000 * 1024);
    assert_eq!(m.memory.available, 9000000 * 1024);
    assert_eq!(m.memory.used, (16000000 - 2000000 - 500000 - 4000000) * 1024);
    assert_eq!(m.memory.shared, 300000 * 1024);
    assert_eq!(m.memory.hugepage_size, 2048 * 1024);
    assert_eq!(m.swap.total, 8000000 * 1024);
    assert_eq!(m.swap.used, 2000000 * 1024);
}

#[test]
fn meminfo_defaults() {
    let mut m = monitor();
    m.read_meminfo("MemTotal: 100 kB\nMemFree: 300 kB\n");
    assert_eq!(m.memory.available, 300 * 1024);
    assert_eq!(m.memory.used, 0);
    assert!(!meminfo_fits("MemTotal: 18014398509481984 kB\n"));
}

#[test]
fn swaps_listing() {
    let mut m = monitor();
    m.read_swap_devices("Filename\tType\tSize\tUsed\tPriority\n/swapfile file 1024 512 -2\n/dev/zram0 partition 4096 0 100\n/dev/zram1 zdev 10 1 x\nshort line\n");
    let d = &m.swap.devices;
    assert_eq!(d.len(), 3);
    assert_eq!(d[0].path, "/swapfile");
    assert_eq!(d[0].swap_type, SwapType::File);
    assert_eq!((d[0].total_bytes, d[0].used_bytes, d[0].priority), (1024 * 1024, 512 * 1024, -2));
    assert_eq!(d[1].swap_type, SwapType::Partition);
    assert_eq!(d[2].swap_type, SwapType::Zram);
    assert_eq!(d[2].priority, 0);
    assert!(d.iter().all(|x| x.active));
}

#[test]
fn vmstat_counters() {
    let mut m = monitor();
    m.stats.oom_kills = 9;
    m.read_vmstat("pgfault 100\npgmajfault 5\npswpin 1\npswpout 2\npgalloc_normal 40\npgfree 30\nnr_free_pages 7\n");
    assert_eq!(m.stats.page_faults_minor, 100);
    assert_eq!(m.stats.page_faults_major, 5);
    assert_eq!((m.stats.swap_in, m.stats.swap_out), (1, 2));
    assert_eq!((m.stats.pages_allocated, m.stats.pages_freed), (40, 30));
    assert_eq!(m.stats.oom_kills, 9);
}

#[test]
fn zram_device() {
    let mut m = monitor();
    m.read_zram(Some(ZramFiles {
        disksize: Some("8589934592\n".to_string()),
        compr_data_size: Some("1000\n".to_string()),
        orig_data_size: Some("3000\n".to_string()),
        mem_used_total: Some("1200\n".to_string()),
        comp_algorithm: Some("lzo lzo-rle [zstd] lz4\n".to_string()),
    }));
    let z = m.swap.zram.as_ref().unwrap();
    assert_eq!(z.device, "zram0");
    assert_eq!(z.disksize, 8589934592);
    assert_eq!((z.compressed_bytes, z.original_bytes, z.mem_used_bytes), (1000, 3000, 1200));
    assert_eq!(z.algorithm, "zstd");
    assert_eq!(z.memory_savings(), 1800);
    m.read_zram(Some(ZramFiles {
        disksize: None,
        compr_data_size: None,
        orig_data_size: None,
        mem_used_total: None,
        comp_algorithm: Some("lz4\n".to_string()),
    }));
    assert_eq!(m.swap.zram.as_ref().unwrap().algorithm, "lz4");
    assert_eq!(m.swap.zram.as_ref().unwrap().disksize, 0);
    m.read_zram(None);
    assert!(m.swap.zram.is_none());
}

#[test]
fn vm_settings() {
    let names = vm_settings_read();
    assert_eq!(names[0], "swappiness");
    let mut m = monitor();
    let mut values = vec![None; 7];
    values[0] = Some("60\n".to_string());
    values[4] = Some("67584\n".to_string());
    m.read_vm_settings(values);
    assert_eq!(
        m.vm_settings,
        vec![("swappiness".to_string(), "60".to_string()), ("min_free_kbytes".to_string(), "67584".to_string())]
    );
}

#[test]
fn process_status_and_name() {
    let status = "Name:\tbash\nVmSize:\t  8000 kB\nVmRSS:\t  4000 kB\nVmSwap:\t0 kB\nThreads:\t1\n";
    assert!(status_fits(status));
    assert_eq!(process_memory_from_status(status), (4000 * 1024, 8000 * 1024, 0));
    assert_eq!(process_name_from_cmdline("/usr/bin/python3\0script.py\0"), "python3");
    assert_eq!(process_name_from_cmdline(""), "");
    assert_eq!(process_name_from_cmdline("bash"), "bash");
}

#[test]
fn tuning_values() {
    assert_eq!(swappiness_value(150), 100);
    assert_eq!(swappiness_value(10), 10);
    assert_eq!(drop_caches_level(0), 1);
    assert_eq!(drop_caches_level(2), 2);
    assert_eq!(drop_caches_level(9), 3);
}

#[test]
fn health_score_from_readings() {
    let mut m = monitor();
    m.read_meminfo(MEMINFO);
    // 9.5 GB used of 16 GB is 59%: low pressure, swap 25% used: low pressure.
    assert_eq!(m.health_score(), 75);
}

#[test]
fn macos_vm_stat_figures() {
    let vm_stat = "Mach Virtual Memory Statistics: (page size of 16384 bytes)\nPages free:                               10.\nPages active:                             20.\nPages inactive:                           30.\nPages wired down:                         40.\nPages occupied by compressor:             5.\n";
    assert!(vm_stat_fits(vm_stat));
    let mut m = monitor();
    m.read_macos_memory(Some(vm_stat), Some("1000000\n"));
    assert_eq!(m.memory.free, 10 * 16384);
    assert_eq!(m.memory.active, 20 * 16384);
    assert_eq!(m.memory.inactive, 30 * 16384);
    assert_eq!(m.memory.cached, 5 * 16384);
    assert_eq!(m.memory.total, 1000000);
    assert_eq!(m.memory.available, 40 * 16384);
    assert_eq!(m.memory.used, 1000000 - 40 * 16384);
}

#[test]
fn macos_ps_lines() {
    assert_eq!(
        parse_ps_line("  123  2048  4096 /Applications/Some App.app/Contents/MacOS/Some App"),
        Some((123, 2048 * 1024, 4096 * 1024, "/Applications/Some App.app/Contents/MacOS/Some App".to_string()))
    );
    assert_eq!(parse_ps_line("PID RSS VSZ"), None);
    assert_eq!(parse_ps_line("x y z cmd"), Some((0, 0, 0, "cmd".to_string())));
}

#[test]
fn windows_memory_figures() {
    let mut m = monitor();
    m.read_windows_memory(16 * 1024, 6 * 1024);
    assert_eq!(m.memory.total, 16 * 1024);
    assert_eq!(m.memory.available, 6 * 1024);
    assert_eq!(m.memory.free, 6 * 1024);
    assert_eq!(m.memory.used, 10 * 1024);
    assert_eq!(m.memory.cached, 0);
    m.read_windows_memory(100, 200);
    assert_eq!(m.memory.used, 0);
}

#[test]
fn windows_page_file_figures() {
    let mut m = monitor();
    // commit limit 24, physical 16, available commit 10, available physical 6
    m.read_windows_swap(24, 16, 10, 6);
    assert_eq!(m.swap.total, 8);
    assert_eq!(m.swap.free, 10);
    assert_eq!(m.swap.used, 4);
    m.read_windows_swap(10, 16, 3, 6);
    assert_eq!(m.swap.total, 0);
    assert_eq!(m.swap.used, 0);
}

#[test]
fn wmic_page_file_rows() {
    let csv = "Node,Name,AllocatedBaseSize\nHOST,C:\\pagefile.sys,4096\nHOST,,0\nshort,row\nHOST,D:\\swap.sys,1024\n";
    let names = parse_wmic_pagefiles(csv);
    assert_eq!(names, vec!["C:\\pagefile.sys".to_string(), "D:\\swap.sys".to_string()]);
    assert!(parse_wmic_pagefiles("").is_empty());
    assert!(parse_wmic_pagefiles("Node,Name,Size").is_empty());
}

#[test]
fn listed_page_files() {
    let text = "  C:\\pagefile.sys  \nsomething else\nD:\\SWAP.SYS\n";
    let names = parse_listed_pagefiles(text);
    assert_eq!(names, vec!["C:\\pagefile.sys".to_string(), "D:\\SWAP.SYS".to_string()]);
}

#[test]
fn page_file_devices() {
    let d = pagefile_devices(vec!["C:\\pagefile.sys".to_string()], 100, 40);
    assert_eq!(d.len(), 1);
    assert_eq!(d[0].path, "C:\\pagefile.sys");
    assert_eq!(d[0].swap_type, SwapType::File);
    assert_eq!(d[0].total_bytes, 100);
    assert_eq!(d[0].used_bytes, 40);
    let fallback = pagefile_devices(Vec::new(), 100, 40);
    assert_eq!(fallback.len(), 1);
    assert_eq!(fallback[0].path, "C:\\pagefile.sys");
    assert!(pagefile_devices(Vec::new(), 0, 0).is_empty());
}

#[test]
fn windows_process_rows() {
    let row = parse_process_csv_row("\"1234\",\"chrome\",\"524288000\",\"2199023255552\",\"104857600\"");
    assert_eq!(row, Some((1234, "chrome".to_string(), 524288000, 2199023255552, 104857600)));
    let odd = parse_process_csv_row("\"x\",\"\"\"quoted\"\"\",\"\",\"7\",\"8\",\"extra\"");
    assert_eq!(odd, Some((0, "quoted".to_string(), 0, 7, 8)));
    assert_eq!(parse_process_csv_row("\"1\",\"a\",\"2\",\"3\""), None);
}

#[test]
fn macos_swap_files() {
    let d = macos_swap_devices(2048, 512);
    assert_eq!(d.len(), 1);
    assert_eq!(d[0].path, "/private/var/vm/swapfile*");
    assert_eq!(d[0].total_bytes, 2048);
    assert_eq!(d[0].used_bytes, 512);
    assert!(macos_swap_devices(0, 0).is_empty());
}

#[test]
fn swaps_and_ps_sizes_fit() {
    assert!(swaps_fit("Filename Type Size Used Priority\n/dev/sda2 partition 8000000 100 -2\n"));
    assert!(!swaps_fit("Filename Type Size Used Priority\n/dev/sda2 partition 18014398509481984 100 -2\n"));
    assert!(swaps_fit("Filename Type Size Used Priority\n/dev/sda2 partition 18014398509481983 0 -2\n"));
    assert!(ps_line_fits("  1 2048 4096 /sbin/launchd"));
    assert!(!ps_line_fits("  1 18014398509481984 4096 /sbin/launchd"));
    assert!(ps_line_fits("short line"));
}

#[test]
fn largest_processes_first_stably() {
    let rss = vec![10, 30, 20, 30, 5];
    assert_eq!(largest_first(&rss, 10), vec![1, 3, 2, 0, 4]);
    assert_eq!(largest_first(&rss, 2), vec![1, 3]);
    assert_eq!(largest_first(&rss, 0), Vec::<usize>::new());
    assert_eq!(largest_first(&Vec::new(), 3), Vec::<usize>::new());
}
