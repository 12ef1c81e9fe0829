use simon::gpu::amd::{amdgpu_client_memory, amdgpu_client_memory_checked};
use simon::gpu::intel::{client_engine_time, client_engine_time_fits, engine_time_fits, IntelDriver};
use simon::gpu::processes::{merge_process_lists, sort_dedup_by_pid, DriverProcess, MergedProcess};
use simon::gpu::{GpuProcess, GpuProcessType};

fn process(pid: u32, name: &str) -> GpuProcess {
    GpuProcess {
        pid,
        name: name.to_string(),
        user: String::new(),
        process_type: GpuProcessType::Unknown,
        gpu_usage: None,
        memory_usage: None,
        memory_usage_percent: None,
        encoder_usage: None,
        decoder_usage: None,
        cpu_usage: None,
        cpu_memory: None,
    }
}

#[test]
fn processes_sorted_one_per_pid() {
    let v = vec![process(30, "a"), process(10, "b"), process(30, "c"), process(20, "d"), process(10, "e")];
    let r = sort_dedup_by_pid(v);
    let pids: Vec<u32> = r.iter().map(|p| p.pid).collect();
    assert_eq!(pids, vec![10, 20, 30]);
    let names: Vec<&str> = r.iter().map(|p| p.name.as_str()).collect();
    assert_eq!(names, vec!["b", "d", "a"]);
    assert!(sort_dedup_by_pid(Vec::new()).is_empty());
}

#[test]
fn merged_graphics_and_compute() {
    let g = vec![
        DriverProcess { pid: 1, used_gpu_memory: Some(100) },
        DriverProcess { pid: 2, used_gpu_memory: None },
    ];
    let c = vec![
        DriverProcess { pid: 2, used_gpu_memory: Some(5) },
        DriverProcess { pid: 3, used_gpu_memory: Some(7) },
        DriverProcess { pid: 3, used_gpu_memory: Some(9) },
    ];
    let r = merge_process_lists(&g, &c);
    assert_eq!(
        r,
        vec![
            MergedProcess { pid: 1, process_type: GpuProcessType::Graphics, memory_usage: Some(100) },
            MergedProcess { pid: 2, process_type: GpuProcessType::GraphicsAndCompute, memory_usage: None },
            MergedProcess { pid: 3, process_type: GpuProcessType::GraphicsAndCompute, memory_usage: Some(7) },
        ]
    );
}

#[test]
fn amdgpu_fdinfo_clients() {
    let content = "pos:\t0\nflags:\t02\ndrm-driver:\tamdgpu\ndrm-memory-vram:\t2048 KiB\ndrm-memory-gtt:\t4 MiB\n";
    assert_eq!(amdgpu_client_memory(content), Some((2048 * 1024, 4 * 1024 * 1024)));
    assert_eq!(amdgpu_client_memory("drm-driver:\ti915\ndrm-memory-vram:\t1 KiB\n"), None);
    assert_eq!(amdgpu_client_memory("drm-driver:\tamdgpu\n"), Some((0, 0)));
    assert_eq!(
        amdgpu_client_memory_checked("drm-driver:\tamdgpu\ndrm-memory-vram:\t18446744073709551615 KiB\n"),
        None
    );
}

#[test]
fn intel_fdinfo_clients() {
    let content = "drm-driver:\ti915\ndrm-engine-render:\t100 ns\ndrm-engine-video:\t50 ns\ndrm-engine-copy:\tx ns\n";
    assert!(engine_time_fits(content));
    assert_eq!(client_engine_time(content, IntelDriver::I915), Some(150));
    assert_eq!(client_engine_time(content, IntelDriver::Xe), None);
    assert!(!engine_time_fits("drm-engine-a:\t18446744073709551615 ns\ndrm-engine-b:\t1 ns\n"));
}

#[test]
fn client_engine_times_fit_only_for_clients() {
    let big = "drm-driver:\ti915\ndrm-engine-a:\t18446744073709551615 ns\ndrm-engine-b:\t1 ns\n";
    assert!(!client_engine_time_fits(big, IntelDriver::I915));
    assert!(client_engine_time_fits(big, IntelDriver::Xe));
    assert!(client_engine_time_fits("drm-driver:\ti915\ndrm-engine-a:\t5 ns\n", IntelDriver::I915));
}
