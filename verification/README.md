# simon

A hardware-monitoring library whose interpretation of system readings is
proved with Verus: what sysfs, procfs, `diskutil`, `vm_stat` and the GPU
drivers report is turned into disk, memory, GPU, fan and sensor values, and
those values into health checks, scores and text.

## Layout

- `src/` — the verified library.
  - `text.rs`, `num.rs` — the string and number primitives every parser is
    proved against (trimming, splitting, `lines`, `split_whitespace`,
    `parse::<uN>`, decimal rendering).
  - `sysfs.rs` — numbers read from sysfs and procfs files.
  - `pci.rs` — PCI addresses in device links, read byte by byte.
  - `memory_management.rs` and `memory_management/procfs.rs` — pressure
    levels, the memory health score, byte formatting, and the readers of
    `/proc/meminfo`, `/proc/swaps`, `/proc/vmstat`, zram, `vm.*` settings,
    process `status`/`cmdline`, `vm_stat`, `ps`, and the Windows page-file
    and process tables.
  - `disk/` — disk types and information; Linux sysfs/procfs readers, macOS
    `diskutil` readers, Windows drives and a one-entry-per-name monitor.
  - `gpu/` — vendor-neutral GPU records; AMD and Intel cards named and read
    from sysfs and fdinfo; the dynamic figures of AMD, Intel and NVIDIA GPUs
    from what sysfs or NVML answered; process lists (one entry per PID,
    graphics and compute merged); terminating a process.
  - `fan_control.rs`, `hwmon/` — fan profiles and modes, fan and chip
    classification, sensor naming, and drive temperatures and models from
    S.M.A.R.T. and storage-descriptor answers.
  - `health.rs` — checks, statuses, scores, and the overall assessment
    built from graded readings of CPU, memory, swap, GPUs and disks.
  - `gui/` — the colour palette and the texts of headers and legends.
- `tests/` — tests of the library on concrete readings.
- `app/` — the operating-system side: reading files, running commands,
  NVML, `statvfs`, floating-point percentages and sensor values, the GPU
  collection behind one trait object, and `Display` texts of the error
  types.
