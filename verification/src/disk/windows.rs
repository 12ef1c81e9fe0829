//! Windows disks: physical drives as WMI describes them, their
//! classification, and a monitor that keeps one entry per drive name.
use vstd::prelude::*;

use crate::disk::traits::{DiskInfo, DiskIoStats, DiskType, Error};
use crate::num::{dec, push_dec};
use crate::text::{
    ascii_upper, is_ascii_seq, lemma_contains_middle,
    chars_of, contains, contains_exec, extend, extend_str, opt_string_view, owned, remove_all,
    remove_all_exec, string_of, to_upper, uppercase,
};

verus! {

/// Windows disk device implementation
#[derive(Debug, Clone)]
pub struct WindowsDisk {
    name: String,
    device_path: String,
    disk_type: DiskType,
    model: Option<String>,
    serial: Option<String>,
    size: u64,
}

impl WindowsDisk {
    pub closed spec fn spec_name(self) -> Seq<char> {
        self.name@
    }

    pub closed spec fn spec_device_path(self) -> Seq<char> {
        self.device_path@
    }

    pub closed spec fn spec_disk_type(self) -> DiskType {
        self.disk_type
    }

    pub closed spec fn spec_model(self) -> Option<Seq<char>> {
        opt_string_view(self.model)
    }

    pub closed spec fn spec_serial(self) -> Option<Seq<char>> {
        opt_string_view(self.serial)
    }

    pub closed spec fn spec_size(self) -> u64 {
        self.size
    }

    pub fn new(
        name: String,
        device_path: String,
        disk_type: DiskType,
        model: Option<String>,
        serial: Option<String>,
        size: u64,
    ) -> (d: Self)
        ensures
            d.spec_name() == name@,
            d.spec_device_path() == device_path@,
            d.spec_disk_type() == disk_type,
            d.spec_model() == opt_string_view(model),
            d.spec_serial() == opt_string_view(serial),
            d.spec_size() == size,
    {
        WindowsDisk { name, device_path, disk_type, model, serial, size }
    }

    /// Create from device index (e.g., 0 for PhysicalDrive0)
    pub fn from_index(index: u32) -> (r: Result<Self, Error>)
        ensures
            r matches Ok(d) && d.spec_name() == "PhysicalDrive"@ + dec(index as nat)
                && d.spec_device_path() == "\\\\.\\PhysicalDrive"@ + dec(index as nat)
                && d.spec_disk_type() == DiskType::Unknown && d.spec_model() is None
                && d.spec_serial() is None && d.spec_size() == 0,
    {
        let mut n: Vec<char> = Vec::new();
        extend_str(&mut n, "PhysicalDrive");
        push_dec(&mut n, index as u64);
        let mut p: Vec<char> = Vec::new();
        extend_str(&mut p, "\\\\.\\PhysicalDrive");
        push_dec(&mut p, index as u64);
        let disk_type = Self::detect_disk_type(index);
        Ok(
            WindowsDisk {
                name: string_of(n),
                device_path: string_of(p),
                disk_type,
                model: None,
                serial: None,
                size: 0,
            },
        )
    }

    /// Detect disk type from Windows APIs; no query is made, so every drive
    /// is of unknown type.
    pub fn detect_disk_type(_index: u32) -> (t: DiskType)
        ensures
            t == DiskType::Unknown,
    {
        DiskType::Unknown
    }

    /// Device name
    pub fn name(&self) -> (s: &str)
        ensures
            s@ == self.spec_name(),
    {
        self.name.as_str()
    }

    /// Disk type
    pub fn disk_type(&self) -> (t: DiskType)
        ensures
            t == self.spec_disk_type(),
    {
        self.disk_type
    }

    /// Device path (`\\.\PhysicalDriveN`)
    pub fn device_path(&self) -> (s: &str)
        ensures
            s@ == self.spec_device_path(),
    {
        self.device_path.as_str()
    }

    /// Static information: the model (`Unknown` when there is none), serial
    /// and size as recorded, 512-byte sectors, and 0 RPM for solid-state
    /// drives, 7200 RPM for the others.
    pub fn info(&self) -> (r: Result<DiskInfo, Error>)
        ensures
            r matches Ok(i) && i.name@ == self.spec_name() && i.model@ == (match self.spec_model() {
                Some(m) => m,
                None => "Unknown"@,
            }) && opt_string_view(i.serial) == self.spec_serial() && i.firmware is None && i.capacity
                == self.spec_size() && i.block_size == 512 && i.disk_type == self.spec_disk_type()
                && i.physical_sector_size == Some(512u32) && i.logical_sector_size == Some(512u32)
                && i.rotation_rate == (if self.spec_disk_type() == DiskType::NvmeSsd
                || self.spec_disk_type() == DiskType::SataSsd {
                Some(0u32)
            } else {
                Some(7200u32)
            }) && i.vendor is None,
    {
        let model = match &self.model {
            Some(m) => owned(m.as_str()),
            None => owned("Unknown"),
        };
        let serial = match &self.serial {
            Some(s) => Some(owned(s.as_str())),
            None => None,
        };
        let rotation_rate = match self.disk_type {
            DiskType::NvmeSsd | DiskType::SataSsd => Some(0u32),
            _ => Some(7200u32),
        };
        Ok(
            DiskInfo {
                name: owned(self.name.as_str()),
                model,
                serial,
                firmware: None,
                capacity: self.size,
                block_size: 512,
                disk_type: self.disk_type,
                physical_sector_size: Some(512),
                logical_sector_size: Some(512),
                rotation_rate,
                vendor: None,
            },
        )
    }

    /// I/O statistics from the performance counters of the drive (bytes
    /// read and written per second, reads and writes per second).
    pub fn io_stats(&self, counters: (u64, u64, u64, u64)) -> (r: Result<DiskIoStats, Error>)
        ensures
            r == Ok::<DiskIoStats, Error>(
                DiskIoStats {
                    read_bytes: counters.0,
                    write_bytes: counters.1,
                    read_ops: counters.2,
                    write_ops: counters.3,
                    read_time_ms: Some(0u64),
                    write_time_ms: Some(0u64),
                    queue_depth: Some(0u32),
                    avg_latency_us: None,
                    read_throughput: None,
                    write_throughput: None,
                },
            ),
    {
        let (read_bytes, write_bytes, read_ops, write_ops) = counters;
        Ok(
            DiskIoStats {
                read_bytes,
                write_bytes,
                read_ops,
                write_ops,
                read_time_ms: Some(0),
                write_time_ms: Some(0),
                queue_depth: Some(0),
                avg_latency_us: None,
                read_throughput: None,
                write_throughput: None,
            },
        )
    }
}


/// The performance-counter query for one drive: its instance is matched by
/// the drive number (the name without `PhysicalDrive`).
pub open spec fn perf_query_text(name: Seq<char>) -> Seq<char> {
    "SELECT Name, DiskReadBytesPerSec, DiskWriteBytesPerSec, DiskReadsPerSec, DiskWritesPerSec FROM Win32_PerfFormattedData_PerfDisk_PhysicalDisk WHERE Name LIKE '%"@
        + remove_all(name, "PhysicalDrive"@) + "'"@
}

impl WindowsDisk {
    /// The WMI query for this drive's performance counters.
    pub fn perf_query(&self) -> (q: String)
        ensures
            q@ == perf_query_text(self.spec_name()),
    {
        let mut v: Vec<char> = Vec::new();
        extend_str(
            &mut v,
            "SELECT Name, DiskReadBytesPerSec, DiskWriteBytesPerSec, DiskReadsPerSec, DiskWritesPerSec FROM Win32_PerfFormattedData_PerfDisk_PhysicalDisk WHERE Name LIKE '%",
        );
        let p = chars_of("PhysicalDrive");
        proof {
            reveal_strlit("PhysicalDrive");
        }
        let n = remove_all_exec(&chars_of(self.name.as_str()), &p);
        extend(&mut v, &n);
        extend_str(&mut v, "'");
        string_of(v)
    }
}

/// The counters to report: the drive's own instance, else the `_Total`
/// instance, else zeros (each as bytes read and written per second, reads
/// and writes per second).
pub fn choose_counters(drive: Option<(u64, u64, u32, u32)>, total: Option<(u64, u64, u32, u32)>) -> (r:
    (u64, u64, u64, u64))
    ensures
        r == (match drive {
            Some(d) => (d.0, d.1, d.2 as u64, d.3 as u64),
            None => match total {
                Some(t) => (t.0, t.1, t.2 as u64, t.3 as u64),
                None => (0, 0, 0, 0),
            },
        }),
{
    match drive {
        Some(d) => (d.0, d.1, d.2 as u64, d.3 as u64),
        None => match total {
            Some(t) => (t.0, t.1, t.2 as u64, t.3 as u64),
            None => (0, 0, 0, 0),
        },
    }
}

// ---------------------------------------------------------------------------
// Classification of WMI drives
// ---------------------------------------------------------------------------
/// The disk type a WMI media type describes (`SSD`, `Solid` only where the
/// model was looked at first).
pub open spec fn media_disk_type(media: Option<Seq<char>>, solid_counts: bool) -> DiskType {
    match media {
        Some(m) => if contains(m, "SSD"@) || (solid_counts && contains(m, "Solid"@)) {
            DiskType::SataSsd
        } else if contains(m, "NVMe"@) {
            DiskType::NvmeSsd
        } else if contains(m, "Removable"@) {
            DiskType::Usb
        } else if contains(m, "Fixed"@) {
            DiskType::SataHdd
        } else {
            DiskType::Unknown
        },
        None => DiskType::Unknown,
    }
}

/// The disk type of a WMI drive: from its upper-cased model when that names
/// NVMe or SSD products, else from its media type.
pub open spec fn wmi_disk_type(model_upper: Option<Seq<char>>, media: Option<Seq<char>>) -> DiskType {
    match model_upper {
        Some(u) => if contains(u, "NVME"@) || contains(u, "990 PRO"@) || contains(u, "9100 PRO"@) {
            DiskType::NvmeSsd
        } else if contains(u, "SSD"@) || contains(u, "970 EVO"@) || contains(u, "980 PRO"@) {
            DiskType::SataSsd
        } else {
            media_disk_type(media, true)
        },
        None => media_disk_type(media, false),
    }
}

fn has(s: &Vec<char>, p: &str) -> (b: bool)
    ensures
        b == contains(s@, p@),
{
    let q = chars_of(p);
    contains_exec(s, &q)
}

fn media_disk_type_exec(media: Option<&str>, solid_counts: bool) -> (t: DiskType)
    ensures
        t == media_disk_type(
            match media {
                Some(m) => Some(m@),
                None => None,
            },
            solid_counts,
        ),
{
    match media {
        Some(m) => {
            let c = chars_of(m);
            if has(&c, "SSD") || (solid_counts && has(&c, "Solid")) {
                DiskType::SataSsd
            } else if has(&c, "NVMe") {
                DiskType::NvmeSsd
            } else if has(&c, "Removable") {
                DiskType::Usb
            } else if has(&c, "Fixed") {
                DiskType::SataHdd
            } else {
                DiskType::Unknown
            }
        },
        None => DiskType::Unknown,
    }
}

/// Determine the disk type of a WMI drive from its model and media type.
pub fn classify_wmi_disk(model: Option<&str>, media_type: Option<&str>) -> (t: DiskType)
    ensures
        t == wmi_disk_type(
            match model {
                Some(m) => Some(uppercase(m@)),
                None => None,
            },
            match media_type {
                Some(m) => Some(m@),
                None => None,
            },
        ),
        model matches Some(m) ==> (is_ascii_seq(m@) ==> t == wmi_disk_type(
            Some(m@.map_values(|c: char| ascii_upper(c))),
            match media_type {
                Some(k) => Some(k@),
                None => None,
            },
        )),
{
    match model {
        Some(m) => {
            let up = to_upper(m);
            let u = chars_of(up.as_str());
            if has(&u, "NVME") || has(&u, "990 PRO") || has(&u, "9100 PRO") {
                DiskType::NvmeSsd
            } else if has(&u, "SSD") || has(&u, "970 EVO") || has(&u, "980 PRO") {
                DiskType::SataSsd
            } else {
                media_disk_type_exec(media_type, true)
            }
        },
        None => media_disk_type_exec(media_type, false),
    }
}

// ---------------------------------------------------------------------------
// Monitor
// ---------------------------------------------------------------------------
/// The entry of the given name among `ds`, the last one when several share
/// it.
pub open spec fn lookup(ds: Seq<WindowsDisk>, k: Seq<char>) -> Option<WindowsDisk>
    decreases ds.len(),
{
    if ds.len() == 0 {
        None
    } else if ds.last().spec_name() == k {
        Some(ds.last())
    } else {
        lookup(ds.drop_last(), k)
    }
}

/// No two entries share a name.
pub open spec fn names_distinct(ds: Seq<WindowsDisk>) -> bool {
    forall|i: int, j: int|
        0 <= i < ds.len() && 0 <= j < ds.len() && i != j ==> ds[i].spec_name()
            != ds[j].spec_name()
}

/// What the monitor keeps of a drive: its name, path and type.
pub open spec fn kept(d: WindowsDisk) -> (Seq<char>, Seq<char>, DiskType) {
    (d.spec_name(), d.spec_device_path(), d.spec_disk_type())
}

/// The kept part of an optional entry.
pub open spec fn kept_opt(d: Option<WindowsDisk>) -> Option<(Seq<char>, Seq<char>, DiskType)> {
    match d {
        Some(x) => Some(kept(x)),
        None => None,
    }
}

/// Enhanced disk monitor with caching: one entry per drive name.
pub struct WindowsDiskMonitor {
    disks: Vec<WindowsDisk>,
}

proof fn lemma_lookup_update(ds: Seq<WindowsDisk>, j: int, x: WindowsDisk, k: Seq<char>)
    requires
        names_distinct(ds),
        0 <= j < ds.len(),
        ds[j].spec_name() == x.spec_name(),
    ensures
        lookup(ds.update(j, x), k) == (if k == x.spec_name() {
            Some(x)
        } else {
            lookup(ds, k)
        }),
    decreases ds.len(),
{
    let u = ds.update(j, x);
    if j == ds.len() - 1 {
        assert(u.drop_last() =~= ds.drop_last());
    } else {
        assert(u.drop_last() =~= ds.drop_last().update(j, x));
        assert(ds.last() == ds[ds.len() - 1]);
        lemma_lookup_update(ds.drop_last(), j, x, k);
    }
}

proof fn lemma_lookup_some(ds: Seq<WindowsDisk>, k: Seq<char>)
    ensures
        lookup(ds, k) matches Some(d) ==> d.spec_name() == k && ds.contains(d),
        lookup(ds, k) is None ==> forall|i: int| 0 <= i < ds.len() ==> ds[i].spec_name() != k,
    decreases ds.len(),
{
    if ds.len() > 0 {
        lemma_lookup_some(ds.drop_last(), k);
        if lookup(ds, k) is None {
            assert forall|i: int| 0 <= i < ds.len() implies ds[i].spec_name() != k by {
                if i < ds.len() - 1 {
                    assert(ds[i] == ds.drop_last()[i]);
                }
            }
        }
        if let Some(d) = lookup(ds, k) {
            if ds.last().spec_name() != k {
                let i = choose|i: int| 0 <= i < ds.drop_last().len() && ds.drop_last()[i] == d;
                assert(ds[i] == d);
            } else {
                assert(ds[ds.len() - 1] == d);
            }
        }
    }
}

/// The first index of a drive of the given name, the length when there is
/// none.
fn position_of_name(ds: &Vec<WindowsDisk>, name: &str) -> (j: usize)
    ensures
        j <= ds@.len(),
        j < ds@.len() ==> ds@[j as int].spec_name() == name@,
        forall|t: int| 0 <= t < j ==> ds@[t].spec_name() != name@,
{
    let mut j: usize = 0;
    while j < ds.len()
        invariant
            j <= ds@.len(),
            forall|t: int| 0 <= t < j ==> ds@[t].spec_name() != name@,
        decreases ds@.len() - j,
    {
        if crate::text::str_eq(ds[j].name.as_str(), name) {
            return j;
        }
        j = j + 1;
    }
    j
}

impl WindowsDiskMonitor {
    /// The drives the monitor keeps, in the order their names first came.
    pub closed spec fn entries(self) -> Seq<WindowsDisk> {
        self.disks@
    }

    /// The monitor of the drives that enumeration found: an enumeration
    /// error is handed on; otherwise each name maps to the last drive of
    /// that name, of which the name, path and type are kept (no model or
    /// serial, size 0).
    pub fn new(found: Result<Vec<WindowsDisk>, Error>) -> (r: Result<Self, Error>)
        ensures
            found matches Err(e) ==> r == Err::<Self, Error>(e),
            found matches Ok(v) ==> (r matches Ok(m) && names_distinct(m.entries()) && (forall|
                k: Seq<char>,
            | kept_opt(#[trigger] lookup(m.entries(), k)) == kept_opt(lookup(v@, k))) && (forall|
                i: int,
            |
                0 <= i < m.entries().len() ==> #[trigger] m.entries()[i].spec_model() is None
                    && m.entries()[i].spec_serial() is None && m.entries()[i].spec_size() == 0)),
    {
        let found = match found {
            Ok(v) => v,
            Err(e) => {
                return Err(e);
            },
        };
        let mut disks: Vec<WindowsDisk> = Vec::new();
        let mut i: usize = 0;
        while i < found.len()
            invariant
                i <= found@.len(),
                names_distinct(disks@),
                forall|k: Seq<char>|
                    kept_opt(#[trigger] lookup(disks@, k)) == kept_opt(
                        lookup(found@.take(i as int), k),
                    ),
                forall|j: int|
                    0 <= j < disks@.len() ==> #[trigger] disks@[j].model is None
                        && disks@[j].serial is None && disks@[j].size == 0,
            decreases found@.len() - i,
        {
            let d = &found[i];
            let x = WindowsDisk {
                name: owned(d.name.as_str()),
                device_path: owned(d.device_path.as_str()),
                disk_type: d.disk_type,
                model: None,
                serial: None,
                size: 0,
            };
            assert(found@.take(i + 1).drop_last() =~= found@.take(i as int));
            let j = position_of_name(&disks, x.name.as_str());
            let ghost before = disks@;
            if j < disks.len() {
                proof {
                    assert(before[j as int].spec_name() == x.spec_name());
                    assert forall|k: Seq<char>|
                        kept_opt(#[trigger] lookup(before.update(j as int, x), k)) == kept_opt(
                            lookup(found@.take(i + 1), k),
                        ) by {
                        lemma_lookup_update(before, j as int, x, k);
                    }
                }
                disks.set(j, x);
                assert(disks@ == before.update(j as int, x));
                assert forall|a: int, b: int|
                    0 <= a < disks@.len() && 0 <= b < disks@.len() && a != b implies disks@[a].spec_name()
                    != disks@[b].spec_name() by {
                    if a == j {
                        assert(before[b].spec_name() != before[j as int].spec_name());
                    } else if b == j {
                        assert(before[a].spec_name() != before[j as int].spec_name());
                    }
                }
            } else {
                let ghost xs = x;
                disks.push(x);
                assert(disks@.drop_last() =~= before);
                assert forall|k: Seq<char>|
                    kept_opt(#[trigger] lookup(disks@, k)) == kept_opt(
                        lookup(found@.take(i + 1), k),
                    ) by {
                    assert(kept_opt(lookup(before, k)) == kept_opt(
                        lookup(found@.take(i as int), k),
                    ));
                }
                assert forall|a: int, b: int|
                    0 <= a < disks@.len() && 0 <= b < disks@.len() && a != b implies disks@[a].spec_name()
                    != disks@[b].spec_name() by {
                    if a == before.len() {
                        assert(before[b].spec_name() != x.spec_name());
                    } else if b == before.len() {
                        assert(before[a].spec_name() != x.spec_name());
                    } else {
                        assert(disks@[a] == before[a] && disks@[b] == before[b]);
                    }
                }
            }
            i = i + 1;
        }
        assert(found@.take(found@.len() as int) =~= found@);
        Ok(WindowsDiskMonitor { disks })
    }

    /// All drives of the monitor.
    pub fn disks(&self) -> (r: Vec<&WindowsDisk>)
        ensures
            r@.len() == self.entries().len(),
            forall|i: int| 0 <= i < r@.len() ==> *r@[i] == self.entries()[i],
    {
        let mut r: Vec<&WindowsDisk> = Vec::new();
        let mut i: usize = 0;
        while i < self.disks.len()
            invariant
                i <= self.disks@.len(),
                r@.len() == i,
                forall|t: int| 0 <= t < i ==> *r@[t] == self.disks@[t],
            decreases self.disks@.len() - i,
        {
            r.push(&self.disks[i]);
            i = i + 1;
        }
        r
    }

    /// The drive of the given name, if the monitor has one.
    pub fn disk_by_name(&self, name: &str) -> (r: Option<&WindowsDisk>)
        ensures
            match lookup(self.entries(), name@) {
                Some(d) => r matches Some(x) && *x == d,
                None => r is None,
            },
    {
        let mut i: usize = self.disks.len();
        assert(self.disks@.take(i as int) =~= self.disks@);
        while i > 0
            invariant
                i <= self.disks@.len(),
                lookup(self.disks@, name@) == lookup(self.disks@.take(i as int), name@),
            decreases i,
        {
            let ghost t = self.disks@.take(i as int);
            assert(t.drop_last() =~= self.disks@.take(i - 1));
            if crate::text::str_eq(self.disks[i - 1].name.as_str(), name) {
                return Some(&self.disks[i - 1]);
            }
            i = i - 1;
        }
        None
    }
}

/// Every drive the monitor keeps is the one its lookup by name gives.
pub proof fn lemma_monitor_entries_found_by_name(m: WindowsDiskMonitor, i: int)
    requires
        names_distinct(m.entries()),
        0 <= i < m.entries().len(),
    ensures
        lookup(m.entries(), m.entries()[i].spec_name()) == Some(m.entries()[i]),
{
    let ds = m.entries();
    let k = ds[i].spec_name();
    lemma_lookup_some(ds, k);
    if let Some(d) = lookup(ds, k) {
        let j = choose|j: int| 0 <= j < ds.len() && ds[j] == d;
        if j != i {
            assert(ds[j].spec_name() != ds[i].spec_name());
        }
    } else {
        assert(ds[i].spec_name() != k);
    }
}

/// A model naming NVMe (or a 990 PRO or 9100 PRO) is an NVMe SSD whatever
/// the media type; a model naming an SSD (or a 970 EVO or 980 PRO) and no
/// NVMe product a SATA SSD; otherwise the media type decides: `SSD` (or
/// `Solid`, when a model was given) is a SATA SSD, `NVMe` an NVMe SSD,
/// `Removable` a USB drive and `Fixed` a hard disk.
pub proof fn lemma_wmi_disk_type_words(a: Seq<char>, b: Seq<char>, media: Option<Seq<char>>)
    ensures
        wmi_disk_type(Some(a + "NVME"@ + b), media) == DiskType::NvmeSsd,
        wmi_disk_type(Some(a + "990 PRO"@ + b), media) == DiskType::NvmeSsd,
        wmi_disk_type(Some(a + "9100 PRO"@ + b), media) == DiskType::NvmeSsd,
        !contains(a + "SSD"@ + b, "NVME"@) && !contains(a + "SSD"@ + b, "990 PRO"@) && !contains(
            a + "SSD"@ + b,
            "9100 PRO"@,
        ) ==> wmi_disk_type(Some(a + "SSD"@ + b), media) == DiskType::SataSsd,
        media_disk_type(Some(a + "SSD"@ + b), false) == DiskType::SataSsd,
        media_disk_type(Some(a + "Solid"@ + b), true) == DiskType::SataSsd,
        !contains(a + "NVMe"@ + b, "SSD"@) && !contains(a + "NVMe"@ + b, "Solid"@)
            ==> media_disk_type(Some(a + "NVMe"@ + b), true) == DiskType::NvmeSsd,
        !contains(a + "Removable"@ + b, "SSD"@) && !contains(a + "Removable"@ + b, "Solid"@)
            && !contains(a + "Removable"@ + b, "NVMe"@) ==> media_disk_type(
            Some(a + "Removable"@ + b),
            true,
        ) == DiskType::Usb,
        !contains(a + "Fixed"@ + b, "SSD"@) && !contains(a + "Fixed"@ + b, "Solid"@) && !contains(
            a + "Fixed"@ + b,
            "NVMe"@,
        ) && !contains(a + "Fixed"@ + b, "Removable"@) ==> media_disk_type(
            Some(a + "Fixed"@ + b),
            true,
        ) == DiskType::SataHdd,
        media_disk_type(None, true) == DiskType::Unknown,
        wmi_disk_type(None, media) == media_disk_type(media, false),
{
    lemma_contains_middle(a, "NVME"@, b);
    lemma_contains_middle(a, "990 PRO"@, b);
    lemma_contains_middle(a, "9100 PRO"@, b);
    lemma_contains_middle(a, "SSD"@, b);
    lemma_contains_middle(a, "Solid"@, b);
    lemma_contains_middle(a, "NVMe"@, b);
    lemma_contains_middle(a, "Removable"@, b);
    lemma_contains_middle(a, "Fixed"@, b);
}

} // verus!
