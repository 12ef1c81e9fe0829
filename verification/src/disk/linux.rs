//! Linux disks: what sysfs and procfs report about a block device, turned
//! into the shared disk types.
use vstd::prelude::*;

use crate::disk::traits::{DiskInfo, DiskIoStats, DiskType, Error, FilesystemInfo, ProcessDiskIo};
use crate::error::io_error_text;
use crate::num::{
    int_error_text, parse_int, parse_u32, parse_u32_chars, parse_u64, parse_u64_chars,
    parse_u64_result,
};
use crate::text::{
    chars_of, contains, contains_exec, eq_chars, extend, extend_str, lines, lines_of,
    opt_string_view, owned, split_by, split_chars, starts_with, starts_with_exec, string_of, trim,
    trim_chars, words, words_of,
};

verus! {

/// Linux disk device implementation
pub struct LinuxDisk {
    name: String,
    device_path: String,
    disk_type: DiskType,
    major: u32,
    minor: u32,
}

/// A number read from sysfs, 0 when it does not parse.
pub open spec fn u64_or_zero(w: Seq<char>) -> u64 {
    match parse_u64(w) {
        Some(v) => v,
        None => 0,
    }
}

pub open spec fn u32_or_zero(w: Seq<char>) -> u32 {
    match parse_u32(w) {
        Some(v) => v,
        None => 0,
    }
}

/// The disk type of a block device: NVMe by name, else by its `rotational`
/// flag when that file could be read, else SATA SSD for `sd*`, else unknown.
pub open spec fn disk_type_of(name: Seq<char>, rotational: Option<Seq<char>>) -> DiskType {
    if starts_with(name, "nvme"@) {
        DiskType::NvmeSsd
    } else if rotational is Some {
        if trim(rotational->0) == "1"@ {
            DiskType::SataHdd
        } else {
            DiskType::SataSsd
        }
    } else if starts_with(name, "sd"@) {
        DiskType::SataSsd
    } else {
        DiskType::Unknown
    }
}

/// The sysfs directory of a block device.
pub open spec fn sysfs_dir(name: Seq<char>) -> Seq<char> {
    "/sys/block/"@ + name + "/"@
}

/// The message of a failed read of a file: it starts with
/// `"Failed to read {path}: "`, the text of the I/O error follows.
pub open spec fn read_failure(m: Seq<char>, path: Seq<char>) -> bool {
    starts_with(m, "Failed to read "@ + path + ": "@)
}

/// The `major:minor` numbers in the content of a `dev` file.
pub open spec fn dev_numbers(content: Seq<char>) -> (u32, u32) {
    let parts = split_by(trim(content), ':');
    (u32_or_zero(parts[0]), u32_or_zero(parts[1]))
}

/// A `dev` file holds at least one `:` (it is `major:minor`).
pub open spec fn dev_well_formed(content: Seq<char>) -> bool {
    split_by(trim(content), ':').len() >= 2
}

/// The content of a file read into a string, an I/O error message built
/// from `path` otherwise.
fn read_result(contents: Result<String, std::io::Error>, path: &Vec<char>) -> (r: Result<
    String,
    Error,
>)
    ensures
        contents is Ok ==> r is Ok && r->Ok_0@ == contents->Ok_0@,
        contents is Err ==> (r matches Err(Error::QueryFailed(m)) && read_failure(m@, path@)),
{
    match contents {
        Ok(s) => Ok(s),
        Err(e) => {
            let mut m: Vec<char> = Vec::new();
            extend_str(&mut m, "Failed to read ");
            extend(&mut m, path);
            extend_str(&mut m, ": ");
            let prefix_len = m.len();
            let ghost prefix = m@;
            let t = io_error_text(&e);
            extend_str(&mut m, t.as_str());
            assert(m@.subrange(0, prefix_len as int) =~= prefix);
            Err(Error::QueryFailed(string_of(m)))
        },
    }
}

impl LinuxDisk {
    pub closed spec fn spec_name(self) -> Seq<char> {
        self.name@
    }

    pub closed spec fn spec_device_path(self) -> Seq<char> {
        self.device_path@
    }

    pub closed spec fn spec_disk_type(self) -> DiskType {
        self.disk_type
    }

    pub closed spec fn spec_numbers(self) -> (u32, u32) {
        (self.major, self.minor)
    }

    /// Create a new Linux disk device from the content of its
    /// `/sys/block/{name}/dev` file and of its `queue/rotational` file (when
    /// that could be read).
    pub fn new(name: String, dev: Result<String, std::io::Error>, rotational: Option<String>) -> (r:
        Result<Self, Error>)
        requires
            dev matches Ok(c) ==> dev_well_formed(c@),
        ensures
            dev is Err ==> (r matches Err(Error::QueryFailed(m)) && read_failure(
                m@,
                sysfs_dir(name@) + "dev"@,
            )),
            dev matches Ok(c) ==> (r matches Ok(d) && d.spec_name() == name@ && d.spec_device_path() == "/dev/"@
                + name@ && d.spec_disk_type() == disk_type_of(
                name@,
                match rotational {
                    Some(t) => Some(t@),
                    None => None,
                },
            ) && d.spec_numbers() == dev_numbers(c@)),
    {
        let mut path: Vec<char> = Vec::new();
        extend_str(&mut path, "/sys/block/");
        extend_str(&mut path, name.as_str());
        extend_str(&mut path, "/dev");
        proof {
            reveal_strlit("/dev");
            reveal_strlit("/");
            reveal_strlit("dev");
        }
        assert(path@ =~= sysfs_dir(name@) + "dev"@);
        let content = match read_result(dev, &path) {
            Ok(c) => c,
            Err(e) => {
                return Err(e);
            },
        };
        let chars = chars_of(content.as_str());
        let trimmed = trim_chars(&chars);
        let parts = split_chars(&trimmed, ':');
        assert(parts@[0]@ == split_by(trim(content@), ':')[0]);
        assert(parts@[1]@ == split_by(trim(content@), ':')[1]);
        let major = match parse_u32_chars(&parts[0]) {
            Some(v) => v,
            None => 0,
        };
        let minor = match parse_u32_chars(&parts[1]) {
            Some(v) => v,
            None => 0,
        };
        let rot = match &rotational {
            Some(t) => Some(t.as_str()),
            None => None,
        };
        let disk_type = match Self::detect_disk_type(name.as_str(), rot) {
            Ok(t) => t,
            Err(e) => {
                return Err(e);
            },
        };
        let mut dp: Vec<char> = Vec::new();
        extend_str(&mut dp, "/dev/");
        extend_str(&mut dp, name.as_str());
        Ok(LinuxDisk { name, device_path: string_of(dp), disk_type, major, minor })
    }

    /// The disk type of a device, from its name and the content of its
    /// `queue/rotational` file when that could be read.
    pub fn detect_disk_type(name: &str, rotational: Option<&str>) -> (r: Result<DiskType, Error>)
        ensures
            r matches Ok(t) && t == disk_type_of(
                name@,
                match rotational {
                    Some(t) => Some(t@),
                    None => None,
                },
            ),
    {
        let n = chars_of(name);
        let nvme = chars_of("nvme");
        if starts_with_exec(&n, &nvme) {
            return Ok(DiskType::NvmeSsd);
        }
        if let Some(content) = rotational {
            let c = chars_of(content);
            let t = trim_chars(&c);
            let one = chars_of("1");
            if eq_chars(&t, &one) {
                return Ok(DiskType::SataHdd);
            } else {
                return Ok(DiskType::SataSsd);
            }
        }
        let sd = chars_of("sd");
        if starts_with_exec(&n, &sd) {
            return Ok(DiskType::SataSsd);
        }
        Ok(DiskType::Unknown)
    }

    /// Device name
    pub fn name(&self) -> (s: &str)
        ensures
            s@ == self.spec_name(),
    {
        self.name.as_str()
    }

    /// Disk type
    pub fn disk_type(&self) -> (t: DiskType)
        ensures
            t == self.spec_disk_type(),
    {
        self.disk_type
    }

    /// Device path (`/dev/{name}`)
    pub fn device_path(&self) -> (s: &str)
        ensures
            s@ == self.spec_device_path(),
    {
        self.device_path.as_str()
    }

    /// The `major:minor` device numbers.
    pub fn numbers(&self) -> (r: (u32, u32))
        ensures
            r == self.spec_numbers(),
    {
        (self.major, self.minor)
    }

    /// The trimmed content of a sysfs attribute of this device, given the
    /// result of reading `/sys/block/{name}/{attribute}`.
    pub fn read_sysfs_string(&self, attribute: &str, contents: Result<String, std::io::Error>) -> (r:
        Result<String, Error>)
        ensures
            contents matches Ok(c) ==> (r matches Ok(s) && s@ == trim(c@)),
            contents is Err ==> (r matches Err(Error::QueryFailed(m)) && read_failure(
                m@,
                sysfs_dir(self.spec_name()) + attribute@,
            )),
    {
        let mut path: Vec<char> = Vec::new();
        extend_str(&mut path, "/sys/block/");
        extend_str(&mut path, self.name.as_str());
        extend_str(&mut path, "/");
        extend_str(&mut path, attribute);
        assert(path@ =~= sysfs_dir(self.name@) + attribute@);
        match read_result(contents, &path) {
            Ok(s) => {
                let c = chars_of(s.as_str());
                Ok(string_of(trim_chars(&c)))
            },
            Err(e) => Err(e),
        }
    }

    /// A sysfs attribute of this device read as a number: the read error, or
    /// `ParseError("Failed to parse {attribute}: {reason}")` when the trimmed
    /// content is no `u64`.
    pub fn read_sysfs_u64(&self, attribute: &str, contents: Result<String, std::io::Error>) -> (r:
        Result<u64, Error>)
        ensures
            contents matches Ok(c) ==> match parse_int(trim(c@), false, 0, u64::MAX as int) {
                Ok(v) => r == Ok::<u64, Error>(v as u64),
                Err(k) => r matches Err(Error::ParseError(m)) && m@ == "Failed to parse "@
                    + attribute@ + ": "@ + int_error_text(k),
            },
            contents is Err ==> (r matches Err(Error::QueryFailed(m)) && read_failure(
                m@,
                sysfs_dir(self.spec_name()) + attribute@,
            )),
    {
        let s = match self.read_sysfs_string(attribute, contents) {
            Ok(s) => s,
            Err(e) => {
                return Err(e);
            },
        };
        let c = chars_of(s.as_str());
        match parse_u64_result(&c) {
            Ok(v) => Ok(v),
            Err(k) => {
                let mut m: Vec<char> = Vec::new();
                extend_str(&mut m, "Failed to parse ");
                extend_str(&mut m, attribute);
                extend_str(&mut m, ": ");
                extend_str(&mut m, k.description());
                Err(Error::ParseError(string_of(m)))
            },
        }
    }
}


/// The results of reading the sysfs attributes that describe a disk.
pub struct DiskAttributeReads {
    /// `device/model`
    pub model: Result<String, std::io::Error>,
    /// `device/vendor`
    pub vendor: Result<String, std::io::Error>,
    /// `device/rev`
    pub rev: Result<String, std::io::Error>,
    /// `size` (in 512-byte sectors)
    pub size: Result<String, std::io::Error>,
    /// `queue/logical_block_size`
    pub logical_block_size: Result<String, std::io::Error>,
    /// `queue/physical_block_size`
    pub physical_block_size: Result<String, std::io::Error>,
    /// `queue/rotational`
    pub rotational: Result<String, std::io::Error>,
}

/// The trimmed content of a file that could be read.
pub open spec fn read_text(r: Result<String, std::io::Error>) -> Option<Seq<char>> {
    match r {
        Ok(c) => Some(trim(c@)),
        Err(_) => None,
    }
}

/// The number in a file that could be read and parses.
pub open spec fn read_u64(r: Result<String, std::io::Error>) -> Option<u64> {
    match r {
        Ok(c) => parse_u64(trim(c@)),
        Err(_) => None,
    }
}

/// Whether the sector count a size file gave can be taken in bytes.
pub fn sectors_fit(size: &Result<String, std::io::Error>) -> (b: bool)
    ensures
        b == (read_u64(*size) matches Some(n) ==> n * 512 <= u64::MAX),
{
    match size {
        Ok(c) => match parse_u64_chars(&trim_chars(&chars_of(c.as_str()))) {
            Some(n) => n <= 0x7f_ffff_ffff_ffff,
            None => true,
        },
        Err(_) => true,
    }
}

/// The sizes of a disk whose size file gave `sectors`: capacity, block
/// size, physical and logical sector size and rotation rate.
pub open spec fn sizes_of(a: DiskAttributeReads, sectors: u64) -> (
    u64,
    u32,
    Option<u32>,
    Option<u32>,
    Option<u32>,
) {
    let logical = match read_u64(a.logical_block_size) {
        Some(v) => v,
        None => 512,
    };
    let physical = match read_u64(a.physical_block_size) {
        Some(v) => v,
        None => 512,
    };
    (
        (sectors * 512) as u64,
        logical as u32,
        Some(physical as u32),
        Some(logical as u32),
        match read_u64(a.rotational) {
            Some(r) => if r > 0 {
                Some(r as u32)
            } else {
                None
            },
            None => None,
        },
    )
}

impl LinuxDisk {
    /// Static information, from the results of reading its sysfs
    /// attributes: the model (`Unknown` when it cannot be read), vendor and
    /// firmware revision when they can, the capacity in bytes from the
    /// sector count (whose read or parse error is handed on), the block sizes
    /// (512 by default) and the rotation rate when positive.
    pub fn info(&self, a: DiskAttributeReads) -> (r: Result<DiskInfo, Error>)
        requires
            read_u64(a.size) matches Some(n) ==> n * 512 <= u64::MAX,
        ensures
            a.size is Err ==> (r matches Err(Error::QueryFailed(m)) && read_failure(
                m@,
                sysfs_dir(self.spec_name()) + "size"@,
            )),
            a.size matches Ok(c) ==> match parse_int(trim(c@), false, 0, u64::MAX as int) {
                Err(k) => (r matches Err(Error::ParseError(m)) && m@ == "Failed to parse size: "@
                    + int_error_text(k)),
                Ok(n) => (r matches Ok(i) && {
                    let e = sizes_of(a, n as u64);
                    &&& i.name@ == self.spec_name()
                    &&& i.model@ == (match read_text(a.model) {
                        Some(m) => m,
                        None => "Unknown"@,
                    })
                    &&& opt_string_view(i.vendor) == read_text(a.vendor)
                    &&& opt_string_view(i.firmware) == read_text(a.rev)
                    &&& i.serial is None
                    &&& i.capacity == e.0
                    &&& i.block_size == e.1
                    &&& i.disk_type == self.spec_disk_type()
                    &&& i.physical_sector_size == e.2
                    &&& i.logical_sector_size == e.3
                    &&& i.rotation_rate == e.4
                    &&& i.capacity == n * 512
                    &&& i.block_size == (match read_u64(a.logical_block_size) {
                        Some(v) => v,
                        None => 512,
                    }) as u32
                    &&& i.logical_sector_size == Some(i.block_size)
                    &&& i.physical_sector_size == Some(
                        (match read_u64(a.physical_block_size) {
                            Some(v) => v,
                            None => 512,
                        }) as u32,
                    )
                    &&& i.rotation_rate == (match read_u64(a.rotational) {
                        Some(v) => if v > 0 {
                            Some(v as u32)
                        } else {
                            None
                        },
                        None => None,
                    })
                }),
            },
    {
        proof {
            reveal_strlit("Failed to parse size: ");
            reveal_strlit("Failed to parse ");
            reveal_strlit("size");
            reveal_strlit(": ");
            assert("Failed to parse size: "@ =~= "Failed to parse "@ + "size"@ + ": "@);
        }
        let DiskAttributeReads {
            model,
            vendor,
            rev,
            size,
            logical_block_size,
            physical_block_size,
            rotational,
        } = a;
        let model = match self.read_sysfs_string("device/model", model) {
            Ok(m) => m,
            Err(_) => owned("Unknown"),
        };
        let vendor = match self.read_sysfs_string("device/vendor", vendor) {
            Ok(v) => Some(v),
            Err(_) => None,
        };
        let firmware = match self.read_sysfs_string("device/rev", rev) {
            Ok(v) => Some(v),
            Err(_) => None,
        };
        let sectors = match self.read_sysfs_u64("size", size) {
            Ok(n) => n,
            Err(e) => {
                return Err(e);
            },
        };
        let capacity = sectors * 512;
        let logical: u64 = match self.read_sysfs_u64("queue/logical_block_size", logical_block_size) {
            Ok(v) => v,
            Err(_) => 512,
        };
        let physical: u64 = match self.read_sysfs_u64(
            "queue/physical_block_size",
            physical_block_size,
        ) {
            Ok(v) => v,
            Err(_) => 512,
        };
        let rotation_rate = match self.read_sysfs_u64("queue/rotational", rotational) {
            Ok(r) => if r > 0 {
                Some(r as u32)
            } else {
                None
            },
            Err(_) => None,
        };
        Ok(
            DiskInfo {
                name: owned(self.name.as_str()),
                model,
                serial: None,
                firmware,
                capacity,
                block_size: logical as u32,
                disk_type: self.disk_type,
                physical_sector_size: Some(physical as u32),
                logical_sector_size: Some(logical as u32),
                rotation_rate,
                vendor,
            },
        )
    }
}

/// Block devices that are worth monitoring: not loop devices, RAM disks or
/// device-mapper targets.
pub open spec fn is_monitored_device(name: Seq<char>) -> bool {
    !starts_with(name, "loop"@) && !starts_with(name, "ram"@) && !starts_with(name, "dm-"@)
}

/// Whether a `/sys/block` entry is a device that enumeration keeps.
pub fn is_monitored_device_name(name: &str) -> (b: bool)
    ensures
        b == is_monitored_device(name@),
{
    let n = chars_of(name);
    let a = chars_of("loop");
    let b = chars_of("ram");
    let c = chars_of("dm-");
    !starts_with_exec(&n, &a) && !starts_with_exec(&n, &b) && !starts_with_exec(&n, &c)
}

// ---------------------------------------------------------------------------
// I/O counters
// ---------------------------------------------------------------------------
/// The counters of a `/sys/block/{name}/stat` line split into words (at
/// least eleven of them): operations, sectors of 512 bytes, milliseconds
/// and requests in flight; a field that does not parse counts as 0.
pub open spec fn stat_of(w: Seq<Seq<char>>) -> DiskIoStats {
    DiskIoStats {
        read_bytes: (u64_or_zero(w[2]) * 512) as u64,
        write_bytes: (u64_or_zero(w[6]) * 512) as u64,
        read_ops: u64_or_zero(w[0]),
        write_ops: u64_or_zero(w[4]),
        read_time_ms: Some(u64_or_zero(w[3])),
        write_time_ms: Some(u64_or_zero(w[7])),
        queue_depth: Some(u32_or_zero(w[8])),
        avg_latency_us: None,
        read_throughput: None,
        write_throughput: None,
    }
}

/// The sector counts of a stat line fit in bytes.
pub open spec fn stat_in_range(content: Seq<char>) -> bool {
    let w = words(content);
    w.len() >= 11 ==> u64_or_zero(w[2]) * 512 <= u64::MAX && u64_or_zero(w[6]) * 512
        <= u64::MAX
}

fn u64_or_zero_exec(w: &Vec<char>) -> (r: u64)
    ensures
        r == u64_or_zero(w@),
{
    match parse_u64_chars(w) {
        Some(v) => v,
        None => 0,
    }
}

fn u32_or_zero_exec(w: &Vec<char>) -> (r: u32)
    ensures
        r == u32_or_zero(w@),
{
    match parse_u32_chars(w) {
        Some(v) => v,
        None => 0,
    }
}

impl LinuxDisk {
    /// Current I/O statistics, from the result of reading
    /// `/sys/block/{name}/stat`.
    pub fn io_stats(&self, stat: Result<String, std::io::Error>) -> (r: Result<DiskIoStats, Error>)
        requires
            stat matches Ok(c) ==> stat_in_range(c@),
        ensures
            stat is Err ==> (r matches Err(Error::QueryFailed(m)) && read_failure(
                m@,
                sysfs_dir(self.spec_name()) + "stat"@,
            )),
            stat matches Ok(c) ==> if words(c@).len() < 11 {
                r matches Err(Error::ParseError(m)) && m@ == "Invalid stat format"@
            } else {
                r == Ok::<DiskIoStats, Error>(stat_of(words(c@)))
            },
            stat matches Ok(c) ==> (words(c@).len() >= 11 ==> (r matches Ok(s) && {
                let w = words(c@);
                &&& s.read_ops == u64_or_zero(w[0])
                &&& s.read_bytes == u64_or_zero(w[2]) * 512
                &&& s.read_time_ms == Some(u64_or_zero(w[3]))
                &&& s.write_ops == u64_or_zero(w[4])
                &&& s.write_bytes == u64_or_zero(w[6]) * 512
                &&& s.write_time_ms == Some(u64_or_zero(w[7]))
                &&& s.queue_depth == Some(u32_or_zero(w[8]))
            })),
    {
        let mut path: Vec<char> = Vec::new();
        extend_str(&mut path, "/sys/block/");
        extend_str(&mut path, self.name.as_str());
        extend_str(&mut path, "/stat");
        proof {
            reveal_strlit("/stat");
            reveal_strlit("/");
            reveal_strlit("stat");
        }
        assert(path@ =~= sysfs_dir(self.name@) + "stat"@);
        let content = match read_result(stat, &path) {
            Ok(c) => c,
            Err(e) => {
                return Err(e);
            },
        };
        let chars = chars_of(content.as_str());
        let parts = words_of(&chars);
        if parts.len() < 11 {
            return Err(Error::ParseError(string_of(chars_of("Invalid stat format"))));
        }
        let read_ops = u64_or_zero_exec(&parts[0]);
        let read_sectors = u64_or_zero_exec(&parts[2]);
        let read_time_ms = u64_or_zero_exec(&parts[3]);
        let write_ops = u64_or_zero_exec(&parts[4]);
        let write_sectors = u64_or_zero_exec(&parts[6]);
        let write_time_ms = u64_or_zero_exec(&parts[7]);
        let in_flight = u32_or_zero_exec(&parts[8]);
        Ok(
            DiskIoStats {
                read_bytes: read_sectors * 512,
                write_bytes: write_sectors * 512,
                read_ops,
                write_ops,
                read_time_ms: Some(read_time_ms),
                write_time_ms: Some(write_time_ms),
                queue_depth: Some(in_flight),
                avg_latency_us: None,
                read_throughput: None,
                write_throughput: None,
            },
        )
    }
}

/// Whether a stat file can be turned into byte counts without overflow.
pub fn stat_fits(content: &str) -> (b: bool)
    ensures
        b == stat_in_range(content@),
{
    let chars = chars_of(content);
    let w = words_of(&chars);
    if w.len() < 11 {
        return true;
    }
    let a = u64_or_zero_exec(&w[2]);
    let b = u64_or_zero_exec(&w[6]);
    a <= 0x7f_ffff_ffff_ffff && b <= 0x7f_ffff_ffff_ffff
}

// ---------------------------------------------------------------------------
// Mounted filesystems
// ---------------------------------------------------------------------------
/// The mount point and filesystem type of a `/proc/mounts` line when it has
/// at least four fields and its device names the disk (it contains the
/// disk's name or is its device path).
pub open spec fn mount_entry(name: Seq<char>, device_path: Seq<char>, l: Seq<char>) -> Option<
    (Seq<char>, Seq<char>),
> {
    let w = words(l);
    if w.len() >= 4 && (contains(w[0], name) || w[0] == device_path) {
        Some((w[1], w[2]))
    } else {
        None
    }
}

/// The mounts of the disk among the given lines, in order.
pub open spec fn mounts_of(name: Seq<char>, device_path: Seq<char>, ls: Seq<Seq<char>>) -> Seq<
    (Seq<char>, Seq<char>),
>
    decreases ls.len(),
{
    if ls.len() == 0 {
        Seq::empty()
    } else {
        let init = mounts_of(name, device_path, ls.drop_last());
        match mount_entry(name, device_path, ls.last()) {
            Some(e) => init.push(e),
            None => init,
        }
    }
}

/// The contents of a list of string pairs.
pub open spec fn pair_views(v: Seq<(String, String)>) -> Seq<(Seq<char>, Seq<char>)> {
    v.map_values(|p: (String, String)| (p.0@, p.1@))
}

impl LinuxDisk {
    /// The mount points and filesystem types of this disk and its
    /// partitions, from the content of `/proc/mounts`.
    pub fn mounts(&self, mounts: &str) -> (r: Vec<(String, String)>)
        ensures
            pair_views(r@) == mounts_of(self.spec_name(), self.spec_device_path(), lines(mounts@)),
    {
        let chars = chars_of(mounts);
        let ls = lines_of(&chars);
        let name = chars_of(self.name.as_str());
        let dp = chars_of(self.device_path.as_str());
        let ghost all = lines(mounts@);
        let mut out: Vec<(String, String)> = Vec::new();
        let mut i: usize = 0;
        while i < ls.len()
            invariant
                i <= ls@.len(),
                ls@.len() == all.len(),
                forall|j: int| 0 <= j < ls@.len() ==> ls@[j]@ == all[j],
                name@ == self.name@,
                dp@ == self.device_path@,
                pair_views(out@) == mounts_of(self.name@, self.device_path@, all.take(i as int)),
            decreases ls@.len() - i,
        {
            let ghost prev = all.take(i as int);
            assert(all.take(i + 1).drop_last() =~= prev);
            let w = words_of(&ls[i]);
            if w.len() >= 4 && (contains_exec(&w[0], &name) || eq_chars(&w[0], &dp)) {
                let mp = string_of(subvec_all(&w[1]));
                let ft = string_of(subvec_all(&w[2]));
                out.push((mp, ft));
                assert(pair_views(out@) =~= mounts_of(
                    self.name@,
                    self.device_path@,
                    all.take(i + 1),
                ));
            } else {
                assert(pair_views(out@) =~= mounts_of(
                    self.name@,
                    self.device_path@,
                    all.take(i + 1),
                ));
            }
            i = i + 1;
        }
        assert(all.take(ls@.len() as int) =~= all);
        out
    }
}

fn subvec_all(v: &Vec<char>) -> (r: Vec<char>)
    ensures
        r@ == v@,
{
    let mut r: Vec<char> = Vec::new();
    extend(&mut r, v);
    r
}

impl FilesystemInfo {
    /// The usage of a mounted filesystem from its `statvfs` figures: sizes
    /// are block counts times the block size, the used size is the total
    /// less the free blocks, the used inodes the files less the free ones.
    pub fn from_statvfs(
        mount_point: String,
        fs_type: String,
        blocks: u64,
        block_size: u64,
        blocks_available: u64,
        blocks_free: u64,
        files: u64,
        files_free: u64,
        read_only: bool,
    ) -> (f: FilesystemInfo)
        requires
            blocks * block_size <= u64::MAX,
            blocks_available * block_size <= u64::MAX,
            blocks_free * block_size <= blocks * block_size,
            files_free <= files,
        ensures
            f.mount_point == mount_point,
            f.fs_type == fs_type,
            f.total_size == blocks * block_size,
            f.used_size == blocks * block_size - blocks_free * block_size,
            f.available_size == blocks_available * block_size,
            f.total_inodes == Some(files),
            f.used_inodes == Some((files - files_free) as u64),
            f.read_only == read_only,
    {
        let total_size = blocks * block_size;
        let available_size = blocks_available * block_size;
        let free_size = blocks_free * block_size;
        let used_size = total_size - free_size;
        FilesystemInfo {
            mount_point,
            fs_type,
            total_size,
            used_size,
            available_size,
            total_inodes: Some(files),
            used_inodes: Some(files - files_free),
            read_only,
        }
    }
}

// ---------------------------------------------------------------------------
// Per-process I/O
// ---------------------------------------------------------------------------
/// The counters after one line of `/proc/{pid}/io`: a known key followed by
/// a value (0 when it does not parse) sets its counter.
pub open spec fn process_io_step(acc: ProcessDiskIo, l: Seq<char>) -> ProcessDiskIo {
    let w = words(l);
    if w.len() < 2 {
        acc
    } else {
        let v = u64_or_zero(w[1]);
        if w[0] == "rchar:"@ {
            ProcessDiskIo { read_bytes: v, ..acc }
        } else if w[0] == "wchar:"@ {
            ProcessDiskIo { write_bytes: v, ..acc }
        } else if w[0] == "syscr:"@ {
            ProcessDiskIo { read_syscalls: v, ..acc }
        } else if w[0] == "syscw:"@ {
            ProcessDiskIo { write_syscalls: v, ..acc }
        } else if w[0] == "cancelled_write_bytes:"@ {
            ProcessDiskIo { cancelled_write_bytes: Some(v), ..acc }
        } else {
            acc
        }
    }
}

/// The counters after the given lines, starting from zero.
pub open spec fn process_io_of(pid: u32, ls: Seq<Seq<char>>) -> ProcessDiskIo
    decreases ls.len(),
{
    if ls.len() == 0 {
        ProcessDiskIo {
            pid,
            read_bytes: 0,
            write_bytes: 0,
            read_syscalls: 0,
            write_syscalls: 0,
            cancelled_write_bytes: None,
        }
    } else {
        process_io_step(process_io_of(pid, ls.drop_last()), ls.last())
    }
}

/// Per-process I/O statistics from the result of reading `/proc/{pid}/io`.
pub fn get_process_io(pid: u32, contents: Result<String, std::io::Error>) -> (r: Result<
    ProcessDiskIo,
    Error,
>)
    ensures
        contents matches Ok(c) ==> r == Ok::<ProcessDiskIo, Error>(process_io_of(pid, lines(c@))),
        contents is Err ==> (r matches Err(Error::QueryFailed(m)) && read_failure(
            m@,
            "/proc/"@ + crate::num::dec(pid as nat) + "/io"@,
        )),
{
    let mut path: Vec<char> = Vec::new();
    extend_str(&mut path, "/proc/");
    crate::num::push_dec(&mut path, pid as u64);
    extend_str(&mut path, "/io");
    assert(path@ =~= "/proc/"@ + crate::num::dec(pid as nat) + "/io"@);
    let content = match read_result(contents, &path) {
        Ok(c) => c,
        Err(e) => {
            return Err(e);
        },
    };
    let chars = chars_of(content.as_str());
    let ls = lines_of(&chars);
    let ghost all = lines(content@);
    let rchar = chars_of("rchar:");
    let wchar = chars_of("wchar:");
    let syscr = chars_of("syscr:");
    let syscw = chars_of("syscw:");
    let cancelled = chars_of("cancelled_write_bytes:");
    let mut acc = ProcessDiskIo {
        pid,
        read_bytes: 0,
        write_bytes: 0,
        read_syscalls: 0,
        write_syscalls: 0,
        cancelled_write_bytes: None,
    };
    let mut i: usize = 0;
    while i < ls.len()
        invariant
            i <= ls@.len(),
            ls@.len() == all.len(),
            forall|j: int| 0 <= j < ls@.len() ==> ls@[j]@ == all[j],
            rchar@ == "rchar:"@,
            wchar@ == "wchar:"@,
            syscr@ == "syscr:"@,
            syscw@ == "syscw:"@,
            cancelled@ == "cancelled_write_bytes:"@,
            acc == process_io_of(pid, all.take(i as int)),
        decreases ls@.len() - i,
    {
        assert(all.take(i + 1).drop_last() =~= all.take(i as int));
        let w = words_of(&ls[i]);
        if w.len() >= 2 {
            let v = u64_or_zero_exec(&w[1]);
            if eq_chars(&w[0], &rchar) {
                acc.read_bytes = v;
            } else if eq_chars(&w[0], &wchar) {
                acc.write_bytes = v;
            } else if eq_chars(&w[0], &syscr) {
                acc.read_syscalls = v;
            } else if eq_chars(&w[0], &syscw) {
                acc.write_syscalls = v;
            } else if eq_chars(&w[0], &cancelled) {
                acc.cancelled_write_bytes = Some(v);
            }
        }
        i = i + 1;
    }
    assert(all.take(ls@.len() as int) =~= all);
    Ok(acc)
}

// ---------------------------------------------------------------------------
// Laws
// ---------------------------------------------------------------------------
/// A line of `/proc/{pid}/io` sets the counter its key names to its value
/// and leaves the others: `rchar:` the bytes read, `wchar:` the bytes
/// written, `syscr:` and `syscw:` the read and write calls,
/// `cancelled_write_bytes:` the cancelled writes. The PID is never changed.
pub proof fn lemma_process_io_line_sets_its_counter(acc: ProcessDiskIo, l: Seq<char>)
    ensures
        process_io_step(acc, l).pid == acc.pid,
        words(l).len() < 2 ==> process_io_step(acc, l) == acc,
        words(l).len() >= 2 && words(l)[0] == "rchar:"@ ==> process_io_step(acc, l)
            == (ProcessDiskIo { read_bytes: u64_or_zero(words(l)[1]), ..acc }),
        words(l).len() >= 2 && words(l)[0] == "wchar:"@ ==> process_io_step(acc, l)
            == (ProcessDiskIo { write_bytes: u64_or_zero(words(l)[1]), ..acc }),
        words(l).len() >= 2 && words(l)[0] == "syscr:"@ ==> process_io_step(acc, l)
            == (ProcessDiskIo { read_syscalls: u64_or_zero(words(l)[1]), ..acc }),
        words(l).len() >= 2 && words(l)[0] == "syscw:"@ ==> process_io_step(acc, l)
            == (ProcessDiskIo { write_syscalls: u64_or_zero(words(l)[1]), ..acc }),
        words(l).len() >= 2 && words(l)[0] == "cancelled_write_bytes:"@ ==> process_io_step(
            acc,
            l,
        ) == (ProcessDiskIo { cancelled_write_bytes: Some(u64_or_zero(words(l)[1])), ..acc }),
{
    reveal_strlit("rchar:");
    reveal_strlit("wchar:");
    reveal_strlit("syscr:");
    reveal_strlit("syscw:");
    reveal_strlit("cancelled_write_bytes:");
    assert("rchar:"@ != "wchar:"@) by {
        assert("rchar:"@[0] != "wchar:"@[0]);
    }
    assert("syscr:"@ != "syscw:"@) by {
        assert("syscr:"@[4] != "syscw:"@[4]);
    }
    assert("rchar:"@ != "syscr:"@) by {
        assert("rchar:"@[0] != "syscr:"@[0]);
    }
    assert("wchar:"@ != "syscr:"@) by {
        assert("wchar:"@[0] != "syscr:"@[0]);
    }
    assert("rchar:"@ != "syscw:"@) by {
        assert("rchar:"@[0] != "syscw:"@[0]);
    }
    assert("wchar:"@ != "syscw:"@) by {
        assert("wchar:"@[0] != "syscw:"@[0]);
    }
    assert("cancelled_write_bytes:"@.len() == 22 && "rchar:"@.len() == 6);
}

/// NVMe devices are NVMe SSDs whatever their rotation flag; otherwise a
/// rotation flag of `1` makes a hard disk and any other readable flag an
/// SSD; without a flag, `sd*` devices are taken as SSDs.
pub proof fn lemma_disk_type_rules(name: Seq<char>, rotational: Option<Seq<char>>)
    ensures
        starts_with(name, "nvme"@) ==> disk_type_of(name, rotational) == DiskType::NvmeSsd,
        !starts_with(name, "nvme"@) && rotational is Some && trim(rotational->0) == "1"@
            ==> disk_type_of(name, rotational) == DiskType::SataHdd,
        !starts_with(name, "nvme"@) && rotational is Some && trim(rotational->0) != "1"@
            ==> disk_type_of(name, rotational) == DiskType::SataSsd,
        !starts_with(name, "nvme"@) && rotational is None && starts_with(name, "sd"@)
            ==> disk_type_of(name, rotational) == DiskType::SataSsd,
        !starts_with(name, "nvme"@) && rotational is None && !starts_with(name, "sd"@)
            ==> disk_type_of(name, rotational) == DiskType::Unknown,
{
}

} // verus!
