//! macOS disks: drives as `diskutil` describes them.
use vstd::prelude::*;

use crate::disk::traits::{DiskHealth, DiskInfo, DiskType, Error};
use crate::num::{parse_u64, parse_u64_chars};
use crate::text::{
    chars_of, contains, contains_exec, first_index, lemma_first_index, lines, lines_of,
    opt_string_view, owned, split_by, split_chars, starts_with, starts_with_exec, string_of,
    strip_prefixes, strip_prefixes_exec, subvec, trim, trim_chars, views, words, words_of,
};

verus! {

/// macOS disk device implementation
#[derive(Debug, Clone)]
pub struct MacDisk {
    name: String,
    device_path: String,
    disk_type: DiskType,
    model: Option<String>,
    serial: Option<String>,
    size_bytes: Option<u64>,
}

impl MacDisk {
    pub closed spec fn spec_name(self) -> Seq<char> {
        self.name@
    }

    pub closed spec fn spec_device_path(self) -> Seq<char> {
        self.device_path@
    }

    pub closed spec fn spec_disk_type(self) -> DiskType {
        self.disk_type
    }

    pub closed spec fn spec_model(self) -> Option<Seq<char>> {
        opt_string_view(self.model)
    }

    pub closed spec fn spec_serial(self) -> Option<Seq<char>> {
        opt_string_view(self.serial)
    }

    pub closed spec fn spec_size(self) -> Option<u64> {
        self.size_bytes
    }

    /// A drive of the given name, path and type, with no model, serial or
    /// size yet.
    pub fn new(name: String, device_path: String, disk_type: DiskType) -> (d: Self)
        ensures
            d.spec_name() == name@,
            d.spec_device_path() == device_path@,
            d.spec_disk_type() == disk_type,
            d.spec_model() is None,
            d.spec_serial() is None,
            d.spec_size() is None,
    {
        MacDisk { name, device_path, disk_type, model: None, serial: None, size_bytes: None }
    }

    /// The drive with its model, serial and size replaced.
    pub fn with_info(self, model: Option<String>, serial: Option<String>, size: Option<u64>) -> (d:
        Self)
        ensures
            d.spec_name() == self.spec_name(),
            d.spec_device_path() == self.spec_device_path(),
            d.spec_disk_type() == self.spec_disk_type(),
            d.spec_model() == opt_string_view(model),
            d.spec_serial() == opt_string_view(serial),
            d.spec_size() == size,
    {
        MacDisk { model, serial, size_bytes: size, ..self }
    }

    /// Device name
    pub fn name(&self) -> (s: &str)
        ensures
            s@ == self.spec_name(),
    {
        self.name.as_str()
    }

    /// Disk type
    pub fn disk_type(&self) -> (t: DiskType)
        ensures
            t == self.spec_disk_type(),
    {
        self.disk_type
    }

    /// Device path (`/dev/diskN`)
    pub fn device_path(&self) -> (s: &str)
        ensures
            s@ == self.spec_device_path(),
    {
        self.device_path.as_str()
    }

    /// Static information: the model (`Unknown` when there is none), serial
    /// and size (0 when unknown) as recorded, 512-byte logical and
    /// 4096-byte physical sectors, and 0 RPM for a solid-state drive.
    pub fn info(&self) -> (r: Result<DiskInfo, Error>)
        ensures
            r matches Ok(i) && i.name@ == self.spec_name() && i.model@ == (match self.spec_model() {
                Some(m) => m,
                None => "Unknown"@,
            }) && opt_string_view(i.serial) == self.spec_serial() && i.firmware is None
                && i.capacity == (match self.spec_size() {
                Some(s) => s,
                None => 0,
            }) && i.block_size == 512 && i.disk_type == self.spec_disk_type()
                && i.physical_sector_size == Some(4096u32) && i.logical_sector_size == Some(
                512u32,
            ) && i.rotation_rate == (if self.spec_disk_type() == DiskType::NvmeSsd
                || self.spec_disk_type() == DiskType::SataSsd {
                Some(0u32)
            } else {
                None
            }) && i.vendor is None,
    {
        let model = match &self.model {
            Some(m) => owned(m.as_str()),
            None => owned("Unknown"),
        };
        let serial = match &self.serial {
            Some(s) => Some(owned(s.as_str())),
            None => None,
        };
        let capacity = match self.size_bytes {
            Some(s) => s,
            None => 0,
        };
        let rotation_rate = match self.disk_type {
            DiskType::NvmeSsd | DiskType::SataSsd => Some(0u32),
            _ => None,
        };
        Ok(
            DiskInfo {
                name: owned(self.name.as_str()),
                model,
                serial,
                firmware: None,
                capacity,
                block_size: 512,
                disk_type: self.disk_type,
                physical_sector_size: Some(4096),
                logical_sector_size: Some(512),
                rotation_rate,
                vendor: None,
            },
        )
    }
}

// ---------------------------------------------------------------------------
// diskutil output
// ---------------------------------------------------------------------------
/// Model, serial and size after one trimmed line of `diskutil info`: the
/// `Device / Media Name:` line names the model, the `Disk Size:` line gives
/// the byte count in brackets (`Disk Size: 500.1 GB (500107862016 Bytes)`),
/// which is dropped when it does not parse.
pub open spec fn details_step(acc: (Option<Seq<char>>, Option<u64>), l: Seq<char>) -> (
    Option<Seq<char>>,
    Option<u64>,
) {
    if starts_with(l, "Device / Media Name:"@) {
        (Some(trim(split_by(l, ':')[1])), acc.1)
    } else if starts_with(l, "Disk Size:"@) && split_by(l, '(').len() >= 2 && words(
        split_by(l, '(')[1],
    ).len() >= 1 {
        (acc.0, parse_u64(words(split_by(l, '(')[1])[0]))
    } else {
        acc
    }
}

/// Model and size after the given lines of `diskutil info`.
pub open spec fn details_of(ls: Seq<Seq<char>>) -> (Option<Seq<char>>, Option<u64>)
    decreases ls.len(),
{
    if ls.len() == 0 {
        (None, None)
    } else {
        details_step(details_of(ls.drop_last()), trim(ls.last()))
    }
}

/// Model, serial and size of a drive from the text `diskutil info` prints
/// for it (the serial number is not in that text).
pub fn disk_details(text: &str) -> (r: (Option<String>, Option<String>, Option<u64>))
    ensures
        (opt_string_view(r.0), r.2) == details_of(lines(text@)),
        r.1 is None,
{
    let c = chars_of(text);
    let ls = lines_of(&c);
    let ghost all = lines(text@);
    let media = chars_of("Device / Media Name:");
    let size_prefix = chars_of("Disk Size:");
    let mut model: Option<String> = None;
    let mut size: Option<u64> = None;
    let mut i: usize = 0;
    while i < ls.len()
        invariant
            i <= ls@.len(),
            views(ls@) == all,
            media@ == "Device / Media Name:"@,
            size_prefix@ == "Disk Size:"@,
            (opt_string_view(model), size) == details_of(all.take(i as int)),
        decreases ls@.len() - i,
    {
        assert(all.take(i + 1).drop_last() =~= all.take(i as int));
        assert(all.take(i + 1).last() == ls@[i as int]@);
        let l = trim_chars(&ls[i]);
        if starts_with_exec(&l, &media) {
            let parts = split_chars(&l, ':');
            proof {
                reveal_strlit("Device / Media Name:");
                assert(media@[19] == ':');
                assert(l@.subrange(0, 20) == media@);
                assert(l@.subrange(0, 20)[19] == l@[19]);
                lemma_split_has_two(l@, ':', 19);
            }
            assert(parts@[1]@ == split_by(l@, ':')[1]);
            model = Some(string_of(trim_chars(&parts[1])));
        } else if starts_with_exec(&l, &size_prefix) {
            let parts = split_chars(&l, '(');
            if parts.len() >= 2 {
                assert(parts@[1]@ == split_by(l@, '(')[1]);
                let w = words_of(&parts[1]);
                if w.len() >= 1 {
                    size = parse_u64_chars(&w[0]);
                }
            }
        }
        i = i + 1;
    }
    assert(all.take(ls@.len() as int) =~= all);
    (model, None, size)
}

/// A piece of text with the separator at index `k` splits into at least
/// two pieces.
proof fn lemma_split_has_two(s: Seq<char>, sep: char, k: int)
    requires
        0 <= k < s.len(),
        s[k] == sep,
    ensures
        split_by(s, sep).len() >= 2,
    decreases s.len(),
{
    crate::text::lemma_split_by_len(s.drop_last(), sep);
    if k < s.len() - 1 {
        lemma_split_has_two(s.drop_last(), sep, k);
    }
}

pub open spec fn is_ascii_digit(c: char) -> bool {
    '0' <= c <= '9'
}

/// A `diskN` name of a partition: the part after the first `s` is a
/// non-empty run of digits (as in `disk0s1`), and the name ends in a digit.
pub open spec fn is_partition(name: Seq<char>) -> bool {
    let k = first_index(name, 's');
    let after = name.skip(k + 1);
    &&& k >= 0
    &&& name.len() > 0 && is_ascii_digit(name.last())
    &&& after.len() > 0
    &&& forall|i: int| 0 <= i < after.len() ==> is_ascii_digit(after[i])
}

/// Whether a disk name is that of a partition.
pub fn is_partition_name(name: &str) -> (b: bool)
    ensures
        b == is_partition(name@),
{
    let c = chars_of(name);
    proof {
        lemma_first_index(c@, 's');
    }
    if c.len() == 0 || !('0' <= c[c.len() - 1] && c[c.len() - 1] <= '9') {
        return false;
    }
    let mut k: usize = 0;
    while k < c.len() && c[k] != 's'
        invariant
            k <= c@.len(),
            forall|j: int| 0 <= j < k ==> c@[j] != 's',
        decreases c@.len() - k,
    {
        k = k + 1;
    }
    if k == c.len() {
        assert(first_index(c@, 's') < 0) by {
            lemma_first_index(c@, 's');
            if first_index(c@, 's') >= 0 {
                assert(c@[first_index(c@, 's')] == 's');
            }
        }
        return false;
    }
    assert(first_index(c@, 's') == k as int) by {
        lemma_first_index(c@, 's');
        let f = first_index(c@, 's');
        if f < 0 || f > k {
            assert(c@[k as int] == 's');
        } else if f < k {
            assert(c@[f] == 's');
        }
    }
    let ghost after = c@.skip(k + 1);
    if k + 1 == c.len() {
        return false;
    }
    let mut j: usize = k + 1;
    while j < c.len()
        invariant
            k + 1 <= j <= c@.len(),
            after == c@.skip(k + 1),
            c@ == name@,
            first_index(c@, 's') == k as int,
            forall|t: int| k + 1 <= t < j ==> is_ascii_digit(c@[t]),
        decreases c@.len() - j,
    {
        if !('0' <= c[j] && c[j] <= '9') {
            assert(after[j - k - 1] == c@[j as int]);
            return false;
        }
        j = j + 1;
    }
    assert forall|i: int| 0 <= i < after.len() implies is_ascii_digit(after[i]) by {
        assert(after[i] == c@[k + 1 + i]);
    }
    true
}

/// The disk type a line of `diskutil list` suggests: a solid-state drive
/// when it is internal and mentions SSD or NVMe, unknown otherwise.
pub open spec fn list_line_type(line: Seq<char>) -> DiskType {
    if contains(line, "internal"@) && (contains(line, "SSD"@) || contains(line, "NVMe"@)
        || contains(line, "Apple SSD"@)) {
        DiskType::SataSsd
    } else {
        DiskType::Unknown
    }
}

/// The drive a line of `diskutil list` introduces: its device path, its
/// name (the path without `/dev/`) and type; none for other lines, for
/// synthesized drives, disk images and partitions.
pub open spec fn list_line_disk(line: Seq<char>) -> Option<(Seq<char>, Seq<char>, DiskType)> {
    if starts_with(line, "/dev/disk"@) && !contains(line, "synthesized"@) && !contains(
        line,
        "disk image"@,
    ) && words(line).len() >= 1 {
        let path = words(line)[0];
        let name = strip_prefixes(path, "/dev/"@);
        if is_partition(name) {
            None
        } else {
            Some((path, name, list_line_type(line)))
        }
    } else {
        None
    }
}

fn has(s: &Vec<char>, p: &str) -> (b: bool)
    ensures
        b == contains(s@, p@),
{
    contains_exec(s, &chars_of(p))
}

/// The drive a line of `diskutil list` introduces, if any.
pub fn parse_list_line(line: &str) -> (r: Option<(String, String, DiskType)>)
    ensures
        match list_line_disk(line@) {
            Some((p, n, t)) => r matches Some((x, y, z)) && x@ == p && y@ == n && z == t,
            None => r is None,
        },
{
    let l = chars_of(line);
    if !starts_with_exec(&l, &chars_of("/dev/disk")) || has(&l, "synthesized") || has(
        &l,
        "disk image",
    ) {
        return None;
    }
    let w = words_of(&l);
    if w.len() == 0 {
        return None;
    }
    let path = subvec(&w[0], 0, w[0].len());
    assert(path@ =~= words(line@)[0]);
    let name = strip_prefixes_exec(&path, &chars_of("/dev/"));
    let ns = string_of(name);
    if is_partition_name(ns.as_str()) {
        return None;
    }
    let t = if has(&l, "internal") && (has(&l, "SSD") || has(&l, "NVMe") || has(&l, "Apple SSD")) {
        DiskType::SataSsd
    } else {
        DiskType::Unknown
    };
    Some((string_of(path), ns, t))
}

/// The health a drive's SMART status line reports: the first line naming
/// `SMART Status:` that says `Verified` or `OK` (healthy) or `Failing`
/// (critical) decides; without one the health is unknown.
pub open spec fn smart_health_of(ls: Seq<Seq<char>>) -> DiskHealth
    decreases ls.len(),
{
    if ls.len() == 0 {
        DiskHealth::Unknown
    } else if contains(ls[0], "SMART Status:"@) && (contains(ls[0], "Verified"@) || contains(
        ls[0],
        "OK"@,
    )) {
        DiskHealth::Healthy
    } else if contains(ls[0], "SMART Status:"@) && contains(ls[0], "Failing"@) {
        DiskHealth::Critical
    } else {
        smart_health_of(ls.skip(1))
    }
}

/// The health of a drive from the text `diskutil info` prints for it.
pub fn smart_status_health(text: &str) -> (h: DiskHealth)
    ensures
        h == smart_health_of(lines(text@)),
{
    let c = chars_of(text);
    let ls = lines_of(&c);
    let ghost all = lines(text@);
    assert(all.skip(0) =~= all);
    let mut i: usize = 0;
    while i < ls.len()
        invariant
            i <= ls@.len(),
            views(ls@) == all,
            all == lines(text@),
            smart_health_of(all) == smart_health_of(all.skip(i as int)),
        decreases ls@.len() - i,
    {
        let ghost rest = all.skip(i as int);
        assert(rest[0] == ls@[i as int]@);
        assert(rest.skip(1) =~= all.skip(i + 1));
        let l = &ls[i];
        if has(l, "SMART Status:") {
            if has(l, "Verified") || has(l, "OK") {
                return DiskHealth::Healthy;
            } else if has(l, "Failing") {
                return DiskHealth::Critical;
            }
        }
        i = i + 1;
    }
    assert(all.skip(i as int) =~= Seq::<Seq<char>>::empty());
    DiskHealth::Unknown
}

// ---------------------------------------------------------------------------
// Laws
// ---------------------------------------------------------------------------
/// A `Device / Media Name:` line names the model (and keeps the size found
/// so far); a `Disk Size:` line with a bracketed byte count gives the size
/// (and keeps the model); a line that is neither changes nothing. The last
/// such line wins.
pub proof fn lemma_details_lines(ls: Seq<Seq<char>>, l: Seq<char>)
    ensures
        starts_with(trim(l), "Device / Media Name:"@) ==> details_of(ls.push(l)) == (
            Some(trim(split_by(trim(l), ':')[1])),
            details_of(ls).1,
        ),
        !starts_with(trim(l), "Device / Media Name:"@) && starts_with(trim(l), "Disk Size:"@)
            && split_by(trim(l), '(').len() >= 2 && words(split_by(trim(l), '(')[1]).len() >= 1
            ==> details_of(ls.push(l)) == (
            details_of(ls).0,
            parse_u64(words(split_by(trim(l), '(')[1])[0]),
        ),
        !starts_with(trim(l), "Device / Media Name:"@) && !starts_with(trim(l), "Disk Size:"@)
            ==> details_of(ls.push(l)) == details_of(ls),
        details_of(Seq::empty()) == (None::<Seq<char>>, None::<u64>),
{
    assert(ls.push(l).drop_last() =~= ls);
}

/// The first line naming `SMART Status:` with a verdict decides the
/// health: `Verified` or `OK` is healthy, `Failing` critical; lines before
/// it without such a verdict do not matter, and a text without one is of
/// unknown health.
pub proof fn lemma_smart_status_first_verdict(l: Seq<char>, rest: Seq<Seq<char>>)
    ensures
        contains(l, "SMART Status:"@) && (contains(l, "Verified"@) || contains(l, "OK"@))
            ==> smart_health_of(seq![l] + rest) == DiskHealth::Healthy,
        contains(l, "SMART Status:"@) && !contains(l, "Verified"@) && !contains(l, "OK"@)
            && contains(l, "Failing"@) ==> smart_health_of(seq![l] + rest) == DiskHealth::Critical,
        !contains(l, "SMART Status:"@) ==> smart_health_of(seq![l] + rest) == smart_health_of(
            rest,
        ),
        smart_health_of(Seq::empty()) == DiskHealth::Unknown,
{
    assert((seq![l] + rest).skip(1) =~= rest);
    assert((seq![l] + rest)[0] == l);
}

/// A line of `diskutil list` is a solid-state drive only when it says
/// `internal` and mentions SSD or NVMe.
pub proof fn lemma_list_line_type(line: Seq<char>)
    ensures
        (list_line_type(line) == DiskType::SataSsd) == (contains(line, "internal"@) && (contains(
            line,
            "SSD"@,
        ) || contains(line, "NVMe"@) || contains(line, "Apple SSD"@))),
        list_line_type(line) != DiskType::SataSsd ==> list_line_type(line) == DiskType::Unknown,
{
}

} // verus!
