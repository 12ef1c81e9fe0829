//! The Linux memory readings: `/proc/meminfo`, `/proc/swaps`,
//! `/proc/vmstat`, the zram device's sysfs files, the `vm.*` settings and a
//! process's `status` and `cmdline`.
use vstd::prelude::*;

use crate::memory_management::{
    MemoryInfo, MemoryMonitor, MemoryStats, SwapDevice, SwapType, ZramInfo,
};
use crate::num::{
    dec, is_digit, lemma_digits_are_decimal, lemma_parse_of_dec, parse_i32, parse_i32_chars,
    parse_u32, parse_u32_chars, parse_u64, parse_u64_chars,
};
use crate::text::{
    chars_of, contains, contains_exec, eq_chars, extend, first_index, lemma_first_index, lines,
    lines_of, owned, remove_all,
    remove_all_exec, skip_ws_from, split_by, split_chars, split_once, split_once_exec,
    starts_with, string_of, subvec, trim, trim_chars, trim_end, trim_start, views, words,
    words_of, ws_back_from,
};

verus! {

/// `a - b`, or 0 when `b` is larger (`u64::saturating_sub`).
pub open spec fn sat_sub(a: u64, b: u64) -> u64 {
    if a >= b {
        (a - b) as u64
    } else {
        0
    }
}

// ---------------------------------------------------------------------------
// /proc/meminfo
// ---------------------------------------------------------------------------
/// A `/proc/meminfo` line `Key:   1234 kB`: the part before the first `:`
/// and the number in kB after it (every ` kB` removed from the trimmed
/// rest), when that parses.
pub open spec fn meminfo_entry(l: Seq<char>) -> Option<(Seq<char>, u64)> {
    match split_once(l, ':') {
        Some((k, v)) => match parse_u64(remove_all(trim(v), " kB"@)) {
            Some(kb) => Some((k, kb)),
            None => None,
        },
        None => None,
    }
}

/// The value in kB of the last line of `ls` for `key`.
pub open spec fn meminfo_kb(ls: Seq<Seq<char>>, key: Seq<char>) -> Option<u64>
    decreases ls.len(),
{
    if ls.len() == 0 {
        None
    } else {
        match meminfo_entry(ls.last()) {
            Some((k, v)) => if k == key {
                Some(v)
            } else {
                meminfo_kb(ls.drop_last(), key)
            },
            None => meminfo_kb(ls.drop_last(), key),
        }
    }
}

/// Every value of the lines can be taken in bytes.
pub open spec fn meminfo_in_range(ls: Seq<Seq<char>>) -> bool {
    forall|i: int|
        0 <= i < ls.len() ==> (#[trigger] meminfo_entry(ls[i]) matches Some((k, v)) ==> v * 1024
            <= u64::MAX)
}

/// The value in bytes for `key`, or `default` when no line gives it.
pub open spec fn meminfo_bytes(ls: Seq<Seq<char>>, key: Seq<char>, default: u64) -> u64 {
    match meminfo_kb(ls, key) {
        Some(v) => (v * 1024) as u64,
        None => default,
    }
}

/// Looking a key up finds the last line that gives it: a line
/// `key: value` appended to the lines answers for its key, and leaves every
/// other key's answer as it was.
pub proof fn lemma_meminfo_last_line_wins(ls: Seq<Seq<char>>, l: Seq<char>, key: Seq<char>)
    ensures
        meminfo_entry(l) matches Some((k, v)) ==> meminfo_kb(ls.push(l), k) == Some(v),
        meminfo_entry(l) matches Some((k, v)) && k != key ==> meminfo_kb(ls.push(l), key)
            == meminfo_kb(ls, key),
        meminfo_entry(l) is None ==> meminfo_kb(ls.push(l), key) == meminfo_kb(ls, key),
        meminfo_kb(Seq::empty(), key) is None,
{
    assert(ls.push(l).drop_last() =~= ls);
}

/// Removing `p` from a text that ends in `p` and whose other characters
/// never start `p` leaves the rest.
proof fn lemma_remove_trailing(d: Seq<char>, p: Seq<char>)
    requires
        p.len() > 0,
        forall|j: int| 0 <= j < d.len() ==> d[j] != p[0],
    ensures
        remove_all(d + p, p) == d,
    decreases d.len(),
{
    if d.len() == 0 {
        assert(d + p =~= p);
        assert(p.subrange(0, p.len() as int) =~= p);
        assert(p.skip(p.len() as int) =~= Seq::<char>::empty());
        assert(remove_all(Seq::<char>::empty(), p) == Seq::<char>::empty());
        assert(starts_with(p, p));
        assert(remove_all(p, p) == remove_all(p.skip(p.len() as int), p));
    } else {
        assert((d + p)[0] == d[0]);
        assert(!starts_with(d + p, p)) by {
            if starts_with(d + p, p) {
                assert((d + p).subrange(0, p.len() as int)[0] == p[0]);
            }
        }
        assert((d + p).skip(1) =~= d.skip(1) + p);
        lemma_remove_trailing(d.skip(1), p);
        assert(remove_all(d + p, p) == seq![(d + p)[0]] + remove_all((d + p).skip(1), p));
        assert(seq![d[0]] + d.skip(1) =~= d);
    }
}

/// A `/proc/meminfo` line `Key: N kB` (a key without `:`) reads as that key
/// and `N`, and once appended to the lines it answers for its key.
pub proof fn lemma_meminfo_line_reads(ls: Seq<Seq<char>>, k: Seq<char>, n: u64)
    requires
        !k.contains(':'),
    ensures
        meminfo_entry(k + ":"@ + " "@ + dec(n as nat) + " kB"@) == Some((k, n)),
        meminfo_kb(ls.push(k + ":"@ + " "@ + dec(n as nat) + " kB"@), k) == Some(n),
{
    reveal_strlit(":");
    reveal_strlit(" ");
    reveal_strlit(" kB");
    let d = dec(n as nat);
    let v = " "@ + d + " kB"@;
    let l = k + ":"@ + v;
    assert(l =~= k + ":"@ + " "@ + d + " kB"@);
    lemma_digits_are_decimal(n as nat);
    // The first `:` is the one after the key.
    lemma_first_index(l, ':');
    assert(l[k.len() as int] == ':');
    assert forall|j: int| 0 <= j < k.len() implies l[j] != ':' by {
        assert(l[j] == k[j]);
        if k[j] == ':' {
            assert(k.contains(':'));
        }
    }
    let fi = first_index(l, ':');
    assert(fi == k.len());
    assert(l.take(fi) =~= k);
    assert(l.skip(fi + 1) =~= v);
    // Trimming drops the leading space only.
    assert(v[0] == ' ');
    assert(v[1] == d[0]);
    assert(is_digit(d[0]));
    assert(skip_ws_from(v, 1) == 1);
    assert(skip_ws_from(v, 0) == 1);
    let t = v.subrange(1, v.len() as int);
    assert(t =~= d + " kB"@);
    assert(t[t.len() - 1] == 'B');
    assert(ws_back_from(t, t.len() as int) == t.len());
    assert(trim_start(v) =~= t);
    assert(trim_end(t) =~= t);
    assert(trim(v) == d + " kB"@);
    // The unit goes, the digits stay.
    assert forall|j: int| 0 <= j < d.len() implies d[j] != " kB"@[0] by {
        assert(is_digit(d[j]));
    }
    lemma_remove_trailing(d, " kB"@);
    lemma_parse_of_dec(n);
    assert(ls.push(l).drop_last() =~= ls);
}

/// `/proc/meminfo` counts in kB of 1024 bytes: a key's figure in bytes is
/// 1024 times its kB value, and a key no line gives takes the default.
pub proof fn lemma_meminfo_bytes_in_kib(ls: Seq<Seq<char>>, key: Seq<char>, default: u64)
    ensures
        meminfo_kb(ls, key) matches Some(v) ==> meminfo_bytes(ls, key, default) as int == (v
            * 1024) as u64,
        meminfo_kb(ls, key) is None ==> meminfo_bytes(ls, key, default) == default,
{
}

/// The memory figures `/proc/meminfo` gives: used memory is the total less
/// free memory, buffers and cache (each subtraction stopping at 0), and the
/// available memory defaults to the free memory.
pub open spec fn meminfo_memory(ls: Seq<Seq<char>>) -> MemoryInfo {
    let total = meminfo_bytes(ls, "MemTotal"@, 0);
    let free = meminfo_bytes(ls, "MemFree"@, 0);
    let buffers = meminfo_bytes(ls, "Buffers"@, 0);
    let cached = meminfo_bytes(ls, "Cached"@, 0);
    MemoryInfo {
        total,
        available: meminfo_bytes(ls, "MemAvailable"@, free),
        free,
        used: sat_sub(sat_sub(sat_sub(total, free), buffers), cached),
        cached,
        buffers,
        shared: meminfo_bytes(ls, "Shmem"@, 0),
        slab_reclaimable: meminfo_bytes(ls, "SReclaimable"@, 0),
        active: meminfo_bytes(ls, "Active"@, 0),
        inactive: meminfo_bytes(ls, "Inactive"@, 0),
        dirty: meminfo_bytes(ls, "Dirty"@, 0),
        writeback: meminfo_bytes(ls, "Writeback"@, 0),
        mapped: meminfo_bytes(ls, "Mapped"@, 0),
        mlocked: meminfo_bytes(ls, "Mlocked"@, 0),
        hugepages_total: meminfo_bytes(ls, "HugePages_Total"@, 0),
        hugepages_free: meminfo_bytes(ls, "HugePages_Free"@, 0),
        hugepage_size: meminfo_bytes(ls, "Hugepagesize"@, 0),
    }
}

/// The key and kB value of a `/proc/meminfo` line.
fn meminfo_entry_exec(l: &Vec<char>) -> (r: Option<(Vec<char>, u64)>)
    ensures
        match meminfo_entry(l@) {
            Some((k, v)) => r matches Some((x, y)) && x@ == k && y == v,
            None => r is None,
        },
{
    let kb = chars_of(" kB");
    proof {
        reveal_strlit(" kB");
    }
    match split_once_exec(l, ':') {
        Some((k, v)) => {
            let t = trim_chars(&v);
            let n = remove_all_exec(&t, &kb);
            match parse_u64_chars(&n) {
                Some(x) => Some((k, x)),
                None => None,
            }
        },
        None => None,
    }
}

/// The value in kB of the last line for `key`.
fn meminfo_kb_exec(ls: &Vec<Vec<char>>, key: &str) -> (r: Option<u64>)
    ensures
        r == meminfo_kb(views(ls@), key@),
{
    let k = chars_of(key);
    let mut i: usize = ls.len();
    assert(views(ls@).take(i as int) =~= views(ls@));
    while i > 0
        invariant
            i <= ls@.len(),
            k@ == key@,
            meminfo_kb(views(ls@), key@) == meminfo_kb(views(ls@).take(i as int), key@),
        decreases i,
    {
        let ghost t = views(ls@).take(i as int);
        assert(t.drop_last() =~= views(ls@).take(i - 1));
        assert(t.last() == ls@[i - 1]@);
        match meminfo_entry_exec(&ls[i - 1]) {
            Some((x, v)) => {
                if eq_chars(&x, &k) {
                    return Some(v);
                }
            },
            None => {},
        }
        i = i - 1;
    }
    None
}

/// The value in bytes for `key`, or `default`.
fn meminfo_bytes_exec(ls: &Vec<Vec<char>>, key: &str, default: u64) -> (r: u64)
    requires
        meminfo_in_range(views(ls@)),
    ensures
        r == meminfo_bytes(views(ls@), key@, default),
{
    match meminfo_kb_exec(ls, key) {
        Some(v) => {
            proof {
                lemma_meminfo_kb_in_range(views(ls@), key@);
            }
            v * 1024
        },
        None => default,
    }
}

proof fn lemma_meminfo_kb_in_range(ls: Seq<Seq<char>>, key: Seq<char>)
    requires
        meminfo_in_range(ls),
    ensures
        meminfo_kb(ls, key) matches Some(v) ==> v * 1024 <= u64::MAX,
    decreases ls.len(),
{
    if ls.len() > 0 {
        assert(meminfo_entry(ls[ls.len() - 1]) == meminfo_entry(ls.last()));
        assert(meminfo_in_range(ls.drop_last())) by {
            assert forall|i: int| 0 <= i < ls.drop_last().len() implies (
            #[trigger] meminfo_entry(ls.drop_last()[i]) matches Some((k, v)) ==> v * 1024
                <= u64::MAX) by {
                assert(ls.drop_last()[i] == ls[i]);
            }
        }
        lemma_meminfo_kb_in_range(ls.drop_last(), key);
    }
}

/// Whether every value of a `/proc/meminfo` text can be taken in bytes.
pub fn meminfo_fits(content: &str) -> (b: bool)
    ensures
        b == meminfo_in_range(lines(content@)),
{
    let c = chars_of(content);
    let ls = lines_of(&c);
    let mut i: usize = 0;
    while i < ls.len()
        invariant
            i <= ls@.len(),
            views(ls@) == lines(content@),
            forall|j: int|
                0 <= j < i ==> (#[trigger] meminfo_entry(views(ls@)[j]) matches Some((k, v))
                    ==> v * 1024 <= u64::MAX),
        decreases ls@.len() - i,
    {
        assert(views(ls@)[i as int] == ls@[i as int]@);
        match meminfo_entry_exec(&ls[i]) {
            Some((_, v)) => {
                if v > 0x3f_ffff_ffff_ffff {
                    assert(!(meminfo_entry(views(ls@)[i as int]) matches Some((k, w)) ==> w * 1024
                        <= u64::MAX));
                    return false;
                }
            },
            None => {},
        }
        i = i + 1;
    }
    true
}

impl MemoryMonitor {
    /// Take the memory figures and the swap totals from the text of
    /// `/proc/meminfo`; swap in use is the total less the free swap,
    /// stopping at 0.
    pub fn read_meminfo(&mut self, content: &str)
        requires
            meminfo_in_range(lines(content@)),
        ensures
            final(self).memory == meminfo_memory(lines(content@)),
            final(self).memory.total == meminfo_bytes(lines(content@), "MemTotal"@, 0),
            final(self).memory.free == meminfo_bytes(lines(content@), "MemFree"@, 0),
            final(self).memory.buffers == meminfo_bytes(lines(content@), "Buffers"@, 0),
            final(self).memory.cached == meminfo_bytes(lines(content@), "Cached"@, 0),
            final(self).memory.shared == meminfo_bytes(lines(content@), "Shmem"@, 0),
            final(self).memory.slab_reclaimable == meminfo_bytes(lines(content@), "SReclaimable"@, 0),
            final(self).memory.active == meminfo_bytes(lines(content@), "Active"@, 0),
            final(self).memory.inactive == meminfo_bytes(lines(content@), "Inactive"@, 0),
            final(self).memory.dirty == meminfo_bytes(lines(content@), "Dirty"@, 0),
            final(self).memory.writeback == meminfo_bytes(lines(content@), "Writeback"@, 0),
            final(self).memory.mapped == meminfo_bytes(lines(content@), "Mapped"@, 0),
            final(self).memory.mlocked == meminfo_bytes(lines(content@), "Mlocked"@, 0),
            final(self).memory.hugepages_total == meminfo_bytes(lines(content@), "HugePages_Total"@, 0),
            final(self).memory.hugepages_free == meminfo_bytes(lines(content@), "HugePages_Free"@, 0),
            final(self).memory.hugepage_size == meminfo_bytes(lines(content@), "Hugepagesize"@, 0),
            final(self).memory.available == meminfo_bytes(
                lines(content@),
                "MemAvailable"@,
                final(self).memory.free,
            ),
            final(self).memory.used == sat_sub(
                sat_sub(
                    sat_sub(final(self).memory.total, final(self).memory.free),
                    final(self).memory.buffers,
                ),
                final(self).memory.cached,
            ),
            final(self).swap.total == meminfo_bytes(lines(content@), "SwapTotal"@, 0),
            final(self).swap.free == meminfo_bytes(lines(content@), "SwapFree"@, 0),
            final(self).swap.used == sat_sub(final(self).swap.total, final(self).swap.free),
            final(self).swap.devices == old(self).swap.devices,
            final(self).swap.zram == old(self).swap.zram,
            final(self).stats == old(self).stats,
            final(self).vm_settings == old(self).vm_settings,
    {
        let c = chars_of(content);
        let ls = lines_of(&c);
        let total = meminfo_bytes_exec(&ls, "MemTotal", 0);
        let free = meminfo_bytes_exec(&ls, "MemFree", 0);
        let available = meminfo_bytes_exec(&ls, "MemAvailable", free);
        let buffers = meminfo_bytes_exec(&ls, "Buffers", 0);
        let cached = meminfo_bytes_exec(&ls, "Cached", 0);
        self.memory = MemoryInfo {
            total,
            available,
            free,
            used: total.saturating_sub(free).saturating_sub(buffers).saturating_sub(cached),
            cached,
            buffers,
            shared: meminfo_bytes_exec(&ls, "Shmem", 0),
            slab_reclaimable: meminfo_bytes_exec(&ls, "SReclaimable", 0),
            active: meminfo_bytes_exec(&ls, "Active", 0),
            inactive: meminfo_bytes_exec(&ls, "Inactive", 0),
            dirty: meminfo_bytes_exec(&ls, "Dirty", 0),
            writeback: meminfo_bytes_exec(&ls, "Writeback", 0),
            mapped: meminfo_bytes_exec(&ls, "Mapped", 0),
            mlocked: meminfo_bytes_exec(&ls, "Mlocked", 0),
            hugepages_total: meminfo_bytes_exec(&ls, "HugePages_Total", 0),
            hugepages_free: meminfo_bytes_exec(&ls, "HugePages_Free", 0),
            hugepage_size: meminfo_bytes_exec(&ls, "Hugepagesize", 0),
        };
        self.swap.total = meminfo_bytes_exec(&ls, "SwapTotal", 0);
        self.swap.free = meminfo_bytes_exec(&ls, "SwapFree", 0);
        self.swap.used = self.swap.total.saturating_sub(self.swap.free);
    }
}

// ---------------------------------------------------------------------------
// /proc/swaps
// ---------------------------------------------------------------------------
/// The type of a swap area from its `Type` column and path.
pub open spec fn swap_type_of(kind: Seq<char>, path: Seq<char>) -> SwapType {
    if kind == "file"@ {
        SwapType::File
    } else if kind == "partition"@ {
        SwapType::Partition
    } else if contains(path, "zram"@) {
        SwapType::Zram
    } else {
        SwapType::Unknown
    }
}

/// A number of a `/proc/swaps` column, 0 when it does not parse.
pub open spec fn kb_or_zero(w: Seq<char>) -> u64 {
    match parse_u64(w) {
        Some(v) => v,
        None => 0,
    }
}

/// What a `/proc/swaps` line with at least five columns describes: path,
/// type, size and use in bytes, priority (0 when it does not parse).
pub open spec fn swap_line(l: Seq<char>) -> Option<(Seq<char>, SwapType, u64, u64, i32)> {
    let w = words(l);
    if w.len() >= 5 {
        Some(
            (
                w[0],
                swap_type_of(w[1], w[0]),
                (kb_or_zero(w[2]) * 1024) as u64,
                (kb_or_zero(w[3]) * 1024) as u64,
                match parse_i32(w[4]) {
                    Some(p) => p,
                    None => 0,
                },
            ),
        )
    } else {
        None
    }
}

/// The swap areas of the lines, in order.
pub open spec fn swap_lines(ls: Seq<Seq<char>>) -> Seq<(Seq<char>, SwapType, u64, u64, i32)>
    decreases ls.len(),
{
    if ls.len() == 0 {
        Seq::empty()
    } else {
        match swap_line(ls.last()) {
            Some(d) => swap_lines(ls.drop_last()).push(d),
            None => swap_lines(ls.drop_last()),
        }
    }
}

/// The swap areas `/proc/swaps` lists below its header line.
pub open spec fn swaps_of(content: Seq<char>) -> Seq<(Seq<char>, SwapType, u64, u64, i32)> {
    let ls = lines(content);
    if ls.len() == 0 {
        Seq::empty()
    } else {
        swap_lines(ls.skip(1))
    }
}

/// The sizes of every listed swap area can be taken in bytes.
pub open spec fn swaps_in_range(content: Seq<char>) -> bool {
    let ls = lines(content);
    forall|i: int|
        1 <= i < ls.len() && #[trigger] words(ls[i]).len() >= 5 ==> kb_or_zero(words(ls[i])[2])
            * 1024 <= u64::MAX && kb_or_zero(words(ls[i])[3]) * 1024 <= u64::MAX
}

/// A swap device as path, type, sizes and priority (all active).
pub open spec fn device_view(d: SwapDevice) -> (Seq<char>, SwapType, u64, u64, i32) {
    (d.path@, d.swap_type, d.total_bytes, d.used_bytes, d.priority)
}

pub open spec fn devices_view(v: Seq<SwapDevice>) -> Seq<(Seq<char>, SwapType, u64, u64, i32)> {
    v.map_values(|d: SwapDevice| device_view(d))
}

fn is_str(v: &Vec<char>, s: &str) -> (b: bool)
    ensures
        b == (v@ == s@),
{
    eq_chars(v, &chars_of(s))
}

fn kb_or_zero_exec(w: &Vec<char>) -> (r: u64)
    ensures
        r == kb_or_zero(w@),
{
    match parse_u64_chars(w) {
        Some(v) => v,
        None => 0,
    }
}

impl MemoryMonitor {
    /// Replace the swap devices by the areas `/proc/swaps` lists (all of
    /// them active).
    pub fn read_swap_devices(&mut self, content: &str)
        requires
            swaps_in_range(content@),
        ensures
            devices_view(final(self).swap.devices@) == swaps_of(content@),
            forall|i: int|
                0 <= i < final(self).swap.devices@.len() ==> (#[trigger] final(self).swap.devices@[i]).active,
            final(self).memory == old(self).memory,
            final(self).swap.total == old(self).swap.total,
            final(self).swap.used == old(self).swap.used,
            final(self).swap.free == old(self).swap.free,
            final(self).swap.zram == old(self).swap.zram,
            final(self).stats == old(self).stats,
            final(self).vm_settings == old(self).vm_settings,
    {
        let c = chars_of(content);
        let ls = lines_of(&c);
        let ghost all = lines(content@);
        let mut devices: Vec<SwapDevice> = Vec::new();
        if ls.len() > 0 {
            let ghost body = all.skip(1);
            let mut i: usize = 1;
            while i < ls.len()
                invariant
                    1 <= i <= ls@.len(),
                    views(ls@) == all,
                    all == lines(content@),
                    body == all.skip(1),
                    swaps_in_range(content@),
                    devices_view(devices@) == swap_lines(body.take(i - 1)),
                    forall|j: int| 0 <= j < devices@.len() ==> #[trigger] devices@[j].active,
                decreases ls@.len() - i,
            {
                assert(body.take(i as int).drop_last() =~= body.take(i - 1));
                assert(body.take(i as int).last() == ls@[i as int]@);
                let w = words_of(&ls[i]);
                if w.len() >= 5 {
                    assert(words(all[i as int]).len() >= 5);
                    let kind = &w[1];
                    let path = subvec(&w[0], 0, w[0].len());
                    let swap_type = if is_str(kind, "file") {
                        SwapType::File
                    } else if is_str(kind, "partition") {
                        SwapType::Partition
                    } else if contains_exec(&path, &chars_of("zram")) {
                        SwapType::Zram
                    } else {
                        SwapType::Unknown
                    };
                    let total = kb_or_zero_exec(&w[2]) * 1024;
                    let used = kb_or_zero_exec(&w[3]) * 1024;
                    let priority = match parse_i32_chars(&w[4]) {
                        Some(p) => p,
                        None => 0,
                    };
                    assert(path@ =~= w@[0]@);
                    let d = SwapDevice {
                        path: string_of(path),
                        swap_type,
                        total_bytes: total,
                        used_bytes: used,
                        priority,
                        active: true,
                    };
                    devices.push(d);
                    assert(devices_view(devices@) =~= swap_lines(body.take(i as int)));
                } else {
                    assert(devices_view(devices@) =~= swap_lines(body.take(i as int)));
                }
                i = i + 1;
            }
            assert(body.take(i - 1) =~= body);
        }
        self.swap.devices = devices;
    }
}

/// Whether every swap area `/proc/swaps` lists has sizes that can be taken
/// in bytes.
pub fn swaps_fit(content: &str) -> (b: bool)
    ensures
        b == swaps_in_range(content@),
{
    let c = chars_of(content);
    let ls = lines_of(&c);
    let ghost all = lines(content@);
    let mut i: usize = 1;
    while i < ls.len()
        invariant
            1 <= i,
            views(ls@) == all,
            all == lines(content@),
            forall|j: int|
                1 <= j < i && j < all.len() && #[trigger] words(all[j]).len() >= 5 ==> kb_or_zero(
                    words(all[j])[2],
                ) * 1024 <= u64::MAX && kb_or_zero(words(all[j])[3]) * 1024 <= u64::MAX,
        decreases ls@.len() - i,
    {
        let w = words_of(&ls[i]);
        assert(ls@[i as int]@ == all[i as int]);
        if w.len() >= 5 {
            let total = kb_or_zero_exec(&w[2]);
            let used = kb_or_zero_exec(&w[3]);
            assert(words(all[i as int])[2] == w@[2]@ && words(all[i as int])[3] == w@[3]@);
            if total > 0x3f_ffff_ffff_ffff || used > 0x3f_ffff_ffff_ffff {
                assert(words(all[i as int]).len() >= 5);
                return false;
            }
        }
        i = i + 1;
    }
    true
}

// ---------------------------------------------------------------------------
// /proc/vmstat
// ---------------------------------------------------------------------------
/// The counters after one `/proc/vmstat` line: a known name followed by a
/// value (0 when it does not parse) sets its counter.
pub open spec fn vmstat_step(st: MemoryStats, l: Seq<char>) -> MemoryStats {
    let w = words(l);
    if w.len() < 2 {
        st
    } else {
        let v = kb_or_zero(w[1]);
        if w[0] == "pgfault"@ {
            MemoryStats { page_faults_minor: v, ..st }
        } else if w[0] == "pgmajfault"@ {
            MemoryStats { page_faults_major: v, ..st }
        } else if w[0] == "pswpin"@ {
            MemoryStats { swap_in: v, ..st }
        } else if w[0] == "pswpout"@ {
            MemoryStats { swap_out: v, ..st }
        } else if w[0] == "pgalloc_normal"@ {
            MemoryStats { pages_allocated: v, ..st }
        } else if w[0] == "pgfree"@ {
            MemoryStats { pages_freed: v, ..st }
        } else if w[0] == "oom_kill"@ {
            MemoryStats { oom_kills: v, ..st }
        } else {
            st
        }
    }
}

/// The counters after the given lines.
pub open spec fn vmstat_of(st: MemoryStats, ls: Seq<Seq<char>>) -> MemoryStats
    decreases ls.len(),
{
    if ls.len() == 0 {
        st
    } else {
        vmstat_step(vmstat_of(st, ls.drop_last()), ls.last())
    }
}

impl MemoryMonitor {
    /// Update the counters from the text of `/proc/vmstat`; counters it does
    /// not mention keep their values.
    pub fn read_vmstat(&mut self, content: &str)
        ensures
            final(self).stats == vmstat_of(old(self).stats, lines(content@)),
            final(self).memory == old(self).memory,
            final(self).swap == old(self).swap,
            final(self).vm_settings == old(self).vm_settings,
    {
        let c = chars_of(content);
        let ls = lines_of(&c);
        let ghost all = lines(content@);
        let ghost start = self.stats;
        let mut st = self.stats;
        let mut i: usize = 0;
        while i < ls.len()
            invariant
                i <= ls@.len(),
                views(ls@) == all,
                st == vmstat_of(start, all.take(i as int)),
            decreases ls@.len() - i,
        {
            assert(all.take(i + 1).drop_last() =~= all.take(i as int));
            assert(all.take(i + 1).last() == ls@[i as int]@);
            let w = words_of(&ls[i]);
            if w.len() >= 2 {
                let v = kb_or_zero_exec(&w[1]);
                let k = &w[0];
                if is_str(k, "pgfault") {
                    st.page_faults_minor = v;
                } else if is_str(k, "pgmajfault") {
                    st.page_faults_major = v;
                } else if is_str(k, "pswpin") {
                    st.swap_in = v;
                } else if is_str(k, "pswpout") {
                    st.swap_out = v;
                } else if is_str(k, "pgalloc_normal") {
                    st.pages_allocated = v;
                } else if is_str(k, "pgfree") {
                    st.pages_freed = v;
                } else if is_str(k, "oom_kill") {
                    st.oom_kills = v;
                }
            }
            i = i + 1;
        }
        assert(all.take(ls@.len() as int) =~= all);
        self.stats = st;
    }
}

// ---------------------------------------------------------------------------
// zram
// ---------------------------------------------------------------------------
/// The contents of the files of `/sys/block/zram0` that could be read.
pub struct ZramFiles {
    /// `disksize`
    pub disksize: Option<String>,
    /// `compr_data_size`
    pub compr_data_size: Option<String>,
    /// `orig_data_size`
    pub orig_data_size: Option<String>,
    /// `mem_used_total`
    pub mem_used_total: Option<String>,
    /// `comp_algorithm`
    pub comp_algorithm: Option<String>,
}

/// The trimmed content of a file, empty when it could not be read.
pub open spec fn file_text(f: Option<String>) -> Seq<char> {
    match f {
        Some(c) => trim(c@),
        None => Seq::empty(),
    }
}

/// The number in a file, 0 when it cannot be read or does not parse.
pub open spec fn file_number(f: Option<String>) -> u64 {
    kb_or_zero(file_text(f))
}

pub open spec fn is_bracket(c: char) -> bool {
    c == '[' || c == ']'
}

/// `s` without leading brackets.
pub open spec fn strip_leading_brackets(s: Seq<char>) -> Seq<char>
    decreases s.len(),
{
    if s.len() > 0 && is_bracket(s[0]) {
        strip_leading_brackets(s.skip(1))
    } else {
        s
    }
}

/// `s` without trailing brackets.
pub open spec fn strip_trailing_brackets(s: Seq<char>) -> Seq<char>
    decreases s.len(),
{
    if s.len() > 0 && is_bracket(s.last()) {
        strip_trailing_brackets(s.drop_last())
    } else {
        s
    }
}

/// The index of the first word that starts with `[`, or `ws.len()`.
pub open spec fn first_bracketed(ws: Seq<Seq<char>>) -> int
    decreases ws.len(),
{
    if ws.len() == 0 {
        0
    } else if ws[0].len() > 0 && ws[0][0] == '[' {
        0
    } else {
        1 + first_bracketed(ws.skip(1))
    }
}

/// The compression algorithm in use: the bracketed word of
/// `comp_algorithm` (such as `lzo [lz4] zstd`) without its brackets, or the
/// whole trimmed text when no word is bracketed.
pub open spec fn zram_algorithm(t: Seq<char>) -> Seq<char> {
    let ws = words(t);
    let k = first_bracketed(ws);
    if k < ws.len() {
        strip_trailing_brackets(strip_leading_brackets(ws[k]))
    } else {
        t
    }
}

proof fn lemma_first_bracketed(ws: Seq<Seq<char>>, i: int)
    requires
        0 <= i <= ws.len(),
        forall|j: int| 0 <= j < i ==> !(ws[j].len() > 0 && ws[j][0] == '['),
    ensures
        first_bracketed(ws) == i + first_bracketed(ws.skip(i)),
    decreases i,
{
    if i > 0 {
        assert(ws.skip(1).skip(i - 1) =~= ws.skip(i));
        lemma_first_bracketed(ws.skip(1), i - 1);
    } else {
        assert(ws.skip(0) =~= ws);
    }
}

fn strip_brackets_exec(w: &Vec<char>) -> (r: Vec<char>)
    ensures
        r@ == strip_trailing_brackets(strip_leading_brackets(w@)),
{
    let mut a: usize = 0;
    assert(w@.skip(0) =~= w@);
    while a < w.len() && (w[a] == '[' || w[a] == ']')
        invariant
            a <= w@.len(),
            strip_leading_brackets(w@) == strip_leading_brackets(w@.skip(a as int)),
        decreases w@.len() - a,
    {
        assert(w@.skip(a as int).skip(1) =~= w@.skip(a + 1));
        a = a + 1;
    }
    let ghost lead = w@.skip(a as int);
    assert(strip_leading_brackets(lead) == lead);
    let mut b: usize = w.len();
    assert(lead.take(b - a) =~= lead);
    while b > a && (w[b - 1] == '[' || w[b - 1] == ']')
        invariant
            a <= b <= w@.len(),
            lead == w@.skip(a as int),
            strip_trailing_brackets(lead) == strip_trailing_brackets(lead.take(b - a)),
        decreases b,
    {
        assert(lead.take(b - a).drop_last() =~= lead.take(b - 1 - a));
        b = b - 1;
    }
    let r = subvec(w, a, b);
    assert(r@ =~= lead.take(b - a));
    r
}

fn file_text_exec(f: &Option<String>) -> (r: Vec<char>)
    ensures
        r@ == file_text(*f),
{
    match f {
        Some(c) => trim_chars(&chars_of(c.as_str())),
        None => Vec::new(),
    }
}

impl MemoryMonitor {
    /// Take the zram information from the files of `/sys/block/zram0`
    /// (`None` when that device does not exist).
    pub fn read_zram(&mut self, files: Option<ZramFiles>)
        ensures
            files is None ==> final(self).swap.zram is None,
            files matches Some(f) ==> (final(self).swap.zram matches Some(z) && z.device@
                == "zram0"@ && z.disksize == file_number(f.disksize) && z.compressed_bytes
                == file_number(f.compr_data_size) && z.original_bytes == file_number(
                f.orig_data_size,
            ) && z.mem_used_bytes == file_number(f.mem_used_total) && z.algorithm@
                == zram_algorithm(file_text(f.comp_algorithm)) && z.streams == 0),
            final(self).memory == old(self).memory,
            final(self).swap.total == old(self).swap.total,
            final(self).swap.used == old(self).swap.used,
            final(self).swap.free == old(self).swap.free,
            final(self).swap.devices == old(self).swap.devices,
            final(self).stats == old(self).stats,
            final(self).vm_settings == old(self).vm_settings,
    {
        let f = match files {
            Some(f) => f,
            None => {
                self.swap.zram = None;
                return;
            },
        };
        let disksize = kb_or_zero_exec(&file_text_exec(&f.disksize));
        let compressed = kb_or_zero_exec(&file_text_exec(&f.compr_data_size));
        let original = kb_or_zero_exec(&file_text_exec(&f.orig_data_size));
        let mem_used = kb_or_zero_exec(&file_text_exec(&f.mem_used_total));
        let t = file_text_exec(&f.comp_algorithm);
        let ws = words_of(&t);
        let ghost all = words(t@);
        let mut i: usize = 0;
        let mut found: Option<Vec<char>> = None;
        while i < ws.len() && found.is_none()
            invariant
                i <= ws@.len(),
                views(ws@) == all,
                all == words(t@),
                found is None ==> forall|j: int| 0 <= j < i ==> !(all[j].len() > 0 && all[j][0] == '['),
                found matches Some(x) ==> x@ == zram_algorithm(t@),
            decreases ws@.len() - i,
        {
            assert(ws@[i as int]@ == all[i as int]);
            if ws[i].len() > 0 && ws[i][0] == '[' {
                proof {
                    lemma_first_bracketed(all, i as int);
                    assert(all.skip(i as int)[0] == all[i as int]);
                }
                found = Some(strip_brackets_exec(&ws[i]));
            }
            i = i + 1;
        }
        let algorithm = match found {
            Some(a) => a,
            None => {
                proof {
                    lemma_first_bracketed(all, i as int);
                }
                subvec(&t, 0, t.len())
            },
        };
        assert(algorithm@ =~= zram_algorithm(t@));
        self.swap.zram = Some(
            ZramInfo {
                device: owned("zram0"),
                disksize,
                compressed_bytes: compressed,
                original_bytes: original,
                mem_used_bytes: mem_used,
                algorithm: string_of(algorithm),
                streams: 0,
            },
        );
    }
}

// ---------------------------------------------------------------------------
// vm settings
// ---------------------------------------------------------------------------
/// The `vm.*` settings that are read, in order.
pub open spec fn vm_setting_names() -> Seq<Seq<char>> {
    seq![
        "swappiness"@,
        "vfs_cache_pressure"@,
        "dirty_ratio"@,
        "dirty_background_ratio"@,
        "min_free_kbytes"@,
        "overcommit_memory"@,
        "overcommit_ratio"@,
    ]
}

/// The names of the `vm.*` settings that are read, in order (each is read
/// from `/proc/sys/vm/{name}`).
pub fn vm_settings_read() -> (r: Vec<&'static str>)
    ensures
        r@.len() == 7,
        forall|i: int| 0 <= i < 7 ==> #[trigger] r@[i]@ == vm_setting_names()[i],
{
    let mut r: Vec<&'static str> = Vec::new();
    r.push("swappiness");
    r.push("vfs_cache_pressure");
    r.push("dirty_ratio");
    r.push("dirty_background_ratio");
    r.push("min_free_kbytes");
    r.push("overcommit_memory");
    r.push("overcommit_ratio");
    r
}

/// The settings that could be read, with their trimmed values, in order.
pub open spec fn vm_settings_of(names: Seq<Seq<char>>, values: Seq<Option<String>>) -> Seq<
    (Seq<char>, Seq<char>),
>
    decreases values.len(),
{
    if values.len() == 0 {
        Seq::empty()
    } else {
        let init = vm_settings_of(names, values.drop_last());
        match values.last() {
            Some(v) => init.push((names[values.len() - 1], trim(v@))),
            None => init,
        }
    }
}

pub open spec fn settings_view(v: Seq<(String, String)>) -> Seq<(Seq<char>, Seq<char>)> {
    v.map_values(|p: (String, String)| (p.0@, p.1@))
}

impl MemoryMonitor {
    /// Replace the `vm.*` settings by those that could be read: `values`
    /// holds, for each name of `vm_settings_read` in order, the content of
    /// its file when it could be read.
    pub fn read_vm_settings(&mut self, values: Vec<Option<String>>)
        requires
            values@.len() == 7,
        ensures
            settings_view(final(self).vm_settings@) == vm_settings_of(vm_setting_names(), values@),
            final(self).memory == old(self).memory,
            final(self).swap == old(self).swap,
            final(self).stats == old(self).stats,
    {
        let names = vm_settings_read();
        let mut out: Vec<(String, String)> = Vec::new();
        let mut i: usize = 0;
        while i < values.len()
            invariant
                i <= values@.len(),
                values@.len() == 7,
                names@.len() == 7,
                forall|j: int| 0 <= j < 7 ==> #[trigger] names@[j]@ == vm_setting_names()[j],
                settings_view(out@) == vm_settings_of(vm_setting_names(), values@.take(i as int)),
            decreases values@.len() - i,
        {
            assert(values@.take(i + 1).drop_last() =~= values@.take(i as int));
            assert(values@.take(i + 1).last() == values@[i as int]);
            match &values[i] {
                Some(v) => {
                    let t = string_of(trim_chars(&chars_of(v.as_str())));
                    assert(names@[i as int]@ == vm_setting_names()[i as int]);
                    out.push((owned(names[i]), t));
                    assert(settings_view(out@) =~= vm_settings_of(
                        vm_setting_names(),
                        values@.take(i + 1),
                    ));
                },
                None => {
                    assert(settings_view(out@) =~= vm_settings_of(
                        vm_setting_names(),
                        values@.take(i + 1),
                    ));
                },
            }
            i = i + 1;
        }
        assert(values@.take(7) =~= values@);
        self.vm_settings = out;
    }
}

// ---------------------------------------------------------------------------
// Processes
// ---------------------------------------------------------------------------
/// The name of a process from its `cmdline`: the last `/`-separated part
/// of the first NUL-separated argument.
pub open spec fn cmdline_name(c: Seq<char>) -> Seq<char> {
    split_by(split_by(c, '\0')[0], '/').last()
}

/// The name of a process from the content of its `cmdline` file.
pub fn process_name_from_cmdline(cmdline: &str) -> (s: String)
    ensures
        s@ == cmdline_name(cmdline@),
{
    let c = chars_of(cmdline);
    let args = split_chars(&c, '\0');
    proof {
        crate::text::lemma_split_by_len(c@, '\0');
    }
    assert(args@[0]@ == split_by(c@, '\0')[0]);
    let parts = split_chars(&args[0], '/');
    proof {
        crate::text::lemma_split_by_len(args@[0]@, '/');
    }
    let last = &parts[parts.len() - 1];
    assert(last@ == split_by(args@[0]@, '/').last());
    string_of(subvec(last, 0, last.len()))
}

/// A `status` line `Key:\t1234 kB`: its key and its value in kB (0 when it
/// does not parse).
pub open spec fn status_entry(l: Seq<char>) -> Option<(Seq<char>, u64)> {
    match split_once(l, ':') {
        Some((k, v)) => Some((k, kb_or_zero(remove_all(trim(v), " kB"@)))),
        None => None,
    }
}

/// Resident, virtual and swapped memory in bytes after the given `status`
/// lines (the last line of each key wins).
pub open spec fn status_memory(ls: Seq<Seq<char>>) -> (u64, u64, u64)
    decreases ls.len(),
{
    if ls.len() == 0 {
        (0, 0, 0)
    } else {
        let (rss, vms, swap) = status_memory(ls.drop_last());
        match status_entry(ls.last()) {
            Some((k, kb)) => {
                let b = (kb * 1024) as u64;
                if k == "VmRSS"@ {
                    (b, vms, swap)
                } else if k == "VmSize"@ {
                    (rss, b, swap)
                } else if k == "VmSwap"@ {
                    (rss, vms, b)
                } else {
                    (rss, vms, swap)
                }
            },
            None => (rss, vms, swap),
        }
    }
}

/// Every value of a `status` text can be taken in bytes.
pub open spec fn status_in_range(ls: Seq<Seq<char>>) -> bool {
    forall|i: int|
        0 <= i < ls.len() ==> (#[trigger] status_entry(ls[i]) matches Some((k, v)) ==> v * 1024
            <= u64::MAX)
}

/// Resident, virtual and swapped memory of a process in bytes, from the
/// content of its `status` file.
pub fn process_memory_from_status(status: &str) -> (r: (u64, u64, u64))
    requires
        status_in_range(lines(status@)),
    ensures
        r == status_memory(lines(status@)),
{
    let c = chars_of(status);
    let ls = lines_of(&c);
    let ghost all = lines(status@);
    let kb = chars_of(" kB");
    proof {
        reveal_strlit(" kB");
    }
    let mut rss: u64 = 0;
    let mut vms: u64 = 0;
    let mut swap: u64 = 0;
    let mut i: usize = 0;
    while i < ls.len()
        invariant
            i <= ls@.len(),
            views(ls@) == all,
            status_in_range(all),
            kb@ == " kB"@,
            kb@.len() > 0,
            (rss, vms, swap) == status_memory(all.take(i as int)),
        decreases ls@.len() - i,
    {
        assert(all.take(i + 1).drop_last() =~= all.take(i as int));
        assert(all.take(i + 1).last() == ls@[i as int]@);
        assert(all[i as int] == ls@[i as int]@);
        if let Some((k, v)) = split_once_exec(&ls[i], ':') {
            let t = trim_chars(&v);
            let n = remove_all_exec(&t, &kb);
            assert(status_entry(all[i as int]) == Some((k@, kb_or_zero(n@))));
            let b = kb_or_zero_exec(&n) * 1024;
            if is_str(&k, "VmRSS") {
                rss = b;
            } else if is_str(&k, "VmSize") {
                vms = b;
            } else if is_str(&k, "VmSwap") {
                swap = b;
            }
        }
        i = i + 1;
    }
    assert(all.take(ls@.len() as int) =~= all);
    (rss, vms, swap)
}

/// Whether every value of a `status` text can be taken in bytes.
pub fn status_fits(status: &str) -> (b: bool)
    ensures
        b == status_in_range(lines(status@)),
{
    let c = chars_of(status);
    let ls = lines_of(&c);
    let kb = chars_of(" kB");
    proof {
        reveal_strlit(" kB");
    }
    let mut i: usize = 0;
    while i < ls.len()
        invariant
            i <= ls@.len(),
            views(ls@) == lines(status@),
            kb@ == " kB"@,
            kb@.len() > 0,
            forall|j: int|
                0 <= j < i ==> (#[trigger] status_entry(views(ls@)[j]) matches Some((k, v)) ==> v
                    * 1024 <= u64::MAX),
        decreases ls@.len() - i,
    {
        assert(views(ls@)[i as int] == ls@[i as int]@);
        if let Some((_, v)) = split_once_exec(&ls[i], ':') {
            let t = trim_chars(&v);
            let n = remove_all_exec(&t, &kb);
            if kb_or_zero_exec(&n) > 0x3f_ffff_ffff_ffff {
                assert(status_entry(views(ls@)[i as int]) == Some((
                    (split_once(views(ls@)[i as int], ':')->0).0,
                    kb_or_zero(n@),
                )));
                assert(!(status_entry(views(ls@)[i as int]) matches Some((k, w)) ==> w * 1024
                    <= u64::MAX));
                return false;
            }
        }
        i = i + 1;
    }
    true
}

// ---------------------------------------------------------------------------
// Tuning
// ---------------------------------------------------------------------------
/// The swappiness that is written for a requested value: at most 100.
pub fn swappiness_value(value: u8) -> (r: u8)
    ensures
        r == (if value < 100 {
            value
        } else {
            100
        }),
{
    if value < 100 {
        value
    } else {
        100
    }
}

/// The `drop_caches` level that is written for a requested one: 1
/// (page cache), 2 (dentries and inodes) or 3 (all), the request clamped
/// into that range.
pub fn drop_caches_level(level: u8) -> (r: u8)
    ensures
        r == (if level < 1 {
            1
        } else if level > 3 {
            3
        } else {
            level
        }),
        1 <= r <= 3,
{
    if level < 1 {
        1
    } else if level > 3 {
        3
    } else {
        level
    }
}

// ---------------------------------------------------------------------------
// macOS readings
// ---------------------------------------------------------------------------
/// `s` without its trailing periods (`str::trim_end_matches('.')`).
pub open spec fn strip_trailing_periods(s: Seq<char>) -> Seq<char>
    decreases s.len(),
{
    if s.len() > 0 && s.last() == '.' {
        strip_trailing_periods(s.drop_last())
    } else {
        s
    }
}

fn strip_trailing_periods_exec(s: &Vec<char>) -> (r: Vec<char>)
    ensures
        r@ == strip_trailing_periods(s@),
{
    let mut b: usize = s.len();
    assert(s@.take(b as int) =~= s@);
    while b > 0 && s[b - 1] == '.'
        invariant
            b <= s@.len(),
            strip_trailing_periods(s@) == strip_trailing_periods(s@.take(b as int)),
        decreases b,
    {
        assert(s@.take(b as int).drop_last() =~= s@.take(b - 1));
        b = b - 1;
    }
    let r = subvec(s, 0, b);
    assert(r@ =~= s@.take(b as int));
    r
}

/// A `vm_stat` line `Pages free:      12345.`: the trimmed key and the page
/// count, when it reads.
pub open spec fn vm_stat_entry(l: Seq<char>) -> Option<(Seq<char>, u64)> {
    match split_once(l, ':') {
        Some((k, v)) => match parse_u64(strip_trailing_periods(trim(v))) {
            Some(n) => Some((trim(k), n)),
            None => None,
        },
        None => None,
    }
}

/// The page count of the last line for `key`.
pub open spec fn vm_stat_pages(ls: Seq<Seq<char>>, key: Seq<char>) -> u64
    decreases ls.len(),
{
    if ls.len() == 0 {
        0
    } else {
        match vm_stat_entry(ls.last()) {
            Some((k, v)) => if k == key {
                v
            } else {
                vm_stat_pages(ls.drop_last(), key)
            },
            None => vm_stat_pages(ls.drop_last(), key),
        }
    }
}

/// The page size `vm_stat` counts in (Apple silicon).
pub open spec fn mac_page_size() -> nat {
    16384
}

/// The page counts that are used can be taken in bytes, and free plus
/// inactive memory fits.
pub open spec fn vm_stat_in_range(vm_stat: Seq<char>) -> bool {
    let ls = lines(vm_stat);
    &&& vm_stat_pages(ls, "Pages free"@) * mac_page_size() <= u64::MAX
    &&& vm_stat_pages(ls, "Pages active"@) * mac_page_size() <= u64::MAX
    &&& vm_stat_pages(ls, "Pages inactive"@) * mac_page_size() <= u64::MAX
    &&& vm_stat_pages(ls, "Pages occupied by compressor"@) * mac_page_size() <= u64::MAX
    &&& (vm_stat_pages(ls, "Pages free"@) + vm_stat_pages(ls, "Pages inactive"@))
        * mac_page_size() <= u64::MAX
}

fn vm_stat_pages_exec(ls: &Vec<Vec<char>>, key: &str) -> (r: u64)
    ensures
        r == vm_stat_pages(views(ls@), key@),
{
    let k = chars_of(key);
    let mut i: usize = ls.len();
    assert(views(ls@).take(i as int) =~= views(ls@));
    while i > 0
        invariant
            i <= ls@.len(),
            k@ == key@,
            vm_stat_pages(views(ls@), key@) == vm_stat_pages(views(ls@).take(i as int), key@),
        decreases i,
    {
        let ghost t = views(ls@).take(i as int);
        assert(t.drop_last() =~= views(ls@).take(i - 1));
        assert(t.last() == ls@[i - 1]@);
        if let Some((key_part, v)) = split_once_exec(&ls[i - 1], ':') {
            let value = strip_trailing_periods_exec(&trim_chars(&v));
            if let Some(n) = parse_u64_chars(&value) {
                if eq_chars(&trim_chars(&key_part), &k) {
                    return n;
                }
            }
        }
        i = i - 1;
    }
    0
}

impl MemoryMonitor {
    /// Take the macOS memory figures: the page counts `vm_stat` printed
    /// (when it ran) and the total `sysctl -n hw.memsize` printed (when it
    /// ran; 0 when it does not read). Available memory is free plus inactive
    /// memory, used memory the total less that (stopping at 0).
    pub fn read_macos_memory(&mut self, vm_stat: Option<&str>, memsize: Option<&str>)
        requires
            vm_stat matches Some(t) ==> vm_stat_in_range(t@),
            memsize is Some ==> (old(self).memory.free + old(self).memory.inactive <= u64::MAX
                || vm_stat is Some),
        ensures
            vm_stat matches Some(t) ==> ({
                let ls = lines(t@);
                &&& final(self).memory.free == vm_stat_pages(ls, "Pages free"@) * mac_page_size()
                &&& final(self).memory.active == vm_stat_pages(ls, "Pages active"@)
                    * mac_page_size()
                &&& final(self).memory.inactive == vm_stat_pages(ls, "Pages inactive"@)
                    * mac_page_size()
                &&& final(self).memory.cached == vm_stat_pages(
                    ls,
                    "Pages occupied by compressor"@,
                ) * mac_page_size()
            }),
            vm_stat is None ==> final(self).memory.free == old(self).memory.free
                && final(self).memory.active == old(self).memory.active
                && final(self).memory.inactive == old(self).memory.inactive
                && final(self).memory.cached == old(self).memory.cached,
            memsize matches Some(m) ==> final(self).memory.total == kb_or_zero(trim(m@))
                && final(self).memory.available == final(self).memory.free + final(self).memory.inactive && final(self).memory.used == sat_sub(
                final(self).memory.total,
                final(self).memory.available,
            ),
            memsize is None ==> final(self).memory.total == old(self).memory.total
                && final(self).memory.available == old(self).memory.available
                && final(self).memory.used == old(self).memory.used,
            final(self).memory.buffers == old(self).memory.buffers,
            final(self).memory.shared == old(self).memory.shared,
            final(self).swap == old(self).swap,
            final(self).stats == old(self).stats,
            final(self).vm_settings == old(self).vm_settings,
    {
        if let Some(t) = vm_stat {
            let c = chars_of(t);
            let ls = lines_of(&c);
            let free = vm_stat_pages_exec(&ls, "Pages free");
            let active = vm_stat_pages_exec(&ls, "Pages active");
            let inactive = vm_stat_pages_exec(&ls, "Pages inactive");
            let compressed = vm_stat_pages_exec(&ls, "Pages occupied by compressor");
            assert((free + inactive) * 16384 == free * 16384 + inactive * 16384);
            self.memory.free = free * 16384;
            self.memory.active = active * 16384;
            self.memory.inactive = inactive * 16384;
            self.memory.cached = compressed * 16384;
        }
        if let Some(m) = memsize {
            let total = kb_or_zero_exec(&trim_chars(&chars_of(m)));
            self.memory.total = total;
            self.memory.available = self.memory.free + self.memory.inactive;
            self.memory.used = self.memory.total.saturating_sub(self.memory.available);
        }
    }
}

/// Whether `vm_stat` output can be taken in bytes.
pub fn vm_stat_fits(vm_stat: &str) -> (b: bool)
    ensures
        b == vm_stat_in_range(vm_stat@),
{
    let c = chars_of(vm_stat);
    let ls = lines_of(&c);
    let free = vm_stat_pages_exec(&ls, "Pages free") as u128;
    let active = vm_stat_pages_exec(&ls, "Pages active") as u128;
    let inactive = vm_stat_pages_exec(&ls, "Pages inactive") as u128;
    let compressed = vm_stat_pages_exec(&ls, "Pages occupied by compressor") as u128;
    let max: u128 = 0xffff_ffff_ffff_ffff;
    free * 16384 <= max && active * 16384 <= max && inactive * 16384 <= max && compressed * 16384
        <= max && (free + inactive) * 16384 <= max
}

/// A line of `ps -axo pid,rss,vsz,comm`: PID, resident and virtual size in
/// bytes (the columns count KiB; 0 when they do not read) and the command
/// (the remaining columns joined by spaces).
pub open spec fn ps_line(l: Seq<char>) -> Option<(u32, u64, u64, Seq<Seq<char>>)> {
    let w = words(l);
    if w.len() >= 4 {
        Some(
            (
                match crate::num::parse_u32(w[0]) {
                    Some(p) => p,
                    None => 0,
                },
                (kb_or_zero(w[1]) * 1024) as u64,
                (kb_or_zero(w[2]) * 1024) as u64,
                w.skip(3),
            ),
        )
    } else {
        None
    }
}

/// The words joined by single spaces.
pub open spec fn joined(ws: Seq<Seq<char>>) -> Seq<char>
    decreases ws.len(),
{
    if ws.len() == 0 {
        Seq::empty()
    } else if ws.len() == 1 {
        ws[0]
    } else {
        joined(ws.drop_last()) + " "@ + ws.last()
    }
}

/// Whether the sizes of a `ps` line can be taken in bytes.
pub fn ps_line_fits(line: &str) -> (b: bool)
    ensures
        b == (words(line@).len() >= 4 ==> kb_or_zero(words(line@)[1]) * 1024 <= u64::MAX
            && kb_or_zero(words(line@)[2]) * 1024 <= u64::MAX),
{
    let w = words_of(&chars_of(line));
    if w.len() >= 4 {
        kb_or_zero_exec(&w[1]) <= 0x3f_ffff_ffff_ffff && kb_or_zero_exec(&w[2])
            <= 0x3f_ffff_ffff_ffff
    } else {
        true
    }
}

/// A process line of `ps`: PID, resident and virtual bytes and command.
pub fn parse_ps_line(line: &str) -> (r: Option<(u32, u64, u64, String)>)
    requires
        words(line@).len() >= 4 ==> kb_or_zero(words(line@)[1]) * 1024 <= u64::MAX && kb_or_zero(
            words(line@)[2],
        ) * 1024 <= u64::MAX,
    ensures
        match ps_line(line@) {
            Some((p, rss, vms, cmd)) => (r matches Some((a, b, c, d)) && a == p && b == rss && c
                == vms && d@ == joined(cmd)),
            None => r is None,
        },
{
    let c = chars_of(line);
    let w = words_of(&c);
    if w.len() < 4 {
        return None;
    }
    let pid = match crate::num::parse_u32_chars(&w[0]) {
        Some(p) => p,
        None => 0,
    };
    let rss = kb_or_zero_exec(&w[1]) * 1024;
    let vms = kb_or_zero_exec(&w[2]) * 1024;
    let ghost rest = views(w@).skip(3);
    let mut name: Vec<char> = Vec::new();
    let mut i: usize = 3;
    while i < w.len()
        invariant
            3 <= i <= w@.len(),
            rest == views(w@).skip(3),
            name@ == joined(rest.take(i - 3)),
        decreases w@.len() - i,
    {
        assert(rest.take(i - 2).drop_last() =~= rest.take(i - 3));
        assert(rest.take(i - 2).last() == w@[i as int]@);
        if i > 3 {
            name.push(' ');
        }
        crate::text::extend(&mut name, &w[i]);
        proof {
            if i > 3 {
                reveal_strlit(" ");
                assert(name@ =~= joined(rest.take(i - 3)) + " "@ + w@[i as int]@);
            } else {
                assert(rest.take(1) =~= seq![w@[3]@]);
            }
        }
        i = i + 1;
    }
    assert(rest.take(w@.len() - 3) =~= rest);
    Some((pid, rss, vms, string_of(name)))
}

// ---------------------------------------------------------------------------
// Windows readings
// ---------------------------------------------------------------------------
impl MemoryMonitor {
    /// Take the Windows memory figures (`GlobalMemoryStatusEx`): all
    /// available memory counts as free, used memory is the total less it
    /// (stopping at 0), and cache and buffers are not reported.
    pub fn read_windows_memory(&mut self, total_phys: u64, avail_phys: u64)
        ensures
            final(self).memory.total == total_phys,
            final(self).memory.available == avail_phys,
            final(self).memory.free == avail_phys,
            final(self).memory.used == sat_sub(total_phys, avail_phys),
            final(self).memory.cached == 0,
            final(self).memory.buffers == 0,
            final(self).memory.shared == old(self).memory.shared,
            final(self).swap == old(self).swap,
            final(self).stats == old(self).stats,
            final(self).vm_settings == old(self).vm_settings,
    {
        self.memory.total = total_phys;
        self.memory.available = avail_phys;
        self.memory.free = avail_phys;
        self.memory.used = total_phys.saturating_sub(avail_phys);
        self.memory.cached = 0;
        self.memory.buffers = 0;
    }

    /// Take the Windows page-file figures: the page file's size is the
    /// commit limit less physical memory, its free part the available commit,
    /// and its used part the size less what is available beyond physical
    /// memory (each subtraction stopping at 0).
    pub fn read_windows_swap(
        &mut self,
        total_page_file: u64,
        total_phys: u64,
        avail_page_file: u64,
        avail_phys: u64,
    )
        ensures
            final(self).swap.total == sat_sub(total_page_file, total_phys),
            final(self).swap.free == avail_page_file,
            final(self).swap.used == sat_sub(
                sat_sub(total_page_file, total_phys),
                sat_sub(avail_page_file, avail_phys),
            ),
            final(self).swap.devices == old(self).swap.devices,
            final(self).swap.zram == old(self).swap.zram,
            final(self).memory == old(self).memory,
            final(self).stats == old(self).stats,
            final(self).vm_settings == old(self).vm_settings,
    {
        self.swap.total = total_page_file.saturating_sub(total_phys);
        self.swap.free = avail_page_file;
        self.swap.used = self.swap.total.saturating_sub(avail_page_file.saturating_sub(avail_phys));
    }
}

/// The page files a `wmic pagefile list /format:csv` table names: the
/// second column of each row after the header that has at least three
/// columns and a non-empty name.
pub open spec fn wmic_pagefiles(ls: Seq<Seq<char>>) -> Seq<Seq<char>>
    decreases ls.len(),
{
    if ls.len() == 0 {
        Seq::empty()
    } else {
        let init = wmic_pagefiles(ls.drop_last());
        let parts = split_by(ls.last(), ',');
        if parts.len() >= 3 && parts[1].len() > 0 {
            init.push(parts[1])
        } else {
            init
        }
    }
}

/// The page-file names of a `wmic` table.
pub fn parse_wmic_pagefiles(csv: &str) -> (r: Vec<String>)
    ensures
        r@.map_values(|s: String| s@) == (if lines(csv@).len() == 0 {
            Seq::<Seq<char>>::empty()
        } else {
            wmic_pagefiles(lines(csv@).skip(1))
        }),
{
    let c = chars_of(csv);
    let ls = lines_of(&c);
    let ghost all = lines(csv@);
    let mut out: Vec<String> = Vec::new();
    if ls.len() == 0 {
        assert(out@.map_values(|s: String| s@) =~= Seq::<Seq<char>>::empty());
        return out;
    }
    let ghost body = all.skip(1);
    let mut i: usize = 1;
    while i < ls.len()
        invariant
            1 <= i <= ls@.len(),
            views(ls@) == all,
            body == all.skip(1),
            out@.map_values(|s: String| s@) == wmic_pagefiles(body.take(i - 1)),
        decreases ls@.len() - i,
    {
        assert(body.take(i as int).drop_last() =~= body.take(i - 1));
        assert(body.take(i as int).last() == ls@[i as int]@);
        let parts = split_chars(&ls[i], ',');
        let ghost ps = split_by(ls@[i as int]@, ',');
        assert(parts@.len() == ps.len());
        if parts.len() >= 3 && parts[1].len() > 0 {
            assert(parts@[1]@ == ps[1]);
            let name = string_of(subvec(&parts[1], 0, parts[1].len()));
            assert(name@ == ps[1]);
            let ghost prev = out@;
            out.push(name);
            assert(out@.map_values(|s: String| s@) =~= prev.map_values(|s: String| s@).push(
                ps[1],
            ));
            assert(out@.map_values(|s: String| s@) =~= wmic_pagefiles(body.take(i as int)));
        } else {
            assert(out@.map_values(|s: String| s@) =~= wmic_pagefiles(body.take(i as int)));
        }
        i = i + 1;
    }
    assert(body.take(i - 1) =~= body);
    out
}

/// The page files PowerShell lists: the trimmed lines that end in `.sys` or
/// `.SYS`.
pub open spec fn listed_pagefiles(ls: Seq<Seq<char>>) -> Seq<Seq<char>>
    decreases ls.len(),
{
    if ls.len() == 0 {
        Seq::empty()
    } else {
        let init = listed_pagefiles(ls.drop_last());
        let t = trim(ls.last());
        if crate::text::ends_with(t, ".sys"@) || crate::text::ends_with(t, ".SYS"@) {
            init.push(t)
        } else {
            init
        }
    }
}

/// The page-file names PowerShell printed.
pub fn parse_listed_pagefiles(text: &str) -> (r: Vec<String>)
    ensures
        r@.map_values(|s: String| s@) == listed_pagefiles(lines(text@)),
{
    let c = chars_of(text);
    let ls = lines_of(&c);
    let ghost all = lines(text@);
    let lower = chars_of(".sys");
    let upper = chars_of(".SYS");
    let mut out: Vec<String> = Vec::new();
    let mut i: usize = 0;
    while i < ls.len()
        invariant
            i <= ls@.len(),
            views(ls@) == all,
            lower@ == ".sys"@,
            upper@ == ".SYS"@,
            out@.map_values(|s: String| s@) == listed_pagefiles(all.take(i as int)),
        decreases ls@.len() - i,
    {
        assert(all.take(i + 1).drop_last() =~= all.take(i as int));
        assert(all.take(i + 1).last() == ls@[i as int]@);
        let t = trim_chars(&ls[i]);
        if crate::text::ends_with_exec(&t, &lower) || crate::text::ends_with_exec(&t, &upper) {
            out.push(string_of(t));
            assert(out@.map_values(|s: String| s@) =~= listed_pagefiles(all.take(i + 1)));
        } else {
            assert(out@.map_values(|s: String| s@) =~= listed_pagefiles(all.take(i + 1)));
        }
        i = i + 1;
    }
    assert(all.take(ls@.len() as int) =~= all);
    out
}

/// The page-file devices of the given names, each with the page file's
/// size and use; without names, `C:\pagefile.sys` when there is a page file
/// at all.
pub fn pagefile_devices(names: Vec<String>, total: u64, used: u64) -> (r: Vec<SwapDevice>)
    ensures
        names@.len() > 0 ==> r@.len() == names@.len() && forall|i: int|
            0 <= i < r@.len() ==> (#[trigger] r@[i]).path@ == names@[i]@ && r@[i].swap_type
                == SwapType::File && r@[i].total_bytes == total && r@[i].used_bytes == used
                && r@[i].priority == 0 && r@[i].active,
        names@.len() == 0 && total > 0 ==> r@.len() == 1 && r@[0].path@ == "C:\\pagefile.sys"@
            && r@[0].swap_type == SwapType::File && r@[0].total_bytes == total
            && r@[0].used_bytes == used && r@[0].priority == 0 && r@[0].active,
        names@.len() == 0 && total == 0 ==> r@.len() == 0,
{
    let mut r: Vec<SwapDevice> = Vec::new();
    let mut i: usize = 0;
    while i < names.len()
        invariant
            i <= names@.len(),
            r@.len() == i,
            forall|j: int|
                0 <= j < i ==> (#[trigger] r@[j]).path@ == names@[j]@ && r@[j].swap_type
                    == SwapType::File && r@[j].total_bytes == total && r@[j].used_bytes == used
                    && r@[j].priority == 0 && r@[j].active,
        decreases names@.len() - i,
    {
        r.push(
            SwapDevice {
                path: owned(names[i].as_str()),
                swap_type: SwapType::File,
                total_bytes: total,
                used_bytes: used,
                priority: 0,
                active: true,
            },
        );
        i = i + 1;
    }
    if r.len() == 0 && total > 0 {
        r.push(
            SwapDevice {
                path: owned("C:\\pagefile.sys"),
                swap_type: SwapType::File,
                total_bytes: total,
                used_bytes: used,
                priority: 0,
                active: true,
            },
        );
    }
    r
}

// ---------------------------------------------------------------------------
// Windows process table
// ---------------------------------------------------------------------------
/// `s` without its leading double quotes.
pub open spec fn unquote_start(s: Seq<char>) -> Seq<char>
    decreases s.len(),
{
    if s.len() > 0 && s[0] == '"' {
        unquote_start(s.drop_first())
    } else {
        s
    }
}

/// `s` without its trailing double quotes.
pub open spec fn unquote_end(s: Seq<char>) -> Seq<char>
    decreases s.len(),
{
    if s.len() > 0 && s.last() == '"' {
        unquote_end(s.drop_last())
    } else {
        s
    }
}

/// `str::trim_matches('"')`: `s` without the double quotes at either end.
pub open spec fn unquote(s: Seq<char>) -> Seq<char> {
    unquote_end(unquote_start(s))
}

fn unquote_exec(s: &Vec<char>) -> (r: Vec<char>)
    ensures
        r@ == unquote(s@),
{
    let mut a: usize = 0;
    assert(s@.skip(0) =~= s@);
    while a < s.len() && s[a] == '"'
        invariant
            a <= s@.len(),
            unquote_start(s@) == unquote_start(s@.skip(a as int)),
        decreases s@.len() - a,
    {
        assert(s@.skip(a as int).drop_first() =~= s@.skip(a + 1));
        a = a + 1;
    }
    assert(unquote_start(s@.skip(a as int)) == s@.skip(a as int));
    let mut b: usize = s.len();
    while b > a && s[b - 1] == '"'
        invariant
            a <= b <= s@.len(),
            unquote_start(s@) == s@.subrange(a as int, s@.len() as int),
            unquote(s@) == unquote_end(s@.subrange(a as int, b as int)),
        decreases b,
    {
        assert(s@.subrange(a as int, b as int).drop_last() =~= s@.subrange(a as int, b - 1));
        b = b - 1;
    }
    assert(s@.skip(a as int) =~= s@.subrange(a as int, s@.len() as int));
    subvec(s, a, b)
}

/// A row of the PowerShell process table (`Id,Name,WorkingSet64,
/// VirtualMemorySize64,PagedMemorySize64` as quoted CSV): PID, name,
/// resident, virtual and paged bytes, each number 0 when it does not parse.
/// Rows of fewer than five fields give none.
pub open spec fn process_csv_row(l: Seq<char>) -> Option<(u32, Seq<char>, u64, u64, u64)> {
    let p = split_by(l, ',');
    if p.len() >= 5 {
        Some(
            (
                match parse_u32(unquote(p[0])) {
                    Some(v) => v,
                    None => 0,
                },
                unquote(p[1]),
                kb_or_zero(unquote(p[2])),
                kb_or_zero(unquote(p[3])),
                kb_or_zero(unquote(p[4])),
            ),
        )
    } else {
        None
    }
}

/// A row of the PowerShell process table.
pub fn parse_process_csv_row(line: &str) -> (r: Option<(u32, String, u64, u64, u64)>)
    ensures
        match process_csv_row(line@) {
            Some((pid, name, rss, vms, paged)) => (r matches Some((a, b, c, d, e)) && a == pid
                && b@ == name && c == rss && d == vms && e == paged),
            None => r is None,
        },
{
    let parts = split_chars(&chars_of(line), ',');
    let ghost p = split_by(line@, ',');
    assert(parts@.len() == p.len());
    if parts.len() < 5 {
        return None;
    }
    assert(parts@[0]@ == p[0] && parts@[1]@ == p[1] && parts@[2]@ == p[2] && parts@[3]@ == p[3]
        && parts@[4]@ == p[4]);
    let pid = match parse_u32_chars(&unquote_exec(&parts[0])) {
        Some(v) => v,
        None => 0,
    };
    let name = string_of(unquote_exec(&parts[1]));
    let rss = kb_or_zero_exec(&unquote_exec(&parts[2]));
    let vms = kb_or_zero_exec(&unquote_exec(&parts[3]));
    let paged = kb_or_zero_exec(&unquote_exec(&parts[4]));
    Some((pid, name, rss, vms, paged))
}

/// The swap device macOS is taken to have: its dynamic swap files, when
/// there is swap at all.
pub fn macos_swap_devices(total: u64, used: u64) -> (r: Vec<SwapDevice>)
    ensures
        total > 0 ==> r@.len() == 1 && r@[0].path@ == "/private/var/vm/swapfile*"@
            && r@[0].swap_type == SwapType::File && r@[0].total_bytes == total
            && r@[0].used_bytes == used && r@[0].priority == 0 && r@[0].active,
        total == 0 ==> r@.len() == 0,
{
    let mut r: Vec<SwapDevice> = Vec::new();
    if total > 0 {
        r.push(
            SwapDevice {
                path: owned("/private/var/vm/swapfile*"),
                swap_type: SwapType::File,
                total_bytes: total,
                used_bytes: used,
                priority: 0,
                active: true,
            },
        );
    }
    r
}

// ---------------------------------------------------------------------------
// The largest processes
// ---------------------------------------------------------------------------
/// Entry `a` comes before entry `b` when listing processes largest first:
/// more resident memory, or as much and listed earlier (a stable sort).
pub open spec fn ranks_before(rss: Seq<u64>, a: int, b: int) -> bool {
    rss[a] > rss[b] || (rss[a] == rss[b] && a < b)
}

/// `order` lists distinct entries of `rss`, largest first.
pub open spec fn listed_largest_first(rss: Seq<u64>, order: Seq<usize>) -> bool {
    &&& forall|i: int| 0 <= i < order.len() ==> (#[trigger] order[i]) < rss.len()
    &&& forall|i: int, j: int|
        0 <= i < j < order.len() ==> ranks_before(rss, #[trigger] order[i] as int, #[trigger] order[j] as int)
}

/// The entries to show of processes with resident sizes `rss`, largest
/// first as a stable sort by size orders them, at most `limit` of them:
/// distinct entries in that order, and every entry left out comes after
/// every entry kept.
pub fn largest_first(rss: &Vec<u64>, limit: usize) -> (r: Vec<usize>)
    ensures
        r@.len() == (if limit < rss@.len() {
            limit as int
        } else {
            rss@.len() as int
        }),
        listed_largest_first(rss@, r@),
        forall|k: int, i: int|
            0 <= k < rss@.len() && !r@.contains(k as usize) && 0 <= i < r@.len() ==> #[trigger] ranks_before(
                rss@,
                r@[i] as int,
                k,
            ),
{
    let mut order: Vec<usize> = Vec::new();
    let mut k: usize = 0;
    while k < rss.len()
        invariant
            k <= rss@.len(),
            order@.len() == k,
            listed_largest_first(rss@, order@),
            forall|i: int| 0 <= i < order@.len() ==> (#[trigger] order@[i]) < k,
            forall|j: int| 0 <= j < k ==> #[trigger] order@.contains(j as usize),
        decreases rss@.len() - k,
    {
        let mut pos: usize = order.len();
        while pos > 0 && rss[order[pos - 1]] < rss[k]
            invariant
                pos <= order@.len(),
                k < rss@.len(),
                forall|i: int| 0 <= i < order@.len() ==> (#[trigger] order@[i]) < k,
                forall|p: int| pos <= p < order@.len() ==> ranks_before(rss@, k as int, #[trigger] order@[p] as int),
            decreases pos,
        {
            pos = pos - 1;
        }
        let ghost before = order@;
        proof {
            if pos > 0 {
                assert(ranks_before(rss@, before[pos - 1] as int, k as int));
                assert forall|i: int| 0 <= i < pos implies ranks_before(rss@, #[trigger] before[i] as int, k as int) by {
                    if i < pos - 1 {
                        assert(ranks_before(rss@, before[i] as int, before[pos - 1] as int));
                    }
                }
            }
        }
        order.insert(pos, k);
        assert(order@ == before.insert(pos as int, k));
        proof {
            assert forall|i: int, j: int| 0 <= i < j < order@.len() implies ranks_before(
                rss@,
                #[trigger] order@[i] as int,
                #[trigger] order@[j] as int,
            ) by {
                if j < pos {
                    assert(order@[i] == before[i] && order@[j] == before[j]);
                } else if j == pos {
                    assert(order@[i] == before[i]);
                } else if i < pos {
                    assert(order@[i] == before[i] && order@[j] == before[j - 1]);
                    if i < j - 1 {
                        assert(ranks_before(rss@, before[i] as int, before[j - 1] as int));
                    }
                } else if i == pos {
                    assert(order@[j] == before[j - 1]);
                } else {
                    assert(order@[i] == before[i - 1] && order@[j] == before[j - 1]);
                }
            }
            assert forall|j: int| 0 <= j < k + 1 implies #[trigger] order@.contains(j as usize) by {
                if j == k {
                    assert(order@[pos as int] == k);
                } else {
                    assert(before.contains(j as usize));
                    let p = choose|p: int| 0 <= p < before.len() && before[p] == j as usize;
                    if p < pos {
                        assert(order@[p] == j as usize);
                    } else {
                        assert(order@[p + 1] == j as usize);
                    }
                }
            }
        }
        k = k + 1;
    }
    let ghost full = order@;
    let n = if limit < order.len() {
        limit
    } else {
        order.len()
    };
    order.truncate(n);
    proof {
        assert(order@ == full.take(n as int));
        assert forall|kk: int, i: int|
            0 <= kk < rss@.len() && !order@.contains(kk as usize) && 0 <= i < order@.len() implies #[trigger] ranks_before(
                rss@,
                order@[i] as int,
                kk,
            ) by {
            assert(full.contains(kk as usize));
            let p = choose|p: int| 0 <= p < full.len() && full[p] == kk as usize;
            if p < n {
                assert(order@[p] == kk as usize);
            }
            assert(order@[i] == full[i]);
            assert(i < p);
        }
    }
    order
}

// ---------------------------------------------------------------------------
// Laws
// ---------------------------------------------------------------------------
/// A `/proc/vmstat` line sets the counter its first word names to the
/// number in its second word and leaves every other counter as it was:
/// `pgfault` the minor faults, `pgmajfault` the major faults, `pswpin` and
/// `pswpout` the pages swapped in and out, `pgalloc_normal` the pages
/// allocated, `pgfree` the pages freed and `oom_kill` the OOM kills. Other
/// lines change nothing.
pub proof fn lemma_vmstat_line_sets_its_counter(st: MemoryStats, l: Seq<char>)
    ensures
        words(l).len() < 2 ==> vmstat_step(st, l) == st,
        words(l).len() >= 2 && words(l)[0] == "pgfault"@ ==> vmstat_step(st, l)
            == (MemoryStats { page_faults_minor: kb_or_zero(words(l)[1]), ..st }),
        words(l).len() >= 2 && words(l)[0] == "pgmajfault"@ ==> vmstat_step(st, l)
            == (MemoryStats { page_faults_major: kb_or_zero(words(l)[1]), ..st }),
        words(l).len() >= 2 && words(l)[0] == "pswpin"@ ==> vmstat_step(st, l) == (MemoryStats {
            swap_in: kb_or_zero(words(l)[1]),
            ..st
        }),
        words(l).len() >= 2 && words(l)[0] == "pswpout"@ ==> vmstat_step(st, l)
            == (MemoryStats { swap_out: kb_or_zero(words(l)[1]), ..st }),
        words(l).len() >= 2 && words(l)[0] == "pgalloc_normal"@ ==> vmstat_step(st, l)
            == (MemoryStats { pages_allocated: kb_or_zero(words(l)[1]), ..st }),
        words(l).len() >= 2 && words(l)[0] == "pgfree"@ ==> vmstat_step(st, l)
            == (MemoryStats { pages_freed: kb_or_zero(words(l)[1]), ..st }),
        words(l).len() >= 2 && words(l)[0] == "oom_kill"@ ==> vmstat_step(st, l)
            == (MemoryStats { oom_kills: kb_or_zero(words(l)[1]), ..st }),
{
    reveal_strlit("pgfault");
    reveal_strlit("pgmajfault");
    reveal_strlit("pswpin");
    reveal_strlit("pswpout");
    reveal_strlit("pgalloc_normal");
    reveal_strlit("pgfree");
    reveal_strlit("oom_kill");
    assert("pgfault"@ != "pswpout"@) by {
        assert("pgfault"@[1] != "pswpout"@[1]);
    }
    assert("pswpin"@ != "pgfree"@) by {
        assert("pswpin"@[1] != "pgfree"@[1]);
    }
    assert("pgfault"@.len() == 7 && "pgmajfault"@.len() == 10 && "pswpin"@.len() == 6
        && "pswpout"@.len() == 7 && "pgalloc_normal"@.len() == 14 && "pgfree"@.len() == 6
        && "oom_kill"@.len() == 8);
}

/// A `status` line of `VmRSS`, `VmSize` or `VmSwap` sets the resident,
/// virtual or swapped size (in that order of the result) to its kB value
/// in bytes, leaving the other two as they were.
pub proof fn lemma_status_line_sets_its_size(ls: Seq<Seq<char>>, l: Seq<char>, kb: u64)
    ensures
        status_entry(l) == Some(("VmRSS"@, kb)) ==> status_memory(ls.push(l)) == (
            (kb * 1024) as u64,
            status_memory(ls).1,
            status_memory(ls).2,
        ),
        status_entry(l) == Some(("VmSize"@, kb)) ==> status_memory(ls.push(l)) == (
            status_memory(ls).0,
            (kb * 1024) as u64,
            status_memory(ls).2,
        ),
        status_entry(l) == Some(("VmSwap"@, kb)) ==> status_memory(ls.push(l)) == (
            status_memory(ls).0,
            status_memory(ls).1,
            (kb * 1024) as u64,
        ),
        status_entry(l) is None ==> status_memory(ls.push(l)) == status_memory(ls),
        status_memory(Seq::empty()) == (0u64, 0u64, 0u64),
{
    reveal_strlit("VmRSS");
    reveal_strlit("VmSize");
    reveal_strlit("VmSwap");
    assert("VmSize"@ != "VmSwap"@) by {
        assert("VmSize"@[3] != "VmSwap"@[3]);
    }
    assert("VmRSS"@.len() != "VmSize"@.len());
    assert(ls.push(l).drop_last() =~= ls);
}

/// The columns of a `/proc/swaps` line: path, type, size and use (in kB,
/// taken in bytes) and priority. A `file` or `partition` type is that type
/// of swap area whatever the path.
pub proof fn lemma_swap_line_columns(l: Seq<char>)
    ensures
        words(l).len() < 5 ==> swap_line(l) is None,
        words(l).len() >= 5 ==> (swap_line(l) matches Some(t) && t.0 == words(l)[0] && t.2 == (
        kb_or_zero(words(l)[2]) * 1024) as u64 && t.3 == (kb_or_zero(words(l)[3]) * 1024) as u64),
        words(l).len() >= 5 && words(l)[1] == "file"@ ==> (swap_line(l) matches Some(t) && t.1
            == SwapType::File),
        words(l).len() >= 5 && words(l)[1] == "partition"@ ==> (swap_line(l) matches Some(t)
            && t.1 == SwapType::Partition),
{
    reveal_strlit("file");
    reveal_strlit("partition");
    assert("file"@ != "partition"@) by {
        assert("file"@.len() != "partition"@.len());
    }
}

/// The columns of a `ps -axo pid,rss,vsz,comm` line: PID, then resident
/// and virtual size (in KiB, taken in bytes), then the command.
pub proof fn lemma_ps_line_columns(l: Seq<char>)
    ensures
        words(l).len() < 4 ==> ps_line(l) is None,
        words(l).len() >= 4 ==> (ps_line(l) matches Some(t) && t.1 == (kb_or_zero(words(l)[1])
            * 1024) as u64 && t.2 == (kb_or_zero(words(l)[2]) * 1024) as u64 && t.3 == words(
            l,
        ).skip(3)),
{
}

/// The fields of a process-table row: PID, name, then working set,
/// virtual size and paged size, in that order.
pub proof fn lemma_process_csv_row_fields(l: Seq<char>)
    ensures
        split_by(l, ',').len() < 5 ==> process_csv_row(l) is None,
        split_by(l, ',').len() >= 5 ==> (process_csv_row(l) matches Some(t) && t.1 == unquote(
            split_by(l, ',')[1],
        ) && t.2 == kb_or_zero(unquote(split_by(l, ',')[2])) && t.3 == kb_or_zero(
            unquote(split_by(l, ',')[3]),
        ) && t.4 == kb_or_zero(unquote(split_by(l, ',')[4]))),
{
}

} // verus!
