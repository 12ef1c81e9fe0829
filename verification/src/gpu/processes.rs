//! GPU process lists: one entry per process, in PID order, and the
//! merging of the graphics and compute process lists a driver reports.
use vstd::prelude::*;

use crate::gpu::{GpuProcess, GpuProcessType};

verus! {

/// Some entry of `s` is the process `pid`.
pub open spec fn has_pid(s: Seq<GpuProcess>, pid: u32) -> bool {
    exists|i: int| 0 <= i < s.len() && #[trigger] s[i].pid == pid
}

/// The first entry of `s` for the process `pid`.
pub open spec fn first_of(s: Seq<GpuProcess>, pid: u32) -> GpuProcess
    decreases s.len(),
{
    if s.len() == 0 {
        arbitrary()
    } else if has_pid(s.drop_last(), pid) {
        first_of(s.drop_last(), pid)
    } else {
        s.last()
    }
}

/// The entries are in strictly increasing PID order.
pub open spec fn strictly_by_pid(s: Seq<GpuProcess>) -> bool {
    forall|i: int, j: int| 0 <= i < j < s.len() ==> s[i].pid < s[j].pid
}

/// `r` holds, in PID order, the first entry of `v` for each process.
pub open spec fn one_per_pid(v: Seq<GpuProcess>, r: Seq<GpuProcess>) -> bool {
    &&& strictly_by_pid(r)
    &&& forall|pid: u32| has_pid(r, pid) <==> has_pid(v, pid)
    &&& forall|j: int| 0 <= j < r.len() ==> r[j] == first_of(v, #[trigger] r[j].pid)
}

proof fn lemma_has_pid_push(s: Seq<GpuProcess>, x: GpuProcess, pid: u32)
    ensures
        has_pid(s.push(x), pid) == (has_pid(s, pid) || x.pid == pid),
{
    if has_pid(s, pid) {
        let i = choose|i: int| 0 <= i < s.len() && #[trigger] s[i].pid == pid;
        assert(s.push(x)[i].pid == pid);
    }
    if x.pid == pid {
        assert(s.push(x)[s.len() as int].pid == pid);
    }
    if has_pid(s.push(x), pid) {
        let i = choose|i: int| 0 <= i < s.push(x).len() && #[trigger] s.push(x)[i].pid == pid;
        if i < s.len() {
            assert(s[i].pid == pid);
        }
    }
}

/// Adds `x`, the next entry of a list whose entries so far were `t`, to the
/// one-per-PID list `r` of `t`.
fn add_by_pid(r: &mut Vec<GpuProcess>, x: GpuProcess, Ghost(t): Ghost<Seq<GpuProcess>>)
    requires
        one_per_pid(t, old(r)@),
    ensures
        one_per_pid(t.push(x), final(r)@),
{
    let ghost t2 = t.push(x);
    assert(t2.drop_last() =~= t);
    let mut k: usize = 0;
    while k < r.len() && r[k].pid < x.pid
        invariant
            k <= r@.len(),
            forall|j: int| 0 <= j < k ==> r@[j].pid < x.pid,
        decreases r@.len() - k,
    {
        k = k + 1;
    }
    let ghost old_r = r@;
    if k < r.len() && r[k].pid == x.pid {
        assert(has_pid(old_r, x.pid));
        assert forall|pid: u32| has_pid(r@, pid) <==> has_pid(t2, pid) by {
            lemma_has_pid_push(t, x, pid);
        }
        assert forall|j: int| 0 <= j < r@.len() implies r@[j] == first_of(
            t2,
            #[trigger] r@[j].pid,
        ) by {
            assert(has_pid(r@, r@[j].pid));
        }
    } else {
        assert(!has_pid(old_r, x.pid)) by {
            if has_pid(old_r, x.pid) {
                let j = choose|j: int| 0 <= j < old_r.len() && #[trigger] old_r[j].pid == x.pid;
                if j < k {
                } else {
                    assert(old_r[k as int].pid < old_r[j].pid || j == k);
                }
            }
        }
        r.insert(k, x);
        proof {
            old_r.insert_ensures(k as int, x);
        }
        assert forall|a: int, b: int| 0 <= a < b < r@.len() implies r@[a].pid < r@[b].pid by {
            if b < k {
            } else if b == k {
            } else if a < k {
                assert(r@[b] == old_r[b - 1]);
                if k < old_r.len() {
                    assert(old_r[k as int].pid > x.pid);
                    if b - 1 > k {
                        assert(old_r[k as int].pid < old_r[b - 1].pid);
                    }
                }
            } else if a == k {
                assert(r@[b] == old_r[b - 1]);
                assert(old_r[k as int].pid > x.pid);
                if b - 1 > k {
                    assert(old_r[k as int].pid < old_r[b - 1].pid);
                }
            } else {
                assert(r@[a] == old_r[a - 1]);
                assert(r@[b] == old_r[b - 1]);
            }
        }
        assert forall|pid: u32| has_pid(r@, pid) <==> has_pid(t2, pid) by {
            lemma_has_pid_push(t, x, pid);
            if has_pid(old_r, pid) {
                let j = choose|j: int| 0 <= j < old_r.len() && #[trigger] old_r[j].pid == pid;
                if j < k {
                    assert(r@[j].pid == pid);
                } else {
                    assert(r@[j + 1].pid == pid);
                }
            }
            if pid == x.pid {
                assert(r@[k as int].pid == pid);
            }
            if has_pid(r@, pid) {
                let j = choose|j: int| 0 <= j < r@.len() && #[trigger] r@[j].pid == pid;
                if j < k {
                    assert(old_r[j].pid == pid);
                } else if j > k {
                    assert(old_r[j - 1].pid == pid);
                }
            }
        }
        assert forall|j: int| 0 <= j < r@.len() implies r@[j] == first_of(
            t2,
            #[trigger] r@[j].pid,
        ) by {
            if j < k {
                assert(has_pid(old_r, old_r[j].pid));
            } else if j > k {
                assert(r@[j] == old_r[j - 1]);
                assert(has_pid(old_r, old_r[j - 1].pid));
            } else {
                assert(!has_pid(t, x.pid));
            }
        }
    }
}

/// The processes of `v`, one entry per PID (the first one given), in
/// increasing PID order (what sorting by PID, stably, and dropping repeated
/// PIDs gives).
pub fn sort_dedup_by_pid(v: Vec<GpuProcess>) -> (r: Vec<GpuProcess>)
    ensures
        one_per_pid(v@, r@),
{
    let ghost orig = v@;
    let n = v.len();
    // Move the entries, last first, into `rest`, so that popping `rest`
    // hands them out in the order they came in.
    let mut w = v;
    let mut rest: Vec<GpuProcess> = Vec::new();
    while w.len() > 0
        invariant
            w@.len() + rest@.len() == n,
            n == orig.len(),
            w@ == orig.take(w@.len() as int),
            forall|j: int| 0 <= j < rest@.len() ==> #[trigger] rest@[j] == orig[n - 1 - j],
        decreases w@.len(),
    {
        let x = w.pop().unwrap();
        rest.push(x);
        assert(w@ =~= orig.take(w@.len() as int));
    }
    let mut r: Vec<GpuProcess> = Vec::new();
    let mut i: usize = 0;
    while rest.len() > 0
        invariant
            i + rest@.len() == n,
            n == orig.len(),
            forall|j: int| 0 <= j < rest@.len() ==> #[trigger] rest@[j] == orig[n - 1 - j],
            one_per_pid(orig.take(i as int), r@),
        decreases rest@.len(),
    {
        let ghost t = orig.take(i as int);
        assert(rest@[rest@.len() - 1] == orig[n - 1 - (rest@.len() - 1)]);
        let x = rest.pop().unwrap();
        assert(x == orig[i as int]);
        assert(orig.take(i + 1) =~= t.push(x));
        add_by_pid(&mut r, x, Ghost(t));
        i = i + 1;
    }
    assert(orig.take(n as int) =~= orig);
    r
}

/// A process as the driver lists it: its PID and the GPU memory it uses,
/// when the driver knows that.
#[derive(Debug, Clone, Copy, PartialEq, Eq)]
pub struct DriverProcess {
    /// Process ID
    pub pid: u32,
    /// GPU memory in use, in bytes
    pub used_gpu_memory: Option<u64>,
}

/// An entry of the merged process list (its name and user are the
/// system's to give).
#[derive(Debug, Clone, Copy, PartialEq, Eq)]
pub struct MergedProcess {
    /// Process ID
    pub pid: u32,
    /// Graphics, compute or both
    pub process_type: GpuProcessType,
    /// GPU memory in use, in bytes
    pub memory_usage: Option<u64>,
}

/// The index of the first entry of `s` for `pid`, `s.len()` when there is
/// none.
pub open spec fn first_pid(s: Seq<MergedProcess>, pid: u32) -> int
    decreases s.len(),
{
    if s.len() == 0 {
        0
    } else if s[0].pid == pid {
        0
    } else {
        1 + first_pid(s.skip(1), pid)
    }
}

/// The graphics processes, in order, as graphics entries.
pub open spec fn graphics_entries(g: Seq<DriverProcess>) -> Seq<MergedProcess> {
    g.map_values(
        |p: DriverProcess|
            MergedProcess {
                pid: p.pid,
                process_type: GpuProcessType::Graphics,
                memory_usage: p.used_gpu_memory,
            },
    )
}

/// One compute process added to the list: a process already listed (its
/// first entry) becomes graphics-and-compute, another one is appended as a
/// compute process.
pub open spec fn add_compute(s: Seq<MergedProcess>, p: DriverProcess) -> Seq<MergedProcess> {
    let k = first_pid(s, p.pid);
    if k < s.len() {
        s.update(k, MergedProcess { process_type: GpuProcessType::GraphicsAndCompute, ..s[k] })
    } else {
        s.push(
            MergedProcess {
                pid: p.pid,
                process_type: GpuProcessType::Compute,
                memory_usage: p.used_gpu_memory,
            },
        )
    }
}

/// The list after adding the compute processes `c` in order.
pub open spec fn merged(s: Seq<MergedProcess>, c: Seq<DriverProcess>) -> Seq<MergedProcess>
    decreases c.len(),
{
    if c.len() == 0 {
        s
    } else {
        add_compute(merged(s, c.drop_last()), c.last())
    }
}

proof fn lemma_first_pid(s: Seq<MergedProcess>, pid: u32, i: int)
    requires
        0 <= i <= s.len(),
        forall|j: int| 0 <= j < i ==> s[j].pid != pid,
    ensures
        first_pid(s, pid) == i + first_pid(s.skip(i), pid),
    decreases i,
{
    if i > 0 {
        assert(s.skip(1).skip(i - 1) =~= s.skip(i));
        lemma_first_pid(s.skip(1), pid, i - 1);
    } else {
        assert(s.skip(0) =~= s);
    }
}

fn find_pid(s: &Vec<MergedProcess>, pid: u32) -> (k: usize)
    ensures
        k == first_pid(s@, pid),
        k <= s@.len(),
{
    let mut k: usize = 0;
    while k < s.len() && s[k].pid != pid
        invariant
            k <= s@.len(),
            forall|j: int| 0 <= j < k ==> s@[j].pid != pid,
        decreases s@.len() - k,
    {
        k = k + 1;
    }
    proof {
        lemma_first_pid(s@, pid, k as int);
        if k < s@.len() {
            assert(s@.skip(k as int)[0] == s@[k as int]);
        }
    }
    k
}

/// The processes of a device: its graphics processes in order, then each
/// compute process either marks the entry of a process already listed as
/// graphics-and-compute or is appended as a compute process.
pub fn merge_process_lists(graphics: &Vec<DriverProcess>, compute: &Vec<DriverProcess>) -> (r: Vec<
    MergedProcess,
>)
    ensures
        r@ == merged(graphics_entries(graphics@), compute@),
{
    let mut r: Vec<MergedProcess> = Vec::new();
    let mut i: usize = 0;
    while i < graphics.len()
        invariant
            i <= graphics@.len(),
            r@ == graphics_entries(graphics@.take(i as int)),
        decreases graphics@.len() - i,
    {
        let p = graphics[i];
        r.push(
            MergedProcess {
                pid: p.pid,
                process_type: GpuProcessType::Graphics,
                memory_usage: p.used_gpu_memory,
            },
        );
        assert(r@ =~= graphics_entries(graphics@.take(i + 1)));
        i = i + 1;
    }
    assert(graphics@.take(graphics@.len() as int) =~= graphics@);
    let ghost start = r@;
    let mut j: usize = 0;
    while j < compute.len()
        invariant
            j <= compute@.len(),
            start == graphics_entries(graphics@),
            r@ == merged(start, compute@.take(j as int)),
        decreases compute@.len() - j,
    {
        assert(compute@.take(j + 1).drop_last() =~= compute@.take(j as int));
        let p = compute[j];
        let k = find_pid(&r, p.pid);
        if k < r.len() {
            let e = r[k];
            r.set(k, MergedProcess { process_type: GpuProcessType::GraphicsAndCompute, ..e });
        } else {
            r.push(
                MergedProcess {
                    pid: p.pid,
                    process_type: GpuProcessType::Compute,
                    memory_usage: p.used_gpu_memory,
                },
            );
        }
        j = j + 1;
    }
    assert(compute@.take(compute@.len() as int) =~= compute@);
    r
}

/// The PIDs of the merged list are those of the graphics and compute
/// lists together.
pub proof fn lemma_merged_pids(s: Seq<MergedProcess>, c: Seq<DriverProcess>, pid: u32)
    ensures
        (exists|i: int| 0 <= i < merged(s, c).len() && #[trigger] merged(s, c)[i].pid == pid) <==> (
        (exists|i: int| 0 <= i < s.len() && #[trigger] s[i].pid == pid) || (exists|i: int|
            0 <= i < c.len() && #[trigger] c[i].pid == pid)),
    decreases c.len(),
{
    if c.len() > 0 {
        let m = merged(s, c.drop_last());
        lemma_merged_pids(s, c.drop_last(), pid);
        let p = c.last();
        let k = first_pid(m, p.pid);
        lemma_first_pid_bound(m, p.pid);
        let m2 = merged(s, c);
        assert(m2 == add_compute(m, p));
        if exists|i: int| 0 <= i < c.drop_last().len() && #[trigger] c.drop_last()[i].pid == pid {
            let i = choose|i: int| 0 <= i < c.drop_last().len() && #[trigger] c.drop_last()[i].pid == pid;
            assert(c[i].pid == pid);
        }
        if exists|i: int| 0 <= i < c.len() && #[trigger] c[i].pid == pid {
            let i = choose|i: int| 0 <= i < c.len() && #[trigger] c[i].pid == pid;
            if i < c.len() - 1 {
                assert(c.drop_last()[i].pid == pid);
            }
        }
        if k < m.len() {
            assert(m[k].pid == p.pid);
            assert forall|i: int| 0 <= i < m.len() implies (m2[i].pid == m[i].pid) by {}
            if p.pid == pid {
                assert(m2[k].pid == pid);
            }
            if exists|i: int| 0 <= i < m.len() && #[trigger] m[i].pid == pid {
                let i = choose|i: int| 0 <= i < m.len() && #[trigger] m[i].pid == pid;
                assert(m2[i].pid == pid);
            }
            if exists|i: int| 0 <= i < m2.len() && #[trigger] m2[i].pid == pid {
                let i = choose|i: int| 0 <= i < m2.len() && #[trigger] m2[i].pid == pid;
                assert(m[i].pid == pid);
            }
        } else {
            if p.pid == pid {
                assert(m2[m.len() as int].pid == pid);
            }
            if exists|i: int| 0 <= i < m.len() && #[trigger] m[i].pid == pid {
                let i = choose|i: int| 0 <= i < m.len() && #[trigger] m[i].pid == pid;
                assert(m2[i].pid == pid);
            }
            if exists|i: int| 0 <= i < m2.len() && #[trigger] m2[i].pid == pid {
                let i = choose|i: int| 0 <= i < m2.len() && #[trigger] m2[i].pid == pid;
                if i < m.len() {
                    assert(m[i].pid == pid);
                }
            }
        }
    }
}

proof fn lemma_first_pid_bound(s: Seq<MergedProcess>, pid: u32)
    ensures
        0 <= first_pid(s, pid) <= s.len(),
        first_pid(s, pid) < s.len() ==> s[first_pid(s, pid)].pid == pid,
    decreases s.len(),
{
    if s.len() > 0 && s[0].pid != pid {
        lemma_first_pid_bound(s.skip(1), pid);
    }
}

} // verus!
