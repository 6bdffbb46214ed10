//! Bounded per-process history ring for the process-details Performance tab:
//! CPU%, memory bytes and disk read/write rates for ONE tracked pid.
//!
//! A sample is carried as the bit pattern of its IEEE-754 binary32 value (the
//! `f32::to_bits` encoding). A sample is accepted only when it is finite, i.e.
//! when its exponent field is not all ones; every series keeps at most
//! `capacity` samples, oldest first, and pushing a different pid clears all
//! four series so two processes never blend.

use std::collections::VecDeque;
use vstd::prelude::*;

verus! {

broadcast use vstd::std_specs::vecdeque::group_vec_dequeue_axioms;

/// The upper bound for a graph-data-points window.
pub const MAX_HISTORY_CAPACITY: usize = 600;

/// The lower bound for a graph-data-points window.
pub const MIN_HISTORY_CAPACITY: usize = 2;

/// Whether a binary32 bit pattern encodes a finite value (its exponent field
/// is not all ones: not an infinity, not a NaN).
pub open spec fn is_finite_bits(bits: u32) -> bool {
    (bits >> 23u32) & 0xffu32 != 0xffu32
}

/// The capacity a requested window size is clamped to.
pub open spec fn clamp_capacity(requested: usize) -> usize {
    if requested < MIN_HISTORY_CAPACITY {
        MIN_HISTORY_CAPACITY
    } else if requested > MAX_HISTORY_CAPACITY {
        MAX_HISTORY_CAPACITY
    } else {
        requested
    }
}

/// One series after one pushed sample: a non-finite sample is dropped; a full
/// series evicts its oldest sample first.
pub open spec fn series_push(series: Seq<u32>, value: u32, capacity: nat) -> Seq<u32> {
    if !is_finite_bits(value) {
        series
    } else if series.len() >= capacity {
        series.drop_first().push(value)
    } else {
        series.push(value)
    }
}

/// One series after an optional sample.
pub open spec fn series_push_opt(series: Seq<u32>, value: Option<u32>, capacity: nat) -> Seq<u32> {
    match value {
        Some(v) => series_push(series, v, capacity),
        None => series,
    }
}

/// Whether an optional sample is accepted (present and finite).
pub open spec fn accepts(value: Option<u32>) -> bool {
    match value {
        Some(v) => is_finite_bits(v),
        None => false,
    }
}

/// The newest `capacity` samples of a provider window.
pub open spec fn newest_tail_spec(window: Seq<u32>, capacity: nat) -> Seq<u32> {
    if window.len() > capacity {
        window.subrange(window.len() - capacity, window.len() as int)
    } else {
        window
    }
}

/// The finite samples of a window, in order.
pub open spec fn finite_only(window: Seq<u32>) -> Seq<u32> {
    window.filter(|v: u32| is_finite_bits(v))
}

/// The revision counter after one step (wrapping at `u64::MAX`).
pub open spec fn next_revision(revision: u64) -> u64 {
    if revision == u64::MAX {
        0
    } else {
        (revision + 1) as u64
    }
}

/// Whether a binary32 bit pattern encodes a finite value.
pub fn sample_is_finite(bits: u32) -> (r: bool)
    ensures
        r == is_finite_bits(bits),
{
    (bits >> 23u32) & 0xffu32 != 0xffu32
}

fn clamp_capacity_exec(requested: usize) -> (r: usize)
    ensures
        r == clamp_capacity(requested),
{
    if requested < MIN_HISTORY_CAPACITY {
        MIN_HISTORY_CAPACITY
    } else if requested > MAX_HISTORY_CAPACITY {
        MAX_HISTORY_CAPACITY
    } else {
        requested
    }
}

fn bump(revision: u64) -> (r: u64)
    ensures
        r == next_revision(revision),
{
    if revision == u64::MAX {
        0
    } else {
        revision + 1
    }
}

/// Contiguous copies of the four series for one render, oldest first.
#[derive(Clone, Debug)]
pub struct ProcessPerfHistorySnapshot {
    pub cpu: Vec<u32>,
    pub memory: Vec<u32>,
    pub disk_read: Vec<u32>,
    pub disk_write: Vec<u32>,
}

/// The per-process Performance-tab window.
pub struct ProcessPerfHistory {
    pid: u32,
    cpu: VecDeque<u32>,
    memory: VecDeque<u32>,
    disk_read: VecDeque<u32>,
    disk_write: VecDeque<u32>,
    capacity: usize,
    revision: u64,
}

/// A series fits the window: at most `capacity` samples, all finite.
pub open spec fn series_wf(series: Seq<u32>, capacity: nat) -> bool {
    &&& series.len() <= capacity
    &&& forall|i: int| 0 <= i < series.len() ==> is_finite_bits(#[trigger] series[i])
}

impl ProcessPerfHistory {
    /// The tracked pid (0 = never sampled).
    pub closed spec fn pid_spec(&self) -> u32 {
        self.pid
    }

    /// The clamped window capacity.
    pub closed spec fn capacity_spec(&self) -> usize {
        self.capacity
    }

    /// The data revision.
    pub closed spec fn revision_spec(&self) -> u64 {
        self.revision
    }

    /// CPU% samples, oldest first.
    pub closed spec fn cpu_spec(&self) -> Seq<u32> {
        self.cpu@
    }

    /// Memory samples, oldest first.
    pub closed spec fn memory_spec(&self) -> Seq<u32> {
        self.memory@
    }

    /// Disk read samples, oldest first.
    pub closed spec fn disk_read_spec(&self) -> Seq<u32> {
        self.disk_read@
    }

    /// Disk write samples, oldest first.
    pub closed spec fn disk_write_spec(&self) -> Seq<u32> {
        self.disk_write@
    }

    /// The window invariant: a clamped capacity and four series that fit it.
    /// Every window keeps it from construction on.
    #[verifier::type_invariant]
    pub open spec fn wf(&self) -> bool {
        &&& MIN_HISTORY_CAPACITY <= self.capacity_spec() <= MAX_HISTORY_CAPACITY
        &&& series_wf(self.cpu_spec(), self.capacity_spec() as nat)
        &&& series_wf(self.memory_spec(), self.capacity_spec() as nat)
        &&& series_wf(self.disk_read_spec(), self.capacity_spec() as nat)
        &&& series_wf(self.disk_write_spec(), self.capacity_spec() as nat)
    }

    /// Build an empty window with the given capacity, clamped into
    /// `MIN_HISTORY_CAPACITY..=MAX_HISTORY_CAPACITY`.
    pub fn new(capacity: usize) -> (r: Self)
        ensures
            r.wf(),
            r.pid_spec() == 0,
            r.capacity_spec() == clamp_capacity(capacity),
            r.revision_spec() == 0,
            r.cpu_spec() == Seq::<u32>::empty(),
            r.memory_spec() == Seq::<u32>::empty(),
            r.disk_read_spec() == Seq::<u32>::empty(),
            r.disk_write_spec() == Seq::<u32>::empty(),
    {
        ProcessPerfHistory {
            pid: 0,
            cpu: VecDeque::new(),
            memory: VecDeque::new(),
            disk_read: VecDeque::new(),
            disk_write: VecDeque::new(),
            capacity: clamp_capacity_exec(capacity),
            revision: 0,
        }
    }

    fn push_one(buf: &mut VecDeque<u32>, value: u32, capacity: usize) -> (changed: bool)
        requires
            series_wf(old(buf)@, capacity as nat),
            capacity >= 1,
        ensures
            final(buf)@ == series_push(old(buf)@, value, capacity as nat),
            series_wf(final(buf)@, capacity as nat),
            changed == is_finite_bits(value),
    {
        if sample_is_finite(value) {
            if buf.len() >= capacity {
                let _ = buf.pop_front();
            }
            buf.push_back(value);
            proof {
                let s = final(buf)@;
                assert forall|i: int| 0 <= i < s.len() implies is_finite_bits(#[trigger] s[i]) by {
                    if i < s.len() - 1 {
                        if old(buf)@.len() >= capacity {
                            assert(s[i] == old(buf)@[i + 1]);
                        } else {
                            assert(s[i] == old(buf)@[i]);
                        }
                    }
                }
            }
            true
        } else {
            false
        }
    }

    fn push_opt(buf: &mut VecDeque<u32>, value: Option<u32>, capacity: usize) -> (changed: bool)
        requires
            series_wf(old(buf)@, capacity as nat),
            capacity >= 1,
        ensures
            final(buf)@ == series_push_opt(old(buf)@, value, capacity as nat),
            series_wf(final(buf)@, capacity as nat),
            changed == accepts(value),
    {
        match value {
            Some(v) => Self::push_one(buf, v, capacity),
            None => false,
        }
    }

    /// Re-point the window at a new pid and clear every series.
    fn reset(&mut self, pid: u32)
        ensures
            final(self).wf(),
            final(self).pid == pid,
            final(self).capacity == old(self).capacity,
            final(self).revision == next_revision(old(self).revision),
            final(self).cpu@ == Seq::<u32>::empty(),
            final(self).memory@ == Seq::<u32>::empty(),
            final(self).disk_read@ == Seq::<u32>::empty(),
            final(self).disk_write@ == Seq::<u32>::empty(),
    {
        proof {
            use_type_invariant(&*self);
        }
        self.pid = pid;
        self.cpu = VecDeque::new();
        self.memory = VecDeque::new();
        self.disk_read = VecDeque::new();
        self.disk_write = VecDeque::new();
        self.revision = bump(self.revision);
        proof {
            use_type_invariant(&*self);
        }
    }

    /// Record one point-in-time sample for `pid`. A nonzero pid different from
    /// the tracked one resets all series first; each series then takes its
    /// sample independently, dropping a non-finite one; the revision advances
    /// once for the reset and once more when any sample was accepted.
    pub fn push(
        &mut self,
        pid: u32,
        cpu: Option<u32>,
        memory: Option<u32>,
        disk_read: Option<u32>,
        disk_write: Option<u32>,
    )
        ensures
            ({
                let reset = pid != 0 && old(self).pid_spec() != pid;
                let cap = old(self).capacity_spec() as nat;
                let base_cpu = if reset { Seq::<u32>::empty() } else { old(self).cpu_spec() };
                let base_mem = if reset { Seq::<u32>::empty() } else { old(self).memory_spec() };
                let base_rd = if reset { Seq::<u32>::empty() } else { old(self).disk_read_spec() };
                let base_wr = if reset { Seq::<u32>::empty() } else { old(self).disk_write_spec() };
                let rev0 = if reset { next_revision(old(self).revision_spec()) } else { old(self).revision_spec() };
                let changed = accepts(cpu) || accepts(memory) || accepts(disk_read) || accepts(disk_write);
                &&& final(self).wf()
                &&& final(self).pid_spec() == (if reset { pid } else { old(self).pid_spec() })
                &&& final(self).capacity_spec() == old(self).capacity_spec()
                &&& final(self).cpu_spec() == series_push_opt(base_cpu, cpu, cap)
                &&& final(self).memory_spec() == series_push_opt(base_mem, memory, cap)
                &&& final(self).disk_read_spec() == series_push_opt(base_rd, disk_read, cap)
                &&& final(self).disk_write_spec() == series_push_opt(base_wr, disk_write, cap)
                &&& final(self).revision_spec() == (if changed { next_revision(rev0) } else { rev0 })
            }),
    {
        proof {
            use_type_invariant(&*self);
        }
        if pid != 0 && self.pid != pid {
            self.reset(pid);
        }
        let capacity = self.capacity;
        let mut changed = false;
        let mut cpu_series = VecDeque::new();
        std::mem::swap(&mut cpu_series, &mut self.cpu);
        let c1 = Self::push_opt(&mut cpu_series, cpu, capacity);
        self.cpu = cpu_series;
        let mut memory_series = VecDeque::new();
        std::mem::swap(&mut memory_series, &mut self.memory);
        let c2 = Self::push_opt(&mut memory_series, memory, capacity);
        self.memory = memory_series;
        let mut read_series = VecDeque::new();
        std::mem::swap(&mut read_series, &mut self.disk_read);
        let c3 = Self::push_opt(&mut read_series, disk_read, capacity);
        self.disk_read = read_series;
        let mut write_series = VecDeque::new();
        std::mem::swap(&mut write_series, &mut self.disk_write);
        let c4 = Self::push_opt(&mut write_series, disk_write, capacity);
        self.disk_write = write_series;
        changed = c1 || c2 || c3 || c4;
        if changed {
            self.revision = bump(self.revision);
        }
        proof {
            use_type_invariant(&*self);
        }
    }

    /// Re-point the window at `pid` and resize its capacity in one step; every
    /// series is cleared.
    pub fn resize(&mut self, capacity: usize, pid: u32)
        ensures
            final(self).wf(),
            final(self).pid_spec() == pid,
            final(self).capacity_spec() == clamp_capacity(capacity),
            final(self).revision_spec() == next_revision(old(self).revision_spec()),
            final(self).cpu_spec() == Seq::<u32>::empty(),
            final(self).memory_spec() == Seq::<u32>::empty(),
            final(self).disk_read_spec() == Seq::<u32>::empty(),
            final(self).disk_write_spec() == Seq::<u32>::empty(),
    {
        self.reset(pid);
        self.capacity = clamp_capacity_exec(capacity);
        proof {
            use_type_invariant(&*self);
        }
    }

    fn seed_one(buf: &mut VecDeque<u32>, window: &[u32], capacity: usize)
        requires
            old(buf)@ == Seq::<u32>::empty(),
            MIN_HISTORY_CAPACITY <= capacity <= MAX_HISTORY_CAPACITY,
        ensures
            final(buf)@ == finite_only(newest_tail_spec(window@, capacity as nat)),
            series_wf(final(buf)@, capacity as nat),
    {
        let start: usize = if window.len() > capacity { window.len() - capacity } else { 0 };
        let ghost tail = newest_tail_spec(window@, capacity as nat);
        assert(tail =~= window@.subrange(start as int, window@.len() as int));
        let mut i: usize = start;
        while i < window.len()
            invariant
                start <= i <= window@.len(),
                window@.len() - start <= capacity,
                tail == window@.subrange(start as int, window@.len() as int),
                buf@ == finite_only(tail.subrange(0, i - start)),
                series_wf(buf@, capacity as nat),
                buf@.len() <= i - start,
                MIN_HISTORY_CAPACITY <= capacity <= MAX_HISTORY_CAPACITY,
            decreases window@.len() - i,
        {
            let ghost before = buf@;
            let _ = Self::push_one(buf, window[i], capacity);
            proof {
                let pre = tail.subrange(0, i - start);
                let post = tail.subrange(0, i + 1 - start);
                assert(post.drop_last() =~= pre);
                assert(post.last() == window@[i as int]);
                pre.lemma_filter_push(window@[i as int], |v: u32| is_finite_bits(v));
                assert(pre.push(window@[i as int]) =~= post);
            }
            i = i + 1;
        }
        assert(tail.subrange(0, window@.len() - start) =~= tail);
    }

    /// Seed every series from provider-collected history windows: the window
    /// is re-pointed at `pid` with the clamped `capacity`, then each series
    /// holds the finite samples of the newest `capacity` entries of its
    /// window, oldest first.
    pub fn seed_from_provider(
        &mut self,
        pid: u32,
        capacity: usize,
        cpu: &[u32],
        memory: &[u32],
        disk_read: &[u32],
        disk_write: &[u32],
    )
        ensures
            final(self).wf(),
            final(self).pid_spec() == pid,
            final(self).capacity_spec() == clamp_capacity(capacity),
            final(self).revision_spec() == next_revision(old(self).revision_spec()),
            final(self).cpu_spec() == finite_only(newest_tail_spec(cpu@, clamp_capacity(capacity) as nat)),
            final(self).memory_spec() == finite_only(newest_tail_spec(memory@, clamp_capacity(capacity) as nat)),
            final(self).disk_read_spec() == finite_only(newest_tail_spec(disk_read@, clamp_capacity(capacity) as nat)),
            final(self).disk_write_spec() == finite_only(newest_tail_spec(disk_write@, clamp_capacity(capacity) as nat)),
    {
        self.reset(pid);
        self.capacity = clamp_capacity_exec(capacity);
        let capacity = self.capacity;
        let mut cpu_series = VecDeque::new();
        Self::seed_one(&mut cpu_series, cpu, capacity);
        self.cpu = cpu_series;
        let mut memory_series = VecDeque::new();
        Self::seed_one(&mut memory_series, memory, capacity);
        self.memory = memory_series;
        let mut read_series = VecDeque::new();
        Self::seed_one(&mut read_series, disk_read, capacity);
        self.disk_read = read_series;
        let mut write_series = VecDeque::new();
        Self::seed_one(&mut write_series, disk_write, capacity);
        self.disk_write = write_series;
        proof {
            use_type_invariant(&*self);
        }
    }

    /// The configured window capacity (after clamping).
    pub fn capacity(&self) -> (r: usize)
        ensures
            r == self.capacity_spec(),
    {
        self.capacity
    }

    /// The tracked pid (0 = never sampled).
    pub fn pid(&self) -> (r: u32)
        ensures
            r == self.pid_spec(),
    {
        self.pid
    }

    /// The data revision used by the contiguous-series cache.
    pub fn revision(&self) -> (r: u64)
        ensures
            r == self.revision_spec(),
    {
        self.revision
    }

    fn series_vec(buf: &VecDeque<u32>) -> (r: Vec<u32>)
        ensures
            r@ == buf@,
    {
        let mut out: Vec<u32> = Vec::new();
        let mut i: usize = 0;
        while i < buf.len()
            invariant
                i <= buf@.len(),
                out@ == buf@.subrange(0, i as int),
            decreases buf@.len() - i,
        {
            out.push(buf[i]);
            i = i + 1;
            assert(out@ =~= buf@.subrange(0, i as int));
        }
        assert(buf@.subrange(0, buf@.len() as int) =~= buf@);
        out
    }

    /// CPU% series, oldest first.
    pub fn cpu_samples(&self) -> (r: Vec<u32>)
        ensures
            r@ == self.cpu_spec(),
    {
        Self::series_vec(&self.cpu)
    }

    /// Memory bytes series, oldest first.
    pub fn memory_samples(&self) -> (r: Vec<u32>)
        ensures
            r@ == self.memory_spec(),
    {
        Self::series_vec(&self.memory)
    }

    /// Disk read rate series, oldest first.
    pub fn disk_read_samples(&self) -> (r: Vec<u32>)
        ensures
            r@ == self.disk_read_spec(),
    {
        Self::series_vec(&self.disk_read)
    }

    /// Disk write rate series, oldest first.
    pub fn disk_write_samples(&self) -> (r: Vec<u32>)
        ensures
            r@ == self.disk_write_spec(),
    {
        Self::series_vec(&self.disk_write)
    }

    /// Copies of the four rings as contiguous series, oldest first.
    pub fn snapshot(&self) -> (r: ProcessPerfHistorySnapshot)
        ensures
            r.cpu@ == self.cpu_spec(),
            r.memory@ == self.memory_spec(),
            r.disk_read@ == self.disk_read_spec(),
            r.disk_write@ == self.disk_write_spec(),
    {
        ProcessPerfHistorySnapshot {
            cpu: Self::series_vec(&self.cpu),
            memory: Self::series_vec(&self.memory),
            disk_read: Self::series_vec(&self.disk_read),
            disk_write: Self::series_vec(&self.disk_write),
        }
    }

    /// True when every series is empty.
    pub fn is_empty(&self) -> (r: bool)
        ensures
            r == (self.cpu_spec().len() == 0 && self.memory_spec().len() == 0
                && self.disk_read_spec().len() == 0 && self.disk_write_spec().len() == 0),
    {
        self.cpu.len() == 0 && self.memory.len() == 0 && self.disk_read.len() == 0
            && self.disk_write.len() == 0
    }
}

} // verus!
