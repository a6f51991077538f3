//! Bounded resource histories: timestamped utilization samples kept in
//! fixed-capacity rings that evict oldest-first.
//!
//! Values are hundredths (of a percent, or of a megabyte), timestamps are
//! milliseconds since the Unix epoch.

use vstd::prelude::*;
use std::collections::VecDeque;

verus! {

/// Capacity of the global utilization histories.
pub const HISTORY_SIZE: usize = 100;

/// A single utilization data point.
#[derive(Debug, Clone, Copy, PartialEq, Eq, Structural)]
pub struct ResourcePoint {
    pub timestamp: i64,
    pub value: u32,
}

/// One CPU-and-memory sample attached to a task or a backend.
#[derive(Debug, Clone, Copy, PartialEq, Eq, Structural)]
pub struct ResourceSample {
    pub timestamp: i64,
    pub cpu: u32,
    pub memory: u32,
}

/// A push into a ring of capacity `cap`: the new sample is appended, and the
/// oldest sample is evicted when the ring was already full.
pub open spec fn spec_push_bounded<T>(s: Seq<T>, x: T, cap: nat) -> Seq<T> {
    if s.len() < cap {
        s.push(x)
    } else {
        s.push(x).drop_first()
    }
}

/// Largest value in a history, or zero when it is empty.
pub open spec fn spec_max_value(s: Seq<ResourcePoint>) -> u32
    decreases s.len(),
{
    if s.len() == 0 {
        0
    } else {
        let rest = spec_max_value(s.drop_last());
        if s.last().value > rest {
            s.last().value
        } else {
            rest
        }
    }
}

/// Global CPU and memory utilization, as the latest values and two bounded
/// histories of capacity `HISTORY_SIZE`.
pub struct ResourceState {
    pub cpu_history: VecDeque<ResourcePoint>,
    pub memory_history: VecDeque<ResourcePoint>,
    pub cpu_current: u32,
    pub memory_current: u32,
}

impl ResourceState {
    /// Well-formedness: neither history exceeds its capacity.
    pub open spec fn wf(self) -> bool {
        &&& self.cpu_history@.len() <= HISTORY_SIZE
        &&& self.memory_history@.len() <= HISTORY_SIZE
    }

    /// Empty histories, zero current utilization.
    pub fn new() -> (r: ResourceState)
        ensures
            r.wf(),
            r.cpu_history@ == Seq::<ResourcePoint>::empty(),
            r.memory_history@ == Seq::<ResourcePoint>::empty(),
            r.cpu_current == 0,
            r.memory_current == 0,
    {
        ResourceState {
            cpu_history: VecDeque::new(),
            memory_history: VecDeque::new(),
            cpu_current: 0,
            memory_current: 0,
        }
    }

    /// Records one sample taken at `now_ms`: both currents are replaced and a
    /// point is pushed into each ring.
    pub fn update(&mut self, cpu: u32, memory: u32, now_ms: i64)
        requires
            old(self).wf(),
        ensures
            final(self).wf(),
            final(self).cpu_current == cpu,
            final(self).memory_current == memory,
            final(self).cpu_history@ == spec_push_bounded(
                old(self).cpu_history@,
                ResourcePoint { timestamp: now_ms, value: cpu },
                HISTORY_SIZE as nat,
            ),
            final(self).memory_history@ == spec_push_bounded(
                old(self).memory_history@,
                ResourcePoint { timestamp: now_ms, value: memory },
                HISTORY_SIZE as nat,
            ),
    {
        self.cpu_current = cpu;
        self.memory_current = memory;
        self.add_cpu_point(now_ms, cpu);
        self.add_memory_point(now_ms, memory);
    }

    /// Pushes one point into the CPU ring, evicting the oldest at capacity.
    fn add_cpu_point(&mut self, timestamp: i64, value: u32)
        requires
            old(self).cpu_history@.len() <= HISTORY_SIZE,
        ensures
            final(self).cpu_history@ == spec_push_bounded(
                old(self).cpu_history@,
                ResourcePoint { timestamp, value },
                HISTORY_SIZE as nat,
            ),
            final(self).cpu_history@.len() <= HISTORY_SIZE,
            *final(self) == (ResourceState { cpu_history: final(self).cpu_history, ..*old(self) }),
    {
        self.cpu_history.push_back(ResourcePoint { timestamp, value });
        if self.cpu_history.len() > HISTORY_SIZE {
            self.cpu_history.pop_front();
        }
    }

    /// Pushes one point into the memory ring, evicting the oldest at capacity.
    fn add_memory_point(&mut self, timestamp: i64, value: u32)
        requires
            old(self).memory_history@.len() <= HISTORY_SIZE,
        ensures
            final(self).memory_history@ == spec_push_bounded(
                old(self).memory_history@,
                ResourcePoint { timestamp, value },
                HISTORY_SIZE as nat,
            ),
            final(self).memory_history@.len() <= HISTORY_SIZE,
            *final(self) == (ResourceState { memory_history: final(self).memory_history, ..*old(self) }),
    {
        self.memory_history.push_back(ResourcePoint { timestamp, value });
        if self.memory_history.len() > HISTORY_SIZE {
            self.memory_history.pop_front();
        }
    }

    /// Largest CPU value on record, zero when the history is empty.
    pub fn cpu_max(&self) -> (r: u32)
        ensures
            r == spec_max_value(self.cpu_history@),
    {
        max_value(&self.cpu_history)
    }

    /// Largest memory value on record, zero when the history is empty.
    pub fn memory_max(&self) -> (r: u32)
        ensures
            r == spec_max_value(self.memory_history@),
    {
        max_value(&self.memory_history)
    }
}

/// Largest value in a history ring, zero when it is empty.
fn max_value(history: &VecDeque<ResourcePoint>) -> (r: u32)
    ensures
        r == spec_max_value(history@),
{
    let mut best: u32 = 0;
    let n = history.len();
    let mut i: usize = 0;
    while i < n
        invariant
            0 <= i <= n,
            n == history@.len(),
            best == spec_max_value(history@.subrange(0, i as int)),
        decreases n - i,
    {
        assert(history@.subrange(0, i + 1 as int).drop_last() == history@.subrange(0, i as int));
        assert(history@.subrange(0, i + 1 as int).last() == history@[i as int]);
        let v = history[i].value;
        if v > best {
            best = v;
        }
        i += 1;
    }
    assert(history@.subrange(0, n as int) == history@);
    best
}

/// The bound a ring keeps: a push never grows it past its capacity, the new
/// sample lands at the end, and at capacity it is exactly the oldest sample
/// that leaves.
pub proof fn lemma_push_bounded_capacity<T>(s: Seq<T>, x: T, cap: nat)
    requires
        s.len() <= cap,
        cap >= 1,
    ensures
        spec_push_bounded(s, x, cap).len() <= cap,
        spec_push_bounded(s, x, cap).last() == x,
        s.len() < cap ==> spec_push_bounded(s, x, cap) == s.push(x),
        s.len() == cap ==> spec_push_bounded(s, x, cap) == s.drop_first().push(x),
{
    if s.len() == cap {
        assert(s.push(x).drop_first() =~= s.drop_first().push(x));
    }
}

} // verus!
