//! Injection counters, one per fault kind.

use crate::fault::FaultKind;
use vstd::prelude::*;

verus! {

/// Counts of injected faults per [`FaultKind`].
///
/// Each counter wraps to zero past `usize::MAX`.
#[derive(Debug)]
pub struct ChaosRecorder {
    latency: usize,
    error: usize,
    partition: usize,
    throttle: usize,
    cpu: usize,
}

/// The counts of a recorder in which nothing was recorded.
pub open spec fn no_counts() -> Map<FaultKind, usize> {
    Map::total(|kind: FaultKind| 0usize)
}

/// The counts after one more fault of `kind`.
pub open spec fn counted(counts: Map<FaultKind, usize>, kind: FaultKind) -> Map<FaultKind, usize> {
    counts.insert(kind, counts[kind].wrapping_add(1))
}

/// The sum of the counts over all kinds.
pub open spec fn sum_of_counts(counts: Map<FaultKind, usize>) -> nat {
    (counts[FaultKind::Latency] + counts[FaultKind::Error] + counts[FaultKind::Partition]
        + counts[FaultKind::Throttle] + counts[FaultKind::Cpu]) as nat
}

impl View for ChaosRecorder {
    type V = Map<FaultKind, usize>;

    /// The count of every kind.
    closed spec fn view(&self) -> Map<FaultKind, usize> {
        Map::total(
            |kind: FaultKind|
                match kind {
                    FaultKind::Latency => self.latency,
                    FaultKind::Error => self.error,
                    FaultKind::Partition => self.partition,
                    FaultKind::Throttle => self.throttle,
                    FaultKind::Cpu => self.cpu,
                },
        )
    }
}

impl Default for ChaosRecorder {
    fn default() -> (recorder: Self)
        ensures
            recorder@ == no_counts(),
    {
        ChaosRecorder::new()
    }
}

impl ChaosRecorder {
    /// A recorder with all counters at zero.
    pub fn new() -> (recorder: Self)
        ensures
            recorder@ == no_counts(),
    {
        ChaosRecorder { latency: 0, error: 0, partition: 0, throttle: 0, cpu: 0 }
    }

    /// Count one injected fault of `kind`.
    pub fn record(&mut self, kind: FaultKind)
        ensures
            final(self)@ == counted(old(self)@, kind),
    {
        match kind {
            FaultKind::Latency => {
                self.latency = self.latency.wrapping_add(1);
            },
            FaultKind::Error => {
                self.error = self.error.wrapping_add(1);
            },
            FaultKind::Partition => {
                self.partition = self.partition.wrapping_add(1);
            },
            FaultKind::Throttle => {
                self.throttle = self.throttle.wrapping_add(1);
            },
            FaultKind::Cpu => {
                self.cpu = self.cpu.wrapping_add(1);
            },
        }
    }

    /// How many faults of `kind` have been injected.
    pub fn injected(&self, kind: FaultKind) -> (count: usize)
        ensures
            count == self@[kind],
    {
        match kind {
            FaultKind::Latency => self.latency,
            FaultKind::Error => self.error,
            FaultKind::Partition => self.partition,
            FaultKind::Throttle => self.throttle,
            FaultKind::Cpu => self.cpu,
        }
    }

    /// How many faults have been injected, all kinds together.
    pub fn total(&self) -> (total: usize)
        requires
            sum_of_counts(self@) <= usize::MAX,
        ensures
            total == sum_of_counts(self@),
    {
        self.injected(FaultKind::Latency) + self.injected(FaultKind::Error) + self.injected(
            FaultKind::Partition,
        ) + self.injected(FaultKind::Throttle) + self.injected(FaultKind::Cpu)
    }

    /// Zero every counter.
    pub fn reset(&mut self)
        ensures
            final(self)@ == no_counts(),
    {
        self.latency = 0;
        self.error = 0;
        self.partition = 0;
        self.throttle = 0;
        self.cpu = 0;
    }
}

/// A record moves its own kind's counter by one and leaves the others alone,
/// and so moves the total by one.
pub proof fn record_counts_one(counts: Map<FaultKind, usize>, kind: FaultKind)
    requires
        counts[kind] < usize::MAX,
    ensures
        counted(counts, kind)[kind] == counts[kind] + 1,
        forall|other: FaultKind|
            other != kind ==> #[trigger] counted(counts, kind)[other] == counts[other],
        sum_of_counts(counted(counts, kind)) == sum_of_counts(counts) + 1,
{
}

/// Records commute: only how often each kind was recorded matters.
pub proof fn records_commute(counts: Map<FaultKind, usize>, first: FaultKind, second: FaultKind)
    ensures
        counted(counted(counts, first), second) == counted(counted(counts, second), first),
{
    assert(counted(counted(counts, first), second) =~= counted(counted(counts, second), first));
}

} // verus!
