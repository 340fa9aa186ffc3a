//! The aggregator: the single consumer of the workers' samples. It records
//! each latency into the sketch and lets a progress line through at most once
//! a second.
use vstd::prelude::*;
use vstd::multiset::Multiset;
use crate::latency::Sample;
use crate::pacer::NANOS_PER_SEC;
use crate::sketch::{
    histogram_len, new_histogram, record_value, sketch_resizes, sketch_samples, LatencySketch,
    MAX_RECORDABLE,
};

verus! {

/// Lets a progress report through when a second has passed since the last one.
#[derive(Clone, Copy, Debug, PartialEq, Eq, Structural)]
pub struct ProgressThrottle {
    /// Instant of the last report, in nanoseconds from an arbitrary origin.
    pub last_report_nanos: u64,
}

impl ProgressThrottle {
    /// A throttle that counts its first second from `now_nanos`.
    pub fn new(now_nanos: u64) -> (g: ProgressThrottle)
        ensures
            g.last_report_nanos == now_nanos,
    {
        ProgressThrottle { last_report_nanos: now_nanos }
    }

    /// Whether a report is due at `now_nanos`; if so, the throttle restarts from
    /// there.
    pub fn poll(&mut self, now_nanos: u64) -> (due: bool)
        ensures
            due == (now_nanos >= old(self).last_report_nanos + NANOS_PER_SEC),
            due ==> final(self).last_report_nanos == now_nanos,
            !due ==> *final(self) == *old(self),
    {
        let due = now_nanos >= self.last_report_nanos && now_nanos - self.last_report_nanos
            >= NANOS_PER_SEC;
        if due {
            self.last_report_nanos = now_nanos;
        }
        due
    }
}

/// The aggregator's state: the sketch of every latency received so far, and
/// the throttle of the progress reports.
pub struct Aggregator {
    pub sketch: LatencySketch,
    pub throttle: ProgressThrottle,
}

impl Aggregator {
    pub open spec fn wf(&self) -> bool {
        sketch_resizes(self.sketch)
    }

    /// The latencies recorded so far.
    pub open spec fn samples(&self) -> Multiset<u64> {
        sketch_samples(self.sketch)
    }

    /// An aggregator with an empty sketch, started at `now_nanos`.
    pub fn new(now_nanos: u64) -> (a: Aggregator)
        ensures
            a.wf(),
            a.samples() == Multiset::<u64>::empty(),
            a.throttle.last_report_nanos == now_nanos,
    {
        Aggregator { sketch: new_histogram(), throttle: ProgressThrottle::new(now_nanos) }
    }

    /// Number of latencies recorded so far.
    pub fn recorded(&self) -> (r: u64)
        ensures
            r == self.samples().len(),
    {
        histogram_len(&self.sketch)
    }

    /// Whether `sample` can be recorded: its latency is in the sketch's range
    /// and the sketch's count has room for one more.
    pub fn can_record(&self, sample: &Sample) -> (r: bool)
        ensures
            r == (sample.latency_micros <= MAX_RECORDABLE && self.samples().len() < u64::MAX),
    {
        sample.latency_micros <= MAX_RECORDABLE && histogram_len(&self.sketch) < u64::MAX
    }

    /// Records the latency of `sample`, received at `now_nanos`, and returns it
    /// as the progress report when one is due.
    pub fn observe(&mut self, sample: Sample, now_nanos: u64) -> (report: Option<Sample>)
        requires
            old(self).wf(),
            sample.latency_micros <= MAX_RECORDABLE,
            old(self).samples().len() < u64::MAX,
        ensures
            final(self).wf(),
            final(self).samples() == old(self).samples().insert(sample.latency_micros),
            report == (if now_nanos >= old(self).throttle.last_report_nanos + NANOS_PER_SEC {
                Some(sample)
            } else {
                None::<Sample>
            }),
            report is Some ==> final(self).throttle.last_report_nanos == now_nanos,
            report is None ==> final(self).throttle == old(self).throttle,
    {
        let due = self.throttle.poll(now_nanos);
        let _ = record_value(&mut self.sketch, sample.latency_micros);
        if due {
            Some(sample)
        } else {
            None
        }
    }
}

/// The latencies a sketch holds after it held `start` and was fed `latencies`
/// in turn.
pub open spec fn fed(start: Multiset<u64>, latencies: Seq<u64>) -> Multiset<u64>
    decreases latencies.len(),
{
    if latencies.len() == 0 {
        start
    } else {
        fed(start, latencies.drop_last()).insert(latencies.last())
    }
}

/// Feeding latencies one by one adds exactly their multiset to the sketch.
pub proof fn lemma_fed_adds_multiset(start: Multiset<u64>, latencies: Seq<u64>)
    ensures
        fed(start, latencies) == start.add(latencies.to_multiset()),
    decreases latencies.len(),
{
    broadcast use vstd::seq_lib::group_to_multiset_ensures;

    if latencies.len() == 0 {
        assert(start.add(latencies.to_multiset()) =~= start);
    } else {
        let prefix = latencies.drop_last();
        lemma_fed_adds_multiset(start, prefix);
        assert(latencies =~= prefix.push(latencies.last()));
        assert(fed(start, latencies) =~= start.add(latencies.to_multiset()));
    }
}

/// Recording is insensitive to order: two sketches that held the same samples
/// and were fed the same multiset of latencies, in any two orders, hold the
/// same samples.
pub proof fn lemma_feeding_order_irrelevant(start: Multiset<u64>, a: Seq<u64>, b: Seq<u64>)
    requires
        a.to_multiset() == b.to_multiset(),
    ensures
        fed(start, a) == fed(start, b),
{
    lemma_fed_adds_multiset(start, a);
    lemma_fed_adds_multiset(start, b);
}

} // verus!
