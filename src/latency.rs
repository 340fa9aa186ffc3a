//! Latency measured against each request's scheduled send time, so that time
//! a request spends waiting behind a saturated target counts as latency.
use vstd::prelude::*;
use crate::pacer::NANOS_PER_SEC;

verus! {

/// Nanoseconds in one microsecond.
pub const NANOS_PER_MICRO: u64 = 1000;

/// Gap between two consecutive scheduled sends, truncated to whole nanoseconds.
pub open spec fn period_of(rate: nat) -> nat {
    (NANOS_PER_SEC as nat) / rate
}

/// Latency in whole microseconds of a request scheduled at `ideal_nanos` and
/// completed at `completion_nanos`, both measured from the start of the run.
/// A completion before the scheduled time counts as no latency.
pub open spec fn latency_of(ideal_nanos: nat, completion_nanos: nat) -> nat {
    if completion_nanos >= ideal_nanos {
        ((completion_nanos - ideal_nanos) as nat) / (NANOS_PER_MICRO as nat)
    } else {
        0
    }
}

/// Gap between two consecutive scheduled sends at `rate` requests per second.
pub fn request_period_nanos(rate: u64) -> (r: u64)
    requires
        rate > 0,
    ensures
        r == period_of(rate as nat),
{
    NANOS_PER_SEC / rate
}

/// Scheduled send time of request `index`, measured from the start of the run.
pub fn ideal_send_offset_nanos(index: u64, period_nanos: u64) -> (r: u128)
    ensures
        r == index * period_nanos,
{
    proof {
        assert((index as int) * (period_nanos as int) <= (u64::MAX as int) * (u64::MAX as int))
            by (nonlinear_arith)
            requires
                index <= u64::MAX,
                period_nanos <= u64::MAX,
        ;
    }
    index as u128 * period_nanos as u128
}

/// Latency of a request scheduled at `ideal_nanos` that completed at
/// `completion_nanos`.
pub fn latency_micros(ideal_nanos: u128, completion_nanos: u64) -> (r: u64)
    ensures
        r == latency_of(ideal_nanos as nat, completion_nanos as nat),
{
    if completion_nanos as u128 >= ideal_nanos {
        ((completion_nanos as u128 - ideal_nanos) / (NANOS_PER_MICRO as u128)) as u64
    } else {
        0
    }
}

/// What a worker reports of one completed request.
#[derive(Clone, Copy, Debug, PartialEq, Eq, Structural)]
pub struct Sample {
    /// Microseconds from the request's scheduled send time to its completion.
    pub latency_micros: u64,
    /// Requests still in flight once this one has completed.
    pub in_flight: u64,
}

impl Sample {
    /// The sample of request `index`, in a run whose sends are `period_nanos`
    /// apart, completed `completion_nanos` after the start of the run with
    /// `in_flight` requests still in flight.
    pub fn completed(index: u64, period_nanos: u64, completion_nanos: u64, in_flight: u64) -> (s:
        Sample)
        ensures
            s.latency_micros == latency_of((index * period_nanos) as nat, completion_nanos as nat),
            s.in_flight == in_flight,
    {
        let ideal = ideal_send_offset_nanos(index, period_nanos);
        Sample { latency_micros: latency_micros(ideal, completion_nanos), in_flight }
    }
}

/// A later completion never shows a lower latency.
pub proof fn lemma_latency_monotone(ideal_nanos: nat, c1: nat, c2: nat)
    requires
        c1 <= c2,
    ensures
        latency_of(ideal_nanos, c1) <= latency_of(ideal_nanos, c2),
{
    if c1 >= ideal_nanos {
        let n = NANOS_PER_MICRO as nat;
        assert(((c1 - ideal_nanos) as nat) / n <= ((c2 - ideal_nanos) as nat) / n)
            by (nonlinear_arith)
            requires
                (c1 - ideal_nanos) as nat <= (c2 - ideal_nanos) as nat,
                n > 0,
        ;
    }
}

/// Latency is measured against the schedule: a delay of `delay_nanos` added to
/// a completion that was on or after its scheduled time adds at least its whole
/// microseconds to the latency, so any delay of a microsecond or more strictly
/// increases it.
pub proof fn lemma_delay_adds_latency(ideal_nanos: nat, completion_nanos: nat, delay_nanos: nat)
    requires
        completion_nanos >= ideal_nanos,
    ensures
        latency_of(ideal_nanos, completion_nanos + delay_nanos) >= latency_of(
            ideal_nanos,
            completion_nanos,
        ) + delay_nanos / (NANOS_PER_MICRO as nat),
        delay_nanos >= NANOS_PER_MICRO ==> latency_of(ideal_nanos, completion_nanos + delay_nanos)
            > latency_of(ideal_nanos, completion_nanos),
{
    let n = NANOS_PER_MICRO as nat;
    let a = (completion_nanos - ideal_nanos) as nat;
    assert((a + delay_nanos) / n >= a / n + delay_nanos / n) by (nonlinear_arith)
        requires
            n > 0,
    ;
    assert(delay_nanos >= n ==> delay_nanos / n >= 1) by (nonlinear_arith)
        requires
            n > 0,
    ;
}

} // verus!
