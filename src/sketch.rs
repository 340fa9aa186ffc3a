//! The quantile sketch: an auto-resizing `hdrhistogram::Histogram` of latencies
//! in microseconds, kept with two significant digits.
use vstd::prelude::*;
use vstd::multiset::Multiset;
use hdrhistogram::{Histogram, RecordError};

verus! {

/// Significant decimal digits that the sketch keeps of each value.
pub const SIGNIFICANT_DIGITS: u8 = 2;

/// Largest value an auto-resizing histogram can grow to track (`i64::MAX / 2`).
pub const MAX_RECORDABLE: u64 = 4_611_686_018_427_387_903;

/// Latencies in microseconds, held in an auto-resizing histogram of
/// `hdrhistogram`. Verus cannot declare `Histogram` itself, whose type
/// parameter is bound by an outside trait; the histogram stays behind this
/// struct, and is filled only through the functions below.
#[verifier::external_body]
pub struct LatencySketch {
    /// The histogram, which callers read to walk its quantiles.
    pub histogram: Histogram<u64>,
}

#[verifier::external_type_specification]
#[verifier::external_body]
pub struct ExRecordError(RecordError);

/// The values recorded into a histogram, one per record.
pub uninterp spec fn sketch_samples(s: LatencySketch) -> Multiset<u64>;

/// Whether a histogram grows to track any value recorded into it, up to
/// `MAX_RECORDABLE`.
pub uninterp spec fn sketch_resizes(s: LatencySketch) -> bool;

/// Relies on hdrhistogram's `Histogram::new`: with two significant digits (a
/// valid precision) it returns an empty histogram with auto-resize enabled.
#[verifier::external_body]
pub(crate) fn new_histogram() -> (s: LatencySketch)
    ensures
        sketch_samples(s) == Multiset::<u64>::empty(),
        sketch_resizes(s),
{
    LatencySketch { histogram: Histogram::new(SIGNIFICANT_DIGITS).unwrap() }
}

/// Relies on hdrhistogram's `Histogram::record`: on an auto-resizing histogram
/// it succeeds for any value up to `MAX_RECORDABLE` and adds one sample of it;
/// the total count grows by one while below `u64::MAX`.
#[verifier::external_body]
pub(crate) fn record_value(s: &mut LatencySketch, value: u64) -> (r: Result<(), RecordError>)
    requires
        sketch_resizes(*old(s)),
        value <= MAX_RECORDABLE,
        sketch_samples(*old(s)).len() < u64::MAX,
    ensures
        r is Ok,
        sketch_resizes(*final(s)),
        sketch_samples(*final(s)) == sketch_samples(*old(s)).insert(value),
{
    s.histogram.record(value)
}

/// Relies on hdrhistogram's `Histogram::len`: the total number of samples
/// recorded.
#[verifier::external_body]
pub(crate) fn histogram_len(s: &LatencySketch) -> (r: u64)
    ensures
        r == sketch_samples(*s).len(),
{
    s.histogram.len()
}

} // verus!
