//! Conversion metrics: counters, a bounded window of duration samples, and
//! percentile snapshots.
//!
//! Durations are held as whole nanoseconds (`u128`), the unit that
//! `Duration::as_nanos` reports.

use vstd::prelude::*;
use vstd::relations::{sorted_by, total_ordering};
use vstd::seq_lib::{lemma_sorted_unique, to_multiset_build, to_multiset_insert};
use std::time::Duration;

verus! {

/// Maximum number of duration samples kept in memory.
pub const MAX_DURATION_SAMPLES: usize = 1000;

/// Addition modulo 2^64, as an atomic `fetch_add` performs it.
pub open spec fn wrapped_sum(x: u64, y: u64) -> u64 {
    if x + y > u64::MAX {
        (x + y - 0x1_0000_0000_0000_0000int) as u64
    } else {
        (x + y) as u64
    }
}

/// The ascending order on nanosecond samples.
pub open spec fn ascending() -> spec_fn(u128, u128) -> bool {
    |a: u128, b: u128| a <= b
}

/// The samples in ascending order.
pub open spec fn sorted_samples(s: Seq<u128>) -> Seq<u128> {
    s.sort_by(ascending())
}

/// Index of the 50th percentile in a sorted window of `len` samples.
pub open spec fn p50_index(len: nat) -> int {
    (len * 50 / 100) as int
}

/// Index of the 95th percentile in a sorted window of `len` samples.
pub open spec fn p95_index(len: nat) -> int {
    (len * 95 / 100) as int
}

/// Index of the 99th percentile in a sorted window of `len` samples (`len > 0`):
/// `(len - 1) * 99 / 100`, raised to the 95th percentile's index where it
/// would fall below it.
pub open spec fn p99_index(len: nat) -> int {
    let i = ((len - 1) * 99 / 100) as int;
    if i < p95_index(len) { p95_index(len) } else { i }
}

/// P50, P95 and P99 of a window of samples; all `None` for an empty window.
pub open spec fn percentiles_of(s: Seq<u128>) -> (Option<u128>, Option<u128>, Option<u128>) {
    if s.len() == 0 {
        (None, None, None)
    } else {
        let t = sorted_samples(s);
        (Some(t[p50_index(s.len())]), Some(t[p95_index(s.len())]), Some(t[p99_index(s.len())]))
    }
}

/// The window after one more sample: the oldest is evicted when the window is full.
pub open spec fn window_after(s: Seq<u128>, sample: u128) -> Seq<u128> {
    if s.len() >= MAX_DURATION_SAMPLES {
        s.drop_first().push(sample)
    } else {
        s.push(sample)
    }
}

proof fn lemma_ascending_total()
    ensures
        total_ordering(ascending()),
{
}

/// The ascending sort of a window is the unique sorted arrangement of its samples.
proof fn lemma_sorted_is_sort(s: Seq<u128>, t: Seq<u128>)
    requires
        sorted_by(t, ascending()),
        t.to_multiset() == s.to_multiset(),
    ensures
        t == sorted_samples(s),
{
    lemma_ascending_total();
    s.lemma_sort_by_ensures(ascending());
    lemma_sorted_unique(t, s.sort_by(ascending()), ascending());
}

/// The percentiles of a non-empty window are samples of that window, and
/// they are ordered: p50 <= p95 <= p99.
pub proof fn lemma_percentiles_are_ordered_samples(s: Seq<u128>)
    requires
        s.len() > 0,
    ensures
        ({
            let (p50, p95, p99) = percentiles_of(s);
            &&& p50 is Some && p95 is Some && p99 is Some
            &&& s.contains(p50->0)
            &&& s.contains(p95->0)
            &&& s.contains(p99->0)
            &&& p50->0 <= p95->0
            &&& p95->0 <= p99->0
        }),
{
    lemma_ascending_total();
    s.lemma_sort_by_ensures(ascending());
    let t = sorted_samples(s);
    s.to_multiset_ensures();
    t.to_multiset_ensures();
    assert(t.len() == s.len());
    let n = s.len();
    assert(p50_index(n) <= p95_index(n));
    assert(p95_index(n) <= p99_index(n));
    assert(0 <= (((n - 1) * 99 / 100) as int) < n) by (nonlinear_arith)
        requires
            n > 0,
    ;
    assert(p95_index(n) < n) by (nonlinear_arith)
        requires
            n > 0,
            p95_index(n) == (n * 95 / 100) as int,
    ;
    assert(t.contains(t[p50_index(n)]));
    assert(t.contains(t[p95_index(n)]));
    assert(t.contains(t[p99_index(n)]));
    if p50_index(n) < p95_index(n) {
        assert(ascending()(t[p50_index(n)], t[p95_index(n)]));
    }
    if p95_index(n) < p99_index(n) {
        assert(ascending()(t[p95_index(n)], t[p99_index(n)]));
    }
}

/// Percentiles depend only on which samples the window holds, not on their order.
pub proof fn lemma_percentiles_ignore_order(s1: Seq<u128>, s2: Seq<u128>)
    requires
        s1.to_multiset() == s2.to_multiset(),
    ensures
        percentiles_of(s1) == percentiles_of(s2),
{
    lemma_ascending_total();
    s1.lemma_sort_by_ensures(ascending());
    s2.lemma_sort_by_ensures(ascending());
    lemma_sorted_unique(sorted_samples(s1), sorted_samples(s2), ascending());
    s1.to_multiset_ensures();
    s2.to_multiset_ensures();
}

/// Sorts samples ascending by insertion.
pub fn sort_ascending(v: &Vec<u128>) -> (r: Vec<u128>)
    ensures
        r@ == sorted_samples(v@),
{
    let mut out: Vec<u128> = Vec::new();
    let mut i: usize = 0;
    assert(out@ == v@.take(0));
    while i < v.len()
        invariant
            i <= v.len(),
            sorted_by(out@, ascending()),
            out@.to_multiset() == v@.take(i as int).to_multiset(),
        decreases v.len() - i,
    {
        let x: u128 = v[i];
        let mut p: usize = 0;
        while p < out.len() && out[p] <= x
            invariant
                p <= out.len(),
                forall|k: int| 0 <= k < p ==> out@[k] <= x,
            decreases out.len() - p,
        {
            p = p + 1;
        }
        let ghost old_out = out@;
        proof {
            assert(p < old_out.len() ==> old_out[p as int] > x);
            assert forall|k: int| p <= k < old_out.len() implies old_out[k] > x by {
                if k > p {
                    assert(ascending()(old_out[p as int], old_out[k]));
                }
            }
        }
        out.insert(p, x);
        proof {
            let n = out@;
            assert(n == old_out.insert(p as int, x));
            assert forall|a: int, b: int| 0 <= a < b < n.len() implies #[trigger] ascending()(
                n[a],
                n[b],
            ) by {
                if b < p {
                    assert(ascending()(old_out[a], old_out[b]));
                } else if a > p {
                    assert(ascending()(old_out[a - 1], old_out[b - 1]));
                } else if a < p && b > p {
                    assert(n[a] == old_out[a]);
                    assert(n[b] == old_out[b - 1]);
                }
            }
            assert(v@.take(i + 1) == v@.take(i as int).push(x));
            to_multiset_insert(old_out, p as int, x);
            to_multiset_build(v@.take(i as int), x);
        }
        i = i + 1;
    }
    proof {
        assert(v@.take(v.len() as int) == v@);
        lemma_sorted_is_sort(v@, out@);
    }
    out
}

/// P50/P95/P99 of a window of samples.
pub fn calculate_percentiles(durations: &Vec<u128>) -> (r: (Option<u128>, Option<u128>, Option<u128>))
    requires
        durations@.len() * 95 <= usize::MAX,
        (durations@.len() - 1) * 99 <= usize::MAX,
    ensures
        r == percentiles_of(durations@),
{
    if durations.len() == 0 {
        return (None, None, None);
    }
    let sorted = sort_ascending(durations);
    proof {
        lemma_ascending_total();
        durations@.lemma_sort_by_ensures(ascending());
        durations@.to_multiset_ensures();
        sorted@.to_multiset_ensures();
    }
    let len: usize = sorted.len();
    let i50: usize = len * 50 / 100;
    let i95: usize = len * 95 / 100;
    let i99_raw: usize = (len - 1) * 99 / 100;
    let i99: usize = if i99_raw < i95 { i95 } else { i99_raw };
    (Some(sorted[i50]), Some(sorted[i95]), Some(sorted[i99]))
}

/// What `Duration::as_nanos` returns for a duration.
pub uninterp spec fn duration_as_nanos(d: Duration) -> u128;

/// The duration as whole nanoseconds.
///
/// Trusted: calls `Duration::as_nanos`, which std documents as the total
/// number of whole nanoseconds the duration holds; `Duration` is opaque here,
/// so the result is named `duration_as_nanos` of the duration.
#[verifier::external_body]
pub(crate) fn duration_nanos(d: Duration) -> (n: u128)
    ensures
        n == duration_as_nanos(d),
{
    d.as_nanos()
}

/// A point-in-time snapshot of conversion metrics; durations in nanoseconds.
#[derive(Debug, Clone, Copy, PartialEq, Eq)]
pub struct MetricsSnapshot {
    pub conversions_started: u64,
    pub conversions_succeeded: u64,
    pub conversions_failed: u64,
    pub conversions_timed_out: u64,
    pub conversions_cancelled: u64,
    pub vtfx_passthrough_count: u64,
    pub total_output_bytes: u64,
    pub total_input_bytes: u64,
    pub duration_p50: Option<u128>,
    pub duration_p95: Option<u128>,
    pub duration_p99: Option<u128>,
    pub sample_count: u64,
}

/// The counters of a collector.
#[derive(Debug, Clone, Copy, PartialEq, Eq)]
pub struct MetricCounters {
    pub conversions_started: u64,
    pub conversions_succeeded: u64,
    pub conversions_failed: u64,
    pub conversions_timed_out: u64,
    pub conversions_cancelled: u64,
    pub vtfx_passthrough_count: u64,
    pub total_output_bytes: u64,
    pub total_input_bytes: u64,
}

/// All counters at zero.
pub open spec fn zero_counters() -> MetricCounters {
    MetricCounters {
        conversions_started: 0,
        conversions_succeeded: 0,
        conversions_failed: 0,
        conversions_timed_out: 0,
        conversions_cancelled: 0,
        vtfx_passthrough_count: 0,
        total_output_bytes: 0,
        total_input_bytes: 0,
    }
}

/// Conversion metrics collector.
#[derive(Debug)]
pub struct ConversionMetrics {
    counters: MetricCounters,
    duration_samples: Vec<u128>,
}

impl ConversionMetrics {
    /// The counters.
    pub closed spec fn counters(&self) -> MetricCounters {
        self.counters
    }

    /// The recent duration samples, oldest first.
    pub closed spec fn samples(&self) -> Seq<u128> {
        self.duration_samples@
    }

    #[verifier::type_invariant]
    spec fn window_bounded(&self) -> bool {
        self.duration_samples@.len() <= MAX_DURATION_SAMPLES
    }

    /// A new, empty collector.
    pub fn new() -> (m: Self)
        ensures
            m.counters() == zero_counters(),
            m.samples() == Seq::<u128>::empty(),
    {
        ConversionMetrics { counters: MetricCounters {
            conversions_started: 0,
            conversions_succeeded: 0,
            conversions_failed: 0,
            conversions_timed_out: 0,
            conversions_cancelled: 0,
            vtfx_passthrough_count: 0,
            total_output_bytes: 0,
            total_input_bytes: 0,
        }, duration_samples: Vec::new() }
    }

    /// Records a conversion start.
    pub fn record_started(&mut self)
        ensures
            final(self).counters() == (MetricCounters {
                conversions_started: wrapped_sum(old(self).counters().conversions_started, 1),
                ..old(self).counters()
            }),
            final(self).samples() == old(self).samples(),
    {
        proof {
            use_type_invariant(&*self);
        }
        self.counters.conversions_started = self.counters.conversions_started.wrapping_add(1);
    }

    /// Records a successful conversion from its duration in nanoseconds.
    pub fn record_success_nanos(&mut self, nanos: u128, output_bytes: u64)
        ensures
            final(self).counters() == (MetricCounters {
                conversions_succeeded: wrapped_sum(old(self).counters().conversions_succeeded, 1),
                total_output_bytes: wrapped_sum(old(self).counters().total_output_bytes, output_bytes),
                ..old(self).counters()
            }),
            final(self).samples() == window_after(old(self).samples(), nanos),
            final(self).samples().len() <= MAX_DURATION_SAMPLES,
    {
        proof {
            use_type_invariant(&*self);
        }
        self.counters.conversions_succeeded = self.counters.conversions_succeeded.wrapping_add(1);
        self.counters.total_output_bytes = self.counters.total_output_bytes.wrapping_add(output_bytes);
        self.add_duration_sample(nanos);
    }

    /// Records a successful conversion with its duration and output size.
    ///
    /// The new sample is the duration's whole nanoseconds.
    pub fn record_success(&mut self, duration: Duration, output_bytes: u64)
        ensures
            final(self).counters() == (MetricCounters {
                conversions_succeeded: wrapped_sum(old(self).counters().conversions_succeeded, 1),
                total_output_bytes: wrapped_sum(old(self).counters().total_output_bytes, output_bytes),
                ..old(self).counters()
            }),
            final(self).samples() == window_after(old(self).samples(), duration_as_nanos(duration)),
            final(self).samples().len() <= MAX_DURATION_SAMPLES,
    {
        let nanos = duration_nanos(duration);
        self.record_success_nanos(nanos, output_bytes);
    }

    /// Records a failed conversion.
    pub fn record_failure(&mut self)
        ensures
            final(self).counters() == (MetricCounters {
                conversions_failed: wrapped_sum(old(self).counters().conversions_failed, 1),
                ..old(self).counters()
            }),
            final(self).samples() == old(self).samples(),
    {
        proof {
            use_type_invariant(&*self);
        }
        self.counters.conversions_failed = self.counters.conversions_failed.wrapping_add(1);
    }

    /// Records a timed-out conversion: it counts as timed out and as failed.
    pub fn record_timeout(&mut self)
        ensures
            final(self).counters() == (MetricCounters {
                conversions_timed_out: wrapped_sum(old(self).counters().conversions_timed_out, 1),
                conversions_failed: wrapped_sum(old(self).counters().conversions_failed, 1),
                ..old(self).counters()
            }),
            final(self).samples() == old(self).samples(),
    {
        proof {
            use_type_invariant(&*self);
        }
        self.counters.conversions_timed_out = self.counters.conversions_timed_out.wrapping_add(1);
        self.counters.conversions_failed = self.counters.conversions_failed.wrapping_add(1);
    }

    /// Records a cancelled conversion.
    pub fn record_cancelled(&mut self)
        ensures
            final(self).counters() == (MetricCounters {
                conversions_cancelled: wrapped_sum(old(self).counters().conversions_cancelled, 1),
                ..old(self).counters()
            }),
            final(self).samples() == old(self).samples(),
    {
        proof {
            use_type_invariant(&*self);
        }
        self.counters.conversions_cancelled = self.counters.conversions_cancelled.wrapping_add(1);
    }

    /// Records a VTFx pass-through of `bytes` bytes.
    pub fn record_vtfx_passthrough(&mut self, bytes: u64)
        ensures
            final(self).counters() == (MetricCounters {
                vtfx_passthrough_count: wrapped_sum(old(self).counters().vtfx_passthrough_count, 1),
                total_output_bytes: wrapped_sum(old(self).counters().total_output_bytes, bytes),
                ..old(self).counters()
            }),
            final(self).samples() == old(self).samples(),
    {
        proof {
            use_type_invariant(&*self);
        }
        self.counters.vtfx_passthrough_count = self.counters.vtfx_passthrough_count.wrapping_add(1);
        self.counters.total_output_bytes = self.counters.total_output_bytes.wrapping_add(bytes);
    }

    /// Adds a duration sample, evicting the oldest one when the window is full.
    fn add_duration_sample(&mut self, nanos: u128)
        ensures
            final(self).samples() == window_after(old(self).samples(), nanos),
            final(self).samples().len() <= MAX_DURATION_SAMPLES,
            final(self).counters() == old(self).counters(),
    {
        proof {
            use_type_invariant(&*self);
        }
        let mut window: Vec<u128> = Vec::new();
        std::mem::swap(&mut window, &mut self.duration_samples);
        if window.len() >= MAX_DURATION_SAMPLES {
            window.remove(0);
        }
        window.push(nanos);
        self.duration_samples = window;
    }

    /// The current snapshot of the metrics.
    pub fn snapshot(&self) -> (s: MetricsSnapshot)
        ensures
            s.conversions_started == self.counters().conversions_started,
            s.conversions_succeeded == self.counters().conversions_succeeded,
            s.conversions_failed == self.counters().conversions_failed,
            s.conversions_timed_out == self.counters().conversions_timed_out,
            s.conversions_cancelled == self.counters().conversions_cancelled,
            s.vtfx_passthrough_count == self.counters().vtfx_passthrough_count,
            s.total_output_bytes == self.counters().total_output_bytes,
            s.total_input_bytes == self.counters().total_input_bytes,
            (s.duration_p50, s.duration_p95, s.duration_p99) == percentiles_of(self.samples()),
            s.sample_count == self.samples().len(),
    {
        proof {
            use_type_invariant(self);
        }
        let (p50, p95, p99) = calculate_percentiles(&self.duration_samples);
        MetricsSnapshot {
            conversions_started: self.counters.conversions_started,
            conversions_succeeded: self.counters.conversions_succeeded,
            conversions_failed: self.counters.conversions_failed,
            conversions_timed_out: self.counters.conversions_timed_out,
            conversions_cancelled: self.counters.conversions_cancelled,
            vtfx_passthrough_count: self.counters.vtfx_passthrough_count,
            total_output_bytes: self.counters.total_output_bytes,
            total_input_bytes: self.counters.total_input_bytes,
            duration_p50: p50,
            duration_p95: p95,
            duration_p99: p99,
            sample_count: self.duration_samples.len() as u64,
        }
    }
}

impl Default for ConversionMetrics {
    fn default() -> (m: Self)
        ensures
            m.counters() == zero_counters(),
            m.samples() == Seq::<u128>::empty(),
    {
        Self::new()
    }
}

} // verus!
