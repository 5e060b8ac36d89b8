//! Per-sample timestamps from a piecewise-constant sampling-rate table.
//!
//! Time is counted in whole picoseconds. Each segment states its sampling
//! period, the time between two of its samples, which for a rate of `r` hertz
//! is `10^12 / r` picoseconds. The time of a sample is the sum of the periods
//! of all samples before it, so a table whose periods are all at least one
//! picosecond gives every sample a later time than the sample before it.

use crate::copying::copy_of;
use vstd::prelude::*;

verus! {

/// Picoseconds in one second.
pub const PICOS_PER_SECOND: u64 = 1_000_000_000_000;

/// A run of samples taken at one constant rate: the samples from the end of
/// the previous segment (or from sample 0) up to, but not including,
/// `end_sample_index`.
#[derive(Clone, Copy, Debug, PartialEq, Eq)]
pub struct SamplingRateSegment {
    /// Time from one sample of the segment to the next, in picoseconds; at
    /// least 1 in a well-formed table.
    pub period_picos: u64,
    /// Index one past the last sample of the segment.
    pub end_sample_index: u32,
}

/// Index of the first sample of segment `i`: where segment `i - 1` ended.
pub open spec fn segment_start(segments: Seq<SamplingRateSegment>, i: int) -> int {
    if i <= 0 {
        0
    } else {
        segments[i - 1].end_sample_index as int
    }
}

/// Every period is at least one picosecond and the end indices never
/// decrease.
pub open spec fn well_formed(segments: Seq<SamplingRateSegment>) -> bool {
    forall|i: int|
        0 <= i < segments.len() ==> (#[trigger] segments[i]).period_picos >= 1 && segment_start(
            segments,
            i,
        ) <= segments[i].end_sample_index
}

/// Number of samples that the table describes: where its last segment ends.
pub open spec fn total_samples(segments: Seq<SamplingRateSegment>) -> int {
    segment_start(segments, segments.len() as int)
}

/// Sum of the lengths of the first `n` segments.
pub open spec fn summed_lengths(segments: Seq<SamplingRateSegment>, n: int) -> int
    decreases n,
{
    if n <= 0 {
        0
    } else {
        summed_lengths(segments, n - 1) + (segments[n - 1].end_sample_index - segment_start(
            segments,
            n - 1,
        ))
    }
}

/// Index of the first of the leading `n` segments that ends after sample `k`,
/// or `n` if none of them does.
pub open spec fn covering_segment(segments: Seq<SamplingRateSegment>, n: int, k: int) -> int
    decreases n,
{
    if n <= 0 {
        0
    } else {
        let earlier = covering_segment(segments, n - 1, k);
        if earlier < n - 1 {
            earlier
        } else if k < segments[n - 1].end_sample_index {
            n - 1
        } else {
            n
        }
    }
}

/// Index of the segment that sample `k` belongs to.
pub open spec fn segment_of(segments: Seq<SamplingRateSegment>, k: int) -> int {
    covering_segment(segments, segments.len() as int, k)
}

/// Time between sample `k` and the sample after it.
pub open spec fn period_at(segments: Seq<SamplingRateSegment>, k: int) -> int {
    segments[segment_of(segments, k)].period_picos as int
}

/// Picoseconds from the first sample to sample `k`: the periods of the `k`
/// samples before it, added up.
pub open spec fn relative_picos(segments: Seq<SamplingRateSegment>, k: int) -> int
    decreases k,
{
    if k <= 0 {
        0
    } else {
        relative_picos(segments, k - 1) + period_at(segments, k - 1)
    }
}

/// Picoseconds since the epoch of sample `k`, for a recording triggered in
/// the second `trigger_seconds`. The trigger's sub-second part plays no role.
pub open spec fn absolute_picos(
    trigger_seconds: int,
    segments: Seq<SamplingRateSegment>,
    k: int,
) -> int {
    trigger_seconds * 1_000_000_000_000 + relative_picos(segments, k)
}

/// The timestamps of all samples of a table, in order.
pub open spec fn timestamps_of(trigger_seconds: int, segments: Seq<SamplingRateSegment>) -> Seq<
    int,
> {
    Seq::new(
        total_samples(segments) as nat,
        |k: int| absolute_picos(trigger_seconds, segments, k),
    )
}

/// In a well-formed table a later segment never ends before an earlier one.
pub proof fn lemma_ends_ordered(segments: Seq<SamplingRateSegment>, i: int, j: int)
    requires
        well_formed(segments),
        0 <= i <= j < segments.len(),
    ensures
        segments[i].end_sample_index <= segments[j].end_sample_index,
    decreases j - i,
{
    if i < j {
        lemma_ends_ordered(segments, i, j - 1);
        assert(segment_start(segments, j) <= segments[j].end_sample_index);
    }
}

/// A sample between the start and the end of segment `i` belongs to segment `i`.
pub proof fn lemma_segment_of(segments: Seq<SamplingRateSegment>, i: int, k: int)
    requires
        well_formed(segments),
        0 <= i < segments.len(),
        segment_start(segments, i) <= k < segments[i].end_sample_index,
    ensures
        segment_of(segments, k) == i,
{
    lemma_covering_segment(segments, i, k, segments.len() as int);
}

proof fn lemma_covering_segment(segments: Seq<SamplingRateSegment>, i: int, k: int, n: int)
    requires
        well_formed(segments),
        0 <= i < segments.len(),
        segment_start(segments, i) <= k < segments[i].end_sample_index,
        0 <= n <= segments.len(),
    ensures
        covering_segment(segments, n, k) == if n <= i {
            n
        } else {
            i
        },
    decreases n,
{
    if n > 0 {
        lemma_covering_segment(segments, i, k, n - 1);
        if n - 1 < i {
            lemma_ends_ordered(segments, n - 1, i - 1);
        }
    }
}

/// The lengths of the segments of a well-formed table add up to its number
/// of samples.
pub proof fn lemma_lengths_sum_to_total(segments: Seq<SamplingRateSegment>)
    requires
        well_formed(segments),
    ensures
        summed_lengths(segments, segments.len() as int) == total_samples(segments),
{
    lemma_summed_lengths(segments, segments.len() as int);
}

proof fn lemma_summed_lengths(segments: Seq<SamplingRateSegment>, n: int)
    requires
        0 <= n <= segments.len(),
    ensures
        summed_lengths(segments, n) == segment_start(segments, n),
    decreases n,
{
    if n > 0 {
        lemma_summed_lengths(segments, n - 1);
    }
}

/// Every sample of a well-formed table lies in one of its segments.
pub proof fn lemma_sample_has_segment(segments: Seq<SamplingRateSegment>, k: int)
    requires
        well_formed(segments),
        0 <= k < total_samples(segments),
    ensures
        0 <= segment_of(segments, k) < segments.len(),
        segment_start(segments, segment_of(segments, k)) <= k < segments[segment_of(
            segments,
            k,
        )].end_sample_index,
{
    lemma_covering_bounds(segments, segments.len() as int, k);
}

proof fn lemma_covering_bounds(segments: Seq<SamplingRateSegment>, n: int, k: int)
    requires
        well_formed(segments),
        0 <= n <= segments.len(),
        0 <= k,
    ensures
        0 <= covering_segment(segments, n, k) <= n,
        covering_segment(segments, n, k) < n ==> segment_start(
            segments,
            covering_segment(segments, n, k),
        ) <= k < segments[covering_segment(segments, n, k)].end_sample_index,
        covering_segment(segments, n, k) == n ==> segment_start(segments, n) <= k,
    decreases n,
{
    if n > 0 {
        lemma_covering_bounds(segments, n - 1, k);
    }
}

/// A relative time is at most as many of the longest period as there are
/// samples before it.
pub proof fn lemma_relative_picos_bound(segments: Seq<SamplingRateSegment>, k: int)
    requires
        0 <= k,
    ensures
        0 <= relative_picos(segments, k) <= k * u64::MAX,
    decreases k,
{
    if k > 0 {
        lemma_relative_picos_bound(segments, k - 1);
    }
}

/// In a well-formed table relative times grow with the sample index.
pub proof fn lemma_relative_picos_increase(segments: Seq<SamplingRateSegment>, a: int, b: int)
    requires
        well_formed(segments),
        0 <= a < b < total_samples(segments),
    ensures
        relative_picos(segments, a) < relative_picos(segments, b),
    decreases b - a,
{
    lemma_sample_has_segment(segments, b - 1);
    assert(segments[segment_of(segments, b - 1)].period_picos >= 1);
    if a < b - 1 {
        lemma_relative_picos_increase(segments, a, b - 1);
    }
}

/// The timestamps of a well-formed table are strictly increasing: an earlier
/// sample always has the smaller timestamp.
pub proof fn lemma_timestamps_strictly_increase(
    trigger_seconds: int,
    segments: Seq<SamplingRateSegment>,
    a: int,
    b: int,
)
    requires
        well_formed(segments),
        0 <= a < b < total_samples(segments),
    ensures
        absolute_picos(trigger_seconds, segments, a) < absolute_picos(
            trigger_seconds,
            segments,
            b,
        ),
{
    lemma_relative_picos_increase(segments, a, b);
}

/// Whether a table is well formed, decided by one pass over it.
pub fn is_well_formed(segments: &Vec<SamplingRateSegment>) -> (ok: bool)
    ensures
        ok == well_formed(segments@),
{
    let mut boundary: u32 = 0;
    let mut i: usize = 0;
    while i < segments.len()
        invariant
            i <= segments.len(),
            boundary == segment_start(segments@, i as int),
            forall|m: int|
                0 <= m < i ==> (#[trigger] segments@[m]).period_picos >= 1 && segment_start(
                    segments@,
                    m,
                ) <= segments@[m].end_sample_index,
        decreases segments.len() - i,
    {
        let segment = segments[i];
        if segment.period_picos == 0 || segment.end_sample_index < boundary {
            return false;
        }
        boundary = segment.end_sample_index;
        i += 1;
    }
    true
}

/// A sampling-rate table that has been checked to be well formed.
#[derive(Debug, PartialEq, Eq)]
pub struct SamplingSchedule {
    segments: Vec<SamplingRateSegment>,
}

impl View for SamplingSchedule {
    type V = Seq<SamplingRateSegment>;

    closed spec fn view(&self) -> Seq<SamplingRateSegment> {
        self.segments@
    }
}

impl Clone for SamplingSchedule {
    fn clone(&self) -> (copy: Self)
        ensures
            copy@ == self@,
    {
        proof {
            use_type_invariant(self);
        }
        SamplingSchedule { segments: copy_of(&self.segments) }
    }
}

impl SamplingSchedule {
    #[verifier::type_invariant]
    spec fn table_is_well_formed(self) -> bool {
        well_formed(self.segments@)
    }

    /// Accepts a table exactly when it is well formed.
    pub fn new(segments: Vec<SamplingRateSegment>) -> (schedule: Option<SamplingSchedule>)
        ensures
            schedule is Some <==> well_formed(segments@),
            schedule matches Some(s) ==> s@ == segments@,
    {
        if is_well_formed(&segments) {
            Some(SamplingSchedule { segments })
        } else {
            None
        }
    }

    /// The segments of the table, in order.
    pub fn segments(&self) -> (segments: &Vec<SamplingRateSegment>)
        ensures
            segments@ == self@,
            well_formed(self@),
    {
        proof {
            use_type_invariant(self);
        }
        &self.segments
    }

    /// Number of samples that the table describes.
    pub fn sample_count(&self) -> (count: u32)
        ensures
            count == total_samples(self@),
    {
        let n = self.segments.len();
        if n == 0 {
            0
        } else {
            self.segments[n - 1].end_sample_index
        }
    }

    /// The time of every sample, in picoseconds after the first one. A later
    /// sample has the later time.
    pub fn relative_timestamps(&self) -> (times: Vec<u128>)
        ensures
            times.len() == total_samples(self@),
            forall|k: int| 0 <= k < times.len() ==> times[k] == relative_picos(self@, k),
            forall|a: int, b: int| 0 <= a < b < times.len() ==> times[a] < times[b],
    {
        proof {
            use_type_invariant(self);
        }
        let mut times: Vec<u128> = Vec::new();
        let mut elapsed: u128 = 0;
        let mut boundary: u32 = 0;
        let mut i: usize = 0;
        while i < self.segments.len()
            invariant
                well_formed(self.segments@),
                i <= self.segments.len(),
                boundary == segment_start(self.segments@, i as int),
                times.len() == boundary,
                elapsed == relative_picos(self.segments@, boundary as int),
                elapsed <= boundary * u64::MAX,
                forall|k: int|
                    0 <= k < times.len() ==> times[k] == relative_picos(self.segments@, k),
            decreases self.segments.len() - i,
        {
            let segment = self.segments[i];
            let period: u128 = segment.period_picos as u128;
            let count: u32 = segment.end_sample_index - boundary;
            let mut emitted: u32 = 0;
            while emitted < count
                invariant
                    well_formed(self.segments@),
                    i < self.segments.len(),
                    segment == self.segments@[i as int],
                    boundary == segment_start(self.segments@, i as int),
                    count == segment.end_sample_index - boundary,
                    period == segment.period_picos,
                    emitted <= count,
                    times.len() == boundary + emitted,
                    elapsed == relative_picos(self.segments@, boundary + emitted),
                    elapsed <= (boundary + emitted) * u64::MAX,
                    forall|k: int|
                        0 <= k < times.len() ==> times[k] == relative_picos(self.segments@, k),
                decreases count - emitted,
            {
                proof {
                    lemma_segment_of(self.segments@, i as int, boundary + emitted);
                }
                times.push(elapsed);
                elapsed += period;
                emitted += 1;
            }
            boundary = segment.end_sample_index;
            i += 1;
        }
        proof {
            assert forall|a: int, b: int| 0 <= a < b < times.len() implies times[a] < times[b] by {
                lemma_relative_picos_increase(self.segments@, a, b);
            }
        }
        times
    }

    /// The time of every sample in picoseconds since the epoch, for a
    /// recording triggered in the second `trigger_seconds`. A later sample
    /// has the later time.
    pub fn absolute_timestamps(&self, trigger_seconds: i64) -> (times: Vec<i128>)
        ensures
            times.len() == total_samples(self@),
            forall|k: int|
                0 <= k < times.len() ==> times[k] == absolute_picos(
                    trigger_seconds as int,
                    self@,
                    k,
                ),
            forall|a: int, b: int| 0 <= a < b < times.len() ==> times[a] < times[b],
    {
        let relative = self.relative_timestamps();
        proof {
            assert forall|m: int| 0 <= m < relative.len() implies relative[m] <= m * u64::MAX by {
                lemma_relative_picos_bound(self@, m);
            }
        }
        let origin: i128 = (trigger_seconds as i128) * 1_000_000_000_000;
        let mut times: Vec<i128> = Vec::new();
        let mut k: usize = 0;
        while k < relative.len()
            invariant
                k <= relative.len(),
                relative.len() <= u32::MAX,
                times.len() == k,
                origin == trigger_seconds * 1_000_000_000_000,
                forall|m: int| 0 <= m < relative.len() ==> relative[m] <= m * u64::MAX,
                forall|m: int| 0 <= m < k ==> times[m] == origin + relative[m],
            decreases relative.len() - k,
        {
            times.push(origin + (relative[k] as i128));
            k += 1;
        }
        times
    }
}

} // verus!
