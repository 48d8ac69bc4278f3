//! A histogram of latencies.

use hdrhistogram::{AdditionError, CreationError, Histogram, RecordError};
use vstd::multiset::Multiset;
use vstd::prelude::*;

verus! {

/// The shortest latency that is told apart from none, in microseconds.
pub const LOWEST_US: u64 = 1;

/// The longest latency that the histogram is asked to hold, in microseconds.
pub const HIGHEST_US: u64 = 60_000_000;

/// How many decimal digits of a latency are kept.
pub const DIGITS: u8 = 3;

/// The shortest latency that the histogram has no place for: the first power of two above the
/// longest that it is asked to hold.
pub const CAPACITY_US: u64 = 67_108_864;

/// How many values a histogram may hold for the rounding of ranks not to matter.
pub const MAX_RANKED: u64 = 1_099_511_627_776;

/// `hdrhistogram::CreationError`: why a histogram could not be made.
#[verifier::external_type_specification]
#[verifier::external_body]
pub struct ExCreationError(CreationError);

/// `hdrhistogram::RecordError`: why a value could not be recorded.
#[verifier::external_type_specification]
#[verifier::external_body]
pub struct ExRecordError(RecordError);

/// `hdrhistogram::AdditionError`: why one histogram could not be added to another.
#[verifier::external_type_specification]
#[verifier::external_body]
pub struct ExAdditionError(AdditionError);

/// A `hdrhistogram::Histogram` of 64-bit counts, which does not grow.
#[verifier::external_body]
pub struct LatencyHistogram {
    histogram: Histogram<u64>,
}

/// What a histogram holds: of each value that was recorded, the level at which it was counted.
pub uninterp spec fn recorded(histogram: LatencyHistogram) -> Multiset<u64>;

/// What a histogram was made with: its lowest and highest value, and the digits that it keeps.
pub uninterp spec fn bounds(histogram: LatencyHistogram) -> (u64, u64, u8);

/// What `Histogram::value_at_percentile` finds, for a histogram with the bounds used here, in
/// these contents.
pub uninterp spec fn percentile(contents: Multiset<u64>, percent: u8) -> u64;

/// The level at which a histogram that keeps three digits counts a value: values below 2048 are
/// told apart one by one, twice those two by two, and so on.
pub open spec fn level(value: nat) -> nat
    decreases value,
{
    if value < 2048 {
        value
    } else {
        2 * level(value / 2)
    }
}

/// Whether a value is the highest of those that are counted at its level.
pub open spec fn tops_its_level(value: u64) -> bool {
    level(value as nat + 1) != level(value as nat)
}

/// Whether a value is the highest that is counted at the highest level in these contents.
pub open spec fn is_longest(contents: Multiset<u64>, value: u64) -> bool {
    &&& tops_its_level(value)
    &&& contents.contains(level(value as nat) as u64)
    &&& forall|other: u64| #[trigger] contents.contains(other) ==> other <= value
}

/// How many values in these contents are no higher than this one.
pub open spec fn at_or_below(contents: Multiset<u64>, value: u64) -> nat {
    contents.filter(|other: u64| other <= value).len()
}

/// How many values in these contents are counted at a lower level than this one.
pub open spec fn below_level(contents: Multiset<u64>, value: u64) -> nat {
    contents.filter(|other: u64| other < level(value as nat)).len()
}

/// Whether a value parts these contents at a percentage: it is the highest of a level at which
/// something was counted, at least so many percent of the contents are no higher, and at most so
/// many percent are counted at lower levels.
pub open spec fn parts_at(contents: Multiset<u64>, value: u64, percent: u8) -> bool {
    &&& tops_its_level(value)
    &&& contents.contains(level(value as nat) as u64)
    &&& 100 * at_or_below(contents, value) >= percent * contents.len()
    &&& 100 * below_level(contents, value) <= percent * contents.len()
}

/// The latencies that are reported, in microseconds.
#[derive(Clone, Copy, Debug, PartialEq, Eq, Structural)]
pub struct LatencySummary {
    /// What half of the latencies do not exceed.
    pub p50_us: u64,
    /// What 95 percent of the latencies do not exceed.
    pub p95_us: u64,
    /// What 99 percent of the latencies do not exceed.
    pub p99_us: u64,
    /// The longest latency.
    pub max_us: u64,
}

impl LatencyHistogram {
    /// Whether the histogram has the bounds used for latencies.
    pub open spec fn wf(self) -> bool {
        bounds(self) == (LOWEST_US, HIGHEST_US, DIGITS)
    }

    /// What the histogram holds once a latency of so many microseconds was recorded: the same, if
    /// it has no place for it.
    pub open spec fn with(self, latency_us: u64) -> Multiset<u64> {
        if latency_us < CAPACITY_US {
            recorded(self).insert(level(latency_us as nat) as u64)
        } else {
            recorded(self)
        }
    }
}

/// Calls `Histogram::new_with_bounds`. The claim is that the histogram is empty, that nothing
/// stands in its way where values are told apart from 1 on, and that bounds which make no sense
/// are refused.
#[verifier::external_body]
fn new_with_bounds(low: u64, high: u64, digits: u8) -> (made: Result<
    LatencyHistogram,
    CreationError,
>)
    ensures
        made matches Ok(histogram) ==> recorded(histogram) == Multiset::<u64>::empty() && bounds(
            histogram,
        ) == (low, high, digits),
        low == 1 && high >= 2 && digits <= 5 ==> made is Ok,
        low == 0 || high < 2 * low || digits > 5 ==> made is Err,
{
    Histogram::new_with_bounds(low, high, digits).map(|histogram| LatencyHistogram { histogram })
}

/// Calls `Histogram::record`. The claim is that a value below the histogram's capacity is counted
/// at its level, and that any other is refused and leaves the histogram as it was. The counts stop
/// at the largest 64-bit number, so of a histogram that has come so far only its bounds are
/// claimed to stay.
#[verifier::external_body]
fn record(histogram: &mut LatencyHistogram, value: u64) -> (done: Result<(), RecordError>)
    requires
        old(histogram).wf(),
    ensures
        bounds(*final(histogram)) == bounds(*old(histogram)),
        done is Ok <==> value < CAPACITY_US,
        recorded(*old(histogram)).len() < u64::MAX ==> recorded(*final(histogram)) == old(
            histogram,
        ).with(value),
{
    histogram.histogram.record(value)
}

/// Calls `Histogram::add`. The claim is that a histogram with the same bounds is always added, and
/// that its contents then join those that were there. The counts stop at the largest 64-bit
/// number, so of histograms that hold more between them only the bounds are claimed to stay.
#[verifier::external_body]
fn add_all(histogram: &mut LatencyHistogram, other: &LatencyHistogram) -> (done: Result<
    (),
    AdditionError,
>)
    requires
        old(histogram).wf(),
        other.wf(),
    ensures
        bounds(*final(histogram)) == bounds(*old(histogram)),
        done is Ok,
        recorded(*old(histogram)).len() + recorded(*other).len() <= u64::MAX ==> recorded(
            *final(histogram),
        ) == recorded(*old(histogram)).add(recorded(*other)),
{
    histogram.histogram.add(&other.histogram)
}

/// Calls `Histogram::is_empty`.
#[verifier::external_body]
fn holds_nothing(histogram: &LatencyHistogram) -> (empty: bool)
    ensures
        empty == (recorded(*histogram).len() == 0),
{
    histogram.histogram.is_empty()
}

/// Calls `Histogram::len`. The claim is that the answer is how many values the histogram holds,
/// unless that is the largest 64-bit number or more, at which the count stops.
#[verifier::external_body]
fn count(histogram: &LatencyHistogram) -> (held: u64)
    ensures
        held < u64::MAX ==> recorded(*histogram).len() == held,
        recorded(*histogram).len() < u64::MAX ==> held == recorded(*histogram).len(),
{
    histogram.histogram.len()
}

/// Calls `Histogram::max`. The claim is that the answer is the highest value of the highest level
/// at which anything was counted.
#[verifier::external_body]
fn highest(histogram: &LatencyHistogram) -> (value: u64)
    requires
        histogram.wf(),
        recorded(*histogram).len() > 0,
    ensures
        is_longest(recorded(*histogram), value),
{
    histogram.histogram.max()
}

/// Calls `Histogram::value_at_percentile`, which asks for the quantile at a hundredth of the
/// percentage. The claim is that the contents and the percentage fix the answer, and that the
/// answer parts the contents at the percentage. The rank at which they part is computed in floating
/// point, so of more contents than `MAX_RANKED` the claim is only that the answer is the highest
/// value of a level at which something was counted. Histograms are left out that hold so much that
/// their counts no longer add up to a 64-bit number.
#[verifier::external_body]
fn at_percentile(histogram: &LatencyHistogram, percent: u8) -> (value: u64)
    requires
        histogram.wf(),
        0 < recorded(*histogram).len() < u64::MAX,
        1 <= percent <= 99,
    ensures
        value == percentile(recorded(*histogram), percent),
        tops_its_level(value),
        recorded(*histogram).contains(level(value as nat) as u64),
        recorded(*histogram).len() <= MAX_RANKED ==> parts_at(
            recorded(*histogram),
            value,
            percent,
        ),
{
    histogram.histogram.value_at_percentile(percent.into())
}

impl LatencyHistogram {
    /// An empty histogram.
    pub fn new() -> (histogram: LatencyHistogram)
        ensures
            histogram.wf(),
            bounds(histogram) == (1u64, 60_000_000u64, 3u8),
            recorded(histogram) == Multiset::<u64>::empty(),
    {
        new_with_bounds(LOWEST_US, HIGHEST_US, DIGITS).unwrap()
    }

    /// Records a latency of so many microseconds, if the histogram has a place for it.
    pub fn record(&mut self, latency_us: u64)
        requires
            old(self).wf(),
        ensures
            final(self).wf(),
            recorded(*old(self)).len() < u64::MAX ==> recorded(*final(self)) == old(self).with(
                latency_us,
            ),
    {
        let _ = record(self, latency_us);
    }

    /// Whether nothing was recorded.
    pub fn is_empty(&self) -> (empty: bool)
        ensures
            empty == (recorded(*self).len() == 0),
    {
        holds_nothing(self)
    }

    /// How many latencies were recorded, unless that is the largest 64-bit number or more.
    pub fn len(&self) -> (held: u64)
        ensures
            held < u64::MAX ==> recorded(*self).len() == held,
            recorded(*self).len() < u64::MAX ==> held == recorded(*self).len(),
    {
        count(self)
    }

    /// The longest latency that was recorded, in microseconds: the highest value of its level.
    pub fn max(&self) -> (longest: u64)
        requires
            self.wf(),
            recorded(*self).len() > 0,
        ensures
            is_longest(recorded(*self), longest),
    {
        highest(self)
    }

    /// The latency that so many percent of those recorded do not exceed, in microseconds: the
    /// highest value of its level.
    pub fn value_at_percentile(&self, percent: u8) -> (latency: u64)
        requires
            self.wf(),
            0 < recorded(*self).len() < u64::MAX,
            1 <= percent <= 99,
        ensures
            latency == percentile(recorded(*self), percent),
            tops_its_level(latency),
            recorded(*self).contains(level(latency as nat) as u64),
            recorded(*self).len() <= MAX_RANKED ==> parts_at(recorded(*self), latency, percent),
    {
        at_percentile(self, percent)
    }

    /// The latencies to report. There are none where nothing was recorded, or so much that it
    /// cannot be counted.
    pub fn summary(&self) -> (summary: Option<LatencySummary>)
        requires
            self.wf(),
        ensures
            match summary {
                Some(latencies) => {
                    &&& 0 < recorded(*self).len() < u64::MAX
                    &&& latencies.p50_us == percentile(recorded(*self), 50)
                    &&& latencies.p95_us == percentile(recorded(*self), 95)
                    &&& latencies.p99_us == percentile(recorded(*self), 99)
                    &&& is_longest(recorded(*self), latencies.max_us)
                    &&& recorded(*self).len() <= MAX_RANKED ==> {
                        &&& parts_at(recorded(*self), latencies.p50_us, 50)
                        &&& parts_at(recorded(*self), latencies.p95_us, 95)
                        &&& parts_at(recorded(*self), latencies.p99_us, 99)
                    }
                },
                None => recorded(*self).len() == 0 || recorded(*self).len() >= u64::MAX,
            },
    {
        if self.is_empty() || self.len() == u64::MAX {
            return None;
        }
        Some(
            LatencySummary {
                p50_us: self.value_at_percentile(50),
                p95_us: self.value_at_percentile(95),
                p99_us: self.value_at_percentile(99),
                max_us: self.max(),
            },
        )
    }
}

/// What the histograms of clients hold between them; a client that failed has none.
pub open spec fn recorded_in_all(histograms: Seq<Option<LatencyHistogram>>) -> Multiset<u64>
    decreases histograms.len(),
{
    if histograms.len() == 0 {
        Multiset::empty()
    } else {
        match histograms.last() {
            Some(histogram) => recorded_in_all(histograms.drop_last()).add(recorded(histogram)),
            None => recorded_in_all(histograms.drop_last()),
        }
    }
}

/// Puts what the histograms of clients hold into one.
pub fn merge_all(histograms: &Vec<Option<LatencyHistogram>>) -> (merged: LatencyHistogram)
    requires
        forall|i: int|
            0 <= i < histograms@.len() ==> (#[trigger] histograms@[i] matches Some(h) ==> h.wf()),
    ensures
        merged.wf(),
        recorded_in_all(histograms@).len() <= u64::MAX ==> recorded(merged) == recorded_in_all(
            histograms@,
        ),
{
    let mut merged = LatencyHistogram::new();
    let mut i: usize = 0;
    while i < histograms.len()
        invariant
            i <= histograms.len(),
            merged.wf(),
            forall|k: int|
                0 <= k < histograms@.len() ==> (#[trigger] histograms@[k] matches Some(h)
                    ==> h.wf()),
            recorded_in_all(histograms@).len() <= u64::MAX ==> recorded(merged)
                == recorded_in_all(histograms@.take(i as int)),
        decreases histograms.len() - i,
    {
        let ghost next = histograms@.take(i + 1);
        proof {
            assert(next.drop_last() =~= histograms@.take(i as int));
            assert(next.last() == histograms@[i as int]);
            lemma_some_hold_no_more(histograms@, i + 1);
        }
        if let Some(histogram) = &histograms[i] {
            let _ = add_all(&mut merged, histogram);
        }
        i = i + 1;
    }
    assert(histograms@.take(i as int) =~= histograms@);
    merged
}

/// The first of some histograms hold no more than all.
proof fn lemma_some_hold_no_more(histograms: Seq<Option<LatencyHistogram>>, k: int)
    requires
        0 <= k <= histograms.len(),
    ensures
        recorded_in_all(histograms.take(k)).len() <= recorded_in_all(histograms).len(),
    decreases histograms.len() - k,
{
    if k == histograms.len() {
        assert(histograms.take(k) =~= histograms);
    } else {
        lemma_some_hold_no_more(histograms, k + 1);
        assert(histograms.take(k + 1).drop_last() =~= histograms.take(k));
    }
}

/// The level of a value is no higher than the value, and at most a thousandth of it lower.
pub proof fn level_keeps_three_digits(value: nat)
    ensures
        level(value) <= value,
        1000 * (value - level(value)) <= value,
{
    lemma_level(value);
}

/// The level of a value is no higher than the value, and at most a 1024th of it lower.
proof fn lemma_level(value: nat)
    ensures
        level(value) <= value,
        value >= 2048 ==> 1024 * (value - level(value)) + 1024 <= value + 1,
    decreases value,
{
    if value >= 2048 {
        lemma_level(value / 2);
    }
}

/// Short values are counted as they are.
pub proof fn level_is_exact_for_short_values(value: nat)
    ensures
        value < 2_048 ==> level(value) == value,
{
}

/// Of two values the higher one is counted no lower, and a level is counted at itself.
pub proof fn levels_keep_the_order(a: nat, b: nat)
    requires
        a <= b,
    ensures
        level(a) <= level(b),
        level(level(b)) == level(b),
    decreases b,
{
    if b >= 2_048 {
        levels_keep_the_order(
            if a >= 2_048 {
                a / 2
            } else {
                b / 2
            },
            b / 2,
        );
        lemma_level_is_high(b / 2);
    }
}

/// A value of at least half the short ones is counted no lower than that.
proof fn lemma_level_is_high(value: nat)
    requires
        value >= 1_024,
    ensures
        level(value) >= 1_024,
    decreases value,
{
    if value >= 2_048 {
        lemma_level_is_high(value / 2);
    }
}

/// There is one longest latency at most. It is the highest value of a level at which something was
/// recorded, and nothing that was recorded is longer.
pub proof fn longest_latency_is_one(contents: Multiset<u64>, a: u64, b: u64)
    requires
        is_longest(contents, a),
        is_longest(contents, b),
        a <= b,
    ensures
        a == b,
        contents.contains(level(a as nat) as u64),
        level((a + 1) as nat) != level(a as nat),
        forall|other: u64| #[trigger] contents.contains(other) ==> other <= a,
{
    if a < b {
        level_keeps_three_digits(b as nat);
        assert(level(b as nat) <= a);
        levels_keep_the_order(level(b as nat), a as nat);
        levels_keep_the_order(b as nat, b as nat);
        levels_keep_the_order(a as nat, (a + 1) as nat);
        levels_keep_the_order((a + 1) as nat, b as nat);
    }
}

/// A histogram takes in each latency up to more than a minute, as it is if it is short and to three
/// digits otherwise, and leaves longer ones out.
pub proof fn recording_adds_one_latency(histogram: LatencyHistogram, latency_us: u64)
    ensures
        latency_us < 67_108_864 ==> exists|kept: u64|
            {
                &&& #[trigger] recorded(histogram).insert(kept) == histogram.with(latency_us)
                &&& kept <= latency_us
                &&& 1_000 * (latency_us - kept) <= latency_us
                &&& latency_us < 2_048 ==> kept == latency_us
            },
        latency_us >= 67_108_864 ==> histogram.with(latency_us) == recorded(histogram),
{
    level_keeps_three_digits(latency_us as nat);
    if latency_us < 67_108_864 {
        let kept = level(latency_us as nat) as u64;
        assert(recorded(histogram).insert(kept) == histogram.with(latency_us));
    }
}

/// What some histograms and others hold between them is what the ones hold and what the others do.
/// One by itself holds what it does, and a client without one adds nothing.
pub proof fn histograms_are_added_up(
    some: Seq<Option<LatencyHistogram>>,
    others: Seq<Option<LatencyHistogram>>,
    histogram: LatencyHistogram,
)
    ensures
        recorded_in_all(some + others) == recorded_in_all(some).add(recorded_in_all(others)),
        recorded_in_all(seq![Some(histogram)]) == recorded(histogram),
        recorded_in_all(seq![None]) == Multiset::<u64>::empty(),
        recorded_in_all(Seq::empty()) == Multiset::<u64>::empty(),
    decreases others.len(),
{
    let nothing = Multiset::<u64>::empty();
    assert(seq![Some(histogram)].drop_last() =~= Seq::empty());
    assert(seq![None::<LatencyHistogram>].drop_last() =~= Seq::empty());
    assert(recorded_in_all(Seq::empty()) == nothing);
    assert(nothing.add(recorded(histogram)) =~= recorded(histogram));
    if others.len() == 0 {
        assert(some + others =~= some);
        assert(recorded_in_all(some).add(nothing) =~= recorded_in_all(some));
    } else {
        histograms_are_added_up(some, others.drop_last(), histogram);
        assert((some + others).drop_last() =~= some + others.drop_last());
        assert((some + others).last() == others.last());
        if let Some(last) = others.last() {
            let a = recorded_in_all(some);
            let b = recorded_in_all(others.drop_last());
            assert(a.add(b).add(recorded(last)) =~= a.add(b.add(recorded(last))));
        }
    }
}

} // verus!
