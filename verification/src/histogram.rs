//! The histogram accumulator: 24 independent bounded frequency counters,
//! one per pickup hour-of-day. Each counter accepts integer durations in a
//! configured range with a logarithmic-linear relative error bound and
//! rejects values outside that range without changing state.
//!
//! The counters are `hdrhistogram::Histogram<u64>` values; the calls into
//! that crate stand behind trusted items whose contracts speak of the
//! multiset of recorded values.

use vstd::prelude::*;
use vstd::multiset::Multiset;

use crate::datetime::ParsedTime;
use crate::datetime::epoch_seconds;

verus! {

/// One bounded, bucketed frequency counter, backed by
/// `hdrhistogram::Histogram<u64>`. The counter value is opaque to the
/// verifier and is reached only through the trusted items below.
#[verifier::external_body]
pub struct HourCounter {
    hist: hdrhistogram::Histogram<u64>,
}

/// The multiset of values recorded in a counter so far.
pub uninterp spec fn hist_values(h: HourCounter) -> Multiset<u64>;

/// The highest value a counter tracks: its configured upper bound.
pub uninterp spec fn hist_high(h: HourCounter) -> u64;

/// Relies on `hdrhistogram::Histogram::new_with_bounds`: with a positive
/// lower bound of at most 2^45, an upper bound at least twice the lower,
/// and at most 5 significant digits, construction succeeds, and the new
/// counter has no recorded values and tracks values up to `high`.
#[verifier::external_body]
fn hist_new(low: u64, high: u64, sigfig: u8) -> (h: HourCounter)
    requires
        1 <= low <= MAX_LOWER_BOUND,
        2 * low <= high,
        sigfig <= 5,
    ensures
        hist_values(h) == Multiset::<u64>::empty(),
        hist_high(h) == high,
{
    HourCounter { hist: hdrhistogram::Histogram::new_with_bounds(low, high, sigfig).unwrap() }
}

/// Relies on `hdrhistogram::Histogram::record`: a value no greater than
/// the highest trackable value is always accepted, and recording it adds
/// one sample of that value to that counter alone.
#[verifier::external_body]
fn hist_record_at(hs: &mut Vec<HourCounter>, i: usize, value: u64)
    requires
        i < old(hs)@.len(),
        value <= hist_high(old(hs)@[i as int]),
        hist_values(old(hs)@[i as int]).len() < u64::MAX,
    ensures
        final(hs)@.len() == old(hs)@.len(),
        hist_values(final(hs)@[i as int]) == hist_values(old(hs)@[i as int]).insert(value),
        hist_high(final(hs)@[i as int]) == hist_high(old(hs)@[i as int]),
        forall|j: int| 0 <= j < final(hs)@.len() && j != i ==> final(hs)@[j] == old(hs)@[j],
{
    let _ = hs[i].hist.record(value);
}

/// Relies on `hdrhistogram::Histogram::len`: returns the total number of
/// recorded samples.
#[verifier::external_body]
fn hist_len(h: &HourCounter) -> (r: u64)
    requires
        hist_values(*h).len() < u64::MAX,
    ensures
        r == hist_values(*h).len(),
{
    h.hist.len()
}

/// Why the accumulator could not be constructed.
#[derive(Clone, Copy, Debug, PartialEq, Eq, Structural)]
pub enum ConfigError {
    /// The lower bound is zero.
    NonPositiveLowerBound,
    /// The lower bound is too large for the backing counters.
    LowerBoundTooLarge,
    /// The upper bound is less than twice the lower bound.
    UpperBoundTooSmall,
    /// The significant-digit precision is outside 1 to 5.
    PrecisionOutOfRange,
}

/// Why a duration was rejected; the offending record is recoverable.
#[derive(Clone, Copy, Debug, PartialEq, Eq, Structural)]
pub enum DurationError {
    /// The duration, in signed seconds, is below the 1200-second floor on
    /// plausible trip durations; a non-positive duration (dropoff not
    /// after pickup) is always too short.
    TooShort(i64),
    /// The duration in seconds exceeds the accumulator's upper bound.
    TooLong(i64),
}

/// The floor on plausible trip durations, in seconds: 20 minutes.
pub const MIN_TRIP_SECONDS: u64 = 1200;

/// The largest supported lower bound of a counter's range.
pub const MAX_LOWER_BOUND: u64 = 0x2000_0000_0000;

/// A configuration the accumulator supports: a positive lower bound within
/// the representable range, an upper bound at least twice it, and a
/// significant-digit precision of 1 to 5.
pub open spec fn valid_config(low: u64, high: u64, sigfig: u8) -> bool {
    1 <= low <= MAX_LOWER_BOUND && 2 * low <= high && 1 <= sigfig <= 5
}

/// 24 bounded frequency counters of trip durations in seconds, indexed by
/// pickup hour-of-day, all sharing one configuration.
pub struct DurationHistograms {
    hists: Vec<HourCounter>,
    upper: u64,
}

impl View for DurationHistograms {
    type V = Seq<Multiset<u64>>;

    /// The recorded durations, as one multiset per hour-of-day.
    closed spec fn view(&self) -> Seq<Multiset<u64>> {
        Seq::new(24, |i: int| hist_values(self.hists@[i]))
    }
}

/// Every accumulator's view holds exactly one multiset per hour-of-day.
pub broadcast proof fn lemma_view_len(h: DurationHistograms)
    ensures
        (#[trigger] h@).len() == 24,
{
}

impl DurationHistograms {
    /// The configured upper bound of every counter's range.
    pub closed spec fn upper_bound(self) -> u64 {
        self.upper
    }

    /// There are 24 counters and each tracks values up to the upper bound.
    pub closed spec fn wf(self) -> bool {
        self.hists@.len() == 24 && forall|i: int|
            0 <= i < 24 ==> hist_high(#[trigger] self.hists@[i]) == self.upper
    }

    /// Builds 24 empty counters sharing the given bounds and precision, or
    /// reports exactly why the configuration is rejected.
    pub fn new(lower_bound: u64, upper_bound: u64, sigfig: u8) -> (r: Result<Self, ConfigError>)
        ensures
            r is Ok <==> valid_config(lower_bound, upper_bound, sigfig),
            r is Ok ==> r->Ok_0.wf() && r->Ok_0.upper_bound() == upper_bound && forall|i: int|
                0 <= i < 24 ==> r->Ok_0@[i] == Multiset::<u64>::empty(),
            lower_bound == 0 ==> r == Err::<Self, ConfigError>(ConfigError::NonPositiveLowerBound),
            lower_bound > MAX_LOWER_BOUND ==> r == Err::<Self, ConfigError>(
                ConfigError::LowerBoundTooLarge,
            ),
            1 <= lower_bound <= MAX_LOWER_BOUND && upper_bound < 2 * lower_bound ==> r
                == Err::<Self, ConfigError>(ConfigError::UpperBoundTooSmall),
            1 <= lower_bound <= MAX_LOWER_BOUND && 2 * lower_bound <= upper_bound && !(1 <= sigfig
                <= 5) ==> r == Err::<Self, ConfigError>(ConfigError::PrecisionOutOfRange),
    {
        if lower_bound == 0 {
            return Err(ConfigError::NonPositiveLowerBound);
        }
        if lower_bound > MAX_LOWER_BOUND {
            return Err(ConfigError::LowerBoundTooLarge);
        }
        if upper_bound / 2 < lower_bound {
            return Err(ConfigError::UpperBoundTooSmall);
        }
        if sigfig < 1 || sigfig > 5 {
            return Err(ConfigError::PrecisionOutOfRange);
        }
        let mut hists: Vec<HourCounter> = Vec::new();
        let mut i: usize = 0;
        while i < 24
            invariant
                i <= 24,
                hists@.len() == i,
                1 <= lower_bound <= MAX_LOWER_BOUND,
                2 * lower_bound <= upper_bound,
                1 <= sigfig <= 5,
                forall|j: int|
                    0 <= j < i ==> hist_values(#[trigger] hists@[j]) == Multiset::<u64>::empty()
                        && hist_high(hists@[j]) == upper_bound,
            decreases 24 - i,
        {
            hists.push(hist_new(lower_bound, upper_bound, sigfig));
            i += 1;
        }
        Ok(DurationHistograms { hists, upper: upper_bound })
    }

    /// Records the duration from `pickup` to `dropoff` in the counter for
    /// the pickup hour. A duration under the 20-minute floor is rejected
    /// as too short (a non-positive one always is); one above the upper
    /// bound as too long; either rejection leaves every counter unchanged.
    /// On success exactly the pickup hour's counter gains the duration.
    pub fn record_duration(&mut self, pickup: &ParsedTime, dropoff: &ParsedTime) -> (r: Result<
        (),
        DurationError,
    >)
        requires
            old(self).wf(),
            pickup.wf(),
            dropoff.wf(),
            forall|i: int| 0 <= i < 24 ==> old(self)@[i].len() < u64::MAX,
        ensures
            final(self).wf(),
            final(self).upper_bound() == old(self).upper_bound(),
            ({
                let dur = epoch_seconds(*dropoff) - epoch_seconds(*pickup);
                &&& dur < MIN_TRIP_SECONDS ==> r == Err::<(), DurationError>(
                    DurationError::TooShort(dur as i64),
                ) && final(self)@ == old(self)@
                &&& dur >= MIN_TRIP_SECONDS && dur > old(self).upper_bound() ==> r == Err::<
                    (),
                    DurationError,
                >(DurationError::TooLong(dur as i64)) && final(self)@ == old(self)@
                &&& MIN_TRIP_SECONDS <= dur <= old(self).upper_bound() ==> r == Ok::<
                    (),
                    DurationError,
                >(()) && final(self)@ == old(self)@.update(
                    pickup.hour as int,
                    old(self)@[pickup.hour as int].insert(dur as u64),
                )
            }),
    {
        let dur = crate::datetime::duration_seconds(pickup, dropoff);
        if dur < MIN_TRIP_SECONDS as i64 {
            return Err(DurationError::TooShort(dur));
        }
        let d = dur as u64;
        if d > self.upper {
            return Err(DurationError::TooLong(dur));
        }
        let hour = pickup.hour_of_day() as usize;
        proof {
            assert(old(self)@[hour as int] == hist_values(self.hists@[hour as int]));
        }
        hist_record_at(&mut self.hists, hour, d);
        proof {
            assert(self@ =~= old(self)@.update(
                pickup.hour as int,
                old(self)@[pickup.hour as int].insert(d),
            ));
        }
        Ok(())
    }

    /// Total number of durations recorded in the counter for `hour`.
    pub fn count_for_hour(&self, hour: usize) -> (r: u64)
        requires
            self.wf(),
            hour < 24,
            self@[hour as int].len() < u64::MAX,
        ensures
            r == self@[hour as int].len(),
    {
        hist_len(&self.hists[hour])
    }
}

} // verus!
