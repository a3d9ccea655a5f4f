//! The pipeline driver: consumes a finite, already-decoded sequence of
//! trip records in order, gates each through the classifier, measures the
//! duration of qualifying trips, routes it to the histogram accumulator,
//! and maintains the running counts of records read, matched and skipped.
//!
//! A record whose needed timestamp fails to parse is fatal and aborts the
//! pass; a duration the accumulator rejects is a recoverable per-record
//! anomaly, counted as skipped.

use vstd::prelude::*;
use vstd::multiset::Multiset;
use vstd::pervasive::unreached;

use crate::classify::JFK_ZONE;
use crate::classify::is_jfk_dropoff;
use crate::classify::is_midtown;
use crate::classify::is_midtown_pickup;
use crate::classify::is_weekday;
use crate::datetime::ParseError;
use crate::datetime::ParsedTime;
use crate::datetime::epoch_seconds;
use crate::datetime::parse_datetime;
use crate::datetime::timestamp_shape;
use crate::datetime::ts_value;
use crate::datetime::weekday_from_monday;
use crate::histogram::DurationHistograms;
use crate::histogram::MIN_TRIP_SECONDS;

verus! {

broadcast use crate::histogram::lemma_view_len;

/// One decoded trip observation: two timestamp texts and a zone pair.
#[derive(Debug)]
pub struct Trip {
    pub pickup_datetime: String,
    pub dropoff_datetime: String,
    pub pickup_loc: u16,
    pub dropoff_loc: u16,
}

/// The running counts over one pass of the record source.
#[derive(Clone, Copy, Debug, PartialEq, Eq, Structural)]
pub struct RecordCounts {
    /// Every record seen.
    pub read: u32,
    /// Records that passed the classifier.
    pub matched: u32,
    /// Matched records whose duration the accumulator rejected.
    pub skipped: u32,
}

impl Default for RecordCounts {
    /// All three counts start at zero.
    fn default() -> (r: Self)
        ensures
            r == (RecordCounts { read: 0u32, matched: 0u32, skipped: 0u32 }),
    {
        RecordCounts { read: 0, matched: 0, skipped: 0 }
    }
}

/// The default lower bound of the accumulator's range, in seconds.
pub const DEFAULT_LOWER_BOUND: u64 = 1;

/// The default upper bound of the accumulator's range, in seconds:
/// three hours.
pub const DEFAULT_UPPER_BOUND: u64 = 3 * 60 * 60;

/// The default significant-digit precision of the accumulator.
pub const DEFAULT_SIGFIG: u8 = 3;

/// The pickup text parses to a well-formed timestamp.
pub open spec fn pickup_ok(t: Trip) -> bool {
    timestamp_shape(t.pickup_datetime@) && ts_value(t.pickup_datetime@).wf()
}

/// The dropoff text parses to a well-formed timestamp.
pub open spec fn dropoff_ok(t: Trip) -> bool {
    timestamp_shape(t.dropoff_datetime@) && ts_value(t.dropoff_datetime@).wf()
}

/// The timestamp the pickup text encodes.
pub open spec fn pickup_time(t: Trip) -> ParsedTime {
    ts_value(t.pickup_datetime@)
}

/// The timestamp the dropoff text encodes.
pub open spec fn dropoff_time(t: Trip) -> ParsedTime {
    ts_value(t.dropoff_datetime@)
}

/// The record passes the geographic gate: midtown pickup, JFK dropoff.
pub open spec fn zones_match(t: Trip) -> bool {
    is_midtown(t.pickup_loc) && t.dropoff_loc == JFK_ZONE
}

/// The record qualifies for duration measurement: the zones match and the
/// pickup parses to a weekday timestamp.
pub open spec fn trip_qualifies(t: Trip) -> bool {
    zones_match(t) && pickup_ok(t) && weekday_from_monday(pickup_time(t)) <= 5
}

/// Processing the record is fatal: it passes the zone gate, but a
/// timestamp the pipeline then needs fails to parse.
pub open spec fn trip_fatal(t: Trip) -> bool {
    zones_match(t) && (!pickup_ok(t) || (weekday_from_monday(pickup_time(t)) <= 5 && !dropoff_ok(
        t,
    )))
}

/// The parse error a malformed timestamp text produces.
pub open spec fn parse_error_of(s: Seq<char>) -> ParseError {
    if !timestamp_shape(s) {
        ParseError::BadFormat
    } else {
        ParseError::BadValue
    }
}

/// The parse error a fatal record aborts the pass with.
pub open spec fn trip_error(t: Trip) -> ParseError {
    if !pickup_ok(t) {
        parse_error_of(t.pickup_datetime@)
    } else {
        parse_error_of(t.dropoff_datetime@)
    }
}

/// The record's duration: dropoff minus pickup, in whole seconds.
pub open spec fn trip_duration(t: Trip) -> int {
    epoch_seconds(dropoff_time(t)) - epoch_seconds(pickup_time(t))
}

/// A qualifying record whose duration the accumulator rejects.
pub open spec fn trip_skipped(t: Trip, upper: u64) -> bool {
    trip_qualifies(t) && dropoff_ok(t) && (trip_duration(t) < MIN_TRIP_SECONDS || trip_duration(t)
        > upper)
}

/// A qualifying record whose duration is recorded.
pub open spec fn trip_recorded(t: Trip, upper: u64) -> bool {
    trip_qualifies(t) && dropoff_ok(t) && MIN_TRIP_SECONDS <= trip_duration(t) <= upper
}

/// The hour-of-day the record's duration is bucketed under.
pub open spec fn trip_hour(t: Trip) -> int {
    pickup_time(t).hour as int
}

/// Number of records of `rs` that qualify.
pub open spec fn matched_count(rs: Seq<Trip>) -> int
    decreases rs.len(),
{
    if rs.len() == 0 {
        0int
    } else {
        matched_count(rs.drop_last()) + if trip_qualifies(rs.last()) {
            1int
        } else {
            0int
        }
    }
}

/// Number of records of `rs` whose duration the accumulator rejects.
pub open spec fn skipped_count(rs: Seq<Trip>, upper: u64) -> int
    decreases rs.len(),
{
    if rs.len() == 0 {
        0int
    } else {
        skipped_count(rs.drop_last(), upper) + if trip_skipped(rs.last(), upper) {
            1int
        } else {
            0int
        }
    }
}

/// The durations recorded under hour `h` over `rs`.
pub open spec fn hour_durations(rs: Seq<Trip>, upper: u64, h: int) -> Multiset<u64>
    decreases rs.len(),
{
    if rs.len() == 0 {
        Multiset::<u64>::empty()
    } else {
        let rest = hour_durations(rs.drop_last(), upper, h);
        if trip_recorded(rs.last(), upper) && trip_hour(rs.last()) == h {
            rest.insert(trip_duration(rs.last()) as u64)
        } else {
            rest
        }
    }
}

/// Some record of `rs` is fatal.
pub open spec fn any_fatal(rs: Seq<Trip>) -> bool {
    exists|i: int| 0 <= i < rs.len() && trip_fatal(#[trigger] rs[i])
}

/// The pipeline driver's state: the running counts and the accumulator.
pub struct Analyzer {
    pub counts: RecordCounts,
    pub hists: DurationHistograms,
}

impl Analyzer {
    /// The counts are consistent and every counter's size is bounded by
    /// the matched count.
    pub open spec fn wf(self) -> bool {
        &&& self.hists.wf()
        &&& self.counts.skipped <= self.counts.matched <= self.counts.read
        &&& forall|h: int| 0 <= h < 24 ==> self.hists@[h].len() <= self.counts.matched
    }

    /// Fresh state: zero counts and an empty accumulator with the default
    /// range of 1 to 10800 seconds at 3 significant digits.
    pub fn new() -> (r: Self)
        ensures
            r.wf(),
            r.counts == (RecordCounts { read: 0u32, matched: 0u32, skipped: 0u32 }),
            r.hists.upper_bound() == DEFAULT_UPPER_BOUND,
            forall|h: int| 0 <= h < 24 ==> r.hists@[h] == Multiset::<u64>::empty(),
    {
        let hists = match DurationHistograms::new(
            DEFAULT_LOWER_BOUND,
            DEFAULT_UPPER_BOUND,
            DEFAULT_SIGFIG,
        ) {
            Ok(h) => h,
            Err(_) => unreached(),
        };
        Analyzer { counts: RecordCounts::default(), hists }
    }

    /// Processes one record: counts it as read; if it qualifies, counts it
    /// as matched and records its duration, counting a rejected duration
    /// as skipped. A record that passes the zone gate but whose needed
    /// timestamp fails to parse is fatal: the parse error is returned and
    /// no further record should be processed.
    #[verifier::rlimit(50)]
    pub fn process_trip(&mut self, trip: &Trip) -> (r: Result<(), ParseError>)
        requires
            old(self).wf(),
            old(self).counts.read < u32::MAX,
        ensures
            final(self).wf(),
            final(self).hists.upper_bound() == old(self).hists.upper_bound(),
            final(self).counts.read == old(self).counts.read + 1,
            r is Ok <==> !trip_fatal(*trip),
            r is Err ==> r->Err_0 == trip_error(*trip),
            final(self).counts.matched == old(self).counts.matched + (if trip_qualifies(*trip) {
                1int
            } else {
                0int
            }),
            final(self).counts.skipped == old(self).counts.skipped + (if trip_skipped(
                *trip,
                old(self).hists.upper_bound(),
            ) {
                1int
            } else {
                0int
            }),
            forall|h: int|
                0 <= h < 24 ==> final(self).hists@[h] == (if trip_recorded(
                    *trip,
                    old(self).hists.upper_bound(),
                ) && trip_hour(*trip) == h {
                    old(self).hists@[h].insert(trip_duration(*trip) as u64)
                } else {
                    old(self).hists@[h]
                }),
    {
        self.counts.read = self.counts.read + 1;
        if is_midtown_pickup(trip.pickup_loc) && is_jfk_dropoff(trip.dropoff_loc) {
            let pickup = match parse_datetime(trip.pickup_datetime.as_str()) {
                Ok(t) => t,
                Err(e) => {
                    return Err(e);
                },
            };
            if is_weekday(&pickup) {
                self.counts.matched = self.counts.matched + 1;
                let dropoff = match parse_datetime(trip.dropoff_datetime.as_str()) {
                    Ok(t) => t,
                    Err(e) => {
                        return Err(e);
                    },
                };
                match self.hists.record_duration(&pickup, &dropoff) {
                    Ok(_) => {},
                    Err(_) => {
                        self.counts.skipped = self.counts.skipped + 1;
                    },
                }
            }
        }
        Ok(())
    }
}

/// Runs the full pass: processes the records of `trips` in order, from
/// fresh state. Aborts at the first fatal record, returning its parse
/// error; otherwise returns the final counts and per-hour histograms.
pub fn analyze(trips: &Vec<Trip>) -> (r: Result<Analyzer, ParseError>)
    requires
        trips@.len() <= u32::MAX,
    ensures
        r is Ok <==> !any_fatal(trips@),
        r is Ok ==> ({
            let a = r->Ok_0;
            &&& a.wf()
            &&& a.counts.read == trips@.len()
            &&& a.counts.matched == matched_count(trips@)
            &&& a.counts.skipped == skipped_count(trips@, DEFAULT_UPPER_BOUND)
            &&& a.hists.upper_bound() == DEFAULT_UPPER_BOUND
            &&& forall|h: int|
                0 <= h < 24 ==> a.hists@[h] == hour_durations(trips@, DEFAULT_UPPER_BOUND, h)
        }),
        r is Err ==> exists|i: int|
            0 <= i < trips@.len() && trip_fatal(#[trigger] trips@[i]) && !any_fatal(
                trips@.take(i),
            ) && r->Err_0 == trip_error(trips@[i]),
{
    let mut a = Analyzer::new();
    let mut i: usize = 0;
    while i < trips.len()
        invariant
            a.wf(),
            i <= trips@.len(),
            trips@.len() <= u32::MAX,
            a.hists.upper_bound() == DEFAULT_UPPER_BOUND,
            a.counts.read == i,
            a.counts.matched == matched_count(trips@.take(i as int)),
            a.counts.skipped == skipped_count(trips@.take(i as int), DEFAULT_UPPER_BOUND),
            forall|h: int|
                0 <= h < 24 ==> a.hists@[h] == hour_durations(
                    trips@.take(i as int),
                    DEFAULT_UPPER_BOUND,
                    h,
                ),
            !any_fatal(trips@.take(i as int)),
        decreases trips@.len() - i,
    {
        match a.process_trip(&trips[i]) {
            Ok(_) => {},
            Err(e) => {
                proof {
                    assert(trip_fatal(trips@[i as int]));
                }
                return Err(e);
            },
        }
        proof {
            assert(trips@.take(i as int + 1).drop_last() =~= trips@.take(i as int));
            assert(trips@.take(i as int + 1).last() == trips@[i as int]);
            assert(forall|j: int|
                0 <= j < i as int + 1 && trip_fatal(#[trigger] trips@.take(i as int + 1)[j])
                    ==> trip_fatal(trips@.take(i as int)[j]) || trip_fatal(trips@[i as int]));
        }
        i += 1;
    }
    proof {
        assert(trips@.take(trips@.len() as int) =~= trips@);
    }
    Ok(a)
}

/// The final state the full-pass contract pins down for `trips` under the
/// default configuration.
pub open spec fn analysis_matches(trips: Seq<Trip>, a: Analyzer) -> bool {
    &&& a.counts.read == trips.len()
    &&& a.counts.matched == matched_count(trips)
    &&& a.counts.skipped == skipped_count(trips, DEFAULT_UPPER_BOUND)
    &&& forall|h: int| 0 <= h < 24 ==> a.hists@[h] == hour_durations(trips, DEFAULT_UPPER_BOUND, h)
}

/// Processing one fixed record sequence is deterministic: any two final
/// states that the full-pass contract admits for the same sequence agree
/// on every running count and on every hour's recorded durations, so a
/// second pass over the same records from fresh state ends as the first.
pub proof fn lemma_analysis_deterministic(trips: Seq<Trip>, a1: Analyzer, a2: Analyzer)
    requires
        analysis_matches(trips, a1),
        analysis_matches(trips, a2),
    ensures
        a1.counts == a2.counts,
        forall|h: int| 0 <= h < 24 ==> a1.hists@[h] == a2.hists@[h],
{
    assert forall|h: int| 0 <= h < 24 implies a1.hists@[h] == a2.hists@[h] by {
        assert(a1.hists@[h] == hour_durations(trips, DEFAULT_UPPER_BOUND, h));
        assert(a2.hists@[h] == hour_durations(trips, DEFAULT_UPPER_BOUND, h));
    }
}

} // verus!
