use trip_analyzer::datetime::ParseError;
use trip_analyzer::datetime::parse_datetime;
use trip_analyzer::histogram::ConfigError;
use trip_analyzer::histogram::DurationError;
use trip_analyzer::histogram::DurationHistograms;
use trip_analyzer::pipeline::Analyzer;
use trip_analyzer::pipeline::RecordCounts;
use trip_analyzer::pipeline::Trip;
use trip_analyzer::pipeline::analyze;

fn trip(pickup: &str, dropoff: &str, pickup_loc: u16, dropoff_loc: u16) -> Trip {
    Trip {
        pickup_datetime: pickup.to_string(),
        dropoff_datetime: dropoff.to_string(),
        pickup_loc,
        dropoff_loc,
    }
}

#[test]
fn accumulator_rejects_bad_configurations() {
    assert!(matches!(
        DurationHistograms::new(0, 10800, 3),
        Err(ConfigError::NonPositiveLowerBound)
    ));
    assert!(matches!(
        DurationHistograms::new(10, 19, 3),
        Err(ConfigError::UpperBoundTooSmall)
    ));
    assert!(matches!(
        DurationHistograms::new(1, 10800, 0),
        Err(ConfigError::PrecisionOutOfRange)
    ));
    assert!(matches!(
        DurationHistograms::new(1, 10800, 6),
        Err(ConfigError::PrecisionOutOfRange)
    ));
    assert!(matches!(
        DurationHistograms::new(1u64 << 50, u64::MAX, 3),
        Err(ConfigError::LowerBoundTooLarge)
    ));
    assert!(DurationHistograms::new(1, 10800, 3).is_ok());
    assert!(DurationHistograms::new(1, 2, 1).is_ok());
}

#[test]
fn accumulator_enforces_duration_bounds() {
    let mut hists = DurationHistograms::new(1, 10800, 3).unwrap();
    let base = parse_datetime("2021-06-07 09:15:00").unwrap();

    // 1199 seconds is below the 20-minute floor.
    let short = parse_datetime("2021-06-07 09:34:59").unwrap();
    assert_eq!(
        hists.record_duration(&base, &short),
        Err(DurationError::TooShort(1199))
    );

    // 10801 seconds exceeds the configured upper bound.
    let long = parse_datetime("2021-06-07 12:15:01").unwrap();
    assert_eq!(
        hists.record_duration(&base, &long),
        Err(DurationError::TooLong(10801))
    );

    // Neither rejection touched any counter.
    for h in 0..24 {
        assert_eq!(hists.count_for_hour(h), 0);
    }

    // Exactly 1200 seconds is accepted, into the pickup-hour counter only.
    let ok = parse_datetime("2021-06-07 09:35:00").unwrap();
    assert_eq!(hists.record_duration(&base, &ok), Ok(()));
    for h in 0..24 {
        assert_eq!(hists.count_for_hour(h), if h == 9 { 1 } else { 0 });
    }
}

#[test]
fn accumulator_rejects_dropoff_before_pickup() {
    let mut hists = DurationHistograms::new(1, 10800, 3).unwrap();
    let pickup = parse_datetime("2021-06-07 09:15:00").unwrap();
    let earlier = parse_datetime("2021-06-07 09:00:00").unwrap();
    assert_eq!(
        hists.record_duration(&pickup, &earlier),
        Err(DurationError::TooShort(-900))
    );
    let same = parse_datetime("2021-06-07 09:15:00").unwrap();
    assert_eq!(
        hists.record_duration(&pickup, &same),
        Err(DurationError::TooShort(0))
    );
}

#[test]
fn accumulator_counts_repeated_durations() {
    let mut hists = DurationHistograms::new(1, 10800, 3).unwrap();
    let a = parse_datetime("2021-06-07 09:15:00").unwrap();
    let b = parse_datetime("2021-06-07 09:45:00").unwrap();
    assert_eq!(hists.record_duration(&a, &b), Ok(()));
    assert_eq!(hists.record_duration(&a, &b), Ok(()));
    assert_eq!(hists.count_for_hour(9), 2);
}

#[test]
fn default_counts_are_zero() {
    let c = RecordCounts::default();
    assert_eq!(c, RecordCounts { read: 0, matched: 0, skipped: 0 });
}

#[test]
fn qualifying_trip_is_recorded() {
    let trips = vec![trip("2021-06-07 09:15:00", "2021-06-07 09:45:00", 161, 132)];
    let a = analyze(&trips).unwrap();
    assert_eq!(a.counts, RecordCounts { read: 1, matched: 1, skipped: 0 });
    for h in 0..24 {
        assert_eq!(a.hists.count_for_hour(h), if h == 9 { 1 } else { 0 });
    }
}

#[test]
fn short_qualifying_trip_is_skipped() {
    let trips = vec![trip("2021-06-07 09:15:00", "2021-06-07 09:20:00", 161, 132)];
    let a = analyze(&trips).unwrap();
    assert_eq!(a.counts, RecordCounts { read: 1, matched: 1, skipped: 1 });
    for h in 0..24 {
        assert_eq!(a.hists.count_for_hour(h), 0);
    }
}

#[test]
fn non_midtown_pickup_never_reaches_duration_logic() {
    // The timestamps are malformed, yet the pass succeeds: a record that
    // fails the zone gate is counted as read and nothing else is done.
    let trips = vec![trip("not-a-timestamp", "also-not-one", 1, 132)];
    let a = analyze(&trips).unwrap();
    assert_eq!(a.counts, RecordCounts { read: 1, matched: 0, skipped: 0 });
    for h in 0..24 {
        assert_eq!(a.hists.count_for_hour(h), 0);
    }
}

#[test]
fn weekend_trip_does_not_match() {
    // 2021-06-05 was a Saturday.
    let trips = vec![trip("2021-06-05 09:15:00", "2021-06-05 09:45:00", 161, 132)];
    let a = analyze(&trips).unwrap();
    assert_eq!(a.counts, RecordCounts { read: 1, matched: 0, skipped: 0 });
}

#[test]
fn bad_pickup_timestamp_on_gated_trip_is_fatal() {
    let trips = vec![
        trip("2021-06-07 09:15:00", "2021-06-07 09:45:00", 161, 132),
        trip("garbage", "2021-06-07 09:45:00", 161, 132),
    ];
    assert!(matches!(analyze(&trips), Err(ParseError::BadFormat)));

    let trips = vec![trip("2021-02-30 09:15:00", "2021-02-30 09:45:00", 161, 132)];
    assert!(matches!(analyze(&trips), Err(ParseError::BadValue)));
}

#[test]
fn bad_dropoff_timestamp_on_matched_trip_is_fatal() {
    let trips = vec![trip("2021-06-07 09:15:00", "garbage", 161, 132)];
    assert!(matches!(analyze(&trips), Err(ParseError::BadFormat)));
    // On a weekend the dropoff is never parsed, so the same texts pass.
    let trips = vec![trip("2021-06-05 09:15:00", "garbage", 161, 132)];
    assert!(analyze(&trips).is_ok());
}

#[test]
fn mixed_sequence_accumulates_running_counts() {
    let trips = vec![
        // Qualifies; 1800 seconds into hour 9.
        trip("2021-06-07 09:15:00", "2021-06-07 09:45:00", 161, 132),
        // Qualifies; 300 seconds: too short, skipped.
        trip("2021-06-07 09:15:00", "2021-06-07 09:20:00", 162, 132),
        // Wrong dropoff zone.
        trip("2021-06-07 09:15:00", "2021-06-07 09:45:00", 161, 1),
        // Qualifies; 3600 seconds into hour 17.
        trip("2021-06-08 17:00:00", "2021-06-08 18:00:00", 234, 132),
        // Not a midtown pickup.
        trip("2021-06-08 17:00:00", "2021-06-08 18:00:00", 2, 132),
        // Qualifies; four hours: too long, skipped.
        trip("2021-06-09 06:00:00", "2021-06-09 10:00:00", 90, 132),
    ];
    let a = analyze(&trips).unwrap();
    assert_eq!(a.counts, RecordCounts { read: 6, matched: 4, skipped: 2 });
    for h in 0..24 {
        let expected = if h == 9 || h == 17 { 1 } else { 0 };
        assert_eq!(a.hists.count_for_hour(h), expected);
    }
}

#[test]
fn reprocessing_the_same_records_is_idempotent() {
    let trips = vec![
        trip("2021-06-07 09:15:00", "2021-06-07 09:45:00", 161, 132),
        trip("2021-06-07 09:15:00", "2021-06-07 09:20:00", 162, 132),
        trip("2021-06-08 17:00:00", "2021-06-08 18:00:00", 234, 132),
        trip("2021-06-05 23:00:00", "2021-06-05 23:59:00", 90, 132),
        trip("whatever", "whatever", 3, 4),
    ];
    let first = analyze(&trips).unwrap();
    let second = analyze(&trips).unwrap();
    assert_eq!(first.counts, second.counts);
    for h in 0..24 {
        assert_eq!(first.hists.count_for_hour(h), second.hists.count_for_hour(h));
    }
}

#[test]
fn per_record_processing_matches_full_pass() {
    let trips = vec![
        trip("2021-06-07 09:15:00", "2021-06-07 09:45:00", 161, 132),
        trip("2021-06-07 09:15:00", "2021-06-07 09:20:00", 162, 132),
    ];
    let mut a = Analyzer::new();
    for t in &trips {
        a.process_trip(t).unwrap();
    }
    let b = analyze(&trips).unwrap();
    assert_eq!(a.counts, b.counts);
    for h in 0..24 {
        assert_eq!(a.hists.count_for_hour(h), b.hists.count_for_hour(h));
    }
}

#[test]
fn empty_source_yields_zero_counts() {
    let trips: Vec<Trip> = Vec::new();
    let a = analyze(&trips).unwrap();
    assert_eq!(a.counts, RecordCounts { read: 0, matched: 0, skipped: 0 });
    for h in 0..24 {
        assert_eq!(a.hists.count_for_hour(h), 0);
    }
}
