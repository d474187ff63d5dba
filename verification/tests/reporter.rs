//! Reports of tracked time.

use std::time::Duration;

use track::feature::tracker::reporter::{
    duration_since, report, window_total_millis, ReportTimespan, Reporter, ReporterError,
};
use track::feature::tracker::tlib::FakeTracker;
use track::feature::tracker::{EndTime, StartTime, TimeRecord, Tracker, TrackerError};

/// Lets `length` of time pass on the clock.
fn simulate_work(length: Duration) {
    let began = std::time::Instant::now();
    while began.elapsed() < length {}
}

fn rec(start: i64, end: i64) -> TimeRecord {
    TimeRecord { start: StartTime(start, 0), end: EndTime(end, 0) }
}

#[test]
fn calculates_correct_duration_when_there_are_no_records() {
    let tracker = FakeTracker::default();
    let duration = tracker.total_duration(ReportTimespan::Last(Duration::from_secs(1)));
    assert_eq!(duration.unwrap(), Duration::from_millis(0));
}

#[test]
fn calculate_duration_when_there_are_two_records() {
    let mut tracker = FakeTracker::default();
    tracker.start().unwrap();
    simulate_work(Duration::from_millis(500)); // Simulate some work between start and stop
    tracker.stop().unwrap();
    tracker.start().unwrap();
    simulate_work(Duration::from_millis(500)); // Simulate some work between start and stop
    tracker.stop().unwrap();

    let duration: Result<Duration, ReporterError> =
        tracker.total_duration(ReportTimespan::Last(Duration::from_secs(1)));
    assert!(duration.unwrap() >= Duration::from_millis(1000));
}

#[test]
fn window_total_counts_records_that_end_from_the_cutoff_on() {
    let records = vec![rec(0, 100), rec(1_000, 1_500), rec(2_000, 2_250)];
    assert_eq!(window_total_millis(&records, 0), Some(850));
    assert_eq!(window_total_millis(&records, 100), Some(850));
    assert_eq!(window_total_millis(&records, 101), Some(750));
    assert_eq!(window_total_millis(&records, 1_500), Some(750));
    assert_eq!(window_total_millis(&records, 1_501), Some(250));
    assert_eq!(window_total_millis(&records, 2_250), Some(250));
    assert_eq!(window_total_millis(&records, 2_251), Some(0));
    assert_eq!(window_total_millis(&vec![], 0), Some(0));
}

#[test]
fn window_total_that_overflows_is_none() {
    let records = vec![rec(i64::MIN, i64::MAX)];
    assert_eq!(window_total_millis(&records, 0), None);
    let records = vec![rec(0, i64::MAX), rec(0, 1)];
    assert_eq!(window_total_millis(&records, 0), None);
    assert_eq!(duration_since(&records, 0), None);
    assert_eq!(report(Some(0), Ok(records.clone())), Err(ReporterError));
    // An overflowing record outside the window does not matter.
    let records = vec![rec(i64::MIN, -1), rec(0, 7)];
    assert_eq!(window_total_millis(&records, 0), Some(7));
}

#[test]
fn duration_since_gives_whole_milliseconds() {
    let records = vec![rec(0, 400), rec(500, 1_100)];
    assert_eq!(duration_since(&records, 0), Some(Duration::from_millis(1_000)));
    assert_eq!(duration_since(&records, 401), Some(Duration::from_millis(600)));
    assert_eq!(duration_since(&records, 0).unwrap().as_millis(), 1_000);
}

#[test]
fn negative_total_wraps_around() {
    let records = vec![rec(10, 5)];
    assert_eq!(window_total_millis(&records, 0), Some(-5));
    assert_eq!(duration_since(&records, 0), Some(Duration::from_millis(u64::MAX - 4)));
}

#[test]
fn total_duration_covers_only_recent_records() {
    let mut tracker = FakeTracker::default();
    // An old record, far outside the window.
    tracker.start_at(StartTime(0, 0));
    tracker.stop_at(EndTime(10_000, 0)).unwrap();
    // A record that ends in the future, inside any window that ends now.
    let future: i64 = 4_000_000_000_000;
    tracker.start_at(StartTime(future, 0));
    tracker.stop_at(EndTime(future + 1_500, 0)).unwrap();
    let duration = tracker.total_duration(ReportTimespan::Last(Duration::from_secs(60)));
    assert_eq!(duration.unwrap(), Duration::from_millis(1_500));
}

#[test]
fn record_that_began_before_the_window_counts_whole() {
    let mut tracker = FakeTracker::default();
    let now = StartTime::now().timestamp_millis();
    tracker.start_at(StartTime(now - 5_000, 0));
    tracker.stop_at(EndTime(now + 60_000, 0)).unwrap();
    let duration = tracker.total_duration(ReportTimespan::Last(Duration::from_secs(1)));
    assert_eq!(duration.unwrap(), Duration::from_millis(65_000));
}

#[test]
fn timespan_beyond_the_calendar_is_an_error() {
    let tracker = FakeTracker::default();
    let duration = tracker.total_duration(ReportTimespan::Last(Duration::MAX));
    assert_eq!(duration, Err(ReporterError));
    assert_eq!(ReportTimespan::Last(Duration::MAX).cutoff_millis(), None);
}

#[test]
fn cutoff_lies_the_span_before_now() {
    let before = StartTime::now().timestamp_millis();
    let cutoff = ReportTimespan::Last(Duration::from_secs(60)).cutoff_millis().unwrap();
    let after = StartTime::now().timestamp_millis();
    assert!(before - 60_000 - 1 <= cutoff && cutoff <= after - 60_000);
}

#[test]
fn cutoff_exists_for_long_representable_spans() {
    let span = Duration::from_millis(8_000_000_000_000_000);
    let cutoff = ReportTimespan::Last(span).cutoff_millis();
    assert!(cutoff.is_some());
    assert!(cutoff.unwrap() < 0);
}

#[test]
fn report_needs_both_the_window_and_the_records() {
    let records = vec![rec(0, 400), rec(500, 1_100)];
    assert_eq!(report(Some(500), Ok(records.clone())), Ok(Duration::from_millis(600)));
    assert_eq!(report(None, Ok(records)), Err(ReporterError));
    assert_eq!(report(Some(0), Err(TrackerError)), Err(ReporterError));
    assert_eq!(report(None, Err(TrackerError)), Err(ReporterError));
}

#[test]
fn last_millis_reaches_back_that_many_milliseconds() {
    let t = ReportTimespan::last_millis(1_500);
    match t {
        ReportTimespan::Last(d) => assert_eq!(d, Duration::from_millis(1_500)),
    }
    let before = StartTime::now().timestamp_millis();
    let cutoff = t.cutoff_millis().unwrap();
    let after = StartTime::now().timestamp_millis();
    assert!(before - 1_500 - 1 <= cutoff && cutoff <= after - 1_500);
}

#[test]
fn empty_tracker_reports_zero_for_last_millis() {
    let tracker = FakeTracker::default();
    let r = tracker.total_duration(ReportTimespan::last_millis(1_000));
    assert_eq!(r, Ok(Duration::from_millis(0)));
}
