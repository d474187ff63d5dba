//! The in-memory tracker and the time types.

use track::error::Suggestion;
use track::feature::tracker::tlib::FakeTracker;
use track::feature::tracker::{EndTime, StartTime, StartupStatus, TimeRecord, Tracker, TrackerError};

#[test]
fn fake_tracker_starts_idle() {
    let tracker = FakeTracker::default();
    assert!(!tracker.is_running());
    assert_eq!(tracker.records().unwrap(), vec![]);
}

#[test]
fn start_at_then_stop_at_makes_one_record() {
    let mut tracker = FakeTracker::default();
    assert_eq!(tracker.start_at(StartTime(100, 0)), StartupStatus::Started);
    assert!(tracker.is_running());
    assert_eq!(tracker.stop_at(EndTime(350, 0)), Ok(()));
    assert!(!tracker.is_running());
    assert_eq!(
        tracker.records().unwrap(),
        vec![TimeRecord { start: StartTime(100, 0), end: EndTime(350, 0) }]
    );
}

#[test]
fn second_start_keeps_the_first_start_time() {
    let mut tracker = FakeTracker::default();
    assert_eq!(tracker.start_at(StartTime(100, 0)), StartupStatus::Started);
    assert_eq!(tracker.start_at(StartTime(200, 0)), StartupStatus::Running);
    tracker.stop_at(EndTime(300, 0)).unwrap();
    assert_eq!(
        tracker.records().unwrap(),
        vec![TimeRecord { start: StartTime(100, 0), end: EndTime(300, 0) }]
    );
}

#[test]
fn stop_while_idle_fails_and_keeps_the_records() {
    let mut tracker = FakeTracker::default();
    assert_eq!(tracker.stop_at(EndTime(5, 0)), Err(TrackerError));
    assert_eq!(tracker.stop(), Err(TrackerError));
    tracker.start_at(StartTime(1, 0));
    tracker.stop_at(EndTime(2, 0)).unwrap();
    assert_eq!(tracker.stop_at(EndTime(9, 0)), Err(TrackerError));
    assert_eq!(tracker.records().unwrap().len(), 1);
}

#[test]
fn records_keep_their_order() {
    let mut tracker = FakeTracker::default();
    tracker.start_at(StartTime(1, 0));
    tracker.stop_at(EndTime(2, 0)).unwrap();
    tracker.start_at(StartTime(3, 0));
    tracker.stop_at(EndTime(4, 0)).unwrap();
    assert_eq!(
        tracker.records().unwrap(),
        vec![
            TimeRecord { start: StartTime(1, 0), end: EndTime(2, 0) },
            TimeRecord { start: StartTime(3, 0), end: EndTime(4, 0) },
        ]
    );
}

#[test]
fn start_and_stop_with_the_clock() {
    let mut tracker = FakeTracker::default();
    assert_eq!(tracker.start(), Ok(StartupStatus::Started));
    assert_eq!(tracker.start(), Ok(StartupStatus::Running));
    assert_eq!(tracker.stop(), Ok(()));
    let records = tracker.records().unwrap();
    assert_eq!(records.len(), 1);
    assert!(records[0].start.timestamp_millis() <= records[0].end.timestamp_millis());
}

#[test]
fn now_reads_the_clock() {
    let start = StartTime::now();
    let end = EndTime::now();
    assert!(start.timestamp_millis() > 1_500_000_000_000);
    assert!(start.timestamp_millis() <= end.timestamp_millis());
}

#[test]
fn timestamps_are_the_stored_millis() {
    assert_eq!(StartTime(-42, 0).timestamp_millis(), -42);
    assert_eq!(EndTime(1_000_000_000_555, 0).timestamp_millis(), 1_000_000_000_555);
}

#[test]
fn now_keeps_the_nanoseconds_within_the_second() {
    let t = StartTime::now();
    assert!(t.1 < 1_000_000_000);
    assert_eq!(t.0 % 1000, (t.1 / 1_000_000) as i64);
    let e = EndTime::now();
    assert!(e.1 < 1_000_000_000);
    assert_eq!(e.0 % 1000, (e.1 / 1_000_000) as i64);
}

#[test]
fn suggestion_body_prefixes_the_suggestion() {
    assert_eq!(Suggestion("try again").body(), "suggestion: try again");
    assert_eq!(Suggestion("").body(), "suggestion: ");
}
