//! The flat-file tracker's operations, run against files simulated in memory.

use track::feature::tracker::flatfile::{
    FlatFileAction, FlatFileDatabase, FlatFileEvent, FlatFileStep, FlatFileTracker,
    FlatFileTrackerError, LockFileData,
};
use track::feature::tracker::{EndTime, StartTime, StartupStatus, TimeRecord, TrackerError};

/// Files kept in memory; `fail_next` makes the next piece of file work fail.
#[derive(Default)]
struct SimFiles {
    lock: Option<LockFileData>,
    database: Option<Vec<TimeRecord>>,
    fail_next: bool,
}

impl SimFiles {
    fn perform(&mut self, action: FlatFileAction) -> Result<FlatFileEvent, FlatFileAction> {
        let fail = std::mem::replace(&mut self.fail_next, false);
        let err = FlatFileTrackerError;
        Ok(match action {
            FlatFileAction::CheckLock => FlatFileEvent::LockChecked(self.lock.is_some()),
            FlatFileAction::CreateLock(data) => {
                if fail || self.lock.is_some() {
                    FlatFileEvent::LockCreated(Err(err))
                } else {
                    self.lock = Some(data);
                    FlatFileEvent::LockCreated(Ok(()))
                }
            }
            FlatFileAction::ReadLock => match (fail, self.lock) {
                (false, Some(data)) => FlatFileEvent::LockRead(Ok(data)),
                _ => FlatFileEvent::LockRead(Err(err)),
            },
            FlatFileAction::ReadDatabase => {
                if fail {
                    FlatFileEvent::DatabaseRead(Err(err))
                } else if self.database.is_some() {
                    FlatFileEvent::DatabaseRead(Ok("{\"records\":[...]}".to_string()))
                } else {
                    FlatFileEvent::DatabaseRead(Ok(String::new()))
                }
            }
            FlatFileAction::ParseDatabase(_) => match (fail, &self.database) {
                (false, Some(records)) => {
                    FlatFileEvent::DatabaseParsed(Ok(FlatFileDatabase { records: records.clone() }))
                }
                _ => FlatFileEvent::DatabaseParsed(Err(err)),
            },
            FlatFileAction::SaveDatabase(db) => {
                if fail {
                    FlatFileEvent::DatabaseSaved(Err(err))
                } else {
                    self.database = Some(db.records);
                    FlatFileEvent::DatabaseSaved(Ok(()))
                }
            }
            FlatFileAction::RemoveLock => {
                if fail || self.lock.is_none() {
                    FlatFileEvent::LockRemoved(Err(err))
                } else {
                    self.lock = None;
                    FlatFileEvent::LockRemoved(Ok(()))
                }
            }
            finished => return Err(finished),
        })
    }

    /// Runs an operation to its end, deciding with the clock reading `now`
    /// where one is given and with the real clock otherwise.
    fn run(&mut self, begin: (FlatFileStep, FlatFileAction), now: Option<(i64, u32)>) -> FlatFileAction {
        let (mut step, mut action) = begin;
        loop {
            let event = match self.perform(action) {
                Ok(event) => event,
                Err(finished) => return finished,
            };
            let (next, next_action) = match now {
                Some(now) => step.next(event, now),
                None => step.advance(event),
            };
            action = next_action;
            match next {
                Some(s) => step = s,
                None => return action,
            }
        }
    }
}

/// A flat-file tracker over simulated files, with the original's interface.
struct SimTracker {
    _tracker: FlatFileTracker,
    files: SimFiles,
}

impl SimTracker {
    fn start(&mut self) -> Result<StartupStatus, TrackerError> {
        match self.files.run(FlatFileStep::begin_start(), None) {
            FlatFileAction::FinishStart(r) => r.map_err(|_| TrackerError),
            other => panic!("unexpected {:?}", other),
        }
    }

    fn is_running(&self) -> bool {
        self.files.lock.is_some()
    }

    fn stop(&mut self) -> Result<(), TrackerError> {
        match self.files.run(FlatFileStep::begin_stop(), None) {
            FlatFileAction::FinishStop(r) => r.map_err(|_| TrackerError),
            other => panic!("unexpected {:?}", other),
        }
    }

    fn records(&mut self) -> Result<std::vec::IntoIter<TimeRecord>, TrackerError> {
        match self.files.run(FlatFileStep::begin_records(), None) {
            FlatFileAction::FinishRecords(r) => r.map(|v| v.into_iter()).map_err(|_| TrackerError),
            other => panic!("unexpected {:?}", other),
        }
    }
}

fn tracking_paths() -> ((), String, String) {
    ((), "tmp/db.json".to_string(), "tmp/lockfile".to_string())
}

fn new_flatfile_tracker(db_file: &String, lock_file: &String) -> SimTracker {
    SimTracker {
        _tracker: FlatFileTracker::new(db_file.clone(), lock_file.clone()),
        files: SimFiles::default(),
    }
}

#[test]
fn starts_tracking_with_default_tracker() {
    let (_temp_dir, db_file, lock_file) = tracking_paths();
    let mut tracker = new_flatfile_tracker(&db_file, &lock_file);
    tracker.start().unwrap();
    assert!(tracker.is_running());
}

#[test]
fn is_running_returns_true_when_started() {
    let (_temp_dir, db_file, lock_file) = tracking_paths();
    let mut tracker = new_flatfile_tracker(&db_file, &lock_file);
    tracker.start().unwrap();
    assert!(tracker.is_running());
}

#[test]
fn is_running_returns_false_when_not_started() {
    let (_temp_dir, db_file, lock_file) = tracking_paths();
    let tracker = new_flatfile_tracker(&db_file, &lock_file);
    let running: bool = tracker.is_running();
    assert!(!running);
}

#[test]
fn is_running_returns_false_after_stopping() {
    let (_temp_dir, db_file, lock_file) = tracking_paths();
    let mut tracker = new_flatfile_tracker(&db_file, &lock_file);
    tracker.start().unwrap();
    tracker.stop().unwrap();
    assert!(!tracker.is_running());
}

#[test]
fn time_record_created_when_tracking_stops() {
    let (_temp_dir, db_file, lock_file) = tracking_paths();
    let mut tracker = new_flatfile_tracker(&db_file, &lock_file);
    tracker.start().unwrap();
    tracker.stop().unwrap();
    assert!(tracker.records().unwrap().next().is_some());
}

#[test]
fn inital_start_returns_started_status() {
    let (_temp_dir, db_file, lock_file) = tracking_paths();
    let mut tracker = new_flatfile_tracker(&db_file, &lock_file);
    let started = tracker.start().unwrap();
    assert_eq!(started, StartupStatus::Started);
}

#[test]
fn multiple_starts_returns_already_running_state() {
    let (_temp_dir, db_file, lock_file) = tracking_paths();
    let mut tracker = new_flatfile_tracker(&db_file, &lock_file);
    tracker.start().unwrap();
    let started = tracker.start().unwrap();
    assert_eq!(started, StartupStatus::Running);
}

#[test]
fn new_keeps_the_paths() {
    let tracker = FlatFileTracker::new("a/db.json".to_string(), "a/lock".to_string());
    assert_eq!(tracker.db_file(), "a/db.json");
    assert_eq!(tracker.lock_file(), "a/lock");
}

#[test]
fn database_push_appends() {
    let mut db = FlatFileDatabase::default();
    assert!(db.records.is_empty());
    let r1 = TimeRecord { start: StartTime(1, 0), end: EndTime(2, 0) };
    let r2 = TimeRecord { start: StartTime(3, 0), end: EndTime(7, 0) };
    db.push(r1);
    db.push(r2);
    assert_eq!(db.records, vec![r1, r2]);
}

#[test]
fn start_writes_the_clock_reading_into_the_lockfile() {
    let mut files = SimFiles::default();
    let done = files.run(FlatFileStep::begin_start(), Some((1_000, 0)));
    assert!(matches!(done, FlatFileAction::FinishStart(Ok(StartupStatus::Started))));
    assert_eq!(files.lock, Some(LockFileData { start_time: StartTime(1_000, 0) }));
    assert_eq!(files.database, None);
}

#[test]
fn start_keeps_the_nanoseconds_of_the_clock() {
    let mut files = SimFiles::default();
    files.run(FlatFileStep::begin_start(), Some((1_234, 234_567_891)));
    assert_eq!(files.lock, Some(LockFileData { start_time: StartTime(1_234, 234_567_891) }));
}

#[test]
fn stop_appends_the_record_to_an_empty_database() {
    let mut files = SimFiles::default();
    files.lock = Some(LockFileData { start_time: StartTime(1_000, 0) });
    let done = files.run(FlatFileStep::begin_stop(), Some((4_500, 0)));
    assert!(matches!(done, FlatFileAction::FinishStop(Ok(()))));
    assert_eq!(files.lock, None);
    assert_eq!(
        files.database,
        Some(vec![TimeRecord { start: StartTime(1_000, 0), end: EndTime(4_500, 0) }])
    );
}

#[test]
fn stop_appends_the_record_after_the_stored_ones() {
    let old = TimeRecord { start: StartTime(10, 0), end: EndTime(20, 0) };
    let mut files = SimFiles::default();
    files.database = Some(vec![old]);
    files.lock = Some(LockFileData { start_time: StartTime(30, 0) });
    let done = files.run(FlatFileStep::begin_stop(), Some((45, 0)));
    assert!(matches!(done, FlatFileAction::FinishStop(Ok(()))));
    assert_eq!(
        files.database,
        Some(vec![old, TimeRecord { start: StartTime(30, 0), end: EndTime(45, 0) }])
    );
}

#[test]
fn stop_without_lockfile_fails_and_changes_nothing() {
    let old = TimeRecord { start: StartTime(10, 0), end: EndTime(20, 0) };
    let mut files = SimFiles::default();
    files.database = Some(vec![old]);
    let done = files.run(FlatFileStep::begin_stop(), Some((45, 0)));
    assert!(matches!(done, FlatFileAction::FinishStop(Err(FlatFileTrackerError))));
    assert_eq!(files.database, Some(vec![old]));
    assert_eq!(files.lock, None);
}

#[test]
fn failed_lock_creation_fails_start() {
    let mut files = SimFiles::default();
    files.fail_next = false;
    let (step, action) = FlatFileStep::begin_start();
    let event = files.perform(action).ok().unwrap();
    let (next, action) = step.next(event, (5, 0));
    assert!(matches!(action, FlatFileAction::CreateLock(_)));
    let (next, done) = next.unwrap().next(FlatFileEvent::LockCreated(Err(FlatFileTrackerError)), (5, 0));
    assert!(next.is_none());
    assert!(matches!(done, FlatFileAction::FinishStart(Err(FlatFileTrackerError))));
}

#[test]
fn failed_database_write_fails_stop_and_keeps_the_lock() {
    let mut files = SimFiles::default();
    files.lock = Some(LockFileData { start_time: StartTime(1, 0) });
    let (step, action) = FlatFileStep::begin_stop();
    let event = files.perform(action).ok().unwrap();
    let (next, action) = step.next(event, (9, 0));
    let event = files.perform(action).ok().unwrap();
    let (next, action) = next.unwrap().next(event, (9, 0));
    assert!(matches!(next, Some(FlatFileStep::StopSaveDatabase)));
    files.fail_next = true;
    let event = files.perform(action).ok().unwrap();
    let (next, done) = next.unwrap().next(event, (9, 0));
    assert!(next.is_none());
    assert!(matches!(done, FlatFileAction::FinishStop(Err(FlatFileTrackerError))));
    assert!(files.lock.is_some());
    assert_eq!(files.database, None);
}

#[test]
fn unreadable_database_fails_stop() {
    let mut files = SimFiles::default();
    files.lock = Some(LockFileData { start_time: StartTime(1, 0) });
    let (step, action) = FlatFileStep::begin_stop();
    let event = files.perform(action).ok().unwrap();
    let (next, _) = step.next(event, (9, 0));
    let (next, done) = next.unwrap().next(FlatFileEvent::DatabaseParsed(Err(FlatFileTrackerError)), (9, 0));
    assert!(next.is_none());
    assert!(matches!(done, FlatFileAction::FinishStop(Err(FlatFileTrackerError))));
}

#[test]
fn records_of_empty_and_filled_database() {
    let mut files = SimFiles::default();
    let done = files.run(FlatFileStep::begin_records(), Some((0, 0)));
    assert!(matches!(done, FlatFileAction::FinishRecords(Ok(ref v)) if v.is_empty()));
    let r = TimeRecord { start: StartTime(5, 0), end: EndTime(8, 0) };
    files.database = Some(vec![r]);
    match files.run(FlatFileStep::begin_records(), Some((0, 0))) {
        FlatFileAction::FinishRecords(Ok(v)) => assert_eq!(v, vec![r]),
        other => panic!("unexpected {:?}", other),
    }
    files.fail_next = true;
    let done = files.run(FlatFileStep::begin_records(), Some((0, 0)));
    assert!(matches!(done, FlatFileAction::FinishRecords(Err(FlatFileTrackerError))));
}

#[test]
fn parse_is_asked_only_for_nonempty_text() {
    let step = FlatFileStep::RecordsReadDatabase;
    let (next, action) = step.next(FlatFileEvent::DatabaseRead(Ok("{}".to_string())), (0, 0));
    assert_eq!(next, Some(FlatFileStep::RecordsParseDatabase));
    match action {
        FlatFileAction::ParseDatabase(text) => assert_eq!(text, "{}"),
        other => panic!("unexpected {:?}", other),
    }
}

#[test]
fn an_outcome_that_answers_nothing_ends_the_operation() {
    let (next, done) = FlatFileStep::StartCheckLock.next(FlatFileEvent::LockRemoved(Ok(())), (0, 0));
    assert!(next.is_none());
    assert!(matches!(done, FlatFileAction::FinishStart(Err(FlatFileTrackerError))));
    let (next, done) = FlatFileStep::StopRemoveLock.next(FlatFileEvent::LockChecked(true), (0, 0));
    assert!(next.is_none());
    assert!(matches!(done, FlatFileAction::FinishStop(Err(FlatFileTrackerError))));
}

#[test]
fn stopping_reads_the_clock_for_the_end_time() {
    let mut tracker = new_flatfile_tracker(&"d".to_string(), &"l".to_string());
    tracker.files.lock = Some(LockFileData { start_time: StartTime(0, 0) });
    tracker.stop().unwrap();
    let records = tracker.files.database.clone().unwrap();
    assert_eq!(records.len(), 1);
    assert!(records[0].end.timestamp_millis() > 1_500_000_000_000);
}
