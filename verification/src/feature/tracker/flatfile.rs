//! A filesystem tracker
//!
//! Two files hold its state:
//! - the lockfile, which exists while the tracker tracks and holds the start time;
//! - the database file, which holds the time records (an empty file holds none).
//!
//! The tracker's operations alternate file work and decisions. The decisions
//! are here: `FlatFileStep::next` takes the step an operation is at and the
//! outcome of the file work it asked for, and answers the next step and the
//! next piece of file work (`FlatFileAction`), or the operation's result.
//! Whoever owns the files performs the actions and hands back the outcomes
//! (`FlatFileEvent`).
//!
//! `FlatFileStore` models the two files, `FlatFileStore::perform` what a file
//! system that never fails does, and the lemmas at the end prove that on such
//! a file system each operation does what `TrackerView` says a tracker does.

use vstd::prelude::*;

use super::{clock_now, is_clock_moment, EndTime, StartTime, StartupStatus, TimeRecord, TrackerView};

verus! {

/// A file operation of the tracker failed.
#[derive(Debug, Clone, Copy, PartialEq, Eq, Structural)]
pub struct FlatFileTrackerError;

/// What the lockfile holds.
#[derive(Debug, Clone, Copy, PartialEq, Eq, Structural)]
pub struct LockFileData {
    pub start_time: StartTime,
}

/// What the database file holds.
#[derive(Debug, Clone)]
pub struct FlatFileDatabase {
    pub records: Vec<TimeRecord>,
}

impl FlatFileDatabase {
    /// Appends a record.
    pub fn push(&mut self, value: TimeRecord)
        ensures
            final(self).records@ == old(self).records@.push(value),
    {
        self.records.push(value)
    }
}

impl Default for FlatFileDatabase {
    /// The database of an empty database file: no records.
    fn default() -> (db: FlatFileDatabase)
        ensures
            db.records@ == Seq::<TimeRecord>::empty(),
    {
        FlatFileDatabase { records: Vec::new() }
    }
}

/// A tracker whose state lives in a database file and a lockfile.
#[derive(Debug, Clone)]
pub struct FlatFileTracker {
    db_file: String,
    lock_file: String,
}

impl FlatFileTracker {
    /// The path of the database file.
    pub closed spec fn db_path(&self) -> Seq<char> {
        self.db_file@
    }

    /// The path of the lockfile.
    pub closed spec fn lock_path(&self) -> Seq<char> {
        self.lock_file@
    }

    /// A tracker over the database file `db_file` and the lockfile `lock_file`.
    pub fn new(db_file: String, lock_file: String) -> (t: FlatFileTracker)
        ensures
            t.db_path() == db_file@,
            t.lock_path() == lock_file@,
    {
        FlatFileTracker { db_file, lock_file }
    }

    /// The path of the database file.
    pub fn db_file(&self) -> (p: &str)
        ensures
            p@ == self.db_path(),
    {
        self.db_file.as_str()
    }

    /// The path of the lockfile.
    pub fn lock_file(&self) -> (p: &str)
        ensures
            p@ == self.lock_path(),
    {
        self.lock_file.as_str()
    }
}

/// Where an operation of the flat-file tracker stands: which outcome it waits for.
#[derive(Debug, Clone, Copy, PartialEq, Eq, Structural)]
pub enum FlatFileStep {
    /// Starting: waits to learn whether the lockfile exists.
    StartCheckLock,
    /// Starting: waits for the new lockfile to be created and written.
    StartCreateLock,
    /// Stopping: waits for the lockfile's contents.
    StopReadLock,
    /// Stopping: waits for the database file's text; `record` is the record to add.
    StopReadDatabase { record: TimeRecord },
    /// Stopping: waits for the parsed database; `record` is the record to add.
    StopParseDatabase { record: TimeRecord },
    /// Stopping: waits for the database file to be written.
    StopSaveDatabase,
    /// Stopping: waits for the lockfile to be removed.
    StopRemoveLock,
    /// Listing records: waits for the database file's text.
    RecordsReadDatabase,
    /// Listing records: waits for the parsed database.
    RecordsParseDatabase,
}

/// The next piece of file work, or the result of the operation.
#[derive(Debug)]
pub enum FlatFileAction {
    /// Tell whether the lockfile exists.
    CheckLock,
    /// Create the lockfile (failing if it exists) and write this data into it.
    CreateLock(LockFileData),
    /// Read the lockfile and parse its data.
    ReadLock,
    /// Read the database file's text, creating the file empty where it is missing.
    ReadDatabase,
    /// Parse this text of the database file.
    ParseDatabase(String),
    /// Write this database into the database file.
    SaveDatabase(FlatFileDatabase),
    /// Remove the lockfile.
    RemoveLock,
    /// Starting is done, with this result.
    FinishStart(Result<StartupStatus, FlatFileTrackerError>),
    /// Stopping is done, with this result.
    FinishStop(Result<(), FlatFileTrackerError>),
    /// Listing records is done, with this result.
    FinishRecords(Result<Vec<TimeRecord>, FlatFileTrackerError>),
}

/// The outcome of a piece of file work.
#[derive(Debug)]
pub enum FlatFileEvent {
    /// Whether the lockfile exists.
    LockChecked(bool),
    /// Creating and writing the lockfile.
    LockCreated(Result<(), FlatFileTrackerError>),
    /// Reading and parsing the lockfile.
    LockRead(Result<LockFileData, FlatFileTrackerError>),
    /// Reading the database file: its text.
    DatabaseRead(Result<String, FlatFileTrackerError>),
    /// Parsing the database file's text.
    DatabaseParsed(Result<FlatFileDatabase, FlatFileTrackerError>),
    /// Writing the database file.
    DatabaseSaved(Result<(), FlatFileTrackerError>),
    /// Removing the lockfile.
    LockRemoved(Result<(), FlatFileTrackerError>),
}

/// `FlatFileAction` with strings and vectors taken by their views.
pub enum ActionModel {
    CheckLock,
    CreateLock(LockFileData),
    ReadLock,
    ReadDatabase,
    ParseDatabase(Seq<char>),
    SaveDatabase(Seq<TimeRecord>),
    RemoveLock,
    FinishStart(Result<StartupStatus, FlatFileTrackerError>),
    FinishStop(Result<(), FlatFileTrackerError>),
    FinishRecords(Result<Seq<TimeRecord>, FlatFileTrackerError>),
}

/// `FlatFileEvent` with strings and vectors taken by their views.
pub enum EventModel {
    LockChecked(bool),
    LockCreated(Result<(), FlatFileTrackerError>),
    LockRead(Result<LockFileData, FlatFileTrackerError>),
    DatabaseRead(Result<Seq<char>, FlatFileTrackerError>),
    DatabaseParsed(Result<Seq<TimeRecord>, FlatFileTrackerError>),
    DatabaseSaved(Result<(), FlatFileTrackerError>),
    LockRemoved(Result<(), FlatFileTrackerError>),
}

impl View for FlatFileAction {
    type V = ActionModel;

    open spec fn view(&self) -> ActionModel {
        match self {
            FlatFileAction::CheckLock => ActionModel::CheckLock,
            FlatFileAction::CreateLock(d) => ActionModel::CreateLock(*d),
            FlatFileAction::ReadLock => ActionModel::ReadLock,
            FlatFileAction::ReadDatabase => ActionModel::ReadDatabase,
            FlatFileAction::ParseDatabase(text) => ActionModel::ParseDatabase(text@),
            FlatFileAction::SaveDatabase(db) => ActionModel::SaveDatabase(db.records@),
            FlatFileAction::RemoveLock => ActionModel::RemoveLock,
            FlatFileAction::FinishStart(r) => ActionModel::FinishStart(*r),
            FlatFileAction::FinishStop(r) => ActionModel::FinishStop(*r),
            FlatFileAction::FinishRecords(r) => ActionModel::FinishRecords(
                match r {
                    Ok(v) => Ok(v@),
                    Err(e) => Err(*e),
                },
            ),
        }
    }
}

impl View for FlatFileEvent {
    type V = EventModel;

    open spec fn view(&self) -> EventModel {
        match self {
            FlatFileEvent::LockChecked(b) => EventModel::LockChecked(*b),
            FlatFileEvent::LockCreated(r) => EventModel::LockCreated(*r),
            FlatFileEvent::LockRead(r) => EventModel::LockRead(*r),
            FlatFileEvent::DatabaseRead(r) => EventModel::DatabaseRead(
                match r {
                    Ok(text) => Ok(text@),
                    Err(e) => Err(*e),
                },
            ),
            FlatFileEvent::DatabaseParsed(r) => EventModel::DatabaseParsed(
                match r {
                    Ok(db) => Ok(db.records@),
                    Err(e) => Err(*e),
                },
            ),
            FlatFileEvent::DatabaseSaved(r) => EventModel::DatabaseSaved(*r),
            FlatFileEvent::LockRemoved(r) => EventModel::LockRemoved(*r),
        }
    }
}

/// The result that ends the operation that `step` belongs to with an error.
pub open spec fn fail_model(step: FlatFileStep) -> ActionModel {
    match step {
        FlatFileStep::StartCheckLock | FlatFileStep::StartCreateLock => ActionModel::FinishStart(
            Err(FlatFileTrackerError),
        ),
        FlatFileStep::RecordsReadDatabase | FlatFileStep::RecordsParseDatabase => {
            ActionModel::FinishRecords(Err(FlatFileTrackerError))
        },
        _ => ActionModel::FinishStop(Err(FlatFileTrackerError)),
    }
}

/// The decision at `step` on the outcome `event`, with the clock moment `now`
/// (milliseconds since the Unix epoch, and nanoseconds within the second):
/// the next step, if the operation goes
/// on, and the next action.
///
/// - Starting: a lockfile that exists means the tracker runs, and starting
///   answers `Running`; otherwise a lockfile holding `now` is created, and
///   starting answers `Started` once it is written.
/// - Stopping: the lockfile's start time and `now` make the new record; the
///   database file is read (an empty file holds no records, other text is
///   parsed), the record is appended, the database is written back, and the
///   lockfile is removed.
/// - Listing records: the database file is read as when stopping, and its
///   records are the result.
///
/// Any failed piece of file work ends the operation with an error at once, as
/// does an outcome that does not answer the action the step waits for.
pub open spec fn next_step(step: FlatFileStep, event: EventModel, now: (i64, u32)) -> (
    Option<FlatFileStep>,
    ActionModel,
) {
    match step {
        FlatFileStep::StartCheckLock => match event {
            EventModel::LockChecked(true) => (
                None,
                ActionModel::FinishStart(Ok(StartupStatus::Running)),
            ),
            EventModel::LockChecked(false) => (
                Some(FlatFileStep::StartCreateLock),
                ActionModel::CreateLock(LockFileData { start_time: StartTime(now.0, now.1) }),
            ),
            _ => (None, fail_model(step)),
        },
        FlatFileStep::StartCreateLock => match event {
            EventModel::LockCreated(Ok(())) => (
                None,
                ActionModel::FinishStart(Ok(StartupStatus::Started)),
            ),
            _ => (None, fail_model(step)),
        },
        FlatFileStep::StopReadLock => match event {
            EventModel::LockRead(Ok(data)) => (
                Some(
                    FlatFileStep::StopReadDatabase {
                        record: TimeRecord { start: data.start_time, end: EndTime(now.0, now.1) },
                    },
                ),
                ActionModel::ReadDatabase,
            ),
            _ => (None, fail_model(step)),
        },
        FlatFileStep::StopReadDatabase { record } => match event {
            EventModel::DatabaseRead(Ok(text)) => if text.len() == 0 {
                (
                    Some(FlatFileStep::StopSaveDatabase),
                    ActionModel::SaveDatabase(Seq::<TimeRecord>::empty().push(record)),
                )
            } else {
                (Some(FlatFileStep::StopParseDatabase { record }), ActionModel::ParseDatabase(text))
            },
            _ => (None, fail_model(step)),
        },
        FlatFileStep::StopParseDatabase { record } => match event {
            EventModel::DatabaseParsed(Ok(records)) => (
                Some(FlatFileStep::StopSaveDatabase),
                ActionModel::SaveDatabase(records.push(record)),
            ),
            _ => (None, fail_model(step)),
        },
        FlatFileStep::StopSaveDatabase => match event {
            EventModel::DatabaseSaved(Ok(())) => (
                Some(FlatFileStep::StopRemoveLock),
                ActionModel::RemoveLock,
            ),
            _ => (None, fail_model(step)),
        },
        FlatFileStep::StopRemoveLock => match event {
            EventModel::LockRemoved(Ok(())) => (None, ActionModel::FinishStop(Ok(()))),
            _ => (None, fail_model(step)),
        },
        FlatFileStep::RecordsReadDatabase => match event {
            EventModel::DatabaseRead(Ok(text)) => if text.len() == 0 {
                (None, ActionModel::FinishRecords(Ok(Seq::empty())))
            } else {
                (Some(FlatFileStep::RecordsParseDatabase), ActionModel::ParseDatabase(text))
            },
            _ => (None, fail_model(step)),
        },
        FlatFileStep::RecordsParseDatabase => match event {
            EventModel::DatabaseParsed(Ok(records)) => (
                None,
                ActionModel::FinishRecords(Ok(records)),
            ),
            _ => (None, fail_model(step)),
        },
    }
}

impl FlatFileStep {
    /// The first step and action of starting: check whether the lockfile exists.
    pub fn begin_start() -> (r: (FlatFileStep, FlatFileAction))
        ensures
            r.0 == FlatFileStep::StartCheckLock,
            r.1@ == ActionModel::CheckLock,
    {
        (FlatFileStep::StartCheckLock, FlatFileAction::CheckLock)
    }

    /// The first step and action of stopping: read the lockfile.
    pub fn begin_stop() -> (r: (FlatFileStep, FlatFileAction))
        ensures
            r.0 == FlatFileStep::StopReadLock,
            r.1@ == ActionModel::ReadLock,
    {
        (FlatFileStep::StopReadLock, FlatFileAction::ReadLock)
    }

    /// The first step and action of listing records: read the database file.
    pub fn begin_records() -> (r: (FlatFileStep, FlatFileAction))
        ensures
            r.0 == FlatFileStep::RecordsReadDatabase,
            r.1@ == ActionModel::ReadDatabase,
    {
        (FlatFileStep::RecordsReadDatabase, FlatFileAction::ReadDatabase)
    }

    /// The action that ends this step's operation with an error.
    fn fail(self) -> (a: FlatFileAction)
        ensures
            a@ == fail_model(self),
    {
        match self {
            FlatFileStep::StartCheckLock | FlatFileStep::StartCreateLock => {
                FlatFileAction::FinishStart(Err(FlatFileTrackerError))
            },
            FlatFileStep::RecordsReadDatabase | FlatFileStep::RecordsParseDatabase => {
                FlatFileAction::FinishRecords(Err(FlatFileTrackerError))
            },
            _ => FlatFileAction::FinishStop(Err(FlatFileTrackerError)),
        }
    }

    /// The decision on `event` at this step, with the clock moment `now`:
    /// exactly `next_step`.
    pub fn next(self, event: FlatFileEvent, now: (i64, u32)) -> (r: (Option<FlatFileStep>, FlatFileAction))
        ensures
            (r.0, r.1@) == next_step(self, event@, now),
    {
        match self {
            FlatFileStep::StartCheckLock => match event {
                FlatFileEvent::LockChecked(true) => (
                    None,
                    FlatFileAction::FinishStart(Ok(StartupStatus::Running)),
                ),
                FlatFileEvent::LockChecked(false) => (
                    Some(FlatFileStep::StartCreateLock),
                    FlatFileAction::CreateLock(LockFileData { start_time: StartTime(now.0, now.1) }),
                ),
                _ => (None, self.fail()),
            },
            FlatFileStep::StartCreateLock => match event {
                FlatFileEvent::LockCreated(Ok(())) => (
                    None,
                    FlatFileAction::FinishStart(Ok(StartupStatus::Started)),
                ),
                _ => (None, self.fail()),
            },
            FlatFileStep::StopReadLock => match event {
                FlatFileEvent::LockRead(Ok(data)) => (
                    Some(
                        FlatFileStep::StopReadDatabase {
                            record: TimeRecord { start: data.start_time, end: EndTime(now.0, now.1) },
                        },
                    ),
                    FlatFileAction::ReadDatabase,
                ),
                _ => (None, self.fail()),
            },
            FlatFileStep::StopReadDatabase { record } => match event {
                FlatFileEvent::DatabaseRead(Ok(text)) => {
                    if text.as_str().is_empty() {
                        let mut db = FlatFileDatabase::default();
                        db.push(record);
                        (Some(FlatFileStep::StopSaveDatabase), FlatFileAction::SaveDatabase(db))
                    } else {
                        (
                            Some(FlatFileStep::StopParseDatabase { record }),
                            FlatFileAction::ParseDatabase(text),
                        )
                    }
                },
                _ => (None, self.fail()),
            },
            FlatFileStep::StopParseDatabase { record } => match event {
                FlatFileEvent::DatabaseParsed(Ok(db)) => {
                    let mut db = db;
                    db.push(record);
                    (Some(FlatFileStep::StopSaveDatabase), FlatFileAction::SaveDatabase(db))
                },
                _ => (None, self.fail()),
            },
            FlatFileStep::StopSaveDatabase => match event {
                FlatFileEvent::DatabaseSaved(Ok(())) => (
                    Some(FlatFileStep::StopRemoveLock),
                    FlatFileAction::RemoveLock,
                ),
                _ => (None, self.fail()),
            },
            FlatFileStep::StopRemoveLock => match event {
                FlatFileEvent::LockRemoved(Ok(())) => (None, FlatFileAction::FinishStop(Ok(()))),
                _ => (None, self.fail()),
            },
            FlatFileStep::RecordsReadDatabase => match event {
                FlatFileEvent::DatabaseRead(Ok(text)) => {
                    if text.as_str().is_empty() {
                        let db = FlatFileDatabase::default();
                        (None, FlatFileAction::FinishRecords(Ok(db.records)))
                    } else {
                        (
                            Some(FlatFileStep::RecordsParseDatabase),
                            FlatFileAction::ParseDatabase(text),
                        )
                    }
                },
                _ => (None, self.fail()),
            },
            FlatFileStep::RecordsParseDatabase => match event {
                FlatFileEvent::DatabaseParsed(Ok(db)) => (
                    None,
                    FlatFileAction::FinishRecords(Ok(db.records)),
                ),
                _ => (None, self.fail()),
            },
        }
    }

    /// The decision on `event` at this step, with the clock read now (a moment
    /// of the clock, `is_clock_moment`): the
    /// start time of a new lockfile and the end time of a new record are the
    /// time of this call.
    pub fn advance(self, event: FlatFileEvent) -> (r: (Option<FlatFileStep>, FlatFileAction))
        ensures
            exists|now: (i64, u32)|
                is_clock_moment(now) && #[trigger] next_step(self, event@, now) == (r.0, r.1@),
    {
        let ghost observed = event@;
        let now = clock_now();
        let r = self.next(event, now);
        assert(next_step(self, observed, now) == (r.0, r.1@));
        r
    }
}

/// The two files of a flat-file tracker: the lockfile's data, where the
/// lockfile exists, and the records of the database file, where it holds any
/// text (`None`: the file is empty or missing).
pub struct FlatFileStore {
    pub lock: Option<LockFileData>,
    pub database: Option<Seq<TimeRecord>>,
}

impl FlatFileStore {
    /// The tracker state that the files hold: tracking while the lockfile
    /// exists, since the time it holds; the records of the database file.
    pub open spec fn tracker_view(self) -> TrackerView {
        TrackerView {
            tracking: match self.lock {
                Some(data) => Some(data.start_time),
                None => None,
            },
            records: match self.database {
                Some(records) => records,
                None => Seq::empty(),
            },
        }
    }

    /// What a file system that never fails does for `action`, and what it
    /// answers; `text` is the text of the database file where that holds
    /// records. Creating a lockfile that exists fails, as reading or removing
    /// one that does not; parsing the database file's text gives back the
    /// records that were written, and parsing any other text fails. (An action that ends an operation needs no
    /// answer; the one given is never looked at.)
    pub open spec fn perform(self, action: ActionModel, text: Seq<char>) -> (FlatFileStore, EventModel) {
        match action {
            ActionModel::CheckLock => (self, EventModel::LockChecked(self.lock is Some)),
            ActionModel::CreateLock(data) => if self.lock is Some {
                (self, EventModel::LockCreated(Err(FlatFileTrackerError)))
            } else {
                (
                    FlatFileStore { lock: Some(data), database: self.database },
                    EventModel::LockCreated(Ok(())),
                )
            },
            ActionModel::ReadLock => match self.lock {
                Some(data) => (self, EventModel::LockRead(Ok(data))),
                None => (self, EventModel::LockRead(Err(FlatFileTrackerError))),
            },
            ActionModel::ReadDatabase => (
                self,
                EventModel::DatabaseRead(
                    Ok(
                        match self.database {
                            Some(_) => text,
                            None => Seq::empty(),
                        },
                    ),
                ),
            ),
            ActionModel::ParseDatabase(parsed) => (
                self,
                EventModel::DatabaseParsed(
                    match self.database {
                        Some(records) => if parsed == text {
                            Ok(records)
                        } else {
                            Err(FlatFileTrackerError)
                        },
                        None => Err(FlatFileTrackerError),
                    },
                ),
            ),
            ActionModel::SaveDatabase(records) => (
                FlatFileStore { lock: self.lock, database: Some(records) },
                EventModel::DatabaseSaved(Ok(())),
            ),
            ActionModel::RemoveLock => match self.lock {
                Some(_) => (
                    FlatFileStore { lock: None, database: self.database },
                    EventModel::LockRemoved(Ok(())),
                ),
                None => (self, EventModel::LockRemoved(Err(FlatFileTrackerError))),
            },
            _ => (self, EventModel::LockChecked(false)),
        }
    }
}

/// Runs an operation that stands at `step` with `action` pending on the files
/// `store`, for at most `fuel` pieces of file work, deciding with the clock
/// moment `now`: the files afterwards and the last action decided.
pub open spec fn drive(
    step: FlatFileStep,
    action: ActionModel,
    store: FlatFileStore,
    now: (i64, u32),
    text: Seq<char>,
    fuel: nat,
) -> (FlatFileStore, ActionModel)
    decreases fuel,
{
    if fuel == 0 {
        (store, action)
    } else {
        let (after, event) = store.perform(action, text);
        let (next, action2) = next_step(step, event, now);
        match next {
            None => (after, action2),
            Some(s) => drive(s, action2, after, now, text, (fuel - 1) as nat),
        }
    }
}

/// On files that never fail, starting at time `now` through the flat files
/// does what a tracker does (`TrackerView::after_start`): the files afterwards
/// hold the tracker state that starting gives, and starting answers the status
/// that it gives.
pub proof fn lemma_flatfile_start(store: FlatFileStore, now: (i64, u32), text: Seq<char>)
    ensures
        ({
            let (after, action) = drive(
                FlatFileStep::StartCheckLock,
                ActionModel::CheckLock,
                store,
                now,
                text,
                2,
            );
            let (view, status) = store.tracker_view().after_start(StartTime(now.0, now.1));
            &&& after.tracker_view() == view
            &&& action == ActionModel::FinishStart(Ok(status))
            &&& after.lock is Some
            &&& after.tracker_view().is_running()
        }),
{
    reveal_with_fuel(drive, 3);
}

/// On files that never fail, stopping at time `now` through the flat files
/// does what a tracker does (`TrackerView::after_stop`): where the tracker
/// runs, the files afterwards hold the state that stopping gives and stopping
/// succeeds; where it is idle, stopping fails and the files are as they were.
/// (`text`, the database file's text where it holds records, is not empty.)
pub proof fn lemma_flatfile_stop(store: FlatFileStore, now: (i64, u32), text: Seq<char>)
    requires
        text.len() > 0,
    ensures
        ({
            let (after, action) = drive(
                FlatFileStep::StopReadLock,
                ActionModel::ReadLock,
                store,
                now,
                text,
                5,
            );
            match store.tracker_view().after_stop(EndTime(now.0, now.1)) {
                Ok(view) => {
                    &&& after.tracker_view() == view
                    &&& action == ActionModel::FinishStop(Ok(()))
                    &&& after.lock is None
                    &&& !after.tracker_view().is_running()
                    &&& after.tracker_view().records.len() == store.tracker_view().records.len() + 1
                    &&& after.tracker_view().records.take(store.tracker_view().records.len() as int)
                        == store.tracker_view().records
                },
                Err(_) => after == store && action == ActionModel::FinishStop(
                    Err(FlatFileTrackerError),
                ),
            }
        }),
{
    reveal_with_fuel(drive, 6);
    let records = store.tracker_view().records;
    let record = TimeRecord { start: match store.lock { Some(d) => d.start_time, None => StartTime(0, 0) }, end: EndTime(now.0, now.1) };
    assert(records.push(record).take(records.len() as int) =~= records);
}

/// On files that never fail, listing the records through the flat files gives
/// the tracker's records and changes no file.
/// (`text`, the database file's text where it holds records, is not empty.)
pub proof fn lemma_flatfile_records(store: FlatFileStore, now: (i64, u32), text: Seq<char>)
    requires
        text.len() > 0,
    ensures
        drive(FlatFileStep::RecordsReadDatabase, ActionModel::ReadDatabase, store, now, text, 2) == (
            store,
            ActionModel::FinishRecords(Ok(store.tracker_view().records)),
        ),
{
    reveal_with_fuel(drive, 3);
}

/// Whatever the files do, starting succeeds only where the lockfile was found
/// (the tracker already runs: `Running`) or was just created and written
/// (`Started`): after a successful start the lockfile exists.
pub proof fn lemma_start_ok_only_with_lock(step: FlatFileStep, event: EventModel, now: (i64, u32))
    ensures
        next_step(step, event, now).1 matches ActionModel::FinishStart(Ok(status)) ==> {
            ||| step == FlatFileStep::StartCheckLock && event == EventModel::LockChecked(true)
                && status == StartupStatus::Running
            ||| step == FlatFileStep::StartCreateLock && event == EventModel::LockCreated(Ok(()))
                && status == StartupStatus::Started
        },
{
    match step {
        FlatFileStep::StartCheckLock => match event {
            EventModel::LockChecked(b) => {},
            _ => {},
        },
        FlatFileStep::StartCreateLock => match event {
            EventModel::LockCreated(r) => match r {
                Ok(u) => {},
                Err(e) => {},
            },
            _ => {},
        },
        _ => {},
    }
}

/// Whatever the files do, stopping succeeds only once the lockfile was
/// removed, and it goes on to remove the lockfile only once the database was
/// written: after a successful stop the tracker is idle and its record saved.
pub proof fn lemma_stop_ok_only_after_save_and_removal(
    step: FlatFileStep,
    event: EventModel,
    now: (i64, u32),
)
    ensures
        next_step(step, event, now).1 == ActionModel::FinishStop(Ok(())) ==> step
            == FlatFileStep::StopRemoveLock && event == EventModel::LockRemoved(Ok(())),
        next_step(step, event, now).0 == Some(FlatFileStep::StopRemoveLock) ==> step
            == FlatFileStep::StopSaveDatabase && event == EventModel::DatabaseSaved(Ok(())),
        next_step(step, event, now).0 == Some(FlatFileStep::StopSaveDatabase) ==> (
        next_step(step, event, now).1 is SaveDatabase),
{
    match step {
        FlatFileStep::StopRemoveLock => match event {
            EventModel::LockRemoved(r) => match r {
                Ok(u) => {},
                Err(e) => {},
            },
            _ => {},
        },
        FlatFileStep::StopSaveDatabase => match event {
            EventModel::DatabaseSaved(r) => match r {
                Ok(u) => {},
                Err(e) => {},
            },
            _ => {},
        },
        _ => {},
    }
}

/// Whatever the files do, the database that stopping writes is the one it
/// read, with the new record appended at the end: the old records stay, in
/// their order, and exactly one record is added.
pub proof fn lemma_stop_saves_records_with_one_appended(
    step: FlatFileStep,
    event: EventModel,
    now: (i64, u32),
)
    ensures
        next_step(step, event, now).1 matches ActionModel::SaveDatabase(saved) ==> {
            ||| step matches FlatFileStep::StopReadDatabase { record } && event
                == EventModel::DatabaseRead(Ok(Seq::<char>::empty())) && saved == Seq::<
                TimeRecord,
            >::empty().push(record)
            ||| step matches FlatFileStep::StopParseDatabase { record } && event matches EventModel::DatabaseParsed(Ok(read)) && saved
                == read.push(record)
        },
{
    if next_step(step, event, now).1 is SaveDatabase {
        if let EventModel::DatabaseRead(Ok(text)) = event {
            if text.len() == 0 {
                assert(text =~= Seq::<char>::empty());
            }
        }
    }
}

/// Whatever the files do, when stopping reads a database file that holds
/// text, it asks to parse exactly that text, and keeps the record it is adding.
pub proof fn lemma_stop_parses_the_text_read(record: TimeRecord, text: Seq<char>, now: (i64, u32))
    requires
        text.len() > 0,
    ensures
        next_step(FlatFileStep::StopReadDatabase { record }, EventModel::DatabaseRead(Ok(text)), now)
            == (Some(FlatFileStep::StopParseDatabase { record }), ActionModel::ParseDatabase(text)),
{
}

/// Whatever the files do, when listing the records reads a database file that
/// holds text, it asks to parse exactly that text.
pub proof fn lemma_records_parse_the_text_read(text: Seq<char>, now: (i64, u32))
    requires
        text.len() > 0,
    ensures
        next_step(FlatFileStep::RecordsReadDatabase, EventModel::DatabaseRead(Ok(text)), now) == (
            Some(FlatFileStep::RecordsParseDatabase),
            ActionModel::ParseDatabase(text),
        ),
{
}

/// Whatever the files do, the records that listing gives are the records
/// parsed from the file (none for an empty file), unchanged.
pub proof fn lemma_records_are_those_parsed(records: Seq<TimeRecord>, now: (i64, u32))
    ensures
        next_step(FlatFileStep::RecordsParseDatabase, EventModel::DatabaseParsed(Ok(records)), now)
            == (None::<FlatFileStep>, ActionModel::FinishRecords(Ok(records))),
        next_step(
            FlatFileStep::RecordsReadDatabase,
            EventModel::DatabaseRead(Ok(Seq::<char>::empty())),
            now,
        ) == (None::<FlatFileStep>, ActionModel::FinishRecords(Ok(Seq::<TimeRecord>::empty()))),
{
}

} // verus!
