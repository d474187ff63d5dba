//! Time tracking: start and end times, time records, and the `Tracker`
//! interface that storage backends implement.
//!
//! A tracker is in one of two situations: idle, or tracking since some start
//! time. Starting an idle tracker remembers the start time; stopping a running
//! tracker turns the start time and the current time into a `TimeRecord` that
//! is appended to the tracker's records. `TrackerView` is the mathematical model
//! of that state, and `TrackerView::after_start` / `TrackerView::after_stop`
//! say what the two operations do to it.

use vstd::prelude::*;

pub mod flatfile;
pub mod reporter;
pub mod tlib;

verus! {

/// Whether `ms` is a reading of the clock: milliseconds since the Unix epoch,
/// not negative and below 10^18.
pub open spec fn is_clock_reading(ms: i64) -> bool {
    0 <= ms < 1_000_000_000_000_000_000
}

/// Whether `now` is a reading of the clock as `clock_now` gives it:
/// milliseconds since the Unix epoch (a clock reading) and the nanoseconds
/// within the second, below 10^9, whose whole milliseconds are those of the
/// reading.
pub open spec fn is_clock_moment(now: (i64, u32)) -> bool {
    &&& is_clock_reading(now.0)
    &&& now.1 < 1_000_000_000
    &&& now.0 % 1000 == now.1 / 1_000_000
}

/// Reads the system clock through `chrono::Utc::now()` and returns its
/// `timestamp_millis()` (milliseconds since the Unix epoch) and its
/// `timestamp_subsec_nanos()` (nanoseconds within the second).
///
/// Stated: the pair is a clock moment (`is_clock_moment`). `Utc::now` takes
/// `SystemTime::now().duration_since(UNIX_EPOCH)` and panics where the clock
/// reads a time before the epoch, then builds the moment with
/// `DateTime::from_timestamp(secs, nanos).unwrap()` from the system time's
/// sub-second nanoseconds (below 10^9), which panics unless the day count fits
/// an `i32`; so the milliseconds are not negative and below 2^31 days, less
/// than 1.9 * 10^17. `timestamp_millis` is `timestamp() * 1000` plus the
/// nanoseconds' whole milliseconds. Which moment comes back is not stated: it
/// is whatever the clock says at the moment of the call. (Whether chrono
/// panics depends on the machine's clock and is not stated.)
#[verifier::external_body]
pub(crate) fn clock_now() -> (now: (i64, u32))
    ensures
        is_clock_moment(now),
{
    let now = chrono::Utc::now();
    (now.timestamp_millis(), now.timestamp_subsec_nanos())
}

/// The moment tracking started: milliseconds since the Unix epoch, and the
/// nanoseconds within the second (which keep the time's precision below the
/// millisecond; the tracker's decisions read the milliseconds).
#[derive(Debug, Clone, Copy, PartialEq, Eq, Structural)]
pub struct StartTime(pub i64, pub u32);

impl StartTime {
    /// The current time: a reading of the clock.
    pub fn now() -> (t: StartTime)
        ensures
            is_clock_moment((t.0, t.1)),
    {
        let (millis, nanos) = clock_now();
        StartTime(millis, nanos)
    }

    /// Milliseconds since the Unix epoch.
    pub fn timestamp_millis(&self) -> (ms: i64)
        ensures
            ms == self.0,
    {
        self.0
    }
}

/// The moment tracking ended: milliseconds since the Unix epoch, and the
/// nanoseconds within the second.
#[derive(Debug, Clone, Copy, PartialEq, Eq, Structural)]
pub struct EndTime(pub i64, pub u32);

impl EndTime {
    /// The current time: a reading of the clock.
    pub fn now() -> (t: EndTime)
        ensures
            is_clock_moment((t.0, t.1)),
    {
        let (millis, nanos) = clock_now();
        EndTime(millis, nanos)
    }

    /// Milliseconds since the Unix epoch.
    pub fn timestamp_millis(&self) -> (ms: i64)
        ensures
            ms == self.0,
    {
        self.0
    }
}

/// One tracked span of time.
#[derive(Debug, Clone, Copy, PartialEq, Eq, Structural)]
pub struct TimeRecord {
    pub start: StartTime,
    pub end: EndTime,
}

impl TimeRecord {
    /// The length of the span in milliseconds (negative where the clock went back).
    pub open spec fn span_millis(self) -> int {
        self.end.0 - self.start.0
    }
}

/// What `Tracker::start` found.
#[derive(Debug, Clone, Copy, PartialEq, Eq, Structural)]
pub enum StartupStatus {
    /// The tracker was idle and now tracks.
    Started,
    /// The tracker was already tracking; nothing changed.
    Running,
}

/// A tracker operation failed.
#[derive(Debug, Clone, Copy, PartialEq, Eq, Structural)]
pub struct TrackerError;

/// The state of a tracker: the start time while it tracks, and its records.
pub struct TrackerView {
    pub tracking: Option<StartTime>,
    pub records: Seq<TimeRecord>,
}

impl TrackerView {
    /// A tracker that has never been used.
    pub open spec fn idle() -> TrackerView {
        TrackerView { tracking: None, records: Seq::empty() }
    }

    /// Whether the tracker is tracking.
    pub open spec fn is_running(self) -> bool {
        self.tracking is Some
    }

    /// Starting at time `now`: an idle tracker starts tracking from `now`; a
    /// running one is left as it is and reports that it is running.
    pub open spec fn after_start(self, now: StartTime) -> (TrackerView, StartupStatus) {
        match self.tracking {
            Some(_) => (self, StartupStatus::Running),
            None => (TrackerView { tracking: Some(now), records: self.records }, StartupStatus::Started),
        }
    }

    /// Stopping at time `end`: a running tracker becomes idle and appends the
    /// record from its start time to `end`; stopping an idle tracker fails.
    pub open spec fn after_stop(self, end: EndTime) -> Result<TrackerView, TrackerError> {
        match self.tracking {
            Some(start) => Ok(
                TrackerView {
                    tracking: None,
                    records: self.records.push(TimeRecord { start, end }),
                },
            ),
            None => Err(TrackerError),
        }
    }
}

/// Tracker trait for generic time tracking implementations on various storage backends.
///
/// The contract of each method says what holds whatever the backend's storage
/// does; an implementation states more where its storage cannot fail.
pub trait Tracker {
    /// The tracker's state as the contracts see it.
    spec fn tracker_view(&self) -> TrackerView;

    /// Starts tracking. Where the tracker already tracks, the answer is
    /// `Running` and nothing changes. An `Ok(Started)` comes only from an idle
    /// tracker, which then tracks from some start time.
    fn start(&mut self) -> (r: Result<StartupStatus, TrackerError>)
        ensures
            old(self).tracker_view().is_running() ==> r == Ok::<StartupStatus, TrackerError>(
                StartupStatus::Running,
            ) && final(self).tracker_view() == old(self).tracker_view(),
            r matches Ok(status) ==> exists|now: StartTime|
                #[trigger] old(self).tracker_view().after_start(now) == (
                    final(self).tracker_view(),
                    status,
                ),
    ;

    /// Whether the tracker tracks.
    fn is_running(&self) -> (b: bool)
        ensures
            b == self.tracker_view().is_running(),
    ;

    /// Stops tracking. Stopping an idle tracker fails; a stop that succeeds
    /// leaves the tracker idle with one more record, from the start time to
    /// some end time.
    fn stop(&mut self) -> (r: Result<(), TrackerError>)
        ensures
            !old(self).tracker_view().is_running() ==> r is Err,
            r is Ok ==> exists|end: EndTime|
                #[trigger] old(self).tracker_view().after_stop(end) == Ok::<
                    TrackerView,
                    TrackerError,
                >(final(self).tracker_view()),
    ;

    /// The tracker's records, oldest first.
    fn records(&self) -> (r: Result<Vec<TimeRecord>, TrackerError>)
        ensures
            r matches Ok(v) ==> v@ == self.tracker_view().records,
    ;
}

/// Starting an idle tracker makes it run and keeps its records; starting a
/// running one changes nothing.
pub proof fn lemma_start_runs(v: TrackerView, now: StartTime)
    ensures
        v.after_start(now).0.is_running(),
        v.after_start(now).0.records == v.records,
        !v.is_running() ==> v.after_start(now) == (
            TrackerView { tracking: Some(now), records: v.records },
            StartupStatus::Started,
        ),
        v.is_running() ==> v.after_start(now) == (v, StartupStatus::Running),
{
}

/// Starting twice is starting once: the second start answers `Running` and
/// leaves the state that the first start made.
pub proof fn lemma_start_twice(v: TrackerView, first: StartTime, second: StartTime)
    ensures
        v.after_start(first).0.after_start(second) == (v.after_start(first).0, StartupStatus::Running),
{
}

/// Stopping a tracker that is not running fails and leaves nothing to change.
pub proof fn lemma_stop_idle(v: TrackerView, end: EndTime)
    requires
        !v.is_running(),
    ensures
        v.after_stop(end) == Err::<TrackerView, TrackerError>(TrackerError),
{
}

/// A start followed by a stop on an idle tracker leaves it idle, with exactly
/// one new record, from the start time to the end time, after the old ones.
pub proof fn lemma_start_stop(v: TrackerView, now: StartTime, end: EndTime)
    requires
        !v.is_running(),
    ensures
        v.after_start(now).0.after_stop(end) == Ok::<TrackerView, TrackerError>(
            TrackerView { tracking: None, records: v.records.push(TimeRecord { start: now, end }) },
        ),
        v.after_start(now).0.after_stop(end)->Ok_0.records.len() == v.records.len() + 1,
        v.after_start(now).0.after_stop(end)->Ok_0.records.last() == (TimeRecord {
            start: now,
            end,
        }),
        v.after_start(now).0.after_stop(end)->Ok_0.records.drop_last() == v.records,
{
    assert(v.records.push(TimeRecord { start: now, end }).drop_last() =~= v.records);
}

/// A stop, successful or not, leaves the tracker idle, so it can be started again.
pub proof fn lemma_stop_then_start(v: TrackerView, end: EndTime, now: StartTime)
    ensures
        ({
            let after = match v.after_stop(end) {
                Ok(w) => w,
                Err(_) => v,
            };
            &&& !after.is_running()
            &&& after.after_start(now).1 == StartupStatus::Started
        }),
{
}

} // verus!
