//! An in-memory tracker: the start time and the records live in the value
//! itself, so nothing can fail but stopping an idle tracker.

use vstd::prelude::*;

use super::{is_clock_moment, EndTime, StartTime, StartupStatus, TimeRecord, Tracker, TrackerError, TrackerView};

verus! {

/// A tracker that keeps its state in memory.
#[derive(Debug)]
pub struct FakeTracker {
    tracking: Option<StartTime>,
    records: Vec<TimeRecord>,
}

impl FakeTracker {
    /// The tracker's state.
    pub closed spec fn model(&self) -> TrackerView {
        TrackerView { tracking: self.tracking, records: self.records@ }
    }

    /// Starts tracking at `now`; does what `TrackerView::after_start` says.
    pub fn start_at(&mut self, now: StartTime) -> (status: StartupStatus)
        ensures
            old(self).model().after_start(now) == (final(self).model(), status),
    {
        if self.tracking.is_some() {
            StartupStatus::Running
        } else {
            self.tracking = Some(now);
            StartupStatus::Started
        }
    }

    /// Stops tracking at `end`; does what `TrackerView::after_stop` says, and
    /// changes nothing where it fails.
    pub fn stop_at(&mut self, end: EndTime) -> (r: Result<(), TrackerError>)
        ensures
            match old(self).model().after_stop(end) {
                Ok(v) => r is Ok && final(self).model() == v,
                Err(e) => r == Err::<(), TrackerError>(e) && final(self).model() == old(
                    self,
                ).model(),
            },
    {
        match self.tracking {
            None => Err(TrackerError),
            Some(start) => {
                self.tracking = None;
                self.records.push(TimeRecord { start, end });
                Ok(())
            },
        }
    }
}

impl Default for FakeTracker {
    fn default() -> (t: FakeTracker)
        ensures
            t.model() == TrackerView::idle(),
    {
        FakeTracker { tracking: None, records: Vec::new() }
    }
}

impl Tracker for FakeTracker {
    open spec fn tracker_view(&self) -> TrackerView {
        self.model()
    }

    /// Starts tracking from the current time, a reading of the clock; never fails.
    fn start(&mut self) -> (r: Result<StartupStatus, TrackerError>)
        ensures
            r matches Ok(status) && exists|now: StartTime|
                is_clock_moment((now.0, now.1)) && #[trigger] old(self).model().after_start(now) == (
                    final(self).model(),
                    status,
                ),
    {
        let now = StartTime::now();
        let ghost before = self.tracker_view();
        let status = self.start_at(now);
        assert(before.after_start(now) == (self.tracker_view(), status));
        Ok(status)
    }

    fn is_running(&self) -> (b: bool) {
        self.tracking.is_some()
    }

    /// Stops tracking at the current time, a reading of the clock; fails
    /// exactly where the tracker is idle, and then changes nothing.
    fn stop(&mut self) -> (r: Result<(), TrackerError>)
        ensures
            r is Ok <==> old(self).model().is_running(),
            r is Err ==> final(self).model() == old(self).model(),
            r is Ok ==> exists|end: EndTime|
                is_clock_moment((end.0, end.1)) && #[trigger] old(self).model().after_stop(end) == Ok::<
                    TrackerView,
                    TrackerError,
                >(final(self).model()),
    {
        let end = EndTime::now();
        let ghost before = self.tracker_view();
        let r = self.stop_at(end);
        if r.is_ok() {
            assert(before.after_stop(end) == Ok::<TrackerView, TrackerError>(self.tracker_view()));
        }
        r
    }

    /// Never fails.
    fn records(&self) -> (r: Result<Vec<TimeRecord>, TrackerError>)
        ensures
            r is Ok,
    {
        Ok(self.records.clone())
    }
}

} // verus!
