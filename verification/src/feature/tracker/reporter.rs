//! Reports over a tracker's records: the total tracked time of the records
//! that ended within a recent window.

use std::time::Duration;

use vstd::prelude::*;

use super::tlib::FakeTracker;
use super::{is_clock_moment, is_clock_reading, EndTime, TimeRecord, Tracker, TrackerError, TrackerView};

verus! {

/// A report could not be made.
#[derive(Debug, Clone, Copy, PartialEq, Eq, Structural)]
pub struct ReporterError;

/// Which records a report covers.
#[derive(Debug, Clone, Copy)]
pub enum ReportTimespan {
    /// The records that ended no earlier than this long before now.
    Last(Duration),
}

/// Whether `record` falls in a window that begins at `cutoff` (milliseconds
/// since the Unix epoch): it ended at or after the cutoff. A record that
/// began before the window but ended in it counts with its whole span.
pub open spec fn in_window(record: TimeRecord, cutoff: int) -> bool {
    record.end.0 >= cutoff
}

/// The summed span, in milliseconds, of the records in the window that
/// begins at `cutoff`.
pub open spec fn window_total(records: Seq<TimeRecord>, cutoff: int) -> int
    decreases records.len(),
{
    if records.len() == 0 {
        0
    } else {
        window_total(records.drop_last(), cutoff) + if in_window(records.last(), cutoff) {
            records.last().span_millis()
        } else {
            0
        }
    }
}

/// Whether an `i64` holds `x`.
pub open spec fn fits_i64(x: int) -> bool {
    i64::MIN <= x <= i64::MAX
}

/// Whether summing the window in `i64`, record by record and oldest first,
/// stays in range: each span of a record in the window and each running total
/// fits.
pub open spec fn window_fits(records: Seq<TimeRecord>, cutoff: int) -> bool
    decreases records.len(),
{
    if records.len() == 0 {
        true
    } else {
        &&& window_fits(records.drop_last(), cutoff)
        &&& in_window(records.last(), cutoff) ==> {
            &&& fits_i64(records.last().span_millis())
            &&& fits_i64(window_total(records, cutoff))
        }
    }
}

/// What `std::time::Duration::as_nanos` returns for `d`: its length in nanoseconds.
pub uninterp spec fn duration_nanos(d: Duration) -> u128;

/// What `std::time::Duration::from_millis` returns for `ms`.
pub uninterp spec fn millis_duration(ms: u64) -> Duration;

/// `std::time::Duration::from_millis`: its result is named `millis_duration(ms)`,
/// and, as std documents, it is a duration of `ms` milliseconds, whose
/// `as_nanos` is `ms * 10^6`.
#[verifier::external_body]
fn duration_from_millis(ms: u64) -> (d: Duration)
    ensures
        d == millis_duration(ms),
        duration_nanos(d) == ms * 1_000_000,
{
    Duration::from_millis(ms)
}

/// Whether a window that reaches `span_ns` nanoseconds back from now surely
/// begins within the dates that chrono represents: spans up to 8 * 10^21
/// nanoseconds (8 * 10^15 milliseconds, about 253,000 years).
pub open spec fn representable_span(span_ns: u128) -> bool {
    span_ns <= 8_000_000_000_000_000_000_000
}

/// The clock moment `now` in nanoseconds since the Unix epoch: its whole
/// seconds (from its milliseconds) and its nanoseconds within the second.
pub open spec fn moment_nanos(now: (i64, u32)) -> int {
    (now.0 / 1000) * 1_000_000_000 + now.1
}

/// The start, in milliseconds since the Unix epoch, of the window that
/// reaches `span_ns` nanoseconds back from the clock moment `now`: the floor
/// of the moment less the span, in milliseconds.
pub open spec fn window_start(now: (i64, u32), span_ns: u128) -> int {
    (moment_nanos(now) - span_ns) / 1_000_000
}

/// Whether `cutoff` begins a window that reaches `span_ns` nanoseconds back
/// from some moment `now` of the clock.
pub open spec fn cutoff_of_span(cutoff: i64, span_ns: u128) -> bool {
    exists|now: (i64, u32)| is_clock_moment(now) && cutoff == #[trigger] window_start(now, span_ns)
}

/// `chrono::Utc::now() - span`, as milliseconds since the Unix epoch: the span
/// goes through `chrono::TimeDelta::from_std`, is subtracted with
/// `DateTime::checked_sub_signed`, and the moment is read with
/// `timestamp_millis`. `None` where either chrono step is out of range.
///
/// Stated, from chrono's source: `from_std` fails only for spans over
/// `i64::MAX / 1000` seconds, and `checked_sub_signed` only below the year
/// -262143, so for a clock after 1970 and a span of at most 8 * 10^21
/// nanoseconds the result is `Some`. The subtraction is exact to the
/// nanosecond, and `timestamp_millis` of the difference (whole seconds times
/// 1000 plus the whole milliseconds of its sub-second nanoseconds) is its
/// floor in milliseconds: `window_start` of the clock's moment (`Utc::now`
/// gives its seconds and sub-second nanoseconds, as in `clock_now`) and the
/// span's `as_nanos`. Which moment is not stated: it depends on the clock.
#[verifier::external_body]
fn cutoff_before_now(span: Duration) -> (cutoff: Option<i64>)
    ensures
        representable_span(duration_nanos(span)) ==> cutoff is Some,
        cutoff matches Some(c) ==> cutoff_of_span(c, duration_nanos(span)),
{
    match chrono::TimeDelta::from_std(span) {
        Ok(delta) => match chrono::Utc::now().checked_sub_signed(delta) {
            Some(moment) => Some(moment.timestamp_millis()),
            None => None,
        },
        Err(_) => None,
    }
}

impl ReportTimespan {
    /// How far back the window reaches, in nanoseconds.
    pub open spec fn span_nanos(self) -> u128 {
        match self {
            ReportTimespan::Last(span) => duration_nanos(span),
        }
    }

    /// The timespan of the last `ms` milliseconds.
    pub fn last_millis(ms: u64) -> (t: ReportTimespan)
        ensures
            t == ReportTimespan::Last(millis_duration(ms)),
            t.span_nanos() == ms * 1_000_000,
    {
        ReportTimespan::Last(duration_from_millis(ms))
    }

    /// Where the window of this timespan begins, by the clock at the time of
    /// the call: the clock's moment less the span, floored to the millisecond
    /// (`cutoff_of_span`). There is one for every span of at most 8 * 10^21
    /// nanoseconds; `None` stands for a start outside the dates that chrono
    /// can represent.
    pub fn cutoff_millis(&self) -> (cutoff: Option<i64>)
        ensures
            representable_span(self.span_nanos()) ==> cutoff is Some,
            cutoff matches Some(c) ==> cutoff_of_span(c, self.span_nanos()),
    {
        match self {
            ReportTimespan::Last(span) => cutoff_before_now(*span),
        }
    }
}

/// A prefix of a sequence whose window sum fits has a window sum that fits.
proof fn lemma_window_fits_prefix(records: Seq<TimeRecord>, cutoff: int, k: int)
    requires
        window_fits(records, cutoff),
        0 <= k <= records.len(),
    ensures
        window_fits(records.take(k), cutoff),
    decreases records.len(),
{
    if k == records.len() {
        assert(records.take(k) =~= records);
    } else {
        assert(records.drop_last().take(k) =~= records.take(k));
        lemma_window_fits_prefix(records.drop_last(), cutoff, k);
    }
}

/// Where a window's sum fits, its total fits an `i64`.
proof fn lemma_window_fits_total(records: Seq<TimeRecord>, cutoff: int)
    requires
        window_fits(records, cutoff),
    ensures
        fits_i64(window_total(records, cutoff)),
    decreases records.len(),
{
    if records.len() > 0 {
        lemma_window_fits_total(records.drop_last(), cutoff);
    }
}

/// The summed span, in milliseconds, of the records that ended at or after
/// `cutoff`, added up oldest first; `None` where a span or a running total
/// leaves the range of `i64`.
pub fn window_total_millis(records: &Vec<TimeRecord>, cutoff: i64) -> (total: Option<i64>)
    ensures
        total == if window_fits(records@, cutoff as int) {
            Some(window_total(records@, cutoff as int) as i64)
        } else {
            None::<i64>
        },
{
    let mut total: i64 = 0;
    let mut i: usize = 0;
    assert(records@.take(0) =~= Seq::<TimeRecord>::empty());
    while i < records.len()
        invariant
            i <= records.len(),
            window_fits(records@.take(i as int), cutoff as int),
            total == window_total(records@.take(i as int), cutoff as int),
        decreases records.len() - i,
    {
        let ghost next = records@.take(i + 1);
        assert(next.drop_last() =~= records@.take(i as int));
        let record = records[i];
        if record.end.timestamp_millis() >= cutoff {
            match record.end.timestamp_millis().checked_sub(record.start.timestamp_millis()) {
                None => {
                    proof {
                        if window_fits(records@, cutoff as int) {
                            lemma_window_fits_prefix(records@, cutoff as int, i + 1);
                        }
                    }
                    return None;
                },
                Some(ms) => match total.checked_add(ms) {
                    None => {
                        proof {
                            if window_fits(records@, cutoff as int) {
                                lemma_window_fits_prefix(records@, cutoff as int, i + 1);
                            }
                        }
                        return None;
                    },
                    Some(t) => {
                        total = t;
                    },
                },
            }
        }
        i = i + 1;
    }
    assert(records@.take(records@.len() as int) =~= records@);
    Some(total)
}

/// The tracked time of the window that begins at `cutoff`: the window's total
/// in milliseconds, cast to `u64` (a negative total wraps around), as a
/// `Duration`; `None` where the total does not fit an `i64`.
pub fn duration_since(records: &Vec<TimeRecord>, cutoff: i64) -> (d: Option<Duration>)
    ensures
        d == if window_fits(records@, cutoff as int) {
            Some(millis_duration(window_total(records@, cutoff as int) as u64))
        } else {
            None::<Duration>
        },
        d matches Some(dur) ==> duration_nanos(dur) == (window_total(records@, cutoff as int) as u64)
            * 1_000_000,
{
    proof {
        if window_fits(records@, cutoff as int) {
            lemma_window_fits_total(records@, cutoff as int);
        }
    }
    match window_total_millis(records, cutoff) {
        Some(total) => Some(duration_from_millis(#[verifier::truncate] (total as u64))),
        None => None,
    }
}

/// The records that a tracker gave, or its error, with the records taken by their view.
pub open spec fn records_outcome(records: &Result<Vec<TimeRecord>, TrackerError>) -> Result<
    Seq<TimeRecord>,
    TrackerError,
> {
    match records {
        Ok(v) => Ok(v@),
        Err(e) => Err(*e),
    }
}

/// The report for the window that begins at `cutoff` over `records`: where
/// both are there and the window's sum fits an `i64`, the tracked time of the
/// window (as `duration_since` gives it); otherwise `ReporterError`.
pub open spec fn report_result(
    cutoff: Option<i64>,
    records: Result<Seq<TimeRecord>, TrackerError>,
) -> Result<Duration, ReporterError> {
    match cutoff {
        Some(c) => match records {
            Ok(s) => if window_fits(s, c as int) {
                Ok(millis_duration(window_total(s, c as int) as u64))
            } else {
                Err(ReporterError)
            },
            Err(_) => Err(ReporterError),
        },
        None => Err(ReporterError),
    }
}

/// Whether `d` holds the tracked time that the report for `cutoff` and
/// `records` counts: its whole milliseconds (as `u64`), in nanoseconds.
pub open spec fn reports_millis(
    d: Duration,
    cutoff: Option<i64>,
    records: Result<Seq<TimeRecord>, TrackerError>,
) -> bool {
    &&& cutoff is Some
    &&& records is Ok
    &&& duration_nanos(d) == (window_total(records->Ok_0, cutoff->Some_0 as int) as u64) * 1_000_000
}

/// Makes the report from the window's start and the tracker's answer:
/// exactly `report_result`.
pub fn report(cutoff: Option<i64>, records: Result<Vec<TimeRecord>, TrackerError>) -> (r: Result<
    Duration,
    ReporterError,
>)
    ensures
        r == report_result(cutoff, records_outcome(&records)),
        r matches Ok(d) ==> reports_millis(d, cutoff, records_outcome(&records)),
{
    match cutoff {
        None => Err(ReporterError),
        Some(c) => match records {
            Ok(v) => match duration_since(&v, c) {
                Some(d) => Ok(d),
                None => Err(ReporterError),
            },
            Err(_) => Err(ReporterError),
        },
    }
}

/// Whether `r` is the report of `timespan` over a tracker whose records are
/// `records`, for some window start `cutoff` and some answer `outcome` of the
/// tracker: a start read from the clock as `cutoff_millis` says, present for
/// every representable span, and an answer that, where it is not an error,
/// holds the tracker's records.
pub open spec fn is_report_of(
    r: Result<Duration, ReporterError>,
    timespan: ReportTimespan,
    records: Seq<TimeRecord>,
    cutoff: Option<i64>,
    outcome: Result<Seq<TimeRecord>, TrackerError>,
) -> bool {
    &&& representable_span(timespan.span_nanos()) ==> cutoff is Some
    &&& cutoff matches Some(c) ==> cutoff_of_span(c, timespan.span_nanos())
    &&& outcome matches Ok(s) ==> s == records
    &&& r == report_result(cutoff, outcome)
    &&& r matches Ok(d) ==> reports_millis(d, cutoff, outcome)
}

/// Reports over the records of a tracker.
pub trait Reporter: Tracker {
    /// The tracked time of the records that ended within `timespan` of now.
    /// The window's start is read from the clock first (`cutoff_millis`); where
    /// it lies outside the dates that chrono can represent, the report fails
    /// without asking for the records. Otherwise the tracker's records are
    /// asked for, and the result is `report_result` of the two answers: the
    /// tracked time of the window where the records came and their sum fits
    /// an `i64`, `ReporterError` otherwise.
    fn total_duration(&self, timespan: ReportTimespan) -> (r: Result<Duration, ReporterError>)
        ensures
            exists|cutoff: Option<i64>, outcome: Result<Seq<TimeRecord>, TrackerError>|
                #[trigger] is_report_of(r, timespan, self.tracker_view().records, cutoff, outcome),
    {
        match timespan.cutoff_millis() {
            None => {
                assert(is_report_of(
                    Err(ReporterError),
                    timespan,
                    self.tracker_view().records,
                    None,
                    Ok(self.tracker_view().records),
                ));
                Err(ReporterError)
            },
            Some(c) => {
                let records = self.records();
                let ghost outcome = records_outcome(&records);
                let r = report(Some(c), records);
                assert(is_report_of(r, timespan, self.tracker_view().records, Some(c), outcome));
                r
            },
        }
    }
}

impl Reporter for FakeTracker {
    /// As `Reporter::total_duration`; the records always come, so the report
    /// is that of the tracker's records for a window start read from the
    /// clock, and it succeeds for every representable span whose window's
    /// sum fits an `i64`.
    fn total_duration(&self, timespan: ReportTimespan) -> (r: Result<Duration, ReporterError>)
        ensures
            exists|cutoff: Option<i64>|
                #[trigger] is_report_of(
                    r,
                    timespan,
                    self.model().records,
                    cutoff,
                    Ok(self.model().records),
                ),
    {
        match timespan.cutoff_millis() {
            None => {
                assert(is_report_of(
                    Err(ReporterError),
                    timespan,
                    self.model().records,
                    None,
                    Ok(self.model().records),
                ));
                Err(ReporterError)
            },
            Some(c) => {
                let records = self.records();
                let ghost outcome = records_outcome(&records);
                let r = report(Some(c), records);
                assert(is_report_of(r, timespan, self.model().records, Some(c), outcome));
                r
            },
        }
    }
}

/// A tracker without records reports no tracked time, whatever the window.
pub proof fn lemma_no_records_no_time(cutoff: int)
    ensures
        window_total(Seq::<TimeRecord>::empty(), cutoff) == 0,
        window_fits(Seq::<TimeRecord>::empty(), cutoff),
{
}

/// An idle tracker that has no records reports zero tracked time, for every
/// representable span: the report succeeds.
pub proof fn lemma_empty_report_is_zero(
    timespan: ReportTimespan,
    r: Result<Duration, ReporterError>,
    cutoff: Option<i64>,
)
    requires
        is_report_of(r, timespan, Seq::empty(), cutoff, Ok(Seq::empty())),
        representable_span(timespan.span_nanos()),
    ensures
        r == Ok::<Duration, ReporterError>(millis_duration(0)),
        duration_nanos(r->Ok_0) == 0,
{
}

/// Appending a record adds its span to the total of every window it falls
/// in, and leaves the total of the other windows as it was.
pub proof fn lemma_window_total_push(records: Seq<TimeRecord>, record: TimeRecord, cutoff: int)
    ensures
        window_total(records.push(record), cutoff) == window_total(records, cutoff) + if in_window(
            record,
            cutoff,
        ) {
            record.span_millis()
        } else {
            0
        },
{
    assert(records.push(record).drop_last() =~= records);
}

/// Stopping a running tracker adds the span of the new record to the report
/// of every window that holds its end time, and leaves the report of every
/// other window as it was.
pub proof fn lemma_stop_adds_span(v: TrackerView, end: EndTime, cutoff: int)
    requires
        v.is_running(),
    ensures
        window_total(v.after_stop(end)->Ok_0.records, cutoff) == window_total(v.records, cutoff)
            + if end.0 >= cutoff {
            end.0 - v.tracking->Some_0.0
        } else {
            0
        },
{
    lemma_window_total_push(v.records, TimeRecord { start: v.tracking->Some_0, end }, cutoff);
}

/// Whether no record runs backwards: each ends no earlier than it starts.
pub open spec fn spans_nonnegative(records: Seq<TimeRecord>) -> bool {
    forall|i: int| 0 <= i < records.len() ==> #[trigger] records[i].span_millis() >= 0
}

/// Dropping the last record keeps every record running forwards.
proof fn lemma_spans_nonnegative_drop_last(records: Seq<TimeRecord>)
    requires
        spans_nonnegative(records),
        records.len() > 0,
    ensures
        spans_nonnegative(records.drop_last()),
{
    assert forall|i: int| 0 <= i < records.drop_last().len() implies #[trigger] records.drop_last()[
        i
    ].span_millis() >= 0 by {
        assert(records.drop_last()[i] == records[i]);
    }
}

/// Where no record runs backwards, every window's total is at least zero, so
/// its cast to `u64` keeps it.
pub proof fn lemma_window_total_nonnegative(records: Seq<TimeRecord>, cutoff: int)
    requires
        spans_nonnegative(records),
    ensures
        window_total(records, cutoff) >= 0,
    decreases records.len(),
{
    if records.len() > 0 {
        assert(records.last() == records[records.len() - 1]);
        lemma_spans_nonnegative_drop_last(records);
        lemma_window_total_nonnegative(records.drop_last(), cutoff);
    }
}

/// Where no record runs backwards, a window that begins earlier counts at
/// least as much time as one that begins later.
pub proof fn lemma_window_total_monotone(records: Seq<TimeRecord>, earlier: int, later: int)
    requires
        spans_nonnegative(records),
        earlier <= later,
    ensures
        window_total(records, later) <= window_total(records, earlier),
    decreases records.len(),
{
    if records.len() > 0 {
        assert(records.last() == records[records.len() - 1]);
        lemma_spans_nonnegative_drop_last(records);
        lemma_window_total_monotone(records.drop_last(), earlier, later);
    }
}

/// With the same moment of the clock, a longer span begins its window no
/// later, so (where no record runs backwards) it counts at least as much
/// tracked time.
pub proof fn lemma_longer_span_no_less_time(
    records: Seq<TimeRecord>,
    now: (i64, u32),
    short_ns: u128,
    long_ns: u128,
)
    requires
        spans_nonnegative(records),
        short_ns <= long_ns,
    ensures
        window_start(now, long_ns) <= window_start(now, short_ns),
        window_total(records, window_start(now, short_ns)) <= window_total(
            records,
            window_start(now, long_ns),
        ),
{
    vstd::arithmetic::div_mod::lemma_div_is_ordered(
        moment_nanos(now) - long_ns,
        moment_nanos(now) - short_ns,
        1_000_000,
    );
    lemma_window_total_monotone(records, window_start(now, long_ns), window_start(now, short_ns));
}

/// The start of a window is the clock's reading in milliseconds less the
/// span's whole milliseconds, or one less where the sub-millisecond parts of
/// the clock and of the span borrow.
pub proof fn lemma_window_start_bounds(now: (i64, u32), span_ns: u128)
    requires
        is_clock_moment(now),
    ensures
        now.0 - span_ns / 1_000_000 - 1 <= window_start(now, span_ns) <= now.0 - span_ns / 1_000_000,
{
    let secs = now.0 / 1000;
    let n = now.1 as int;
    let s = span_ns as int;
    assert(now.0 == secs * 1000 + n / 1_000_000) by {
        vstd::arithmetic::div_mod::lemma_fundamental_div_mod(now.0 as int, 1000);
    }
    assert(moment_nanos(now) == secs * 1_000_000_000 + n);
    vstd::arithmetic::div_mod::lemma_fundamental_div_mod(n, 1_000_000);
    vstd::arithmetic::div_mod::lemma_fundamental_div_mod(s, 1_000_000);
    let nq = n / 1_000_000;
    let nr = n % 1_000_000;
    let sq = s / 1_000_000;
    let sr = s % 1_000_000;
    assert(moment_nanos(now) - s == (secs * 1000 + nq - sq) * 1_000_000 + (nr - sr)) by (nonlinear_arith)
        requires
            moment_nanos(now) == secs * 1_000_000_000 + n,
            n == 1_000_000 * nq + nr,
            s == 1_000_000 * sq + sr,
    ;
    let q = secs * 1000 + nq - sq;
    vstd::arithmetic::div_mod::lemma_mod_bound(n, 1_000_000);
    vstd::arithmetic::div_mod::lemma_mod_bound(s, 1_000_000);
    if nr >= sr {
        vstd::arithmetic::div_mod::lemma_fundamental_div_mod_converse(
            moment_nanos(now) - s,
            1_000_000,
            q,
            nr - sr,
        );
    } else {
        assert(moment_nanos(now) - s == (q - 1) * 1_000_000 + (nr - sr + 1_000_000)) by (nonlinear_arith)
            requires
                moment_nanos(now) - s == q * 1_000_000 + (nr - sr),
        ;
        vstd::arithmetic::div_mod::lemma_fundamental_div_mod_converse(
            moment_nanos(now) - s,
            1_000_000,
            q - 1,
            nr - sr + 1_000_000,
        );
    }
}

/// A record outside a window, put anywhere among the records, changes
/// neither the window's total nor whether its sum fits: the report of the
/// window is the same with it and without it.
pub proof fn lemma_record_outside_window(
    records: Seq<TimeRecord>,
    i: int,
    extra: TimeRecord,
    cutoff: int,
)
    requires
        0 <= i <= records.len(),
        !in_window(extra, cutoff),
    ensures
        window_total(records.insert(i, extra), cutoff) == window_total(records, cutoff),
        window_fits(records.insert(i, extra), cutoff) == window_fits(records, cutoff),
        forall|c: i64|
            cutoff == c ==> #[trigger] report_result(Some(c), Ok(records.insert(i, extra)))
                == report_result(Some(c), Ok(records)),
    decreases records.len(),
{
    let bigger = records.insert(i, extra);
    if i == records.len() {
        assert(bigger.drop_last() =~= records);
        assert(bigger.last() == extra);
    } else {
        assert(bigger.drop_last() =~= records.drop_last().insert(i, extra));
        assert(bigger.last() == records.last());
        lemma_record_outside_window(records.drop_last(), i, extra, cutoff);
    }
}

/// A record from one reading of the clock to another has a span that fits an
/// `i64`, as every step of summing such records needs.
pub proof fn lemma_clock_span_fits(record: TimeRecord)
    requires
        is_clock_reading(record.start.0),
        is_clock_reading(record.end.0),
    ensures
        fits_i64(record.span_millis()),
{
}

/// Whether adding up the window's spans oldest first stays within `i64`
/// all the way: for each record in the window, its span and the total of the
/// window up to and including it lie in `[i64::MIN, i64::MAX]`.
pub open spec fn sum_stays_in_i64(records: Seq<TimeRecord>, cutoff: int) -> bool {
    forall|i: int|
        0 <= i < records.len() && #[trigger] in_window(records[i], cutoff) ==> {
            &&& i64::MIN <= records[i].span_millis() <= i64::MAX
            &&& i64::MIN <= window_total(records.take(i + 1), cutoff) <= i64::MAX
        }
}

/// The sum of a window fits exactly where every span in the window and every
/// running total lies in the range of `i64`: so `window_total_millis` gives
/// the window's total, and a report succeeds with it, for all such records,
/// and fails only on an overflow of `i64`.
pub proof fn lemma_window_fits_exactly_without_overflow(records: Seq<TimeRecord>, cutoff: int)
    ensures
        window_fits(records, cutoff) == sum_stays_in_i64(records, cutoff),
    decreases records.len(),
{
    if records.len() > 0 {
        let init = records.drop_last();
        let n = records.len() - 1;
        lemma_window_fits_exactly_without_overflow(init, cutoff);
        assert(records.take(n + 1) =~= records);
        assert(records[n] == records.last());
        assert forall|i: int| 0 <= i < init.len() implies records[i] == init[i] && records.take(i + 1)
            == init.take(i + 1) by {
            assert(records.take(i + 1) =~= init.take(i + 1));
        }
        if window_fits(records, cutoff) {
            assert forall|i: int|
                0 <= i < records.len() && #[trigger] in_window(records[i], cutoff) implies {
                &&& i64::MIN <= records[i].span_millis() <= i64::MAX
                &&& i64::MIN <= window_total(records.take(i + 1), cutoff) <= i64::MAX
            } by {
                if i < n {
                    assert(in_window(init[i], cutoff));
                }
            }
        }
        if sum_stays_in_i64(records, cutoff) {
            assert forall|i: int|
                0 <= i < init.len() && #[trigger] in_window(init[i], cutoff) implies {
                &&& i64::MIN <= init[i].span_millis() <= i64::MAX
                &&& i64::MIN <= window_total(init.take(i + 1), cutoff) <= i64::MAX
            } by {
                assert(in_window(records[i], cutoff));
            }
            if in_window(records.last(), cutoff) {
                assert(in_window(records[n], cutoff));
            }
        }
    }
}

/// A window whose records all fit comfortably, the sum of which stays in
/// `i64`, is summed without failing: for instance every record of at most
/// 2^31 milliseconds, with fewer than 2^31 records.
pub proof fn lemma_window_fits_small_spans(records: Seq<TimeRecord>, cutoff: int)
    requires
        records.len() < 0x8000_0000,
        forall|i: int| 0 <= i < records.len() ==> 0 <= #[trigger] records[i].span_millis() <= 0x8000_0000,
    ensures
        window_fits(records, cutoff),
        0 <= window_total(records, cutoff) <= records.len() * 0x8000_0000,
    decreases records.len(),
{
    if records.len() > 0 {
        let init = records.drop_last();
        assert forall|i: int| 0 <= i < init.len() implies 0 <= #[trigger] init[i].span_millis() <= 0x8000_0000 by {
            assert(init[i] == records[i]);
        }
        lemma_window_fits_small_spans(init, cutoff);
        assert(records.last() == records[records.len() - 1]);
        assert(init.len() * 0x8000_0000 + 0x8000_0000 == records.len() * 0x8000_0000) by (nonlinear_arith)
            requires
                init.len() + 1 == records.len(),
        ;
        assert(records.len() * 0x8000_0000 <= 0x8000_0000 * 0x8000_0000) by (nonlinear_arith)
            requires
                records.len() < 0x8000_0000,
        ;
    }
}

} // verus!
