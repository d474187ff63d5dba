# track

A command-line time tracker whose logic is verified with Verus.

- `src/` — the verified library.
  - `feature/tracker/mod.rs`: start and end times, time records, the
    `Tracker` interface and its model `TrackerView` (what starting and
    stopping do), with the laws of starting and stopping.
  - `feature/tracker/tlib.rs`: `FakeTracker`, a tracker kept in memory.
  - `feature/tracker/reporter.rs`: the total tracked time of the records
    that ended within a recent window (`Reporter::total_duration`), summed in
    `i64` with an overflow reported as an error, and the laws of windows.
  - `feature/tracker/flatfile.rs`: the flat-file tracker (a lockfile and a
    JSON database file) as a step function from file-work outcomes to the next
    file work, and the proof that on files that never fail it behaves as
    `TrackerView` says.
  - `feature/cli`, `error.rs`: the command-line and error types.
- `app/` — the program: argument parsing (clap), error reporting
  (error-stack, owo-colors), logging (tracing), and the file work and JSON
  encoding of the flat-file tracker (serde, serde_json).
- `tests/` — tests of the library.
