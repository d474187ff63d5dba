//! A command-line time tracker: a tracker is started and stopped, each stop
//! leaves a time record, and a report sums the tracked time of a recent window.

pub mod error;
pub mod feature;
