//! The command line: which command the user asked for.

use vstd::prelude::*;

verus! {

/// The command line could not be run.
#[derive(Debug, Clone, Copy, PartialEq, Eq, Structural)]
pub struct CliError;

/// The commands of the `track` program.
#[derive(Debug, Clone, Copy, PartialEq, Eq, Structural)]
pub enum Command {
    /// Start tracking time
    Start,
    /// Stop tracking time
    Stop,
    /// Generate a report of tracked time
    Report,
}

/// The parsed command line.
#[derive(Debug, Clone, Copy)]
pub struct Cli {
    pub command: Command,
}

} // verus!
