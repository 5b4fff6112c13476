//! Error taxonomy of the orchestrator.

use vstd::prelude::*;

verus! {

/// Why an execution attempt (or the supervisor around it) failed.
///
/// Every component reports errors through this one type; none are swallowed.
/// Only the watch supervisor downgrades some of them to "report and keep
/// waiting" — every other caller treats each value as fatal for the attempt.
#[derive(Clone, Copy, Debug, PartialEq, Eq, Structural)]
pub enum RunError {
    /// Invalid or contradictory permission configuration.
    Config,
    /// Bytes that had to be text did not decode as UTF-8.
    Decode,
    /// The entry point could not be resolved to a runnable program.
    Resolution,
    /// The worker for an attempt could not be constructed.
    Creation,
    /// The program itself failed while executing.
    Runtime,
}

} // verus!
