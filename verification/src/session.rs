//! One execution attempt.
//!
//! An [`ExecutionSession`] binds a resolved entry point to a freshly built
//! permission grant.  The worker that actually executes the program is an
//! outside component; it hands its result back as an [`AttemptOutcome`],
//! and the session — consumed by value, so it can never be reused — turns
//! that outcome into the process-level result.

use vstd::prelude::*;

use crate::errors::RunError;
use crate::permissions::PermissionGrant;

verus! {

/// What the outside worker reported for one attempt.
pub enum AttemptOutcome {
    /// The worker could not even be constructed.
    CreationFailed,
    /// The program ran to completion and produced this exit code.
    Exited(i32),
    /// The program failed fatally while executing.
    Crashed,
}

/// One build-and-run cycle: a resolved entry point plus the grant built for
/// exactly this attempt.  Constructed just before running, consumed once.
pub struct ExecutionSession {
    pub entry_point: Vec<u8>,
    pub grant: PermissionGrant,
}

impl ExecutionSession {
    /// Bind an entry point to the grant of this attempt.  The grant is taken
    /// by value: it cannot be shared with any other session.
    pub fn new(entry_point: Vec<u8>, grant: PermissionGrant) -> (s: ExecutionSession)
        ensures
            s.entry_point@ == entry_point@,
            s.grant == grant,
    {
        ExecutionSession { entry_point, grant }
    }

    /// Turn the worker's report into the attempt's result: exit codes pass
    /// through verbatim, construction failure and fatal program failure map
    /// to their error classes.  Consumes the session — a finished attempt
    /// can never run again.
    pub fn conclude(self, outcome: AttemptOutcome) -> (r: Result<i32, RunError>)
        ensures
            outcome matches AttemptOutcome::Exited(code) ==> r == Ok::<i32, RunError>(code),
            outcome is CreationFailed ==> r == Err::<i32, RunError>(RunError::Creation),
            outcome is Crashed ==> r == Err::<i32, RunError>(RunError::Runtime),
    {
        match outcome {
            AttemptOutcome::Exited(code) => Ok(code),
            AttemptOutcome::CreationFailed => Err(RunError::Creation),
            AttemptOutcome::Crashed => Err(RunError::Runtime),
        }
    }
}

} // verus!
