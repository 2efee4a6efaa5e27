//! The verified parts of delegating work on a shared value: the work that a
//! task runs against the value, and what joining the task reports.
//!
//! Starting and joining the thread of execution itself is left to the
//! caller; it hands back whether the delegated work returned.

use crate::shared::SharedImmutableValue;
use vstd::prelude::*;

verus! {

/// Why a joined task produced no result.
#[derive(Debug, Clone, Copy, PartialEq, Eq, Structural)]
pub enum TaskError {
    /// The delegated work terminated abnormally.
    Panicked,
}

/// What joining a task reports, given the result of the delegated work, or
/// `None` when that work terminated abnormally.
pub open spec fn join_spec<R>(finished: Option<R>) -> Result<R, TaskError> {
    match finished {
        Some(v) => Ok(v),
        None => Err(TaskError::Panicked),
    }
}

/// Turns the end of the delegated work into the result of a join: its
/// return value, or `TaskError::Panicked` when it terminated abnormally.
pub fn join_result<R>(finished: Option<R>) -> (r: Result<R, TaskError>)
    ensures
        r == join_spec(finished),
{
    match finished {
        Some(v) => Ok(v),
        None => Err(TaskError::Panicked),
    }
}

impl<T> SharedImmutableValue<T> {
    /// Runs `f` with read access to the shared value and returns what it
    /// returns. This is the work that a spawned task performs.
    pub fn run_with<R, F: FnOnce(&T) -> R>(&self, f: F) -> (r: R)
        requires
            f.requires((&self@,)),
        ensures
            f.ensures((&self@,), r),
    {
        f(self.read())
    }
}

/// Delegating work that returns the shared value unchanged, and then joining
/// it, gives back the value that was shared, whenever the work returned.
pub proof fn lemma_dispatch_round_trip<T, F: FnOnce(&T) -> T>(
    h: SharedImmutableValue<T>,
    f: F,
    returned: T,
)
    requires
        forall|x: &T, y: T| #[trigger] f.ensures((x,), y) ==> y == *x,
        f.ensures((&h@,), returned),
    ensures
        join_spec(Some(returned)) == Ok::<T, TaskError>(h@),
{
}

} // verus!
