//! What the reconciler tells the scheduler to do next.

use vstd::prelude::*;

verus! {

/// Seconds until the periodic resync that follows a successful reconciliation.
pub const RESYNC_SECS: u64 = 10;

/// Seconds until the retry that follows a failed reconciliation.
pub const RETRY_SECS: u64 = 1;

/// The scheduler's instruction for one primary resource: revisit it after a
/// delay, or wait until a change is observed.
#[derive(Clone, Copy, Debug, PartialEq, Eq, Structural)]
pub enum Action {
    /// Revisit the resource after this many seconds, even without a new event.
    Requeue { after_secs: u64 },
    /// Do nothing until a watch reports a change.
    AwaitChange,
}

impl Action {
    /// The delay of a requeue, `None` when the action waits for a change.
    pub open spec fn delay(self) -> Option<int> {
        match self {
            Action::Requeue { after_secs } => Some(after_secs as int),
            Action::AwaitChange => None,
        }
    }

    /// An action that revisits the resource after `after_secs` seconds.
    pub fn requeue(after_secs: u64) -> (action: Action)
        ensures
            action == (Action::Requeue { after_secs }),
            action.delay() == Some(after_secs as int),
    {
        Action::Requeue { after_secs }
    }
}

} // verus!
