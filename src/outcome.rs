//! Per-identifier outcomes and the run's summary.
use vstd::prelude::*;

verus! {

/// The outcome of one identifier.
#[derive(Clone, Copy, Debug, PartialEq, Eq, Structural)]
pub enum Outcome {
    /// Every directory was emptied, or the command exited with success.
    Succeeded,
    /// A directory could not be listed or an entry could not be removed.
    PartiallyFailed,
    /// The command ran and exited with a failure status.
    NonZeroExit,
    /// The shell could not be started.
    SpawnFailed,
    /// Dry run: the work was reported, not done.
    Skipped,
}

impl Outcome {
    /// Whether the outcome counts as a failure in the run's summary.
    pub open spec fn is_failure(self) -> bool {
        self is PartiallyFailed || self is NonZeroExit || self is SpawnFailed
    }

    /// Whether the outcome counts as a failure in the run's summary.
    pub fn failed(&self) -> (r: bool)
        ensures
            r == self.is_failure(),
    {
        match self {
            Outcome::PartiallyFailed | Outcome::NonZeroExit | Outcome::SpawnFailed => true,
            Outcome::Succeeded | Outcome::Skipped => false,
        }
    }
}

/// Whether any identifier of a run failed, in which case the run ends
/// with a notice; it completes either way.
pub fn any_failed(outcomes: &Vec<Outcome>) -> (r: bool)
    ensures
        r == exists|i: int| 0 <= i < outcomes@.len() && #[trigger] outcomes@[i].is_failure(),
{
    let mut i: usize = 0;
    while i < outcomes.len()
        invariant
            i <= outcomes.len(),
            forall|k: int| 0 <= k < i ==> !#[trigger] outcomes@[k].is_failure(),
        decreases outcomes.len() - i,
    {
        if outcomes[i].failed() {
            return true;
        }
        i = i + 1;
    }
    false
}

} // verus!
