//! Allocation of a pseudo-terminal pair: open the master side, grant access
//! to the child device, unlock it, resolve its path, open it.

use crate::pty::error::AllocateError;
use crate::pty::procedure::{
    all_succeed, lemma_complete_iff_every_step_succeeds, lemma_first_failure_decides, Outcome,
    Progress, Step,
};
use vstd::prelude::*;

verus! {

/// The steps of an allocation, in the order in which they are taken.
#[derive(Clone, Copy, Debug, PartialEq, Eq, Structural)]
pub enum AllocateStep {
    /// Open the master side: read-write, without making it the controlling
    /// terminal, non-blocking, closed on exec.
    OpenMaster,
    /// Grant access to the child device.
    Grant,
    /// Remove the lock that keeps the child device from being opened.
    Unlock,
    /// Resolve the path of the child device.
    GetChildName,
    /// Open the child device read-write.
    OpenChild,
}

/// How far an allocation has come.
pub type Allocation = Progress<AllocateStep>;

impl Step for AllocateStep {
    type Error = AllocateError;

    open spec fn count() -> int {
        5
    }

    open spec fn index(self) -> int {
        match self {
            AllocateStep::OpenMaster => 0,
            AllocateStep::Grant => 1,
            AllocateStep::Unlock => 2,
            AllocateStep::GetChildName => 3,
            AllocateStep::OpenChild => 4,
        }
    }

    open spec fn following(self) -> Option<Self> {
        match self {
            AllocateStep::OpenMaster => Some(AllocateStep::Grant),
            AllocateStep::Grant => Some(AllocateStep::Unlock),
            AllocateStep::Unlock => Some(AllocateStep::GetChildName),
            AllocateStep::GetChildName => Some(AllocateStep::OpenChild),
            AllocateStep::OpenChild => None,
        }
    }

    open spec fn failure(self, cause: std::io::Error) -> AllocateError {
        match self {
            AllocateStep::OpenMaster => AllocateError::Open(cause),
            AllocateStep::Grant => AllocateError::Grant(cause),
            AllocateStep::Unlock => AllocateError::Unlock(cause),
            AllocateStep::GetChildName => AllocateError::GetChildName(cause),
            AllocateStep::OpenChild => AllocateError::OpenChild(cause),
        }
    }

    proof fn lemma_order(self) {
    }

    fn next(self) -> (out: Option<Self>) {
        match self {
            AllocateStep::OpenMaster => Some(AllocateStep::Grant),
            AllocateStep::Grant => Some(AllocateStep::Unlock),
            AllocateStep::Unlock => Some(AllocateStep::GetChildName),
            AllocateStep::GetChildName => Some(AllocateStep::OpenChild),
            AllocateStep::OpenChild => None,
        }
    }

    fn fail(self, cause: std::io::Error) -> (out: AllocateError) {
        match self {
            AllocateStep::OpenMaster => AllocateError::Open(cause),
            AllocateStep::Grant => AllocateError::Grant(cause),
            AllocateStep::Unlock => AllocateError::Unlock(cause),
            AllocateStep::GetChildName => AllocateError::GetChildName(cause),
            AllocateStep::OpenChild => AllocateError::OpenChild(cause),
        }
    }
}

/// The state that `outcomes`, reported in order, lead an allocation to.
pub open spec fn allocation(outcomes: Seq<Outcome>) -> Allocation {
    Progress::Pending(AllocateStep::OpenMaster).after_all(outcomes)
}

/// The state of an allocation of which no step has been taken.
pub fn allocate() -> (out: Allocation)
    ensures
        out == allocation(Seq::empty()),
{
    Progress::begin(AllocateStep::OpenMaster)
}

/// A pair exists exactly when each of the five steps was reported to
/// succeed: no pair is ever returned in part.
pub proof fn lemma_pair_needs_every_step(outcomes: Seq<Outcome>)
    ensures
        allocation(outcomes) is Complete <==> outcomes.len() >= 5 && all_succeed(outcomes, 5),
{
    lemma_complete_iff_every_step_succeeds(AllocateStep::OpenMaster, outcomes);
}

/// A failure to resolve the path of the child device, after the steps before
/// it succeeded, makes the allocation fail with `GetChildName` and the
/// reported cause: an error is returned, and no pair.
pub proof fn lemma_path_resolution_failure(outcomes: Seq<Outcome>, cause: std::io::Error)
    requires
        outcomes.len() > AllocateStep::GetChildName.index(),
        all_succeed(outcomes, AllocateStep::GetChildName.index()),
        outcomes[AllocateStep::GetChildName.index()] == Err::<(), std::io::Error>(cause),
    ensures
        allocation(outcomes) == Progress::<AllocateStep>::Failed(
            AllocateError::GetChildName(cause),
        ),
{
    lemma_first_failure_decides(AllocateStep::OpenMaster, outcomes, 3);
    let failed = choose|failed: AllocateStep|
        failed.index() == 3 && allocation(outcomes) == Progress::<AllocateStep>::Failed(
            #[trigger] failed.failure(cause),
        );
    assert(failed == AllocateStep::GetChildName);
}

} // verus!
