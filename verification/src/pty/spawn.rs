//! Spawning a process on the child side of a pseudo-terminal pair, and the
//! hook that runs in the new process before the program replaces it.

use crate::pty::error::SpawnError;
use crate::pty::procedure::{
    all_succeed, lemma_complete_iff_every_step_succeeds, lemma_final_state_stays,
    lemma_first_failure_decides, Outcome, Progress, Step,
};
use vstd::prelude::*;

verus! {

/// The steps of a spawn, in the order in which they are taken. The child
/// descriptor is duplicated once for each standard stream of the new
/// process; the one that was duplicated is closed afterwards.
#[derive(Clone, Copy, Debug, PartialEq, Eq, Structural)]
pub enum SpawnStep {
    /// Duplicate the child descriptor for standard input.
    DuplicateStdin,
    /// Duplicate the child descriptor for standard output.
    DuplicateStdout,
    /// Duplicate the child descriptor for standard error.
    DuplicateStderr,
    /// Spawn the process, with the hook of [`PreExecStep`] registered.
    Spawn,
    /// Register the master descriptor for readiness notification.
    WrapAsyncFd,
}

/// The steps of the hook that runs in the new process before the program
/// replaces it. Each is one call of the operating system.
#[derive(Clone, Copy, Debug, PartialEq, Eq, Structural)]
pub enum PreExecStep {
    /// Create a new session, which detaches from any controlling terminal.
    CreateSession,
    /// Make standard input, by now the child side of the pseudo-terminal,
    /// the controlling terminal.
    SetControllingTerminal,
}

/// How far a spawn has come.
pub type Spawning = Progress<SpawnStep>;

/// How far the hook has come.
pub type PreExec = Progress<PreExecStep>;

impl Step for SpawnStep {
    type Error = SpawnError;

    open spec fn count() -> int {
        5
    }

    open spec fn index(self) -> int {
        match self {
            SpawnStep::DuplicateStdin => 0,
            SpawnStep::DuplicateStdout => 1,
            SpawnStep::DuplicateStderr => 2,
            SpawnStep::Spawn => 3,
            SpawnStep::WrapAsyncFd => 4,
        }
    }

    open spec fn following(self) -> Option<Self> {
        match self {
            SpawnStep::DuplicateStdin => Some(SpawnStep::DuplicateStdout),
            SpawnStep::DuplicateStdout => Some(SpawnStep::DuplicateStderr),
            SpawnStep::DuplicateStderr => Some(SpawnStep::Spawn),
            SpawnStep::Spawn => Some(SpawnStep::WrapAsyncFd),
            SpawnStep::WrapAsyncFd => None,
        }
    }

    open spec fn failure(self, cause: std::io::Error) -> SpawnError {
        match self {
            SpawnStep::DuplicateStdin => SpawnError::DuplicateStdio(cause),
            SpawnStep::DuplicateStdout => SpawnError::DuplicateStdio(cause),
            SpawnStep::DuplicateStderr => SpawnError::DuplicateStdio(cause),
            SpawnStep::Spawn => SpawnError::Spawn(cause),
            SpawnStep::WrapAsyncFd => SpawnError::WrapAsyncFd(cause),
        }
    }

    proof fn lemma_order(self) {
    }

    fn next(self) -> (out: Option<Self>) {
        match self {
            SpawnStep::DuplicateStdin => Some(SpawnStep::DuplicateStdout),
            SpawnStep::DuplicateStdout => Some(SpawnStep::DuplicateStderr),
            SpawnStep::DuplicateStderr => Some(SpawnStep::Spawn),
            SpawnStep::Spawn => Some(SpawnStep::WrapAsyncFd),
            SpawnStep::WrapAsyncFd => None,
        }
    }

    fn fail(self, cause: std::io::Error) -> (out: SpawnError) {
        match self {
            SpawnStep::DuplicateStdin => SpawnError::DuplicateStdio(cause),
            SpawnStep::DuplicateStdout => SpawnError::DuplicateStdio(cause),
            SpawnStep::DuplicateStderr => SpawnError::DuplicateStdio(cause),
            SpawnStep::Spawn => SpawnError::Spawn(cause),
            SpawnStep::WrapAsyncFd => SpawnError::WrapAsyncFd(cause),
        }
    }
}

impl Step for PreExecStep {
    type Error = SpawnError;

    open spec fn count() -> int {
        2
    }

    open spec fn index(self) -> int {
        match self {
            PreExecStep::CreateSession => 0,
            PreExecStep::SetControllingTerminal => 1,
        }
    }

    open spec fn following(self) -> Option<Self> {
        match self {
            PreExecStep::CreateSession => Some(PreExecStep::SetControllingTerminal),
            PreExecStep::SetControllingTerminal => None,
        }
    }

    open spec fn failure(self, cause: std::io::Error) -> SpawnError {
        match self {
            PreExecStep::CreateSession => SpawnError::CreateSession(cause),
            PreExecStep::SetControllingTerminal => SpawnError::SetControllingTerminal(cause),
        }
    }

    proof fn lemma_order(self) {
    }

    fn next(self) -> (out: Option<Self>) {
        match self {
            PreExecStep::CreateSession => Some(PreExecStep::SetControllingTerminal),
            PreExecStep::SetControllingTerminal => None,
        }
    }

    fn fail(self, cause: std::io::Error) -> (out: SpawnError) {
        match self {
            PreExecStep::CreateSession => SpawnError::CreateSession(cause),
            PreExecStep::SetControllingTerminal => SpawnError::SetControllingTerminal(cause),
        }
    }
}

/// The state that `outcomes`, reported in order, lead a spawn to.
pub open spec fn spawning(outcomes: Seq<Outcome>) -> Spawning {
    Progress::Pending(SpawnStep::DuplicateStdin).after_all(outcomes)
}

/// The state that `outcomes`, reported in order, lead the hook to.
pub open spec fn pre_exec(outcomes: Seq<Outcome>) -> PreExec {
    Progress::Pending(PreExecStep::CreateSession).after_all(outcomes)
}

/// The state of a spawn of which no step has been taken.
pub fn spawn() -> (out: Spawning)
    ensures
        out == spawning(Seq::empty()),
{
    Progress::begin(SpawnStep::DuplicateStdin)
}

/// The state of the hook when the new process enters it.
pub fn enter_pre_exec() -> (out: PreExec)
    ensures
        out == pre_exec(Seq::empty()),
{
    Progress::begin(PreExecStep::CreateSession)
}

/// The hook sets the controlling terminal only in a session that it has
/// created: the second step is pending only after the first was reported to
/// succeed, and a failure to create the session ends the hook with
/// `CreateSession` and the reported cause.
pub proof fn lemma_session_before_terminal(outcomes: Seq<Outcome>)
    ensures
        pre_exec(outcomes) == Progress::<PreExecStep>::Pending(PreExecStep::SetControllingTerminal)
            <==> outcomes.len() == 1 && outcomes[0] is Ok,
        outcomes.len() > 0 && outcomes[0] is Err ==> pre_exec(outcomes) == Progress::<
            PreExecStep,
        >::Failed(SpawnError::CreateSession(outcomes[0]->Err_0)),
{
    let first = PreExecStep::CreateSession;
    if outcomes.len() > 0 {
        if outcomes[0] is Err {
            lemma_first_failure_decides(first, outcomes, 0);
            let failed = choose|failed: PreExecStep|
                failed.index() == 0 && pre_exec(outcomes) == Progress::<PreExecStep>::Failed(
                    #[trigger] failed.failure(outcomes[0]->Err_0),
                );
            assert(failed == first);
        } else {
            let rest = outcomes.drop_first();
            assert(pre_exec(outcomes) == Progress::Pending(
                PreExecStep::SetControllingTerminal,
            ).after_all(rest));
            if rest.len() > 0 {
                let last = Progress::Pending(PreExecStep::SetControllingTerminal).after(
                    rest.first(),
                );
                lemma_final_state_stays(last, rest.drop_first());
            }
        }
    }
}

/// A terminal and a child come of a spawn exactly when each of its five
/// steps was reported to succeed: three duplications, the spawn itself and
/// the registration of the master side.
pub proof fn lemma_spawned_needs_every_step(outcomes: Seq<Outcome>)
    ensures
        spawning(outcomes) is Complete <==> outcomes.len() >= 5 && all_succeed(outcomes, 5),
{
    lemma_complete_iff_every_step_succeeds(SpawnStep::DuplicateStdin, outcomes);
}

/// A failure of the spawn itself, after the duplications succeeded, is
/// reported as `Spawn` with the cause that the process launcher gave, be it
/// the launcher's own or the error that the hook ended with: the hook has no
/// other way to report.
pub proof fn lemma_spawn_failure(outcomes: Seq<Outcome>, cause: std::io::Error)
    requires
        outcomes.len() > SpawnStep::Spawn.index(),
        all_succeed(outcomes, SpawnStep::Spawn.index()),
        outcomes[SpawnStep::Spawn.index()] == Err::<(), std::io::Error>(cause),
    ensures
        spawning(outcomes) == Progress::<SpawnStep>::Failed(SpawnError::Spawn(cause)),
{
    lemma_first_failure_decides(SpawnStep::DuplicateStdin, outcomes, 3);
    let failed = choose|failed: SpawnStep|
        failed.index() == 3 && spawning(outcomes) == Progress::<SpawnStep>::Failed(
            #[trigger] failed.failure(cause),
        );
    assert(failed == SpawnStep::Spawn);
}

/// A duplication that fails is reported as `DuplicateStdio`, whichever of
/// the three streams it was for.
pub proof fn lemma_duplication_failure(outcomes: Seq<Outcome>, at: int)
    requires
        0 <= at < 3,
        at < outcomes.len(),
        all_succeed(outcomes, at),
        outcomes[at] is Err,
    ensures
        spawning(outcomes) == Progress::<SpawnStep>::Failed(
            SpawnError::DuplicateStdio(outcomes[at]->Err_0),
        ),
{
    lemma_first_failure_decides(SpawnStep::DuplicateStdin, outcomes, at);
    let failed = choose|failed: SpawnStep|
        failed.index() == at && spawning(outcomes) == Progress::<SpawnStep>::Failed(
            #[trigger] failed.failure(outcomes[at]->Err_0),
        );
    assert(failed == SpawnStep::DuplicateStdin || failed == SpawnStep::DuplicateStdout || failed
        == SpawnStep::DuplicateStderr);
}

} // verus!
