//! A procedure is a fixed sequence of operating system steps. The caller
//! performs each step and reports how it went; the rules here say what
//! follows: the next step, the end, or the error of the step that failed.
//! A failure ends the procedure at once, and nothing is retried.

use vstd::prelude::*;

verus! {

/// What a caller reports of a step: that it succeeded, or the operating
/// system's error.
pub type Outcome = Result<(), std::io::Error>;

/// The steps of one procedure.
pub trait Step: Sized + Copy {
    /// What a failed procedure reports.
    type Error;

    /// How many steps the procedure has.
    spec fn count() -> int;

    /// The place of this step in the order of steps, from zero.
    spec fn index(self) -> int;

    /// The step that follows this one, if any.
    spec fn following(self) -> Option<Self>;

    /// The error that reports a failure of this step with `cause`.
    spec fn failure(self, cause: std::io::Error) -> Self::Error;

    /// The steps are numbered in the order in which they follow each other.
    proof fn lemma_order(self)
        ensures
            0 <= self.index() < Self::count(),
            match self.following() {
                Some(next) => next.index() == self.index() + 1,
                None => self.index() + 1 == Self::count(),
            },
    ;

    /// The step that follows this one, if any.
    fn next(self) -> (out: Option<Self>)
        ensures
            out == self.following(),
    ;

    /// The error that reports a failure of this step with `cause`.
    fn fail(self, cause: std::io::Error) -> (out: Self::Error)
        ensures
            out == self.failure(cause),
    ;
}

/// How far a procedure has come.
pub enum Progress<S: Step> {
    /// The given step is to be taken next.
    Pending(S),
    /// Every step succeeded.
    Complete,
    /// A step failed.
    Failed(S::Error),
}

impl<S: Step> Progress<S> {
    /// The state once the pending step has ended with `outcome`. A state
    /// that is not pending stays as it is.
    pub open spec fn after(self, outcome: Outcome) -> Self {
        match self {
            Progress::Pending(step) => match outcome {
                Ok(_) => match step.following() {
                    Some(next) => Progress::Pending(next),
                    None => Progress::Complete,
                },
                Err(cause) => Progress::Failed(step.failure(cause)),
            },
            other => other,
        }
    }

    /// The state that `outcomes`, reported in order, lead to from `self`.
    pub open spec fn after_all(self, outcomes: Seq<Outcome>) -> Self
        decreases outcomes.len(),
    {
        if outcomes.len() == 0 {
            self
        } else {
            self.after(outcomes.first()).after_all(outcomes.drop_first())
        }
    }

    /// What the procedure returns, once it has ended.
    pub open spec fn outcome(self) -> Option<Result<(), S::Error>> {
        match self {
            Progress::Pending(_) => None,
            Progress::Complete => Some(Ok(())),
            Progress::Failed(error) => Some(Err(error)),
        }
    }

    /// The state of a procedure whose first step is `first`, before any step
    /// has been taken.
    pub fn begin(first: S) -> (out: Self)
        ensures
            out == Progress::Pending(first),
    {
        Progress::Pending(first)
    }

    /// Records how the pending step ended.
    pub fn advance(self, outcome: Outcome) -> (out: Self)
        ensures
            out == self.after(outcome),
    {
        match self {
            Progress::Pending(step) => match outcome {
                Ok(_) => match step.next() {
                    Some(next) => Progress::Pending(next),
                    None => Progress::Complete,
                },
                Err(cause) => Progress::Failed(step.fail(cause)),
            },
            other => other,
        }
    }

    /// The step to take next, while there is one.
    pub fn pending(&self) -> (out: Option<S>)
        ensures
            out == match *self {
                Progress::Pending(step) => Some(step),
                _ => None::<S>,
            },
    {
        match self {
            Progress::Pending(step) => Some(*step),
            _ => None,
        }
    }

    /// What the procedure returns, once it has ended.
    pub fn result(self) -> (out: Option<Result<(), S::Error>>)
        ensures
            out == self.outcome(),
    {
        match self {
            Progress::Pending(_) => None,
            Progress::Complete => Some(Ok(())),
            Progress::Failed(error) => Some(Err(error)),
        }
    }
}

/// Whether each of the first `count` outcomes is a success.
pub open spec fn all_succeed(outcomes: Seq<Outcome>, count: int) -> bool {
    forall|i: int| 0 <= i < count ==> (#[trigger] outcomes[i]) is Ok
}

/// The index of the first failure in `outcomes` at or after `from`, or the
/// length of `outcomes` if there is none.
pub open spec fn first_failure(outcomes: Seq<Outcome>, from: int) -> int
    decreases outcomes.len() - from,
{
    if from < 0 || from >= outcomes.len() {
        outcomes.len() as int
    } else if outcomes[from] is Err {
        from
    } else {
        first_failure(outcomes, from + 1)
    }
}

/// `first_failure` finds a failure if there is one, and none lies before it.
pub proof fn lemma_first_failure(outcomes: Seq<Outcome>, from: int)
    requires
        0 <= from <= outcomes.len(),
    ensures
        from <= first_failure(outcomes, from) <= outcomes.len(),
        forall|i: int| from <= i < first_failure(outcomes, from) ==> (#[trigger] outcomes[i]) is Ok,
        first_failure(outcomes, from) < outcomes.len() ==> outcomes[first_failure(
            outcomes,
            from,
        )] is Err,
    decreases outcomes.len() - from,
{
    if from < outcomes.len() && !(outcomes[from] is Err) {
        lemma_first_failure(outcomes, from + 1);
    }
}

/// A state that is not pending is final: no later outcome changes it.
pub proof fn lemma_final_state_stays<S: Step>(state: Progress<S>, outcomes: Seq<Outcome>)
    requires
        !(state is Pending),
    ensures
        state.after_all(outcomes) == state,
    decreases outcomes.len(),
{
    if outcomes.len() > 0 {
        lemma_final_state_stays(state, outcomes.drop_first());
    }
}

/// Reporting outcomes one after another is the same as reporting a first
/// part of them and then the rest.
pub proof fn lemma_after_all_splits<S: Step>(state: Progress<S>, outcomes: Seq<Outcome>, at: int)
    requires
        0 <= at <= outcomes.len(),
    ensures
        state.after_all(outcomes) == state.after_all(outcomes.take(at)).after_all(
            outcomes.skip(at),
        ),
    decreases at,
{
    if at == 0 {
        assert(outcomes.take(0).len() == 0);
        assert(outcomes.skip(0) == outcomes);
    } else {
        let head = outcomes.take(at);
        assert(head.first() == outcomes.first());
        assert(head.drop_first() == outcomes.drop_first().take(at - 1));
        assert(outcomes.drop_first().skip(at - 1) == outcomes.skip(at));
        lemma_after_all_splits(state.after(outcomes.first()), outcomes.drop_first(), at - 1);
    }
}

/// From a pending step, outcomes that all succeed lead to the step that many
/// places later, or to the end when the steps run out. They never lead to a
/// failure.
pub proof fn lemma_successes_advance<S: Step>(step: S, outcomes: Seq<Outcome>)
    requires
        all_succeed(outcomes, outcomes.len() as int),
    ensures
        match Progress::Pending(step).after_all(outcomes) {
            Progress::Pending(next) => next.index() == step.index() + outcomes.len(),
            Progress::Complete => step.index() + outcomes.len() >= S::count(),
            Progress::Failed(_) => false,
        },
    decreases outcomes.len(),
{
    step.lemma_order();
    if outcomes.len() > 0 {
        let rest = outcomes.drop_first();
        assert(outcomes[0] is Ok);
        assert forall|i: int| 0 <= i < rest.len() implies (#[trigger] rest[i]) is Ok by {
            assert(rest[i] == outcomes[i + 1]);
        }
        match step.following() {
            Some(next) => lemma_successes_advance(next, rest),
            None => lemma_final_state_stays(Progress::<S>::Complete, rest),
        }
    }
}

/// The first step that fails decides the result: the procedure fails with
/// the error of that step, wrapping the reported cause, whatever is reported
/// afterwards.
pub proof fn lemma_first_failure_decides<S: Step>(step: S, outcomes: Seq<Outcome>, at: int)
    requires
        0 <= at < outcomes.len(),
        step.index() + at < S::count(),
        all_succeed(outcomes, at),
        outcomes[at] is Err,
    ensures
        exists|failed: S|
            failed.index() == step.index() + at && Progress::Pending(step).after_all(outcomes)
                == Progress::<S>::Failed(#[trigger] failed.failure(outcomes[at]->Err_0)),
    decreases at,
{
    step.lemma_order();
    let rest = outcomes.drop_first();
    if at == 0 {
        lemma_final_state_stays(Progress::<S>::Failed(step.failure(outcomes[0]->Err_0)), rest);
        assert(step.index() == step.index() + at);
    } else {
        assert(outcomes[0] is Ok);
        assert forall|i: int| 0 <= i < at - 1 implies (#[trigger] rest[i]) is Ok by {
            assert(rest[i] == outcomes[i + 1]);
        }
        assert(rest[at - 1] == outcomes[at]);
        let next = step.following()->Some_0;
        next.lemma_order();
        lemma_first_failure_decides(next, rest, at - 1);
    }
}

/// From its first step, a procedure completes exactly when each of its steps
/// was reported to succeed. Until then it is pending or has failed: nothing
/// is ever completed in part.
pub proof fn lemma_complete_iff_every_step_succeeds<S: Step>(first: S, outcomes: Seq<Outcome>)
    requires
        first.index() == 0,
    ensures
        Progress::Pending(first).after_all(outcomes) is Complete <==> outcomes.len() >= S::count()
            && all_succeed(outcomes, S::count()),
{
    first.lemma_order();
    let count = S::count();
    if outcomes.len() >= count && all_succeed(outcomes, count) {
        let head = outcomes.take(count);
        assert forall|i: int| 0 <= i < head.len() implies (#[trigger] head[i]) is Ok by {
            assert(head[i] == outcomes[i]);
        }
        lemma_successes_advance(first, head);
        match Progress::Pending(first).after_all(head) {
            Progress::Pending(next) => next.lemma_order(),
            _ => {},
        }
        lemma_after_all_splits(Progress::Pending(first), outcomes, count);
        lemma_final_state_stays(Progress::<S>::Complete, outcomes.skip(count));
    } else if exists|i: int| 0 <= i < outcomes.len() && i < count && outcomes[i] is Err {
        let at = first_failure(outcomes, 0);
        lemma_first_failure(outcomes, 0);
        lemma_first_failure_decides(first, outcomes, at);
    } else {
        assert(outcomes.len() < count) by {
            if outcomes.len() >= count {
                assert(all_succeed(outcomes, count));
            }
        }
        assert(all_succeed(outcomes, outcomes.len() as int));
        lemma_successes_advance(first, outcomes);
    }
}

} // verus!
