//! The readiness-driven loop behind an asynchronous read or write: wait
//! until the descriptor is ready, attempt the operation without blocking,
//! and wait again where the attempt would have blocked.

use vstd::prelude::*;

verus! {

/// What the reactor reports when asked whether the descriptor is ready.
pub enum Readiness {
    /// Not ready: the task is suspended until the reactor wakes it.
    NotReady,
    /// Ready, as far as the reactor knows.
    Ready,
    /// The reactor failed.
    Failed(std::io::Error),
}

/// How a non-blocking read or write went.
pub enum Attempt {
    /// That many bytes were moved. For a read, zero means that the child
    /// side is closed.
    Transferred(usize),
    /// The descriptor was not ready after all: the readiness that was
    /// reported had been used up.
    WouldBlock,
    /// The operating system failed the operation.
    Failed(std::io::Error),
}

/// What one call of the loop hands back to its caller.
pub enum Completion {
    /// Nothing yet: the call is repeated when the reactor wakes the task.
    Suspended,
    /// The operation moved that many bytes.
    Done(usize),
    /// The operation failed.
    Failed(std::io::Error),
}

/// Where the loop stands.
pub enum Polling {
    /// The reactor is to be asked for readiness.
    AwaitReadiness,
    /// The operation is to be attempted.
    Attempt,
    /// The call returns.
    Return(Completion),
}

/// What the loop is told: the reactor's answer, or how an attempt went.
pub enum Event {
    Readiness(Readiness),
    Attempt(Attempt),
}

impl Polling {
    /// The state after the reactor answered `readiness`.
    pub open spec fn on_readiness(readiness: Readiness) -> Polling {
        match readiness {
            Readiness::NotReady => Polling::Return(Completion::Suspended),
            Readiness::Ready => Polling::Attempt,
            Readiness::Failed(error) => Polling::Return(Completion::Failed(error)),
        }
    }

    /// The state after an attempt went as `attempt` says.
    pub open spec fn on_attempt(attempt: Attempt) -> Polling {
        match attempt {
            Attempt::Transferred(count) => Polling::Return(Completion::Done(count)),
            Attempt::WouldBlock => Polling::AwaitReadiness,
            Attempt::Failed(error) => Polling::Return(Completion::Failed(error)),
        }
    }

    /// The state after `event`. An event that the state does not wait for
    /// changes nothing.
    pub open spec fn after(self, event: Event) -> Polling {
        match (self, event) {
            (Polling::AwaitReadiness, Event::Readiness(readiness)) => Polling::on_readiness(
                readiness,
            ),
            (Polling::Attempt, Event::Attempt(attempt)) => Polling::on_attempt(attempt),
            (state, _) => state,
        }
    }

    /// The state that `events`, in order, lead to from `self`.
    pub open spec fn after_all(self, events: Seq<Event>) -> Polling
        decreases events.len(),
    {
        if events.len() == 0 {
            self
        } else {
            self.after(events.first()).after_all(events.drop_first())
        }
    }

    /// The state in which a call of the loop begins.
    pub fn begin() -> (out: Polling)
        ensures
            out == Polling::AwaitReadiness,
    {
        Polling::AwaitReadiness
    }

    /// Takes the reactor's answer. Readiness leads to an attempt; a task
    /// that has to wait is suspended; a failure is handed on at once.
    pub fn readiness(readiness: Readiness) -> (out: Polling)
        ensures
            out == Polling::on_readiness(readiness),
    {
        match readiness {
            Readiness::NotReady => Polling::Return(Completion::Suspended),
            Readiness::Ready => Polling::Attempt,
            Readiness::Failed(error) => Polling::Return(Completion::Failed(error)),
        }
    }

    /// Takes the result of an attempt. An attempt that would have blocked
    /// leads back to the reactor, with the used-up readiness cleared; every
    /// other result ends the call.
    pub fn attempt(attempt: Attempt) -> (out: Polling)
        ensures
            out == Polling::on_attempt(attempt),
    {
        match attempt {
            Attempt::Transferred(count) => Polling::Return(Completion::Done(count)),
            Attempt::WouldBlock => Polling::AwaitReadiness,
            Attempt::Failed(error) => Polling::Return(Completion::Failed(error)),
        }
    }

    /// Takes `event`.
    pub fn advance(self, event: Event) -> (out: Polling)
        ensures
            out == self.after(event),
    {
        match (self, event) {
            (Polling::AwaitReadiness, Event::Readiness(readiness)) => Polling::readiness(
                readiness,
            ),
            (Polling::Attempt, Event::Attempt(attempt)) => Polling::attempt(attempt),
            (state, _) => state,
        }
    }
}

/// What a flush or a shutdown hands back: the descriptor buffers nothing and
/// has no half-close, so both are done at once and move no bytes.
pub fn flushed() -> (out: Completion)
    ensures
        out == Completion::Done(0),
{
    Completion::Done(0)
}

/// One round of the loop that ends in an attempt that would have blocked:
/// the reactor reports readiness, and the attempt finds none.
pub open spec fn spurious_round() -> Seq<Event> {
    seq![Event::Readiness(Readiness::Ready), Event::Attempt(Attempt::WouldBlock)]
}

/// `rounds` rounds of [`spurious_round`], one after another.
pub open spec fn spurious_rounds(rounds: nat) -> Seq<Event>
    decreases rounds,
{
    if rounds == 0 {
        Seq::empty()
    } else {
        spurious_round() + spurious_rounds((rounds - 1) as nat)
    }
}

/// An attempt that would have blocked is never handed to the caller: after
/// any number of such rounds the loop waits for readiness as at the start,
/// so the call ends as if they had not happened.
pub proof fn lemma_would_block_is_invisible(rounds: nat, events: Seq<Event>)
    ensures
        Polling::AwaitReadiness.after_all(spurious_rounds(rounds) + events)
            == Polling::AwaitReadiness.after_all(events),
    decreases rounds,
{
    if rounds == 0 {
        assert(spurious_rounds(0) + events == events);
    } else {
        let rest = spurious_rounds((rounds - 1) as nat) + events;
        let all = spurious_rounds(rounds) + events;
        assert(all == spurious_round() + rest);
        assert(all.first() == Event::Readiness(Readiness::Ready));
        assert(all.drop_first().first() == Event::Attempt(Attempt::WouldBlock));
        assert(all.drop_first().drop_first() == rest);
        let start = Polling::AwaitReadiness;
        assert(start.after_all(all) == start.after(all.first()).after_all(all.drop_first()));
        assert(start.after(all.first()) == Polling::Attempt);
        assert(Polling::Attempt.after_all(all.drop_first()) == Polling::Attempt.after(
            all.drop_first().first(),
        ).after_all(rest));
        lemma_would_block_is_invisible((rounds - 1) as nat, events);
    }
}

/// A call fails only with an error that the reactor or the operating system
/// reported in one of the events: the loop makes up no error of its own.
pub proof fn lemma_failure_was_reported(state: Polling, events: Seq<Event>, error: std::io::Error)
    requires
        state.after_all(events) == Polling::Return(Completion::Failed(error)),
        state != Polling::Return(Completion::Failed(error)),
    ensures
        exists|i: int|
            0 <= i < events.len() && (#[trigger] events[i] == Event::Readiness(
                Readiness::Failed(error),
            ) || events[i] == Event::Attempt(Attempt::Failed(error))),
    decreases events.len(),
{
    if events.len() > 0 {
        let next = state.after(events.first());
        let rest = events.drop_first();
        if next == Polling::Return(Completion::Failed(error)) {
            assert(events[0] == Event::Readiness(Readiness::Failed(error)) || events[0]
                == Event::Attempt(Attempt::Failed(error)));
        } else {
            lemma_failure_was_reported(next, rest, error);
            let i = choose|i: int|
                0 <= i < rest.len() && (#[trigger] rest[i] == Event::Readiness(
                    Readiness::Failed(error),
                ) || rest[i] == Event::Attempt(Attempt::Failed(error)));
            assert(events[i + 1] == rest[i]);
        }
    }
}

/// A read of zero bytes ends the call as a result, not as an error: the end
/// of the stream is a value.
pub proof fn lemma_end_of_stream_is_a_result()
    ensures
        Polling::AwaitReadiness.after_all(
            seq![Event::Readiness(Readiness::Ready), Event::Attempt(Attempt::Transferred(0))],
        ) == Polling::Return(Completion::Done(0)),
{
    let events = seq![Event::Readiness(Readiness::Ready), Event::Attempt(Attempt::Transferred(0))];
    assert(events.drop_first().first() == Event::Attempt(Attempt::Transferred(0)));
    assert(events.drop_first().drop_first().len() == 0);
    reveal_with_fuel(Polling::after_all, 3);
}

} // verus!
