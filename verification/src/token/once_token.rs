//! A token that is accepted once, and only for a time.

use crate::time::clock::{elapsed, is_longer, now};
use std::sync::{Mutex, MutexGuard};
use std::time::{Duration, Instant};
use vstd::prelude::*;
use vstd::std_specs::cmp::PartialEqSpec;

verus! {

/// `std::sync::Mutex`: what it guards can change between two looks at it, so
/// nothing here speaks of its content.
#[verifier::external_type_specification]
#[verifier::external_body]
#[verifier::reject_recursive_types(T)]
pub struct ExMutex<T: ?Sized>(Mutex<T>);

/// `std::sync::MutexGuard`: the right to what a locked mutex guards.
#[verifier::external_type_specification]
#[verifier::external_body]
#[verifier::reject_recursive_types(T)]
pub struct ExMutexGuard<'a, T: ?Sized + 'a>(MutexGuard<'a, T>);

/// `Mutex::new` makes a mutex that guards `value`.
#[verifier::external_body]
fn guard_value<T>(value: T) -> Mutex<T> {
    Mutex::new(value)
}

/// `Mutex::lock` waits for the mutex. A poisoned mutex is locked all the
/// same: `PoisonError::into_inner` hands out its guard.
#[verifier::external_body]
fn lock<T>(mutex: &Mutex<T>) -> MutexGuard<'_, T> {
    mutex.lock().unwrap_or_else(|poisoned| poisoned.into_inner())
}

/// `Option::take` on what the mutex guards: hands out the content and leaves
/// nothing behind.
#[verifier::external_body]
fn take<T>(slot: &mut MutexGuard<'_, Option<T>>) -> Option<T> {
    slot.take()
}

/// `Option::replace` on what the mutex guards: `value` takes the place of
/// the content.
#[verifier::external_body]
fn put<T>(slot: &mut MutexGuard<'_, Option<T>>, value: T) {
    slot.replace(value);
}

struct TokenData<T> {
    token: T,
    created: Instant,
}

/// A token that is accepted once, within its time to live.
#[verifier::reject_recursive_types(T)]
pub struct OnceToken<T, G = fn() -> T> {
    data: Mutex<Option<TokenData<T>>>,
    generator: G,
    ttl: Duration,
}

/// What presenting a token comes to.
#[derive(Clone, Copy, Debug, PartialEq, Eq, Structural)]
pub enum Verdict {
    /// No token is held.
    Missing,
    /// The token that is held has outlived its time.
    Expired,
    /// The token that is held is the one presented.
    Matched,
    /// The token that is held is another one.
    Mismatched,
}

impl Verdict {
    /// Only the token that is held, in its time, is authorized.
    pub open spec fn authorizes(self) -> bool {
        self is Matched
    }

    /// Whether the presented token is authorized.
    pub fn is_authorized(self) -> (out: bool)
        ensures
            out == self.authorizes(),
    {
        match self {
            Verdict::Matched => true,
            _ => false,
        }
    }
}

/// The verdict on a presented token, and the token that is held afterwards.
/// `held` is the token that is held, if any, and `expired` tells whether it
/// has outlived its time. An expired token is thrown away whatever is
/// presented, a token that matches is used up, and only a token in its time
/// that does not match stays.
pub open spec fn settled<T: PartialEq>(held: Option<T>, expired: bool, presented: T) -> (
    Verdict,
    Option<T>,
) {
    match held {
        None => (Verdict::Missing, None),
        Some(token) => if expired {
            (Verdict::Expired, None)
        } else if token.eq_spec(&presented) {
            (Verdict::Matched, None)
        } else {
            (Verdict::Mismatched, Some(token))
        },
    }
}

/// The verdict on `presented`, and the token that is held afterwards. What
/// counts as equal is for the token's type to say.
pub fn settle<T: PartialEq>(held: Option<T>, expired: bool, presented: &T) -> (out: (
    Verdict,
    Option<T>,
))
    ensures
        T::obeys_eq_spec() ==> out == settled(held, expired, *presented),
        out.0 is Missing <==> held is None,
        out.0 is Expired <==> held is Some && expired,
        out.1 is Some <==> out.0 is Mismatched,
        out.1 is Some ==> out.1 == held,
{
    match held {
        None => (Verdict::Missing, None),
        Some(token) => if expired {
            (Verdict::Expired, None)
        } else if token == *presented {
            (Verdict::Matched, None)
        } else {
            (Verdict::Mismatched, Some(token))
        },
    }
}

/// A token is authorized at most once: where the presented token is
/// authorized, none is held afterwards. And no token outlives its time: an
/// expired token is never authorized and never stays.
pub proof fn lemma_authorized_token_is_used_up<T: PartialEq>(
    held: Option<T>,
    expired: bool,
    presented: T,
)
    ensures
        settled(held, expired, presented).0.authorizes() ==> settled(held, expired, presented).1
            is None,
        expired ==> !settled(held, expired, presented).0.authorizes() && settled(
            held,
            expired,
            presented,
        ).1 is None,
        held is None ==> !settled(held, expired, presented).0.authorizes(),
        settled(settled(held, expired, presented).1, expired, presented).1 == settled(
            held,
            expired,
            presented,
        ).1,
{
}

impl<T, G> OnceToken<T, G> {
    /// The generator of new tokens.
    pub closed spec fn generator(&self) -> G {
        self.generator
    }

    /// The time for which a token is accepted.
    pub closed spec fn time_to_live(&self) -> Duration {
        self.ttl
    }

    /// A holder of no token, whose tokens will live for `ttl`.
    pub fn new(ttl: Duration, generator: G) -> (out: Self)
        ensures
            out.generator() == generator,
            out.time_to_live() == ttl,
    {
        Self { data: guard_value(None), generator, ttl }
    }

    /// Holds `token` from now on, in place of any other.
    pub fn set(&self, token: T) {
        self.set_at(token, now());
    }

    /// Holds `token`, in place of any other, as one that was made at
    /// `created`.
    pub fn set_at(&self, token: T, created: Instant) {
        let mut slot = lock(&self.data);
        put(&mut slot, TokenData { created, token });
    }

    /// The verdict on `token`: the one that [`settled`] gives for the token
    /// that is held, if any, and for what the clock says of its age. The held
    /// token is removed unless the verdict keeps it.
    pub fn present(&self, token: &T) -> (out: Verdict) where T: PartialEq
        ensures
            T::obeys_eq_spec() ==> exists|held: Option<T>, expired: bool|
                out == (#[trigger] settled(held, expired, *token)).0,
    {
        let mut slot = lock(&self.data);
        match take(&mut slot) {
            None => {
                let (verdict, _) = settle(None, false, token);
                assert(T::obeys_eq_spec() ==> verdict == settled(None::<T>, false, *token).0);
                verdict
            },
            Some(data) => {
                let TokenData { token: held, created } = data;
                let expired = is_longer(&elapsed(&created), &self.ttl);
                let ghost before = Some(held);
                let (verdict, kept) = settle(Some(held), expired, token);
                assert(T::obeys_eq_spec() ==> verdict == settled(before, expired, *token).0);
                if let Some(kept) = kept {
                    put(&mut slot, TokenData { token: kept, created });
                }
                verdict
            },
        }
    }

    /// Compare given token with saved token, if they are equal, remove saved token
    pub fn eq_once(&self, token: &T) -> (out: bool) where T: PartialEq
        ensures
            T::obeys_eq_spec() ==> exists|held: Option<T>, expired: bool|
                out == (#[trigger] settled(held, expired, *token)).0.authorizes(),
    {
        self.present(token).is_authorized()
    }

    pub fn ttl(&self) -> (out: Duration)
        ensures
            out == self.time_to_live(),
    {
        self.ttl
    }

    /// Whether a token is held, expired or not.
    pub fn is_set(&self) -> bool {
        let mut slot = lock(&self.data);
        match take(&mut slot) {
            None => false,
            Some(data) => {
                put(&mut slot, data);
                true
            },
        }
    }
}

impl<T, G> OnceToken<T, G> where T: Clone, G: Fn() -> T {
    /// Makes a new token, holds it in place of any other, and hands it out.
    #[must_use]
    pub fn generate(&self) -> (out: T)
        requires
            self.generator().requires(()),
        ensures
            self.generator().ensures((), out),
    {
        let new_token = (self.generator)();
        self.set(new_token.clone());
        new_token
    }
}

} // verus!
