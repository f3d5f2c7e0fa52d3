//! The single-shot asynchronous handle for one in-flight dispatch.
//!
//! A [`PendingResult`] is the promise side of a dispatch call: it resolves
//! at most once, to either a response or an error, and its one outcome can
//! be observed at most once. It shares nothing with any other in-flight
//! call. Dropping an unresolved handle is the only cancellation mechanism.

use vstd::prelude::*;

verus! {

/// A single-producer, single-consumer slot for the eventual outcome of one
/// dispatch call.
#[derive(Debug, PartialEq, Eq)]
pub enum PendingResult<T, E> {
    /// The dispatch is still in flight: no outcome yet.
    Pending,
    /// The dispatch finished with this outcome, not yet observed.
    Resolved(Result<T, E>),
    /// The one outcome has been observed; the handle is spent.
    Consumed,
}

/// What one poll of a [`PendingResult`] yields.
#[derive(Debug, PartialEq, Eq)]
pub enum PollOutcome<T, E> {
    /// No outcome yet; poll again later.
    NotYet,
    /// The single terminal outcome of the dispatch.
    Delivered(Result<T, E>),
}

impl<T, E> PendingResult<T, E> {
    /// What polling a handle in this state yields.
    pub open spec fn poll_report(self) -> PollOutcome<T, E> {
        match self {
            PendingResult::Resolved(out) => PollOutcome::Delivered(out),
            _ => PollOutcome::NotYet,
        }
    }

    /// The handle state after one poll.
    pub open spec fn after_poll(self) -> PendingResult<T, E> {
        match self {
            PendingResult::Resolved(_) => PendingResult::Consumed,
            _ => self,
        }
    }

    /// A fresh handle for a dispatch still in flight.
    pub fn pending() -> (s: Self)
        ensures
            s is Pending,
    {
        PendingResult::Pending
    }

    /// A handle whose dispatch has already finished with `outcome`.
    pub fn resolved(outcome: Result<T, E>) -> (s: Self)
        ensures
            s == PendingResult::Resolved(outcome),
    {
        PendingResult::Resolved(outcome)
    }

    /// The producer side: fills the slot with the dispatch's one outcome.
    /// Only an in-flight handle can be resolved, so a handle resolves at
    /// most once.
    pub fn resolve(&mut self, outcome: Result<T, E>)
        requires
            *old(self) is Pending,
        ensures
            *final(self) == PendingResult::Resolved(outcome),
    {
        *self = PendingResult::Resolved(outcome);
    }

    /// The consumer side: a non-blocking probe for the outcome. Delivers
    /// the outcome exactly once; a spent handle must not be polled again.
    pub fn poll(&mut self) -> (r: PollOutcome<T, E>)
        requires
            !(*old(self) is Consumed),
        ensures
            r == old(self).poll_report(),
            *final(self) == old(self).after_poll(),
    {
        let mut taken = PendingResult::Consumed;
        core::mem::swap(self, &mut taken);
        match taken {
            PendingResult::Pending => {
                *self = PendingResult::Pending;
                PollOutcome::NotYet
            },
            PendingResult::Resolved(out) => PollOutcome::Delivered(out),
            PendingResult::Consumed => {
                proof {
                    assert(false);
                }
                PollOutcome::NotYet
            },
        }
    }

    /// True while no outcome has been filled in.
    pub fn is_pending(&self) -> (r: bool)
        ensures
            r == (*self is Pending),
    {
        match self {
            PendingResult::Pending => true,
            _ => false,
        }
    }
}

/// A dispatch has exactly one observable terminal outcome.
///
/// Once resolved, a handle delivers its outcome on the next poll — never
/// zero outcomes; and polling a handle that has delivered yields nothing
/// further and leaves it spent — never a second outcome. Together with
/// `resolve`, which only accepts an in-flight handle, a single dispatch can
/// never surface two terminal outcomes.
pub proof fn lemma_exactly_one_outcome<T, E>(s: PendingResult<T, E>)
    ensures
        s matches PendingResult::Resolved(out) ==> s.poll_report() == PollOutcome::Delivered(out),
        s.poll_report() is Delivered ==> s.after_poll() is Consumed,
        s.after_poll() is Consumed ==> s.after_poll().poll_report() is NotYet,
{
}

} // verus!
