//! The poll contract that every task of the runtime obeys.

use crate::runtime::executor::Waker;
use vstd::prelude::*;

verus! {

/// The outcome of one call of [`Future::poll`].
#[derive(Debug)]
pub enum PollState<T> {
    /// The work is done and this is its value.
    Ready(T),
    /// The work cannot go on now; the waker handed to `poll` will be invoked
    /// when it can.
    NotReady,
}

impl<T> PollState<T> {
    /// Whether this outcome carries a value.
    pub fn is_ready(&self) -> (ready: bool)
        ensures
            ready == (self is Ready),
    {
        match self {
            PollState::Ready(_) => true,
            PollState::NotReady => false,
        }
    }
}

/// A unit of asynchronous work.
///
/// `poll` must not block. When it cannot finish it arranges that the given
/// waker is invoked once the work can go on, keeps in its own fields whatever
/// it needs to resume, and returns [`PollState::NotReady`]. A future that has
/// returned [`PollState::Ready`] must not be polled again.
///
/// What one poll does is the future's own to say, in `polls_to`. A future
/// that says nothing there allows every outcome, and the executor is proved
/// for whatever a poll returns.
pub trait Future {
    type Output;

    /// Whether a poll with `waker` can take the future from `self` to `next`
    /// and return `state`.
    open spec fn polls_to(&self, waker: Waker, next: &Self, state: PollState<Self::Output>) -> bool {
        true
    }

    fn poll(&mut self, waker: &Waker) -> (state: PollState<Self::Output>)
        ensures
            old(self).polls_to(*waker, final(self), state),
    ;
}

} // verus!
