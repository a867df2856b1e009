//! What the runtime reads of the operating system's readiness queue: the
//! interest flags of a watch and the events that the queue delivers.

use vstd::prelude::*;

verus! {

/// The operation that adds a watch to a readiness queue.
pub const EPOLL_CTL_ADD: i32 = 1;

/// Interest in, or readiness for, reading.
pub const EPOLLIN: i32 = 0x1;

/// Edge-triggered delivery: one event per change of readiness, so that a
/// watch has to be armed again after every read that would block.
pub const EPOLLET: i32 = 1 << 31;

/// One readiness event as the queue delivers it.
#[derive(Clone, Copy, Debug, PartialEq, Eq, Structural)]
pub struct Event {
    /// The readiness flags.
    pub events: u32,
    /// The token that the watch was registered with.
    pub epoll_data: usize,
}

impl Event {
    /// The token that the watch was registered with: the registration id of
    /// the operation that waits for this event.
    pub fn token(&self) -> (token: usize)
        ensures
            token == self.epoll_data,
    {
        self.epoll_data
    }

    /// Whether the event reports that reading will not block.
    pub fn is_readable(&self) -> (readable: bool)
        ensures
            readable == (self.events & 1 != 0),
    {
        self.events & 1 != 0
    }
}

} // verus!
