//! The registry that joins readiness events to wakers.

use crate::epoll::Event;
use crate::runtime::executor::Waker;
use crate::runtime::Runtime;
use std::collections::HashMap;
use vstd::prelude::*;

verus! {

broadcast use vstd::std_specs::hash::group_hash_axioms;

/// The mathematical state of a reactor.
pub struct ReactorState {
    /// The waker that was last installed for each registration id.
    pub wakers: Map<usize, Waker>,
    /// The registration id that is given out next.
    pub next_id: usize,
}

impl ReactorState {
    /// The state of a reactor that has just been started: no waker, and 1 as
    /// the first registration id.
    pub open spec fn initial() -> Self {
        ReactorState { wakers: Map::empty(), next_id: 1 }
    }

    /// After `waker` was installed for `id`: it replaces whatever was there.
    pub open spec fn with_waker(self, id: usize, waker: Waker) -> Self {
        ReactorState { wakers: self.wakers.insert(id, waker), ..self }
    }

    /// After `id` was deregistered: no waker is kept for it.
    pub open spec fn without(self, id: usize) -> Self {
        ReactorState { wakers: self.wakers.remove(id), ..self }
    }

    /// After one registration id was given out.
    pub open spec fn advanced(self) -> Self {
        ReactorState { next_id: (self.next_id + 1) as usize, ..self }
    }

    /// After `count` registration ids were given out.
    pub open spec fn advanced_by(self, count: nat) -> Self
        decreases count,
    {
        if count == 0 {
            self
        } else {
            self.advanced_by((count - 1) as nat).advanced()
        }
    }

    /// The waker to invoke for an event that carries `token`, if the
    /// registration is still there.
    pub open spec fn waker_for(self, token: usize) -> Option<Waker> {
        if self.wakers.contains_key(token) {
            Some(self.wakers[token])
        } else {
            None
        }
    }

    /// The wakers to invoke for `events`, in the order of the events. An
    /// event whose registration is gone yields none.
    pub open spec fn dispatched(self, events: Seq<Event>) -> Seq<Waker>
        decreases events.len(),
    {
        if events.len() == 0 {
            Seq::empty()
        } else {
            let before = self.dispatched(events.drop_last());
            match self.waker_for(events.last().epoll_data) {
                Some(waker) => before.push(waker),
                None => before,
            }
        }
    }
}

/// The registry of the operations that wait for readiness: for each
/// registration id the waker to invoke when its event arrives, and the
/// counter that the ids come from.
pub struct Reactor {
    wakers: HashMap<usize, Waker>,
    next_id: usize,
}

impl View for Reactor {
    type V = ReactorState;

    closed spec fn view(&self) -> ReactorState {
        ReactorState { wakers: self.wakers@, next_id: self.next_id }
    }
}

impl Reactor {
    /// A reactor without registrations, whose first id is 1.
    pub fn new() -> (reactor: Self)
        ensures
            reactor@ == ReactorState::initial(),
    {
        Reactor { wakers: HashMap::new(), next_id: 1 }
    }

    /// Installs `waker` for `id` and returns the one it replaces: the last
    /// write wins. An operation calls this again after every read that would
    /// block.
    pub fn set_waker(&mut self, waker: &Waker, id: usize) -> (replaced: Option<Waker>)
        ensures
            final(self)@ == old(self)@.with_waker(id, *waker),
            replaced == old(self)@.waker_for(id),
    {
        self.wakers.insert(id, *waker)
    }

    /// Forgets the waker of `id` and returns it. Deregistering an id that is
    /// not registered changes nothing and returns `None`: a second call for
    /// the same id is harmless, and tells the caller that there is no watch
    /// left to remove.
    pub fn deregister(&mut self, id: usize) -> (removed: Option<Waker>)
        ensures
            final(self)@ == old(self)@.without(id),
            removed == old(self)@.waker_for(id),
            removed is None ==> final(self)@ == old(self)@,
    {
        let removed = self.wakers.remove(&id);
        assert(removed is None ==> self.wakers@ =~= old(self).wakers@);
        removed
    }

    /// Gives out a registration id that no earlier call has returned.
    pub fn next_id(&mut self) -> (id: usize)
        requires
            old(self)@.next_id < usize::MAX,
        ensures
            id == old(self)@.next_id,
            final(self)@ == old(self)@.advanced(),
    {
        let id = self.next_id;
        self.next_id = id + 1;
        id
    }

    /// The registration id that the next call of [`Reactor::next_id`]
    /// returns.
    pub fn peek_id(&self) -> (id: usize)
        ensures
            id == self@.next_id,
    {
        self.next_id
    }

    /// The waker to invoke for `event`, if its registration is still there.
    pub fn waker_for(&self, event: &Event) -> (waker: Option<Waker>)
        ensures
            waker == self@.waker_for(event.epoll_data),
    {
        match self.wakers.get(&event.token()) {
            Some(waker) => Some(*waker),
            None => None,
        }
    }

    /// The wakers to invoke for one batch of delivered events, in the order
    /// of the events. An event whose registration has been removed meanwhile
    /// is passed over.
    pub fn dispatch(&self, events: &Vec<Event>) -> (wakers: Vec<Waker>)
        ensures
            wakers@ == self@.dispatched(events@),
    {
        let mut wakers: Vec<Waker> = Vec::new();
        let mut i: usize = 0;
        while i < events.len()
            invariant
                i <= events.len(),
                wakers@ == self@.dispatched(events@.take(i as int)),
            decreases events.len() - i,
        {
            proof {
                assert(events@.take(i + 1).drop_last() =~= events@.take(i as int));
            }
            match self.waker_for(&events[i]) {
                Some(waker) => wakers.push(waker),
                None => {},
            }
            i += 1;
        }
        proof {
            assert(events@.take(i as int) =~= events@);
        }
        wakers
    }
}

/// Why the reactor could not be started.
#[derive(Clone, Copy, Debug, PartialEq, Eq, Structural)]
pub enum StartError {
    /// The runtime already has a running reactor.
    AlreadyRunning,
}

/// Starts the reactor of `runtime`: a new registry without registrations is
/// put in place. A runtime has one reactor for its whole life: a second start
/// is refused and leaves the running reactor as it is.
pub fn start(runtime: &mut Runtime) -> (started: Result<(), StartError>)
    ensures
        match started {
            Ok(()) => old(runtime)@ is None && final(runtime)@ == Some(ReactorState::initial()),
            Err(error) => {
                &&& error == StartError::AlreadyRunning
                &&& old(runtime)@ is Some
                &&& final(runtime)@ == old(runtime)@
            },
        },
{
    if runtime.is_running() {
        Err(StartError::AlreadyRunning)
    } else {
        runtime.install(Reactor::new());
        Ok(())
    }
}

/// The reactor of a running runtime: what every leaf future registers with.
pub fn reactor(runtime: &mut Runtime) -> (reactor: &mut Reactor)
    requires
        old(runtime)@ is Some,
    ensures
        reactor@ == old(runtime)@->0,
        final(runtime)@ == Some(final(reactor)@),
{
    runtime.installed()
}

/// Deregistering is idempotent. A second deregistration of the same id
/// finds nothing to remove and leaves the registry as the first one left it,
/// and an event that still arrives for the id wakes nobody.
pub proof fn lemma_deregister_twice(state: ReactorState, id: usize)
    ensures
        state.without(id).without(id) == state.without(id),
        state.without(id).waker_for(id) is None,
        state.without(id).next_id == state.next_id,
        forall|other: usize|
            other != id ==> #[trigger] state.without(id).waker_for(other) == state.waker_for(other),
{
    assert(state.wakers.remove(id).remove(id) =~= state.wakers.remove(id));
}

/// The next id after `count` ids were given out, while the counter has room.
pub proof fn lemma_advanced_by(state: ReactorState, count: nat)
    requires
        state.next_id + count <= usize::MAX,
    ensures
        state.advanced_by(count).next_id == state.next_id + count,
        state.advanced_by(count).wakers == state.wakers,
    decreases count,
{
    if count > 0 {
        lemma_advanced_by(state, (count - 1) as nat);
    }
}

/// Registration ids are never given out twice. While the counter has room,
/// the ids that any two different calls of `next_id` return differ, and the
/// later call returns the greater one.
pub proof fn lemma_ids_never_repeat(state: ReactorState, earlier: nat, later: nat)
    requires
        earlier < later,
        state.next_id + later <= usize::MAX,
    ensures
        state.advanced_by(earlier).next_id < state.advanced_by(later).next_id,
{
    lemma_advanced_by(state, earlier);
    lemma_advanced_by(state, later);
}

} // verus!
