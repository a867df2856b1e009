//! The executor, the reactor, and the start-up of both.

pub mod executor;
pub mod reactor;

use crate::runtime::executor::Executor;
use crate::runtime::executor::ExecutorState;
use crate::runtime::reactor::start;
use crate::runtime::reactor::Reactor;
use crate::runtime::reactor::ReactorState;
use crate::runtime::reactor::StartError;
use vstd::prelude::*;

verus! {

/// The one place of a process where its reactor lives. It is made empty, the
/// reactor is started in it once, and from then on every leaf future reaches
/// the reactor through it.
pub struct Runtime {
    reactor: Option<Reactor>,
}

impl View for Runtime {
    type V = Option<ReactorState>;

    closed spec fn view(&self) -> Option<ReactorState> {
        match self.reactor {
            Some(reactor) => Some(reactor@),
            None => None,
        }
    }
}

impl Runtime {
    /// A runtime whose reactor has not been started.
    pub fn new() -> (runtime: Self)
        ensures
            runtime@ is None,
    {
        Runtime { reactor: None }
    }

    /// Whether the reactor has been started.
    pub fn is_running(&self) -> (running: bool)
        ensures
            running == (self@ is Some),
    {
        self.reactor.is_some()
    }

    /// Puts `reactor` in place. Only [`start`] does so.
    pub(crate) fn install(&mut self, reactor: Reactor)
        ensures
            final(self)@ == Some(reactor@),
    {
        self.reactor = Some(reactor);
    }

    /// The reactor that was put in place. Only [`reactor`] hands it out.
    ///
    /// [`reactor`]: crate::runtime::reactor::reactor
    pub(crate) fn installed(&mut self) -> (reactor: &mut Reactor)
        requires
            old(self)@ is Some,
        ensures
            reactor@ == old(self)@->0,
            final(self)@ == Some(final(reactor)@),
    {
        match &mut self.reactor {
            Some(reactor) => reactor,
            None => vstd::pervasive::unreached(),
        }
    }
}

/// Starts the reactor of `runtime` and returns an executor for the thread
/// with the key `thread`. It fails, and changes nothing, when the reactor is
/// already running.
pub fn init(runtime: &mut Runtime, thread: usize) -> (started: Result<Executor, StartError>)
    ensures
        match started {
            Ok(executor) => {
                &&& old(runtime)@ is None
                &&& final(runtime)@ == Some(ReactorState::initial())
                &&& executor@ == ExecutorState::initial(thread)
            },
            Err(error) => {
                &&& error == StartError::AlreadyRunning
                &&& old(runtime)@ is Some
                &&& final(runtime)@ == old(runtime)@
            },
        },
{
    match start(runtime) {
        Ok(()) => Ok(Executor::new(thread)),
        Err(error) => Err(error),
    }
}

} // verus!
