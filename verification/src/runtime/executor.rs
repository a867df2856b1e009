//! The cooperative scheduler: a task table, a ready queue and the rule that
//! joins them.

use crate::future::{Future, PollState};
use std::collections::HashMap;
use vstd::prelude::*;

verus! {

broadcast use vstd::std_specs::hash::group_hash_axioms;

/// A handle that marks one task of one executor runnable again.
///
/// It is a plain value: the key of the thread that owns the executor and the
/// id of the task. Waking through it is safe at any time, also after the task
/// has resolved.
#[derive(Clone, Copy, Debug, PartialEq, Eq, Structural)]
pub struct Waker {
    /// The key of the thread whose executor owns the task.
    pub thread: usize,
    /// The id of the task within that executor.
    pub id: usize,
}

/// What the executor needs of a task: that it can be polled for a `String`.
/// Every [`Future`] with that output is one, and resuming it is polling it:
/// with the same waker, to the same outcome, leaving the future as the poll
/// left it.
trait Resumable {
    /// Whether resuming with `waker` can return `state`.
    spec fn may_resume(&self, waker: Waker, state: PollState<String>) -> bool;

    fn resume(&mut self, waker: &Waker) -> (state: PollState<String>)
        ensures
            old(self).may_resume(*waker, state),
    ;
}

impl<F: Future<Output = String>> Resumable for F {
    spec fn may_resume(&self, waker: Waker, state: PollState<String>) -> bool {
        exists|next: F| self.polls_to(waker, &next, state)
    }

    fn resume(&mut self, waker: &Waker) -> (state: PollState<String>)
        ensures
            old(self).polls_to(*waker, final(self), state),
    {
        self.poll(waker)
    }
}

/// A top-level future as the executor stores it: allocated once, behind one
/// owning pointer, and never moved out of that allocation afterwards.
pub struct Task {
    future: Box<dyn Resumable>,
}

impl Task {
    /// Whether a poll with `waker` can return `state`: whether a poll of the
    /// future inside can.
    pub closed spec fn may_return(&self, waker: Waker, state: PollState<String>) -> bool {
        self.future.may_resume(waker, state)
    }

    /// Allocates `future` behind the owning pointer that the table keeps.
    /// The task is that future: what a poll of the task can return is what a
    /// poll of `future` can.
    pub fn new<F>(future: F) -> (task: Task) where F: Future<Output = String> + 'static
        ensures
            forall|waker: Waker, state: PollState<String>| #[trigger]
                task.may_return(waker, state) <==> exists|next: F|
                    future.polls_to(waker, &next, state),
    {
        Task { future: Box::new(future) }
    }
}

/// A task is a future itself: polling it polls the future inside, with the
/// same waker, and returns what that poll returns.
impl Future for Task {
    type Output = String;

    open spec fn polls_to(&self, waker: Waker, next: &Self, state: PollState<String>) -> bool {
        self.may_return(waker, state)
    }

    fn poll(&mut self, waker: &Waker) -> (state: PollState<String>) {
        self.future.resume(waker)
    }
}

impl Waker {
    /// Marks the task runnable: its id goes onto the ready queue of
    /// `executor`, behind every id that is already there. Only the executor
    /// of the waker's own thread takes it; on any other the call changes
    /// nothing. The result says whether the id was taken: the caller then
    /// unparks that thread.
    ///
    /// The call is good at any time and any number of times, also when the
    /// task has resolved meanwhile.
    pub fn wake(&self, executor: &mut Executor) -> (delivered: bool)
        ensures
            final(executor)@ == old(executor)@.woken(*self),
            delivered == (self.thread == old(executor)@.thread),
    {
        if self.thread == executor.core.thread {
            executor.core.ready_queue.push(self.id);
            true
        } else {
            false
        }
    }
}

/// What became of one id that was taken off the ready queue.
#[derive(Clone, Copy, Debug, PartialEq, Eq, Structural)]
pub enum Outcome {
    /// No task is pending under the id: nothing was polled.
    Stale,
    /// The task was polled and returned `Ready`: it has been dropped.
    Resolved,
    /// The task was polled and returned `NotReady`: it is back in the table.
    Pending,
}

/// One step of a drain: the id that was popped and what became of it.
#[derive(Clone, Copy, Debug, PartialEq, Eq, Structural)]
pub struct Visit {
    pub id: usize,
    pub outcome: Outcome,
}

/// The ids of the tasks that `visits` reports as resolved.
pub open spec fn resolved_ids(visits: Seq<Visit>) -> Set<usize> {
    Set::new(|id: usize| visits.contains(Visit { id, outcome: Outcome::Resolved }))
}

/// What the executor is to do once its ready queue is drained.
#[derive(Clone, Copy, Debug, PartialEq, Eq, Structural)]
pub enum Decision {
    /// So many tasks are pending and none is ready: sleep until a waker
    /// unparks the thread.
    Park(usize),
    /// No task is left.
    Finished,
}

/// The report of one drain of the ready queue.
#[derive(Debug)]
pub struct Turn {
    /// The ids that were popped, in the order in which they were popped, each
    /// with what became of it.
    pub visits: Vec<Visit>,
    /// What is to be done now that the queue is empty.
    pub decision: Decision,
}

/// The mathematical state of an executor.
pub struct ExecutorState {
    /// The pending tasks by id. A task that is being polled is not in here.
    pub tasks: Map<usize, Task>,
    /// The ids that await a poll, oldest first.
    pub ready_queue: Seq<usize>,
    /// The id that the next spawned task gets.
    pub next_id: usize,
    /// The key of the thread that runs this executor.
    pub thread: usize,
}

impl ExecutorState {
    /// The state of a new executor on `thread`.
    pub open spec fn initial(thread: usize) -> Self {
        ExecutorState { tasks: Map::empty(), ready_queue: Seq::empty(), next_id: 0, thread }
    }

    /// The table is finite and every id in it has been given out by `spawn`.
    pub open spec fn wf(self) -> bool {
        &&& self.tasks.dom().finite()
        &&& forall|id: usize| self.tasks.contains_key(id) ==> id < self.next_id
    }

    /// After `task` was spawned: stored under the next id, that id made ready.
    pub open spec fn spawned(self, task: Task) -> Self {
        ExecutorState {
            tasks: self.tasks.insert(self.next_id, task),
            ready_queue: self.ready_queue.push(self.next_id),
            next_id: (self.next_id + 1) as usize,
            ..self
        }
    }

    /// After `waker` was invoked on this executor. A waker of another thread's
    /// executor changes nothing here.
    pub open spec fn woken(self, waker: Waker) -> Self {
        if waker.thread == self.thread {
            ExecutorState { ready_queue: self.ready_queue.push(waker.id), ..self }
        } else {
            self
        }
    }

    /// After `waker` was invoked `times` times on this executor.
    pub open spec fn woken_times(self, waker: Waker, times: nat) -> Self
        decreases times,
    {
        if times == 0 {
            self
        } else {
            self.woken_times(waker, (times - 1) as nat).woken(waker)
        }
    }

    /// After the most recently woken id was taken off the ready queue.
    pub open spec fn popped(self) -> Self {
        ExecutorState { ready_queue: self.ready_queue.drop_last(), ..self }
    }

    /// After the task `id` was taken out of the table.
    pub open spec fn taken(self, id: usize) -> Self {
        ExecutorState { tasks: self.tasks.remove(id), ..self }
    }

    /// After `task` was put into the table under `id`.
    pub open spec fn stored(self, id: usize, task: Task) -> Self {
        ExecutorState { tasks: self.tasks.insert(id, task), ..self }
    }

    /// After a task that was taken out under `id` has been polled with the
    /// outcome `state`: a resolved task is dropped, a pending one goes back.
    pub open spec fn settled(self, id: usize, task: Task, state: PollState<String>) -> Self {
        match state {
            PollState::Ready(_) => self,
            PollState::NotReady => self.stored(id, task),
        }
    }

    /// Whether one step that reports `visit` can lead from this state to
    /// `next`: the last id of the ready queue is popped; a stale id changes
    /// nothing else, a resolved task leaves the table, and a pending task is
    /// in the table again, in whatever state its poll left it.
    pub open spec fn steps_to(self, visit: Visit, next: Self) -> bool {
        &&& self.ready_queue.len() > 0
        &&& visit.id == self.ready_queue.last()
        &&& match visit.outcome {
            Outcome::Stale => !self.tasks.contains_key(visit.id) && next == self.popped(),
            Outcome::Resolved => self.tasks.contains_key(visit.id) && next == self.popped().taken(
                visit.id,
            ),
            Outcome::Pending => {
                &&& self.tasks.contains_key(visit.id)
                &&& next.tasks.contains_key(visit.id)
                &&& next == self.popped().stored(visit.id, next.tasks[visit.id])
            },
        }
    }

    /// Whether a drain that has so far reported `visits` can have led from
    /// this state to `now`.
    pub open spec fn drained_so_far(self, visits: Seq<Visit>, now: Self) -> bool {
        let n = self.ready_queue.len() as int;
        let k = visits.len() as int;
        &&& k <= n
        &&& now.ready_queue == self.ready_queue.take(n - k)
        &&& now.next_id == self.next_id
        &&& now.thread == self.thread
        // most recently woken first
        &&& forall|i: int| 0 <= i < k ==> (#[trigger] visits[i]).id == self.ready_queue[n - 1 - i]
        // an id is stale exactly when no task is pending under it at its turn
        &&& forall|i: int|
            0 <= i < k ==> ((#[trigger] visits[i]).outcome is Stale <==> !self.tasks.contains_key(
                visits[i].id,
            ) || resolved_ids(visits.take(i)).contains(visits[i].id))
        // the tasks that resolved are gone, and no others
        &&& forall|id: usize| #[trigger]
            now.tasks.contains_key(id) <==> self.tasks.contains_key(id) && !resolved_ids(
                visits,
            ).contains(id)
        // a task whose id was not ready has not been touched
        &&& forall|id: usize|
            self.tasks.contains_key(id) && !self.ready_queue.contains(id) ==> #[trigger] now.tasks[id]
                == self.tasks[id]
    }

    /// Whether a whole drain that reports `visits` can lead from this state
    /// to `next`: every id that was ready has had its turn.
    pub open spec fn drains_to(self, visits: Seq<Visit>, next: Self) -> bool {
        self.drained_so_far(visits, next) && visits.len() == self.ready_queue.len()
    }

    /// What a drained executor does next.
    pub open spec fn decision(self) -> Decision {
        if self.tasks.len() > 0 {
            Decision::Park(self.tasks.len() as usize)
        } else {
            Decision::Finished
        }
    }
}

/// The state behind an [`Executor`]: the task table, the ready queue, the id
/// counter and the key of the thread that runs it.
pub struct ExecuteCore {
    tasks: HashMap<usize, Task>,
    ready_queue: Vec<usize>,
    next_id: usize,
    thread: usize,
}

impl View for ExecuteCore {
    type V = ExecutorState;

    closed spec fn view(&self) -> ExecutorState {
        ExecutorState {
            tasks: self.tasks@,
            ready_queue: self.ready_queue@,
            next_id: self.next_id,
            thread: self.thread,
        }
    }
}

impl ExecuteCore {
    /// An empty table, an empty queue, and 0 as the first id.
    pub fn new(thread: usize) -> (core: Self)
        ensures
            core@ == ExecutorState::initial(thread),
    {
        ExecuteCore { tasks: HashMap::new(), ready_queue: Vec::new(), next_id: 0, thread }
    }
}

impl Default for ExecuteCore {
    fn default() -> (core: Self)
        ensures
            core@ == ExecutorState::initial(0),
    {
        ExecuteCore::new(0)
    }
}

/// A cooperative scheduler for the tasks of one thread.
pub struct Executor {
    core: ExecuteCore,
}

impl View for Executor {
    type V = ExecutorState;

    closed spec fn view(&self) -> ExecutorState {
        self.core@
    }
}

impl Executor {
    /// An executor without tasks, run by the thread with the key `thread`.
    pub fn new(thread: usize) -> (executor: Self)
        ensures
            executor@ == ExecutorState::initial(thread),
            executor@.wf(),
    {
        Executor { core: ExecuteCore::new(thread) }
    }

    /// Takes the most recently woken id off the ready queue.
    pub fn pop_ready(&mut self) -> (id: Option<usize>)
        ensures
            match id {
                Some(id) => {
                    &&& old(self)@.ready_queue.len() > 0
                    &&& id == old(self)@.ready_queue.last()
                    &&& final(self)@ == old(self)@.popped()
                },
                None => old(self)@.ready_queue.len() == 0 && final(self)@ == old(self)@,
            },
    {
        self.core.ready_queue.pop()
    }

    /// Takes the task `id` out of the table, if it is there.
    pub fn get_future(&mut self, id: usize) -> (task: Option<Task>)
        ensures
            match task {
                Some(task) => {
                    &&& old(self)@.tasks.contains_key(id)
                    &&& task == old(self)@.tasks[id]
                    &&& final(self)@ == old(self)@.taken(id)
                },
                None => !old(self)@.tasks.contains_key(id) && final(self)@ == old(self)@,
            },
    {
        let task = self.core.tasks.remove(&id);
        assert(task is None ==> self.core.tasks@ =~= old(self).core.tasks@);
        task
    }

    /// A fresh waker for the task `id` of this executor.
    pub fn get_waker(&self, id: usize) -> (waker: Waker)
        ensures
            waker == (Waker { thread: self@.thread, id }),
    {
        Waker { thread: self.core.thread, id }
    }

    /// Puts `task` into the table under `id`.
    pub fn insert_task(&mut self, id: usize, task: Task)
        ensures
            final(self)@ == old(self)@.stored(id, task),
    {
        self.core.tasks.insert(id, task);
    }

    /// Files a task that was taken out under `id` and polled with the outcome
    /// `state`: a resolved task is dropped, a pending one is stored again.
    pub fn settle(&mut self, id: usize, task: Task, state: PollState<String>) -> (outcome: Outcome)
        ensures
            final(self)@ == old(self)@.settled(id, task, state),
            outcome == (if state is Ready {
                Outcome::Resolved
            } else {
                Outcome::Pending
            }),
    {
        match state {
            PollState::Ready(_) => Outcome::Resolved,
            PollState::NotReady => {
                self.insert_task(id, task);
                Outcome::Pending
            },
        }
    }

    /// One step of the drain: pops the most recently woken id and, if a task
    /// is pending under it, takes the task out, polls it with a fresh waker
    /// and files it by the outcome. Returns `None` when the queue is empty.
    pub fn step(&mut self) -> (visit: Option<Visit>)
        ensures
            match visit {
                Some(visit) => old(self)@.steps_to(visit, final(self)@),
                None => old(self)@.ready_queue.len() == 0 && final(self)@ == old(self)@,
            },
    {
        match self.pop_ready() {
            None => None,
            Some(id) => {
                match self.get_future(id) {
                    None => Some(Visit { id, outcome: Outcome::Stale }),
                    Some(mut task) => {
                        let waker = self.get_waker(id);
                        let state = task.poll(&waker);
                        let outcome = self.settle(id, task, state);
                        proof {
                            let before = old(self)@.popped().tasks;
                            assert(before.remove(id).insert(id, task) =~= before.insert(id, task));
                        }
                        Some(Visit { id, outcome })
                    },
                }
            },
        }
    }

    /// Drains the ready queue, most recently woken id first, and says what
    /// is to be done next: park while tasks are pending, finish when none is.
    /// An id under which no task is pending is passed over.
    pub fn run_ready(&mut self) -> (turn: Turn)
        ensures
            old(self)@.drains_to(turn.visits@, final(self)@),
            turn.decision == final(self)@.decision(),
            turn.decision is Finished <==> final(self)@.tasks.dom() == Set::<usize>::empty(),
            final(self)@.wf() <== old(self)@.wf(),
    {
        let mut visits: Vec<Visit> = Vec::new();
        let mut drained = false;
        proof {
            assert(self@.ready_queue.take(self@.ready_queue.len() as int) =~= self@.ready_queue);
        }
        while !drained
            invariant
                old(self)@.drained_so_far(visits@, self@),
                drained ==> self@.ready_queue.len() == 0,
            decreases self@.ready_queue.len() + (if drained { 0nat } else { 1nat }),
        {
            let ghost now = self@;
            match self.step() {
                None => {
                    drained = true;
                },
                Some(visit) => {
                    proof {
                        lemma_drain_step(old(self)@, visits@, now, visit, self@);
                    }
                    visits.push(visit);
                },
            }
        }
        let count = self.task_count();
        proof {
            if count == 0 {
                self@.tasks.dom().lemma_len0_is_empty();
            }
        }
        let decision = if count > 0 {
            Decision::Park(count)
        } else {
            Decision::Finished
        };
        Turn { visits, decision }
    }

    /// Spawns `future` and drains the ready queue once. The caller parks
    /// when told to, hands over the wakes that arrive, and goes on with
    /// [`Executor::run_ready`] until a turn ends in [`Decision::Finished`]:
    /// that is when every task has resolved, and not before.
    pub fn block_on<F>(&mut self, future: F) -> (turn: Turn) where
        F: Future<Output = String> + 'static,

        requires
            old(self)@.next_id < usize::MAX,
        ensures
            exists|root: Task| #[trigger]
                old(self)@.spawned(root).drains_to(turn.visits@, final(self)@),
            turn.visits@.len() > 0 && turn.visits@[0].id == old(self)@.next_id,
            turn.decision == final(self)@.decision(),
            turn.decision is Finished <==> final(self)@.tasks.dom() == Set::<usize>::empty(),
            final(self)@.wf() <== old(self)@.wf(),
    {
        spawn(self, future);
        let ghost root = self@.tasks[old(self)@.next_id];
        let turn = self.run_ready();
        proof {
            assert(old(self)@.spawned(root).drains_to(turn.visits@, self@));
        }
        turn
    }

    /// The id that the next spawned task gets.
    pub fn next_id(&self) -> (id: usize)
        ensures
            id == self@.next_id,
    {
        self.core.next_id
    }

    /// The key of the thread that runs this executor.
    pub fn thread(&self) -> (thread: usize)
        ensures
            thread == self@.thread,
    {
        self.core.thread
    }

    /// The number of pending tasks.
    pub fn task_count(&self) -> (count: usize)
        ensures
            count == self@.tasks.len(),
            self@.tasks.dom().finite(),
    {
        self.core.tasks.len()
    }
}

/// One more step keeps a drain a drain.
proof fn lemma_drain_step(
    start: ExecutorState,
    visits: Seq<Visit>,
    now: ExecutorState,
    visit: Visit,
    next: ExecutorState,
)
    requires
        start.drained_so_far(visits, now),
        now.steps_to(visit, next),
    ensures
        start.drained_so_far(visits.push(visit), next),
{
    let n = start.ready_queue.len() as int;
    let k = visits.len() as int;
    let more = visits.push(visit);
    assert(next.ready_queue =~= start.ready_queue.take(n - k - 1));
    assert(more.take(k) =~= visits);
    assert forall|i: int| 0 <= i < k implies more.take(i) =~= visits.take(i) by {}
    assert forall|id: usize|
        resolved_ids(more).contains(id) <==> resolved_ids(visits).contains(id) || (id == visit.id
            && visit.outcome is Resolved) by {
        let wanted = Visit { id, outcome: Outcome::Resolved };
        if visits.contains(wanted) {
            let i = choose|i: int| 0 <= i < visits.len() && visits[i] == wanted;
            assert(more[i] == wanted);
        }
        if id == visit.id && visit.outcome is Resolved {
            assert(more[k] == wanted);
        }
    }
    assert(start.ready_queue.contains(visit.id)) by {
        assert(start.ready_queue[n - k - 1] == visit.id);
    }
}

/// Hands `future` to the executor: it is boxed and stored under a fresh id,
/// and that id is made ready.
pub fn spawn<F>(executor: &mut Executor, future: F) where F: Future<Output = String> + 'static
    requires
        old(executor)@.next_id < usize::MAX,
    ensures
        final(executor)@.tasks.contains_key(old(executor)@.next_id),
        final(executor)@ == old(executor)@.spawned(
            final(executor)@.tasks[old(executor)@.next_id],
        ),
{
    let id = executor.core.next_id;
    let task = Task::new(future);
    executor.core.tasks.insert(id, task);
    executor.core.ready_queue.push(id);
    executor.core.next_id = id + 1;
}

/// A spawned task gets an id of its own. In a well-formed executor no task
/// is pending under the next id, so that spawning replaces nothing: the table
/// grows by the one task, and the executor stays well-formed.
pub proof fn lemma_spawn_takes_a_fresh_id(state: ExecutorState, task: Task)
    requires
        state.wf(),
        state.next_id < usize::MAX,
    ensures
        !state.tasks.contains_key(state.next_id),
        state.spawned(task).tasks.len() == state.tasks.len() + 1,
        state.spawned(task).tasks.remove(state.next_id) == state.tasks,
        state.spawned(task).wf(),
{
    assert(state.tasks.insert(state.next_id, task).remove(state.next_id) =~= state.tasks);
}

/// A stale wake is harmless. When a waker is invoked whose task is not
/// pending, the next step takes the id off the queue, polls nothing, and
/// leaves the executor exactly as it was before the wake.
pub proof fn lemma_stale_wake_is_undone(
    state: ExecutorState,
    waker: Waker,
    visit: Visit,
    next: ExecutorState,
)
    requires
        waker.thread == state.thread,
        !state.tasks.contains_key(waker.id),
        state.woken(waker).steps_to(visit, next),
    ensures
        visit == (Visit { id: waker.id, outcome: Outcome::Stale }),
        next == state,
{
    assert(state.ready_queue.push(waker.id).drop_last() =~= state.ready_queue);
}

/// Tasks that are pending while nothing is ready stay so for ever. A drain
/// of an empty ready queue visits nothing and changes nothing, and its
/// decision is to park: without a wake the next turn starts from the same
/// state and ends the same way.
pub proof fn lemma_parks_until_woken(state: ExecutorState, visits: Seq<Visit>, next: ExecutorState)
    requires
        state.tasks.dom().finite(),
        state.tasks.len() > 0,
        state.ready_queue.len() == 0,
        next.tasks.dom().finite(),
        state.drains_to(visits, next),
    ensures
        visits.len() == 0,
        next == state,
        next.decision() == Decision::Park(state.tasks.len() as usize),
{
    assert(next.ready_queue =~= state.ready_queue);
    assert forall|id: usize| !resolved_ids(visits).contains(id) by {}
    assert(next.tasks =~= state.tasks) by {
        assert forall|id: usize| state.tasks.contains_key(id) implies next.tasks.contains_key(id)
            && next.tasks[id] == state.tasks[id] by {
            assert(!state.ready_queue.contains(id));
        }
    }
}

/// A drain ends in `Finished` only when every task has resolved: each task
/// that was pending before the drain has returned `Ready` in it.
pub proof fn lemma_finished_only_when_all_resolved(
    state: ExecutorState,
    visits: Seq<Visit>,
    next: ExecutorState,
)
    requires
        next.tasks.dom().finite(),
        state.drains_to(visits, next),
        next.decision() is Finished,
    ensures
        forall|id: usize| #[trigger]
            state.tasks.contains_key(id) ==> resolved_ids(visits).contains(id),
        forall|id: usize| !next.tasks.contains_key(id),
{
    next.tasks.dom().lemma_len0_is_empty();
    assert forall|id: usize| !next.tasks.contains_key(id) by {
        assert(!Set::<usize>::empty().contains(id));
    }
    assert forall|id: usize| #[trigger]
        state.tasks.contains_key(id) implies resolved_ids(visits).contains(id) by {
        assert(!next.tasks.contains_key(id));
    }
}

/// The ready queue is a stack. Of two wakes, the later one is served first:
/// the first step after them visits the second waker's task, the step after
/// that the first waker's.
pub proof fn lemma_last_woken_first(
    state: ExecutorState,
    first: Waker,
    second: Waker,
    visit_one: Visit,
    between: ExecutorState,
    visit_two: Visit,
    after: ExecutorState,
)
    requires
        first.thread == state.thread,
        second.thread == state.thread,
        state.woken(first).woken(second).steps_to(visit_one, between),
        between.steps_to(visit_two, after),
    ensures
        visit_one.id == second.id,
        visit_two.id == first.id,
        after.ready_queue == state.ready_queue,
{
    let queue = state.ready_queue.push(first.id).push(second.id);
    assert(queue.drop_last() =~= state.ready_queue.push(first.id));
    assert(state.ready_queue.push(first.id).drop_last() =~= state.ready_queue);
}

/// What waking `times` times does to the ready queue, and that it does
/// nothing else.
proof fn lemma_woken_times(state: ExecutorState, waker: Waker, times: nat)
    requires
        waker.thread == state.thread,
    ensures
        state.woken_times(waker, times).tasks == state.tasks,
        state.woken_times(waker, times).next_id == state.next_id,
        state.woken_times(waker, times).thread == state.thread,
        state.woken_times(waker, times).ready_queue.len() == state.ready_queue.len() + times,
        forall|i: int|
            0 <= i < state.ready_queue.len() ==> #[trigger] state.woken_times(
                waker,
                times,
            ).ready_queue[i] == state.ready_queue[i],
        forall|i: int|
            state.ready_queue.len() <= i < state.ready_queue.len() + times
                ==> #[trigger] state.woken_times(waker, times).ready_queue[i] == waker.id,
    decreases times,
{
    if times > 0 {
        lemma_woken_times(state, waker, (times - 1) as nat);
    }
}

/// Stale wakes are harmless however often they come. When a waker whose task
/// is not pending is invoked any number of times on an executor with nothing
/// else ready, the drain that follows visits that id as often, polls nothing,
/// and leaves the executor exactly as it was before the wakes.
pub proof fn lemma_stale_wakes_are_undone(
    state: ExecutorState,
    waker: Waker,
    times: nat,
    visits: Seq<Visit>,
    next: ExecutorState,
)
    requires
        waker.thread == state.thread,
        !state.tasks.contains_key(waker.id),
        state.ready_queue.len() == 0,
        state.woken_times(waker, times).drains_to(visits, next),
    ensures
        visits.len() == times,
        forall|i: int|
            0 <= i < times ==> #[trigger] visits[i] == (Visit {
                id: waker.id,
                outcome: Outcome::Stale,
            }),
        next == state,
{
    lemma_woken_times(state, waker, times);
    let woken = state.woken_times(waker, times);
    assert forall|i: int| 0 <= i < times implies #[trigger] visits[i] == (Visit {
        id: waker.id,
        outcome: Outcome::Stale,
    }) by {
        assert(visits[i].id == woken.ready_queue[times - 1 - i]);
        assert(visits[i].outcome is Stale);
    }
    assert forall|id: usize| !resolved_ids(visits).contains(id) by {
        let wanted = Visit { id, outcome: Outcome::Resolved };
        if visits.contains(wanted) {
            let i = choose|i: int| 0 <= i < visits.len() && visits[i] == wanted;
            assert(visits[i].outcome is Stale);
        }
    }
    assert(next.ready_queue =~= state.ready_queue);
    assert(next.tasks =~= state.tasks) by {
        assert forall|id: usize| state.tasks.contains_key(id) implies next.tasks.contains_key(id)
            && next.tasks[id] == state.tasks[id] by {
            assert(next.tasks.contains_key(id));
            if woken.ready_queue.contains(id) {
                let i = choose|i: int| 0 <= i < woken.ready_queue.len() && woken.ready_queue[i] == id;
                assert(woken.ready_queue[i] == waker.id);
            }
        }
        assert forall|id: usize| next.tasks.contains_key(id) implies state.tasks.contains_key(
            id,
        ) by {}
    }
}

} // verus!
