use runtime_executor::future::{Future, PollState};
use runtime_executor::runtime::executor::{
    spawn, Decision, ExecuteCore, Executor, Outcome, Task, Visit, Waker,
};
use std::cell::RefCell;
use std::rc::Rc;

/// Resolves at the poll after `remaining` polls that return `NotReady`, and
/// writes down every poll.
struct Countdown {
    name: usize,
    remaining: usize,
    log: Rc<RefCell<Vec<usize>>>,
    seen: Rc<RefCell<Vec<Waker>>>,
}

impl Future for Countdown {
    type Output = String;

    fn poll(&mut self, waker: &Waker) -> PollState<String> {
        self.log.borrow_mut().push(self.name);
        self.seen.borrow_mut().push(*waker);
        if self.remaining == 0 {
            PollState::Ready(format!("done {}", self.name))
        } else {
            self.remaining -= 1;
            PollState::NotReady
        }
    }
}

struct Bench {
    log: Rc<RefCell<Vec<usize>>>,
    seen: Rc<RefCell<Vec<Waker>>>,
}

impl Bench {
    fn new() -> Self {
        Bench { log: Rc::new(RefCell::new(Vec::new())), seen: Rc::new(RefCell::new(Vec::new())) }
    }

    fn countdown(&self, name: usize, remaining: usize) -> Countdown {
        Countdown { name, remaining, log: self.log.clone(), seen: self.seen.clone() }
    }

    fn polls(&self) -> Vec<usize> {
        self.log.borrow().clone()
    }
}

fn visit(id: usize, outcome: Outcome) -> Visit {
    Visit { id, outcome }
}

#[test]
fn new_executor_is_empty() {
    let mut executor = Executor::new(3);
    assert_eq!(executor.thread(), 3);
    assert_eq!(executor.next_id(), 0);
    assert_eq!(executor.task_count(), 0);
    assert_eq!(executor.pop_ready(), None);
    let turn = executor.run_ready();
    assert!(turn.visits.is_empty());
    assert_eq!(turn.decision, Decision::Finished);
}

#[test]
fn default_core_builds() {
    let _core = ExecuteCore::default();
    let _other = ExecuteCore::new(9);
}

#[test]
fn spawn_stores_under_fresh_ids_and_makes_them_ready() {
    let bench = Bench::new();
    let mut executor = Executor::new(0);
    spawn(&mut executor, bench.countdown(10, 0));
    spawn(&mut executor, bench.countdown(11, 0));
    spawn(&mut executor, bench.countdown(12, 0));
    assert_eq!(executor.next_id(), 3);
    assert_eq!(executor.task_count(), 3);
    assert_eq!(executor.pop_ready(), Some(2));
    assert_eq!(executor.pop_ready(), Some(1));
    assert_eq!(executor.pop_ready(), Some(0));
    assert_eq!(executor.pop_ready(), None);
    assert!(bench.polls().is_empty());
}

#[test]
fn get_future_takes_the_task_out() {
    let bench = Bench::new();
    let mut executor = Executor::new(0);
    spawn(&mut executor, bench.countdown(1, 0));
    assert!(executor.get_future(5).is_none());
    assert_eq!(executor.task_count(), 1);
    let task = executor.get_future(0);
    assert!(task.is_some());
    assert_eq!(executor.task_count(), 0);
    assert!(executor.get_future(0).is_none());
    executor.insert_task(0, task.unwrap());
    assert_eq!(executor.task_count(), 1);
}

#[test]
fn get_waker_carries_thread_and_id() {
    let executor = Executor::new(4);
    assert_eq!(executor.get_waker(17), Waker { thread: 4, id: 17 });
}

#[test]
fn task_polls_the_future_inside() {
    let bench = Bench::new();
    let mut task = Task::new(bench.countdown(8, 1));
    let waker = Waker { thread: 0, id: 0 };
    assert!(!task.poll(&waker).is_ready());
    match task.poll(&waker) {
        PollState::Ready(text) => assert_eq!(text, "done 8"),
        PollState::NotReady => panic!("the second poll resolves"),
    }
    assert_eq!(bench.polls(), vec![8, 8]);
}

#[test]
fn settle_drops_a_resolved_task_and_keeps_a_pending_one() {
    let bench = Bench::new();
    let mut executor = Executor::new(0);
    let outcome = executor.settle(3, Task::new(bench.countdown(0, 0)), PollState::NotReady);
    assert_eq!(outcome, Outcome::Pending);
    assert_eq!(executor.task_count(), 1);
    assert!(executor.get_future(3).is_some());
    let outcome =
        executor.settle(3, Task::new(bench.countdown(0, 0)), PollState::Ready(String::new()));
    assert_eq!(outcome, Outcome::Resolved);
    assert_eq!(executor.task_count(), 0);
}

#[test]
fn wake_pushes_onto_the_owning_executor_only() {
    let mut executor = Executor::new(1);
    assert!(Waker { thread: 1, id: 5 }.wake(&mut executor));
    assert!(!Waker { thread: 2, id: 6 }.wake(&mut executor));
    assert_eq!(executor.pop_ready(), Some(5));
    assert_eq!(executor.pop_ready(), None);
}

#[test]
fn step_reports_what_became_of_the_id() {
    let bench = Bench::new();
    let mut executor = Executor::new(0);
    assert_eq!(executor.step(), None);
    spawn(&mut executor, bench.countdown(1, 1));
    assert_eq!(executor.step(), Some(visit(0, Outcome::Pending)));
    assert_eq!(executor.task_count(), 1);
    assert_eq!(executor.step(), None);
    executor.get_waker(0).wake(&mut executor);
    executor.get_waker(9).wake(&mut executor);
    assert_eq!(executor.step(), Some(visit(9, Outcome::Stale)));
    assert_eq!(executor.step(), Some(visit(0, Outcome::Resolved)));
    assert_eq!(executor.task_count(), 0);
    assert_eq!(bench.polls(), vec![1, 1]);
}

#[test]
fn poll_gets_a_waker_for_the_task() {
    let bench = Bench::new();
    let mut executor = Executor::new(6);
    spawn(&mut executor, bench.countdown(0, 0));
    spawn(&mut executor, bench.countdown(1, 0));
    executor.run_ready();
    assert_eq!(
        bench.seen.borrow().clone(),
        vec![Waker { thread: 6, id: 1 }, Waker { thread: 6, id: 0 }]
    );
}

#[test]
fn stale_wakes_are_no_ops() {
    let bench = Bench::new();
    let mut executor = Executor::new(0);
    let turn = executor.block_on(bench.countdown(1, 0));
    assert_eq!(turn.visits, vec![visit(0, Outcome::Resolved)]);
    assert_eq!(turn.decision, Decision::Finished);
    let waker = executor.get_waker(0);
    for _ in 0..5 {
        assert!(waker.wake(&mut executor));
    }
    let turn = executor.run_ready();
    assert_eq!(turn.visits, vec![visit(0, Outcome::Stale); 5]);
    assert_eq!(turn.decision, Decision::Finished);
    assert_eq!(executor.task_count(), 0);
    assert_eq!(executor.next_id(), 1);
    assert_eq!(bench.polls(), vec![1]);
}

#[test]
fn a_task_that_is_never_woken_parks_the_executor_for_ever() {
    let bench = Bench::new();
    let mut executor = Executor::new(0);
    let turn = executor.block_on(bench.countdown(1, 1));
    assert_eq!(turn.visits, vec![visit(0, Outcome::Pending)]);
    assert_eq!(turn.decision, Decision::Park(1));
    for _ in 0..10 {
        let turn = executor.run_ready();
        assert!(turn.visits.is_empty());
        assert_eq!(turn.decision, Decision::Park(1));
    }
    assert_eq!(bench.polls(), vec![1]);
}

fn run_all(count: usize, polls: usize, order: &dyn Fn(usize, usize) -> Vec<usize>) {
    let bench = Bench::new();
    let mut executor = Executor::new(0);
    for name in 0..count {
        spawn(&mut executor, bench.countdown(name, polls));
    }
    let mut turn = executor.run_ready();
    let mut round = 0;
    while turn.decision != Decision::Finished {
        assert_eq!(turn.decision, Decision::Park(count));
        assert!(round < polls);
        for id in order(count, round) {
            executor.get_waker(id).wake(&mut executor);
        }
        turn = executor.run_ready();
        round += 1;
    }
    assert_eq!(round, polls);
    assert_eq!(executor.task_count(), 0);
    let log = bench.polls();
    assert_eq!(log.len(), count * (polls + 1));
    for name in 0..count {
        assert_eq!(log.iter().filter(|polled| **polled == name).count(), polls + 1);
    }
}

#[test]
fn block_on_ends_when_every_task_has_resolved() {
    for polls in 0..=5 {
        for count in 1..=4 {
            run_all(count, polls, &|count, _| (0..count).collect());
            run_all(count, polls, &|count, _| (0..count).rev().collect());
            run_all(count, polls, &|count, round| {
                (0..count).map(|i| (i + round) % count).collect()
            });
        }
    }
}

#[test]
fn tasks_that_resolve_at_different_times_are_all_waited_for() {
    let bench = Bench::new();
    let mut executor = Executor::new(0);
    let turn = executor.block_on(bench.countdown(0, 2));
    assert_eq!(turn.decision, Decision::Park(1));
    spawn(&mut executor, bench.countdown(1, 0));
    spawn(&mut executor, bench.countdown(2, 1));
    let turn = executor.run_ready();
    assert_eq!(turn.visits, vec![visit(2, Outcome::Pending), visit(1, Outcome::Resolved)]);
    assert_eq!(turn.decision, Decision::Park(2));
    executor.get_waker(0).wake(&mut executor);
    let turn = executor.run_ready();
    assert_eq!(turn.visits, vec![visit(0, Outcome::Pending)]);
    assert_eq!(turn.decision, Decision::Park(2));
    executor.get_waker(2).wake(&mut executor);
    let turn = executor.run_ready();
    assert_eq!(turn.visits, vec![visit(2, Outcome::Resolved)]);
    assert_eq!(turn.decision, Decision::Park(1));
    executor.get_waker(0).wake(&mut executor);
    let turn = executor.run_ready();
    assert_eq!(turn.visits, vec![visit(0, Outcome::Resolved)]);
    assert_eq!(turn.decision, Decision::Finished);
}

#[test]
fn the_task_woken_last_is_polled_first() {
    let bench = Bench::new();
    let mut executor = Executor::new(0);
    spawn(&mut executor, bench.countdown(100, 1));
    spawn(&mut executor, bench.countdown(200, 1));
    let turn = executor.run_ready();
    assert_eq!(turn.visits, vec![visit(1, Outcome::Pending), visit(0, Outcome::Pending)]);
    assert_eq!(bench.polls(), vec![200, 100]);

    let a = executor.get_waker(0);
    let b = executor.get_waker(1);
    a.wake(&mut executor);
    b.wake(&mut executor);
    let turn = executor.run_ready();
    assert_eq!(turn.visits, vec![visit(1, Outcome::Resolved), visit(0, Outcome::Resolved)]);
    assert_eq!(turn.decision, Decision::Finished);
    assert_eq!(bench.polls(), vec![200, 100, 200, 100]);
}

#[test]
fn a_task_woken_twice_is_polled_twice_and_then_found_gone() {
    let bench = Bench::new();
    let mut executor = Executor::new(0);
    executor.block_on(bench.countdown(1, 2));
    let waker = executor.get_waker(0);
    waker.wake(&mut executor);
    waker.wake(&mut executor);
    waker.wake(&mut executor);
    let turn = executor.run_ready();
    assert_eq!(
        turn.visits,
        vec![visit(0, Outcome::Pending), visit(0, Outcome::Resolved), visit(0, Outcome::Stale)]
    );
    assert_eq!(turn.decision, Decision::Finished);
}

#[test]
fn block_on_polls_the_root_before_what_was_ready() {
    let bench = Bench::new();
    let mut executor = Executor::new(0);
    spawn(&mut executor, bench.countdown(50, 0));
    let turn = executor.block_on(bench.countdown(60, 0));
    assert_eq!(turn.visits, vec![visit(1, Outcome::Resolved), visit(0, Outcome::Resolved)]);
    assert_eq!(bench.polls(), vec![60, 50]);
}
