//! A small single-process asynchronous task runtime, written so that its
//! scheduling rules can be proved.
//!
//! The crate holds the decisions of the runtime and none of its waiting:
//! a cooperative [`runtime::executor::Executor`] that owns a task table and a
//! ready queue, a [`runtime::reactor::Reactor`] that keeps the waker of each
//! registered operation, and the state machine of a readiness-driven HTTP GET
//! in [`http`]. Parking a thread, waiting on the operating system and moving
//! bytes over a socket are left to the program that embeds the crate: every
//! function here returns, and says in its result what the caller is to do next.

pub mod epoll;
pub mod future;
pub mod http;
pub mod runtime;
