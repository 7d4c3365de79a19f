//! A minimal poll-driven runtime model: a `Future` capability contract, a
//! hand-written coroutine state machine that chains two asynchronous calls,
//! and a cooperative scheduler loop that drives a future to completion.

pub mod coroutine;
pub mod future;
pub mod scheduler;
pub mod sim;

pub use crate::coroutine::{async_main, start_marker, Coroutine, State};
pub use crate::future::{Connector, Future, PollState};
pub use crate::scheduler::run;
pub use crate::sim::{SimConnector, SimFuture};
