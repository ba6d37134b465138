//! A connection pool of a fixed number of slots, filled lazily or eagerly.
//!
//! Every decision the pool takes is a function of this crate; what has to be awaited (a slot
//! to come free, a health check, the creation of a connection) is left to a driver. A driver
//! asks the [`Pool`] for a connection, performs what the [`Step`] it gets asks for, and hands
//! the outcome back, until the step is done.
use vstd::prelude::*;

pub mod connection;
pub mod lazy;
pub mod lock;
pub mod live;
pub mod checkout;
pub mod either;
pub mod eager;
pub mod pool;
pub mod laws;

pub use connection::Connection;
pub use lazy::LazyConn;
pub use lock::{Acquire, Guard, Slots, Waiting};
pub use live::{FreshOrPooled, LiveConn};
pub use checkout::{Checking, Creating, Refused, Start, Step, Vetting};
pub use either::{EitherChecking, EitherCreating, EitherStep, Settled};
pub use eager::{Eager, EagerStep};
pub use pool::{Creation, Pool, Request, Source};

verus! {

/// How many tasks may queue for a slot.
pub const MAX_WAITERS: usize = 32;

} // verus!
