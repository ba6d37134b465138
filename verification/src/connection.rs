//! What a type must offer to be pooled.
use core::future::Future;
use vstd::prelude::*;

verus! {

/// A connection to a database, a network service or any other resource that is worth keeping.
///
/// Creating a connection and checking its health may take time, so both return a future. The
/// pool never polls these futures itself: it says when one of them is due, on which connection
/// and with which context, and takes in what it resolved to.
pub trait Connection: Sized + Send + Sync {
    /// What the pool keeps for all of its connections, handed to every method.
    type Context: Send + Sync;

    /// Why a connection could not be created, or is not fit for use.
    type Error: Send + Sync;

    /// The future of a connection that is being created.
    type Create<'a>: Future<Output = Result<Self, Self::Error>> + Send + Sync;

    /// The future of a health check.
    type HealthCheck<'a>: Future<Output = Result<(), Self::Error>> + Send + Sync where Self: 'a;

    /// Creates a connection and sets it up, so that it can be used at once.
    fn create<'a>(ctx: &'a Self::Context) -> Self::Create<'a>;

    /// Says whether a full health check is due before this connection is used again.
    ///
    /// This is asked whenever the connection is taken out of the pool, so it should be fast and
    /// should not touch the network. It is asked while a slot is held, and asks for none itself.
    fn needs_health_check(&mut self, ctx: &Self::Context) -> bool
        opens_invariants none
    ;

    /// Checks that the connection is still fit for use.
    ///
    /// An error makes the pool have another connection created instead. The error itself is not
    /// passed on: whoever asked for a connection sees an error only if that creation fails.
    fn health_check<'a>(&'a mut self, ctx: &'a Self::Context) -> Self::HealthCheck<'a>;
}

} // verus!
