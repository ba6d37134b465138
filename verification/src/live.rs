//! Connections as they are handed out.
use core::ops::{Deref, DerefMut};
use vstd::prelude::*;

use crate::lock::{Guard, Slots};

verus! {

/// A connection of the pool, ready for use. It goes back to its slot when it is dropped.
#[verifier::reject_recursive_types(Conn)]
pub struct LiveConn<'pool, Conn, const SIZE: usize> {
    guard: Guard<'pool, Conn, SIZE>,
}

impl<'pool, Conn, const SIZE: usize> View for LiveConn<'pool, Conn, SIZE> {
    type V = Conn;

    closed spec fn view(&self) -> Conn {
        self.guard@->0
    }
}

impl<'pool, Conn, const SIZE: usize> LiveConn<'pool, Conn, SIZE> {
    /// The slot of a live connection is never empty.
    #[verifier::type_invariant]
    spec fn initialized(&self) -> bool {
        self.guard@ is Some
    }

    /// The slots that the connection goes back to.
    pub closed spec fn home(&self) -> Slots<Conn, SIZE> {
        self.guard.home()
    }

    /// Hands out the connection in the slot that `g` guards. There must be one.
    #[must_use]
    pub fn new(g: Guard<'pool, Conn, SIZE>) -> (live: Self)
        requires
            g@ is Some,
        ensures
            g@ == Some(live@),
            live.home() == g.home(),
        opens_invariants none
    {
        Self { guard: g }
    }
}

impl<'pool, Conn, const SIZE: usize> Deref for LiveConn<'pool, Conn, SIZE> {
    type Target = Conn;

    fn deref(&self) -> (conn: &Conn)
        ensures
            *conn == self@,
    {
        proof {
            use_type_invariant(self);
        }
        self.guard.live()
    }
}

impl<'pool, Conn, const SIZE: usize> DerefMut for LiveConn<'pool, Conn, SIZE> {
    fn deref_mut(&mut self) -> (conn: &mut Conn)
        ensures
            *conn == old(self)@,
            *final(conn) == final(self)@,
            final(self).home() == old(self).home(),
    {
        proof {
            use_type_invariant(&*self);
        }
        self.guard.live_mut()
    }
}

impl<'pool, Conn, const SIZE: usize> AsRef<Conn> for LiveConn<'pool, Conn, SIZE> {
    fn as_ref(&self) -> (conn: &Conn)
        ensures
            *conn == self@,
    {
        proof {
            use_type_invariant(self);
        }
        self.guard.live()
    }
}

impl<'pool, Conn, const SIZE: usize> AsMut<Conn> for LiveConn<'pool, Conn, SIZE> {
    fn as_mut(&mut self) -> (conn: &mut Conn)
        ensures
            *conn == old(self)@,
            *final(conn) == final(self)@,
            final(self).home() == old(self).home(),
    {
        proof {
            use_type_invariant(&*self);
        }
        self.guard.live_mut()
    }
}

/// A connection, wherever it came from.
///
/// Both variants dereference to the connection, so that it can be used without asking where it
/// came from.
#[verifier::reject_recursive_types(Conn)]
pub enum FreshOrPooled<'pool, Conn, const SIZE: usize> {
    /// A connection made because every slot was taken, or because the connection in a free slot
    /// failed its health check. It does not belong to the pool.
    Fresh(Conn),
    /// A connection of the pool.
    Pooled(LiveConn<'pool, Conn, SIZE>),
}

impl<'pool, Conn, const SIZE: usize> View for FreshOrPooled<'pool, Conn, SIZE> {
    type V = Conn;

    open spec fn view(&self) -> Conn {
        match self {
            FreshOrPooled::Fresh(conn) => *conn,
            FreshOrPooled::Pooled(live) => live@,
        }
    }
}

impl<'pool, Conn, const SIZE: usize> Deref for FreshOrPooled<'pool, Conn, SIZE> {
    type Target = Conn;

    fn deref(&self) -> (conn: &Conn)
        ensures
            *conn == self@,
    {
        match self {
            FreshOrPooled::Fresh(conn) => conn,
            FreshOrPooled::Pooled(live) => live.deref(),
        }
    }
}

impl<'pool, Conn, const SIZE: usize> DerefMut for FreshOrPooled<'pool, Conn, SIZE> {
    fn deref_mut(&mut self) -> (conn: &mut Conn)
        ensures
            *conn == old(self)@,
            *final(conn) == final(self)@,
            final(self).home() == old(self).home(),
    {
        match self {
            FreshOrPooled::Fresh(conn) => conn,
            FreshOrPooled::Pooled(live) => live.deref_mut(),
        }
    }
}

impl<'pool, Conn, const SIZE: usize> FreshOrPooled<'pool, Conn, SIZE> {
    /// The slots that the connection goes back to, if it is one of a pool.
    pub open spec fn home(&self) -> Option<Slots<Conn, SIZE>> {
        match self {
            FreshOrPooled::Fresh(_) => None,
            FreshOrPooled::Pooled(live) => Some(live.home()),
        }
    }

    /// Answers a request with the connection of the pool that a checkout handed out.
    pub fn pooled(live: LiveConn<'pool, Conn, SIZE>) -> (answer: Self)
        ensures
            answer == FreshOrPooled::<'pool, Conn, SIZE>::Pooled(live),
        opens_invariants none
    {
        FreshOrPooled::Pooled(live)
    }

    /// Answers a request for which every slot was taken, with the connection that was created for
    /// it or with the error.
    pub fn fresh<E>(outcome: Result<Conn, E>) -> (answer: Result<Self, E>)
        ensures
            answer == match outcome {
                Ok(conn) => Ok::<Self, E>(FreshOrPooled::Fresh(conn)),
                Err(error) => Err::<Self, E>(error),
            },
    {
        match outcome {
            Ok(conn) => Ok(FreshOrPooled::Fresh(conn)),
            Err(error) => Err(error),
        }
    }

    /// Says whether the connection is one of the pool.
    pub fn is_pooled(&self) -> (pooled: bool)
        ensures
            pooled == (self is Pooled),
    {
        matches!(self, FreshOrPooled::Pooled(_))
    }

    /// Says whether the connection is not one of the pool.
    pub fn is_fresh(&self) -> (fresh: bool)
        ensures
            fresh == (self is Fresh),
    {
        matches!(self, FreshOrPooled::Fresh(_))
    }
}

} // verus!
