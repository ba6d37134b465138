//! How a pool is filled before it is used.
//!
//! A function makes the connections, one for each slot and in the order of the slots. The first
//! that cannot be made ends the attempt, and those made before it are dropped.
use core::future::Future;
use vstd::prelude::*;

use crate::connection::Connection;
use crate::lazy::LazyConn;
use crate::lock::contents;
use crate::pool::Pool;

verus! {

/// The connections made so far, when after `made` the next attempt ended in `outcome`; or the
/// error that ends it all.
pub open spec fn supplied<C, E>(made: Seq<C>, outcome: Result<C, E>) -> Result<Seq<C>, E> {
    match outcome {
        Ok(conn) => Ok(made.push(conn)),
        Err(error) => Err(error),
    }
}

/// What comes of attempts that ended in `outcomes`: the connections in order, or the error that
/// ended it all.
pub open spec fn made_of<C, E>(outcomes: Seq<Result<C, E>>) -> Result<Seq<C>, E>
    decreases outcomes.len(),
{
    if outcomes.len() == 0 {
        Ok(Seq::empty())
    } else {
        match made_of(outcomes.drop_last()) {
            Ok(made) => supplied(made, outcomes.last()),
            Err(error) => Err(error),
        }
    }
}

/// What slots hold that were filled with `made`.
pub open spec fn all_live<C>(made: Seq<C>) -> Seq<Option<C>> {
    made.map_values(|conn: C| Some(conn))
}

/// `core::array::from_fn`, which makes each element of an array by a call of a function: here,
/// of [`LazyConn::new`].
#[verifier::external_body]
fn empty_slots<Conn, const SIZE: usize>() -> (lazy: [LazyConn<Conn>; SIZE])
    ensures
        forall|i: int| 0 <= i < SIZE ==> (#[trigger] lazy@[i])@ == None::<Conn>,
    opens_invariants none
{
    core::array::from_fn(|_| LazyConn::new())
}

/// A pool that is being filled. A connection is missing for at least one slot.
#[verifier::reject_recursive_types(Conn)]
pub struct Eager<Conn: Connection, F, const SIZE: usize> {
    lazy: [LazyConn<Conn>; SIZE],
    filled: usize,
    ctx: Conn::Context,
    f: F,
}

/// What the filling of a pool needs next.
#[verifier::reject_recursive_types(Conn)]
pub enum EagerStep<Conn: Connection, F, const SIZE: usize> {
    /// The next connection.
    Next(Eager<Conn, F, SIZE>),
    /// Nothing: here is the pool.
    Done(Pool<Conn, SIZE>),
}

impl<Conn: Connection, F, const SIZE: usize> EagerStep<Conn, F, SIZE> {
    /// Whether this is what comes next when `made` were made, for a pool with the context `ctx`
    /// whose connections `f` makes: another connection as long as a slot is without one, and
    /// the pool, with these connections in its slots, as soon as none is.
    pub open spec fn follows(&self, made: Seq<Conn>, ctx: Conn::Context, f: F) -> bool {
        match self {
            EagerStep::Next(eager) => {
                &&& made.len() < SIZE
                &&& eager@ == made
                &&& eager.ctx() == ctx
                &&& eager.f() == f
            },
            EagerStep::Done(pool) => {
                &&& made.len() == SIZE
                &&& pool.initial() == all_live(made)
                &&& pool.ctx() == ctx
            },
        }
    }
}

impl<Conn: Connection, F, const SIZE: usize> View for Eager<Conn, F, SIZE> {
    type V = Seq<Conn>;

    closed spec fn view(&self) -> Seq<Conn> {
        Seq::new(self.filled as nat, |i: int| self.lazy@[i]@->0)
    }
}

impl<Conn: Connection, F, const SIZE: usize> Eager<Conn, F, SIZE> {
    /// The first slots, and not all of them, have their connection.
    #[verifier::type_invariant]
    spec fn partly_filled(&self) -> bool {
        &&& self.filled < SIZE
        &&& forall|i: int| 0 <= i < self.filled ==> (#[trigger] self.lazy@[i])@ is Some
    }

    /// The context of the pool.
    pub closed spec fn ctx(&self) -> Conn::Context {
        self.ctx
    }

    /// What makes the connections.
    pub closed spec fn f(&self) -> F {
        self.f
    }

    /// Goes on when the first `filled` slots have their connection.
    fn step(lazy: [LazyConn<Conn>; SIZE], filled: usize, ctx: Conn::Context, f: F) -> (step:
        EagerStep<Conn, F, SIZE>)
        requires
            filled <= SIZE,
            forall|i: int| 0 <= i < filled ==> (#[trigger] lazy@[i])@ is Some,
        ensures
            step.follows(Seq::new(filled as nat, |i: int| lazy@[i]@->0), ctx, f),
        opens_invariants none
    {
        let ghost made = Seq::new(filled as nat, |i: int| lazy@[i]@->0);
        if filled < SIZE {
            EagerStep::Next(Eager { lazy, filled, ctx, f })
        } else {
            assert(contents(lazy@) =~= all_live(made));
            EagerStep::Done(Pool::filled_with(lazy, ctx))
        }
    }

    /// Starts to fill a pool.
    pub(crate) fn start(ctx: Conn::Context, f: F) -> (step: EagerStep<Conn, F, SIZE>)
        ensures
            step.follows(Seq::empty(), ctx, f),
        opens_invariants none
    {
        let lazy = empty_slots();
        assert(Seq::new(0, |i: int| lazy@[i]@->0) =~= Seq::empty());
        Self::step(lazy, 0, ctx, f)
    }

    /// The slot that the next connection is for.
    pub fn index(&self) -> (index: usize)
        ensures
            index == self@.len(),
            index < SIZE,
        opens_invariants none
    {
        proof {
            use_type_invariant(self);
        }
        self.filled
    }

    /// Starts to make the next connection: the future that `f` returns for its slot.
    pub fn make<Fut, E>(&self) -> (future: Fut) where
        F: Fn(usize) -> Fut,
        Fut: Future<Output = Result<Conn, E>>,

        requires
            call_requires(self.f(), (self@.len() as usize,)),
        ensures
            call_ensures(self.f(), (self@.len() as usize,), future),
    {
        (self.f)(self.filled)
    }

    /// Goes on, given the connection that was made or why there is none. A pool that is then
    /// complete is handed over before any slot of it was asked for.
    pub fn supplied<E>(self, outcome: Result<Conn, E>) -> (step: Result<
        EagerStep<Conn, F, SIZE>,
        E,
    >)
        ensures
            match supplied(self@, outcome) {
                Ok(made) => step matches Ok(next) && next.follows(made, self.ctx(), self.f()),
                Err(error) => step == Err::<EagerStep<Conn, F, SIZE>, E>(error),
            },
        opens_invariants none
    {
        proof {
            use_type_invariant(&self);
        }
        match outcome {
            Ok(conn) => {
                let mut lazy = self.lazy;
                lazy[self.filled] = LazyConn::init(conn);
                let filled: usize = self.filled + 1;
                assert(Seq::new(filled as nat, |i: int| lazy@[i]@->0) =~= self@.push(conn));
                Ok(Self::step(lazy, filled, self.ctx, self.f))
            },
            Err(error) => Err(error),
        }
    }
}

} // verus!
