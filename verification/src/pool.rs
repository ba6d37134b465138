//! The pool.
use core::future::Future;
use lock_pool::LockGuard;
use vstd::prelude::*;

use crate::checkout::{begun, vetted, Start, Step};
use crate::connection::Connection;
use crate::eager::{Eager, EagerStep};
use crate::either::EitherStep;
use crate::lazy::LazyConn;
use crate::lock::{contents, granting, offering, vacant, Acquire, Guard, Slots, Waiting};
use crate::MAX_WAITERS;

verus! {

/// A pool of up to `SIZE` connections.
#[verifier::reject_recursive_types(Conn)]
pub struct Pool<Conn: Connection, const SIZE: usize> {
    slots: Slots<Conn, SIZE>,
    ctx: Conn::Context,
}

/// What a request for a connection needs first, when waiting for a slot is acceptable.
#[verifier::reject_recursive_types(Conn)]
pub enum Request<'pool, Conn: Connection, const SIZE: usize> {
    /// A slot was free, and this is what its checkout needs.
    Ready(Step<'pool, Conn, SIZE>),
    /// A slot is to be waited for, and [`Pool::acquired`] to be told about it.
    Wait(Waiting<'pool, Conn, SIZE>),
}

/// Where a connection is to come from, when waiting for a slot is not acceptable but having a
/// connection outside the pool is.
#[verifier::reject_recursive_types(Conn)]
pub enum Source<'pool, Conn: Connection, const SIZE: usize> {
    /// A slot was free, and this is what its checkout needs.
    Pooled(EitherStep<'pool, Conn, SIZE>),
    /// Every slot was taken.
    Fresh(Creation<'pool, Conn>),
}

/// A connection that is to be created outside the pool.
pub struct Creation<'pool, Conn: Connection> {
    ctx: &'pool Conn::Context,
}

impl<Conn, const SIZE: usize> Default for Pool<Conn, SIZE> where
    Conn: Connection,
    Conn::Context: Default,
 {
    fn default() -> (pool: Self)
        ensures
            pool.initial() == vacant::<Conn>(SIZE as nat),
            call_ensures(Conn::Context::default, (), pool.ctx()),
    {
        Self::new(Conn::Context::default())
    }
}

impl<Conn: Connection, const SIZE: usize> Pool<Conn, SIZE> {
    /// The slots of the pool.
    pub closed spec fn slots(&self) -> Slots<Conn, SIZE> {
        self.slots
    }

    /// What each slot held when the pool was made.
    pub open spec fn initial(&self) -> Seq<Option<Conn>> {
        self.slots().initial()
    }

    /// What every connection of the pool is created and checked with.
    pub closed spec fn ctx(&self) -> Conn::Context {
        self.ctx
    }

    /// A pool without connections. They are created as they are needed. No slot is asked for
    /// before the pool is handed over, so none is held then.
    #[must_use]
    pub fn new(ctx: Conn::Context) -> (pool: Self)
        ensures
            pool.initial() == vacant::<Conn>(SIZE as nat),
            pool.ctx() == ctx,
        opens_invariants none
    {
        Self { slots: Slots::new(), ctx }
    }

    /// A pool whose slots hold `lazy`. No slot is asked for before the pool is handed over, so each
    /// still holds its value then.
    pub(crate) fn filled_with(lazy: [LazyConn<Conn>; SIZE], ctx: Conn::Context) -> (pool: Self)
        ensures
            pool.initial() == contents(lazy@),
            pool.ctx() == ctx,
        opens_invariants none
    {
        Self { slots: Slots::from_array(lazy), ctx }
    }

    /// Starts to make a pool with a connection in every slot. The connections are those that
    /// `f` makes, given the index of a slot.
    pub fn new_eager<Fut, F, E>(ctx: Conn::Context, f: F) -> (step: EagerStep<Conn, F, SIZE>) where
        Fut: Future<Output = Result<Conn, E>> + Send + Sync,
        F: Fn(usize) -> Fut + Send + Sync,
        E: Send + Sync,

        ensures
            step.follows(Seq::empty(), ctx, f),
        opens_invariants none
    {
        Eager::start(ctx, f)
    }

    /// Starts the checkout of the slot that `guard` guards. An empty slot needs a connection. The
    /// connection in a slot that is not empty is asked whether a health check is due, and needs
    /// one or is handed out accordingly.
    pub fn checkout<'pool>(&'pool self, guard: Guard<'pool, Conn, SIZE>) -> (step: Step<
        'pool,
        Conn,
        SIZE,
    >)
        ensures
            guard@ is None ==> step.phase() == begun::<Conn, Conn::Error>(None),
            guard@ matches Some(conn) ==> exists|asked: &mut Conn, due: bool|
                {
                    &&& *asked == conn
                    &&& call_ensures(Conn::needs_health_check, (asked, &self.ctx()), due)
                    &&& step.phase() == vetted::<Conn, Conn::Error>(*final(asked), due)
                },
            step.home() == guard.home(),
            step.uses(self.ctx()),
        opens_invariants none
    {
        Start::new(guard, &self.ctx).proceed()
    }

    /// Asks for a connection, ready to wait until a slot comes free. A slot that `lock_pool` hands
    /// over is checked out, and a place in its queue is passed on.
    ///
    /// Whether a slot is free, and what it holds, depends on who else uses the pool.
    pub fn get(&self) -> (request: Request<'_, Conn, SIZE>)
        ensures
            exists|acquire: Acquire<'_, Conn, SIZE>|
                {
                    &&& #[trigger] self.slots().grants(acquire)
                    &&& match acquire {
                        Acquire::Ready(guard) => {
                            &&& request matches Request::Ready(step)
                            &&& SIZE > 0
                            &&& step.home() == self.slots()
                            &&& step.uses(self.ctx())
                            &&& guard@ is None ==> step.phase() == begun::<Conn, Conn::Error>(None)
                            &&& guard@ matches Some(conn) ==> exists|asked: &mut Conn, due: bool|
                                {
                                    &&& *asked == conn
                                    &&& call_ensures(
                                        Conn::needs_health_check,
                                        (asked, &self.ctx()),
                                        due,
                                    )
                                    &&& step.phase() == vetted::<Conn, Conn::Error>(
                                        *final(asked),
                                        due,
                                    )
                                }
                        },
                        Acquire::Wait(waiting) => {
                            &&& request == Request::<Conn, SIZE>::Wait(waiting)
                            &&& waiting.home() == self.slots()
                        },
                    }
                },
        opens_invariants [granting()]
    {
        let acquire = self.slots.grant();
        assert(self.slots().grants(acquire));
        self.requested(acquire)
    }

    /// Goes on with a request that is ready to wait, given what asking for a slot gave: a slot
    /// that was free is checked out, and a place in the queue is passed on.
    pub fn requested<'pool>(&'pool self, acquire: Acquire<'pool, Conn, SIZE>) -> (request: Request<
        'pool,
        Conn,
        SIZE,
    >)
        ensures
            match acquire {
                Acquire::Ready(guard) => {
                    &&& request matches Request::Ready(step)
                    &&& step.home() == guard.home()
                    &&& step.uses(self.ctx())
                    &&& guard@ is None ==> step.phase() == begun::<Conn, Conn::Error>(None)
                    &&& guard@ matches Some(conn) ==> exists|asked: &mut Conn, due: bool|
                        {
                            &&& *asked == conn
                            &&& call_ensures(Conn::needs_health_check, (asked, &self.ctx()), due)
                            &&& step.phase() == vetted::<Conn, Conn::Error>(*final(asked), due)
                        }
                },
                Acquire::Wait(waiting) => request == Request::<Conn, SIZE>::Wait(waiting),
            },
        opens_invariants none
    {
        match acquire {
            Acquire::Ready(guard) => Request::Ready(self.checkout(guard)),
            Acquire::Wait(waiting) => Request::Wait(waiting),
        }
    }

    /// Goes on with a request that had to wait, given the slot that it got: it is checked out.
    pub fn acquired<'pool>(
        &'pool self,
        lock: LockGuard<'pool, LazyConn<Conn>, SIZE, MAX_WAITERS>,
    ) -> (step: Step<'pool, Conn, SIZE>)
        ensures
            exists|guard: Guard<'pool, Conn, SIZE>|
                {
                    &&& #[trigger] Guard::takes_over(lock, guard)
                    &&& step.home() == guard.home()
                    &&& guard@ is None ==> step.phase() == begun::<Conn, Conn::Error>(None)
                    &&& guard@ matches Some(conn) ==> exists|asked: &mut Conn, due: bool|
                        {
                            &&& *asked == conn
                            &&& call_ensures(
                                Conn::needs_health_check,
                                (asked, &self.ctx()),
                                due,
                            )
                            &&& step.phase() == vetted::<Conn, Conn::Error>(
                                *final(asked),
                                due,
                            )
                        }
                },
            step.uses(self.ctx()),
        opens_invariants none
    {
        let guard = Guard::take_over(lock);
        assert(Guard::takes_over(lock, guard));
        self.checkout(guard)
    }

    /// Asks for a connection, unwilling to wait for a slot. There is none if, and only if,
    /// `lock_pool` hands over no slot; a slot that it hands over is checked out.
    ///
    /// Whether a slot is free, and what it holds, depends on who else uses the pool.
    pub fn try_get(&self) -> (step: Option<Step<'_, Conn, SIZE>>)
        ensures
            exists|guard: Option<Guard<'_, Conn, SIZE>>|
                {
                    &&& #[trigger] self.slots().offers(guard)
                    &&& match guard {
                        Some(guard) => {
                            &&& step matches Some(step)
                            &&& guard@ is None ==> step.phase() == begun::<Conn, Conn::Error>(None)
                            &&& guard@ matches Some(conn) ==> exists|asked: &mut Conn, due: bool|
                                {
                                    &&& *asked == conn
                                    &&& call_ensures(
                                        Conn::needs_health_check,
                                        (asked, &self.ctx()),
                                        due,
                                    )
                                    &&& step.phase() == vetted::<Conn, Conn::Error>(
                                        *final(asked),
                                        due,
                                    )
                                }
                        },
                        None => step is None,
                    }
                },
            step matches Some(step) ==> {
                &&& SIZE > 0
                &&& step.home() == self.slots()
                &&& step.uses(self.ctx())
            },
        opens_invariants [offering()]
    {
        let guard = self.slots.offer();
        assert(self.slots().offers(guard));
        self.offered(guard)
    }

    /// Goes on with a request that does not wait, given the slot that was free, if one was: it
    /// is checked out.
    pub fn offered<'pool>(&'pool self, guard: Option<Guard<'pool, Conn, SIZE>>) -> (step: Option<
        Step<'pool, Conn, SIZE>,
    >)
        ensures
            match guard {
                Some(guard) => {
                    &&& step matches Some(step)
                    &&& step.home() == guard.home()
                    &&& step.uses(self.ctx())
                    &&& guard@ is None ==> step.phase() == begun::<Conn, Conn::Error>(None)
                    &&& guard@ matches Some(conn) ==> exists|asked: &mut Conn, due: bool|
                        {
                            &&& *asked == conn
                            &&& call_ensures(Conn::needs_health_check, (asked, &self.ctx()), due)
                            &&& step.phase() == vetted::<Conn, Conn::Error>(*final(asked), due)
                        }
                },
                None => step is None,
            },
        opens_invariants none
    {
        match guard {
            Some(guard) => Some(self.checkout(guard)),
            None => None,
        }
    }

    /// Asks for a connection, unwilling to wait for a slot, but content with a connection
    /// outside the pool. That is to be created if, and only if, `lock_pool` hands over no slot; a
    /// slot that it hands over is checked out.
    ///
    /// Whether a slot is free, and what it holds, depends on who else uses the pool.
    pub fn get_or_create(&self) -> (source: Source<'_, Conn, SIZE>)
        ensures
            exists|guard: Option<Guard<'_, Conn, SIZE>>|
                {
                    &&& #[trigger] self.slots().offers(guard)
                    &&& match guard {
                        Some(guard) => {
                            &&& source matches Source::Pooled(step)
                            &&& SIZE > 0
                            &&& step.home() == self.slots()
                            &&& step.uses(self.ctx())
                            &&& guard@ is None ==> step.phase() == begun::<Conn, Conn::Error>(None)
                            &&& guard@ matches Some(conn) ==> exists|asked: &mut Conn, due: bool|
                                {
                                    &&& *asked == conn
                                    &&& call_ensures(
                                        Conn::needs_health_check,
                                        (asked, &self.ctx()),
                                        due,
                                    )
                                    &&& step.phase() == vetted::<Conn, Conn::Error>(
                                        *final(asked),
                                        due,
                                    )
                                }
                        },
                        None => {
                            &&& source matches Source::Fresh(creation)
                            &&& creation.ctx() == self.ctx()
                        },
                    }
                },
        opens_invariants [offering()]
    {
        self.sourced(self.try_get())
    }

    /// Goes on with such a request, given what trying to get a connection of the pool gave.
    pub fn sourced<'pool>(&'pool self, step: Option<Step<'pool, Conn, SIZE>>) -> (source: Source<
        'pool,
        Conn,
        SIZE,
    >)
        ensures
            match step {
                Some(step) => source matches Source::Pooled(either) && either.step() == step,
                None => source matches Source::Fresh(creation) && creation.ctx() == self.ctx(),
            },
        opens_invariants none
    {
        match step {
            Some(step) => Source::Pooled(EitherStep::new(step)),
            None => Source::Fresh(Creation { ctx: &self.ctx }),
        }
    }
}

impl<'pool, Conn: Connection> Creation<'pool, Conn> {
    /// The context of the pool.
    pub closed spec fn ctx(&self) -> Conn::Context {
        *self.ctx
    }

    /// Starts the creation: the future of [`Connection::create`], called with the context of the
    /// pool.
    pub fn create(&self) -> (future: Conn::Create<'pool>)
        ensures
            call_ensures(Conn::create, (&self.ctx(),), future),
    {
        Conn::create(self.ctx)
    }
}

} // verus!
