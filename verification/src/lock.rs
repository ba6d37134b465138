//! The slots of a pool, which `lock_pool` keeps and locks.
use core::ops::{Deref, DerefMut};
use lock_pool::future::LockFuture;
use lock_pool::{LockGuard, LockPool};
use ref_count::futures::MaybeFuture;
use vstd::prelude::*;

use crate::connection::Connection;
use crate::lazy::{present, LazyConn};
use crate::MAX_WAITERS;

verus! {

/// `lock_pool::LockPool`: a fixed number of values, each behind a lock of its own, and a queue
/// of those who wait for one of them.
#[verifier::external_type_specification]
#[verifier::external_body]
#[verifier::reject_recursive_types(T)]
pub struct ExLockPool<T, const SIZE: usize, const WAITERS: usize>(
    LockPool<T, SIZE, WAITERS>,
);

/// `lock_pool::LockGuard`: exclusive access to one value of a `LockPool`, which ends when the
/// guard is dropped.
#[verifier::external_type_specification]
#[verifier::external_body]
#[verifier::reject_recursive_types(T)]
pub struct ExLockGuard<'lock, T, const SIZE: usize, const WAITERS: usize>(
    LockGuard<'lock, T, SIZE, WAITERS>,
);

/// `lock_pool::future::LockFuture`: a place in the queue of a `LockPool`, which resolves to a
/// `LockGuard`.
#[verifier::external_type_specification]
#[verifier::external_body]
#[verifier::reject_recursive_types(T)]
pub struct ExLockFuture<'lock, T, const SIZE: usize, const WAITERS: usize>(
    LockFuture<'lock, T, SIZE, WAITERS>,
);

/// The slots of a pool.
///
/// The slots are shared by all who hold a reference to them, so what they hold at a given
/// moment is not a function of this value. What they held when they were made is, and
/// [`Slots::initial`] names it.
#[verifier::reject_recursive_types(Conn)]
pub struct Slots<Conn, const SIZE: usize> {
    pool: LockPool<LazyConn<Conn>, SIZE, MAX_WAITERS>,
    initial: Ghost<Seq<Option<Conn>>>,
}

/// One slot of a pool, held by nobody else as long as the guard lives.
///
/// The view of a guard is what its slot holds, and [`Guard::home`] the slots that it is one of.
/// Both are kept beside the `LockGuard`, which is opaque, and are set and changed only by the
/// functions below that call `lock_pool`.
#[verifier::reject_recursive_types(Conn)]
pub struct Guard<'pool, Conn, const SIZE: usize> {
    lock: LockGuard<'pool, LazyConn<Conn>, SIZE, MAX_WAITERS>,
    held: Ghost<Option<Conn>>,
    home: Ghost<Slots<Conn, SIZE>>,
}

/// A place in the queue for a slot.
#[verifier::reject_recursive_types(Conn)]
pub struct Waiting<'pool, Conn, const SIZE: usize> {
    future: LockFuture<'pool, LazyConn<Conn>, SIZE, MAX_WAITERS>,
    home: Ghost<Slots<Conn, SIZE>>,
}

/// What asking for a slot gives, when waiting for it is acceptable.
#[verifier::reject_recursive_types(Conn)]
pub enum Acquire<'pool, Conn, const SIZE: usize> {
    /// A slot was free.
    Ready(Guard<'pool, Conn, SIZE>),
    /// Every slot was taken.
    Wait(Waiting<'pool, Conn, SIZE>),
}

/// The name by which a function declares, in `opens_invariants`, that it may ask for a slot by
/// `LockPool::try_get`.
///
/// The slots are shared, so no `ensures` can say that they were left alone; this clause can. A
/// function that opens no name asks for no slot, and calls nothing that does. A function that
/// opens this name may ask for slots, but calls nothing that may open others, such as
/// [`Guard::deref_mut`]. So it puts nothing in a slot and takes nothing out, and a connection in
/// a slot is changed only by [`Connection::needs_health_check`].
pub open spec fn offering() -> int {
    0
}

/// The name by which a function declares that it may ask for a slot by `LockPool::get`. It is to
/// that what [`offering`] is to `LockPool::try_get`.
pub open spec fn granting() -> int {
    1
}

/// What `size` slots hold that were never used.
pub open spec fn vacant<Conn>(size: nat) -> Seq<Option<Conn>> {
    Seq::new(size, |i: int| None)
}

/// What the slots `lazy` hold.
pub open spec fn contents<Conn>(lazy: Seq<LazyConn<Conn>>) -> Seq<Option<Conn>> {
    lazy.map_values(|l: LazyConn<Conn>| l@)
}

impl<Conn, const SIZE: usize> Slots<Conn, SIZE> {
    /// What each slot held when the slots were made.
    pub closed spec fn initial(&self) -> Seq<Option<Conn>> {
        self.initial@
    }

    /// `LockPool::new`, which fills each of the `SIZE` slots with a default value: here, a
    /// [`LazyConn`] without a connection.
    #[verifier::external_body]
    pub(crate) fn new() -> (slots: Self)
        ensures
            slots.initial() == vacant::<Conn>(SIZE as nat),
        opens_invariants none
    {
        Self { pool: LockPool::new(), initial: Ghost(vacant(SIZE as nat)) }
    }

    /// `LockPool::from` on an array, which moves the i-th value of the array into the i-th slot.
    #[verifier::external_body]
    pub(crate) fn from_array(lazy: [LazyConn<Conn>; SIZE]) -> (slots: Self)
        ensures
            slots.initial() == contents(lazy@),
        opens_invariants none
    {
        Self { pool: LockPool::from(lazy), initial: Ghost(contents(lazy@)) }
    }

    /// `LockPool::try_get`, which tries the slots in order, takes the first that is free, and
    /// gives up if none is. Who else holds slots is not known here, and neither is what the
    /// slot holds, so all that is claimed of a guard is whose slot it guards.
    #[verifier::external_body]
    pub(crate) fn try_get(&self) -> (guard: Option<Guard<'_, Conn, SIZE>>)
        ensures
            guard is Some ==> SIZE > 0,
            guard matches Some(g) ==> g.home() == *self,
        opens_invariants [offering()]
    {
        match self.pool.try_get() {
            Some(lock) => Some(
                Guard { lock, held: Ghost(vstd::pervasive::arbitrary()), home: Ghost(*self) },
            ),
            None => None,
        }
    }

    /// Whether `guard` may come of asking for a slot by `LockPool::try_get`. That some guard, or
    /// none, came of it is known only to whoever asked.
    pub closed spec fn offers(&self, guard: Option<Guard<'_, Conn, SIZE>>) -> bool {
        call_ensures(Self::try_get, (self,), guard)
    }

    /// Asks for a slot, unwilling to wait for one.
    pub(crate) fn offer(&self) -> (guard: Option<Guard<'_, Conn, SIZE>>)
        ensures
            self.offers(guard),
            guard is Some ==> SIZE > 0,
            guard matches Some(g) ==> g.home() == *self,
        opens_invariants [offering()]
    {
        self.try_get()
    }

    /// `LockPool::get`, which takes a slot as `LockPool::try_get` does, and gives a future to
    /// wait for one if none is free. The claims are those of [`Slots::try_get`].
    #[verifier::external_body]
    pub(crate) fn get(&self) -> (acquire: Acquire<'_, Conn, SIZE>)
        ensures
            match acquire {
                Acquire::Ready(guard) => SIZE > 0 && guard.home() == *self,
                Acquire::Wait(waiting) => waiting.home() == *self,
            },
        opens_invariants [granting()]
    {
        match self.pool.get() {
            MaybeFuture::Ready(lock) => Acquire::Ready(
                Guard { lock, held: Ghost(vstd::pervasive::arbitrary()), home: Ghost(*self) },
            ),
            MaybeFuture::Future(future) => Acquire::Wait(Waiting { future, home: Ghost(*self) }),
        }
    }

    /// Whether `acquire` may come of asking for a slot by `LockPool::get`. That it did come of it
    /// is known only to whoever asked.
    pub closed spec fn grants(&self, acquire: Acquire<'_, Conn, SIZE>) -> bool {
        call_ensures(Self::get, (self,), acquire)
    }

    /// Asks for a slot, ready to wait for one.
    pub(crate) fn grant(&self) -> (acquire: Acquire<'_, Conn, SIZE>)
        ensures
            self.grants(acquire),
            match acquire {
                Acquire::Ready(guard) => SIZE > 0 && guard.home() == *self,
                Acquire::Wait(waiting) => waiting.home() == *self,
            },
        opens_invariants [granting()]
    {
        self.get()
    }
}

/// A slot that is offered is one of those that were asked for, so where there are none, none is
/// offered.
pub proof fn law_offered_from_the_pool<Conn, const SIZE: usize>(
    slots: Slots<Conn, SIZE>,
    guard: Option<Guard<'_, Conn, SIZE>>,
)
    requires
        slots.offers(guard),
    ensures
        guard matches Some(g) ==> g.home() == slots,
        SIZE == 0 ==> guard is None,
{
}

/// A slot that is granted is one of those that were asked for, and so is one that is waited for.
/// Where there are none, none is granted at once.
pub proof fn law_granted_from_the_pool<Conn, const SIZE: usize>(
    slots: Slots<Conn, SIZE>,
    acquire: Acquire<'_, Conn, SIZE>,
)
    requires
        slots.grants(acquire),
    ensures
        match acquire {
            Acquire::Ready(guard) => guard.home() == slots,
            Acquire::Wait(waiting) => waiting.home() == slots,
        },
        SIZE == 0 ==> acquire is Wait,
{
}

impl<'pool, Conn, const SIZE: usize> Waiting<'pool, Conn, SIZE> {
    /// The slots that are waited for.
    pub closed spec fn home(&self) -> Slots<Conn, SIZE> {
        self.home@
    }

    /// The future that resolves to a slot.
    pub closed spec fn future(&self) -> LockFuture<'pool, LazyConn<Conn>, SIZE, MAX_WAITERS> {
        self.future
    }

    /// The future that resolves to a slot, once one is free.
    pub fn into_future(self) -> (future: LockFuture<'pool, LazyConn<Conn>, SIZE, MAX_WAITERS>)
        ensures
            future == self.future(),
    {
        self.future
    }
}

impl<'pool, Conn, const SIZE: usize> View for Guard<'pool, Conn, SIZE> {
    type V = Option<Conn>;

    closed spec fn view(&self) -> Option<Conn> {
        self.held@
    }
}

impl<'pool, Conn, const SIZE: usize> Guard<'pool, Conn, SIZE> {
    /// The slots that this one is among.
    pub closed spec fn home(&self) -> Slots<Conn, SIZE> {
        self.home@
    }

    /// Takes over a `LockGuard` that a `LockFuture` resolved to. What its slot holds, and whose
    /// slot it is, is not known here, so nothing is claimed.
    #[verifier::external_body]
    pub(crate) fn adopt(
        lock: LockGuard<'pool, LazyConn<Conn>, SIZE, MAX_WAITERS>,
    ) -> (guard: Self)
        opens_invariants none
    {
        Guard {
            lock,
            held: Ghost(vstd::pervasive::arbitrary()),
            home: Ghost(vstd::pervasive::arbitrary()),
        }
    }

    /// Whether `guard` may come of taking over `lock`. That it did come of it is known only to
    /// whoever took it over.
    pub closed spec fn takes_over(
        lock: LockGuard<'pool, LazyConn<Conn>, SIZE, MAX_WAITERS>,
        guard: Self,
    ) -> bool {
        call_ensures(Self::adopt, (lock,), guard)
    }

    /// Takes over the slot that `lock` guards.
    pub(crate) fn take_over(
        lock: LockGuard<'pool, LazyConn<Conn>, SIZE, MAX_WAITERS>,
    ) -> (guard: Self)
        ensures
            Self::takes_over(lock, guard),
        opens_invariants none
    {
        Self::adopt(lock)
    }

    /// `LockGuard::deref`, which lends the value of the guarded slot.
    #[verifier::external_body]
    fn lend(&self) -> (lazy: &LazyConn<Conn>)
        ensures
            lazy@ == self@,
        opens_invariants none
    {
        self.lock.deref()
    }

    /// `LockGuard::deref_mut`, which lends the value of the guarded slot to be changed: the slot
    /// then holds what the borrower left in it.
    #[verifier::external_body]
    fn lend_mut(&mut self) -> (lazy: &mut LazyConn<Conn>)
        ensures
            lazy@ == old(self)@,
            final(self)@ == final(lazy)@,
            final(self).home() == old(self).home(),
        opens_invariants none
        no_unwind
    {
        self.lock.deref_mut()
    }

    /// Says whether there is a connection in the slot.
    pub(crate) fn is_live(&self) -> (live: bool)
        ensures
            live == (self@ is Some),
        opens_invariants none
    {
        match self.lend().get() {
            Some(_) => true,
            None => false,
        }
    }

    /// Asks the connection in the slot, where there is one, whether a health check is due.
    pub(crate) fn asked(self, ctx: &Conn::Context) -> (answer: (Self, bool)) where Conn: Connection
        requires
            self@ is Some,
        ensures
            exists|asked: &mut Conn|
                {
                    &&& Some(*asked) == self@
                    &&& Some(*final(asked)) == answer.0@
                    &&& call_ensures(Conn::needs_health_check, (asked, ctx), answer.1)
                },
            answer.0.home() == self.home(),
        opens_invariants none
    {
        let mut guard = self;
        let due = present(guard.lend_mut().get_mut()).needs_health_check(ctx);
        (guard, due)
    }

    /// The connection in the slot, where there is one.
    pub(crate) fn live(&self) -> (conn: &Conn)
        requires
            self@ is Some,
        ensures
            self@ == Some(*conn),
    {
        present(self.lend().get())
    }

    /// The connection in the slot, where there is one, to be changed in place.
    pub(crate) fn live_mut(&mut self) -> (conn: &mut Conn)
        requires
            old(self)@ is Some,
        ensures
            old(self)@ == Some(*conn),
            final(self)@ == Some(*final(conn)),
            final(self).home() == old(self).home(),
        no_unwind
    {
        present(self.lend_mut().get_mut())
    }
}

impl<'pool, Conn, const SIZE: usize> Deref for Guard<'pool, Conn, SIZE> {
    type Target = LazyConn<Conn>;

    fn deref(&self) -> (lazy: &LazyConn<Conn>)
        ensures
            lazy@ == self@,
    {
        self.lend()
    }
}

impl<'pool, Conn, const SIZE: usize> DerefMut for Guard<'pool, Conn, SIZE> {
    fn deref_mut(&mut self) -> (lazy: &mut LazyConn<Conn>)
        ensures
            lazy@ == old(self)@,
            final(self)@ == final(lazy)@,
            final(self).home() == old(self).home(),
    {
        self.lend_mut()
    }
}

} // verus!
