//! How the content of a slot becomes a connection that is fit for use.
//!
//! A checkout starts with a slot that nobody else holds. If the slot is empty, a connection is
//! created for it. If it is not, its connection is asked whether a health check is due; one that
//! needs none, or passes it, is handed out, and one that fails it is replaced. Whenever a
//! connection cannot be created, the slot is released as it was and the error is passed on.
use vstd::prelude::*;

use crate::connection::Connection;
use crate::lazy::LazyConn;
use crate::live::LiveConn;
use crate::lock::{Guard, Slots};

verus! {

/// Where a checkout stands, and what its slot holds.
pub enum Phase<C, E> {
    /// This connection is to be asked whether a health check is due.
    Vet(C),
    /// The health of this connection is to be checked.
    HealthCheck(C),
    /// A connection is to be created, to be put in place of what the slot holds.
    Create(Option<C>),
    /// This connection is handed out.
    Done(C),
    /// No connection could be created. The slot is released with what it held before.
    Refused { held: Option<C>, error: E },
}

/// What a checkout learns from outside.
pub enum Event<C, E> {
    /// The connection, as it is after it was asked, and whether a health check is due.
    Vetted(C, bool),
    /// The connection, as it is after the health check, and how that went.
    Checked(C, Result<(), E>),
    /// The connection that was created, or why there is none.
    Created(Result<C, E>),
}

/// The first phase of the checkout of a slot that holds `held`.
pub open spec fn begun<C, E>(held: Option<C>) -> Phase<C, E> {
    match held {
        Some(conn) => Phase::Vet(conn),
        None => Phase::Create(None),
    }
}

/// The phase after `conn` said whether a health check is due.
pub open spec fn vetted<C, E>(conn: C, due: bool) -> Phase<C, E> {
    if due {
        Phase::HealthCheck(conn)
    } else {
        Phase::Done(conn)
    }
}

/// The phase after a health check of `conn`.
pub open spec fn checked<C, E>(conn: C, outcome: Result<(), E>) -> Phase<C, E> {
    match outcome {
        Ok(_) => Phase::Done(conn),
        Err(_) => Phase::Create(Some(conn)),
    }
}

/// The phase after the attempt to create a connection for a slot that holds `held`.
pub open spec fn created<C, E>(held: Option<C>, outcome: Result<C, E>) -> Phase<C, E> {
    match outcome {
        Ok(conn) => Phase::Done(conn),
        Err(error) => Phase::Refused { held, error },
    }
}

/// Whether `event` is what a checkout in `phase` waits for.
pub open spec fn awaits<C, E>(phase: Phase<C, E>, event: Event<C, E>) -> bool {
    match phase {
        Phase::Vet(_) => event is Vetted,
        Phase::HealthCheck(_) => event is Checked,
        Phase::Create(_) => event is Created,
        Phase::Done(_) => false,
        Phase::Refused { .. } => false,
    }
}

/// The phase that follows `phase` upon an event that it waits for.
pub open spec fn next<C, E>(phase: Phase<C, E>, event: Event<C, E>) -> Phase<C, E>
    recommends
        awaits(phase, event),
{
    match event {
        Event::Vetted(conn, due) => vetted(conn, due),
        Event::Checked(conn, outcome) => checked(conn, outcome),
        Event::Created(outcome) => match phase {
            Phase::Create(held) => created(held, outcome),
            _ => phase,
        },
    }
}

/// The phase in which the checkout of a slot that holds `held` is after `events`.
pub open spec fn run<C, E>(held: Option<C>, events: Seq<Event<C, E>>) -> Phase<C, E>
    decreases events.len(),
{
    if events.len() == 0 {
        begun(held)
    } else {
        next(run(held, events.drop_last()), events.last())
    }
}

/// Whether `events` can happen, in this order, to the checkout of a slot that holds `held`.
pub open spec fn fits<C, E>(held: Option<C>, events: Seq<Event<C, E>>) -> bool
    decreases events.len(),
{
    events.len() == 0 || {
        &&& fits(held, events.drop_last())
        &&& awaits(run(held, events.drop_last()), events.last())
    }
}

/// Whether a checkout is over.
pub open spec fn over<C, E>(phase: Phase<C, E>) -> bool {
    phase is Done || phase is Refused
}

/// A checkout that is to ask its connection whether a health check is due.
#[verifier::reject_recursive_types(Conn)]
pub struct Vetting<'pool, Conn: Connection, const SIZE: usize> {
    guard: Guard<'pool, Conn, SIZE>,
    ctx: &'pool Conn::Context,
}

/// A checkout whose connection is to undergo a health check.
#[verifier::reject_recursive_types(Conn)]
pub struct Checking<'pool, Conn: Connection, const SIZE: usize> {
    guard: Guard<'pool, Conn, SIZE>,
    ctx: &'pool Conn::Context,
}

/// A checkout for which a connection is to be created.
#[verifier::reject_recursive_types(Conn)]
pub struct Creating<'pool, Conn: Connection, const SIZE: usize> {
    guard: Guard<'pool, Conn, SIZE>,
    ctx: &'pool Conn::Context,
}

/// A checkout for which no connection could be created. It still holds its slot, and releases
/// it when it is dropped or turned into its error.
#[verifier::reject_recursive_types(Conn)]
pub struct Refused<'pool, Conn: Connection, const SIZE: usize> {
    guard: Guard<'pool, Conn, SIZE>,
    error: Conn::Error,
}

/// What a checkout needs next.
#[verifier::reject_recursive_types(Conn)]
pub enum Step<'pool, Conn: Connection, const SIZE: usize> {
    /// [`Connection::health_check`] is to be awaited.
    HealthCheck(Checking<'pool, Conn, SIZE>),
    /// [`Connection::create`] is to be awaited.
    Create(Creating<'pool, Conn, SIZE>),
    /// Nothing: here is the connection.
    Done(LiveConn<'pool, Conn, SIZE>),
}

impl<'pool, Conn: Connection, const SIZE: usize> Step<'pool, Conn, SIZE> {
    /// The phase of the checkout.
    pub open spec fn phase(&self) -> Phase<Conn, Conn::Error> {
        match self {
            Step::HealthCheck(checking) => Phase::HealthCheck(checking@),
            Step::Create(creating) => Phase::Create(creating@),
            Step::Done(live) => Phase::Done(live@),
        }
    }

    /// The slots that the checkout took its slot from.
    pub open spec fn home(&self) -> Slots<Conn, SIZE> {
        match self {
            Step::HealthCheck(checking) => checking.home(),
            Step::Create(creating) => creating.home(),
            Step::Done(live) => live.home(),
        }
    }

    /// Whether what is to be awaited next, if anything, is to be given the context `ctx`.
    pub open spec fn uses(&self, ctx: Conn::Context) -> bool {
        match self {
            Step::HealthCheck(checking) => checking.ctx() == ctx,
            Step::Create(creating) => creating.ctx() == ctx,
            Step::Done(_) => true,
        }
    }
}

impl<'pool, Conn: Connection, const SIZE: usize> View for Vetting<'pool, Conn, SIZE> {
    type V = Conn;

    closed spec fn view(&self) -> Conn {
        self.guard@->0
    }
}

impl<'pool, Conn: Connection, const SIZE: usize> Vetting<'pool, Conn, SIZE> {
    /// The slot holds a connection.
    #[verifier::type_invariant]
    spec fn initialized(&self) -> bool {
        self.guard@ is Some
    }

    /// The slots that the checkout took its slot from.
    pub closed spec fn home(&self) -> Slots<Conn, SIZE> {
        self.guard.home()
    }

    /// The context of the pool.
    pub closed spec fn ctx(&self) -> Conn::Context {
        *self.ctx
    }

    /// Asks the connection whether a health check is due.
    pub fn ask(&mut self) -> (due: bool)
        ensures
            exists|asked: &mut Conn|
                {
                    &&& *asked == old(self)@
                    &&& *final(asked) == final(self)@
                    &&& call_ensures(
                        Conn::needs_health_check,
                        (asked, &old(self).ctx()),
                        due,
                    )
                },
            final(self).home() == old(self).home(),
            final(self).ctx() == old(self).ctx(),
    {
        proof {
            use_type_invariant(&*self);
        }
        let ctx = self.ctx;
        let conn = self.guard.live_mut();
        conn.needs_health_check(ctx)
    }

    /// Goes on, given whether a health check is due.
    pub fn vetted(self, due: bool) -> (step: Step<'pool, Conn, SIZE>)
        ensures
            step.phase() == vetted::<Conn, Conn::Error>(self@, due),
            step.home() == self.home(),
            step.uses(self.ctx()),
        opens_invariants none
    {
        proof {
            use_type_invariant(&self);
        }
        if due {
            Step::HealthCheck(Checking { guard: self.guard, ctx: self.ctx })
        } else {
            Step::Done(LiveConn::new(self.guard))
        }
    }
}

impl<'pool, Conn: Connection, const SIZE: usize> View for Checking<'pool, Conn, SIZE> {
    type V = Conn;

    closed spec fn view(&self) -> Conn {
        self.guard@->0
    }
}

impl<'pool, Conn: Connection, const SIZE: usize> Checking<'pool, Conn, SIZE> {
    /// The slot holds a connection.
    #[verifier::type_invariant]
    spec fn initialized(&self) -> bool {
        self.guard@ is Some
    }

    /// The slots that the checkout took its slot from.
    pub closed spec fn home(&self) -> Slots<Conn, SIZE> {
        self.guard.home()
    }

    /// The context of the pool.
    pub closed spec fn ctx(&self) -> Conn::Context {
        *self.ctx
    }

    /// Starts the health check: the future of [`Connection::health_check`], called on the
    /// connection in the slot with the context of the pool.
    pub fn health_check<'a>(&'a mut self) -> (future: Conn::HealthCheck<'a>)
        ensures
            exists|subject: &mut Conn|
                {
                    &&& *subject == old(self)@
                    &&& *final(subject) == final(self)@
                    &&& call_ensures(
                        Conn::health_check,
                        (subject, &old(self).ctx()),
                        future,
                    )
                },
            final(self).home() == old(self).home(),
            final(self).ctx() == old(self).ctx(),
    {
        proof {
            use_type_invariant(&*self);
        }
        let ctx = self.ctx;
        self.guard.live_mut().health_check(ctx)
    }

    /// Goes on, given how the health check went.
    pub fn checked(self, outcome: Result<(), Conn::Error>) -> (step: Step<'pool, Conn, SIZE>)
        ensures
            step.phase() == checked::<Conn, Conn::Error>(self@, outcome),
            step.home() == self.home(),
            step.uses(self.ctx()),
        opens_invariants none
    {
        proof {
            use_type_invariant(&self);
        }
        match outcome {
            Ok(_) => Step::Done(LiveConn::new(self.guard)),
            Err(_) => Step::Create(Creating { guard: self.guard, ctx: self.ctx }),
        }
    }
}

impl<'pool, Conn: Connection, const SIZE: usize> View for Creating<'pool, Conn, SIZE> {
    type V = Option<Conn>;

    closed spec fn view(&self) -> Option<Conn> {
        self.guard@
    }
}

impl<'pool, Conn: Connection, const SIZE: usize> Creating<'pool, Conn, SIZE> {
    /// The slots that the checkout took its slot from.
    pub closed spec fn home(&self) -> Slots<Conn, SIZE> {
        self.guard.home()
    }

    /// The context of the pool.
    pub closed spec fn ctx(&self) -> Conn::Context {
        *self.ctx
    }

    /// Starts the creation: the future of [`Connection::create`], called with the context of the
    /// pool.
    pub fn create(&self) -> (future: Conn::Create<'pool>)
        ensures
            call_ensures(Conn::create, (&self.ctx(),), future),
    {
        Conn::create(self.ctx)
    }

    /// Says whether the slot holds a connection, which is then one that is not fit for use.
    pub(crate) fn replaces(&self) -> (replaces: bool)
        ensures
            replaces == (self@ is Some),
    {
        self.guard.is_live()
    }

    /// Gives up the checkout, but not its slot.
    pub(crate) fn into_guard(self) -> (guard: Guard<'pool, Conn, SIZE>)
        ensures
            guard@ == self@,
            guard.home() == self.home(),
    {
        self.guard
    }

    /// Ends the checkout, given the connection that was created or why there is none.
    pub fn created(self, outcome: Result<Conn, Conn::Error>) -> (end: Result<
        LiveConn<'pool, Conn, SIZE>,
        Refused<'pool, Conn, SIZE>,
    >)
        ensures
            match end {
                Ok(live) => {
                    &&& created(self@, outcome) == Phase::<Conn, Conn::Error>::Done(live@)
                    &&& live.home() == self.home()
                },
                Err(refused) => {
                    &&& created(self@, outcome) == Phase::<Conn, Conn::Error>::Refused {
                        held: refused@,
                        error: refused.error(),
                    }
                    &&& refused.home() == self.home()
                },
            },
    {
        match outcome {
            Ok(conn) => {
                let mut guard = self.guard;
                *guard = LazyConn::init(conn);
                Ok(LiveConn::new(guard))
            },
            Err(error) => Err(Refused { guard: self.guard, error }),
        }
    }
}

impl<'pool, Conn: Connection, const SIZE: usize> View for Refused<'pool, Conn, SIZE> {
    type V = Option<Conn>;

    closed spec fn view(&self) -> Option<Conn> {
        self.guard@
    }
}

impl<'pool, Conn: Connection, const SIZE: usize> Refused<'pool, Conn, SIZE> {
    /// Why no connection could be created.
    pub closed spec fn error(&self) -> Conn::Error {
        self.error
    }

    /// The slots that the checkout took its slot from.
    pub closed spec fn home(&self) -> Slots<Conn, SIZE> {
        self.guard.home()
    }

    /// Releases the slot and passes on the error.
    pub fn into_error(self) -> (error: Conn::Error)
        ensures
            error == self.error(),
    {
        self.error
    }
}

/// What the checkout of a slot needs first.
#[verifier::reject_recursive_types(Conn)]
pub enum Start<'pool, Conn: Connection, const SIZE: usize> {
    /// The slot holds a connection, which is to be asked whether a health check is due.
    Vet(Vetting<'pool, Conn, SIZE>),
    /// The slot is empty.
    Create(Creating<'pool, Conn, SIZE>),
}

impl<'pool, Conn: Connection, const SIZE: usize> Start<'pool, Conn, SIZE> {
    /// The phase of the checkout.
    pub open spec fn phase(&self) -> Phase<Conn, Conn::Error> {
        match self {
            Start::Vet(vetting) => Phase::Vet(vetting@),
            Start::Create(creating) => Phase::Create(creating@),
        }
    }

    /// The slots that the checkout took its slot from.
    pub open spec fn home(&self) -> Slots<Conn, SIZE> {
        match self {
            Start::Vet(vetting) => vetting.home(),
            Start::Create(creating) => creating.home(),
        }
    }

    /// The context of the pool.
    pub open spec fn ctx(&self) -> Conn::Context {
        match self {
            Start::Vet(vetting) => vetting.ctx(),
            Start::Create(creating) => creating.ctx(),
        }
    }

    /// Starts the checkout of the slot that `guard` guards, in a pool with the context `ctx`.
    pub fn new(guard: Guard<'pool, Conn, SIZE>, ctx: &'pool Conn::Context) -> (start: Self)
        ensures
            start.phase() == begun::<Conn, Conn::Error>(guard@),
            start.home() == guard.home(),
            start.ctx() == *ctx,
        opens_invariants none
    {
        if guard.is_live() {
            Start::Vet(Vetting { guard, ctx })
        } else {
            Start::Create(Creating { guard, ctx })
        }
    }

    /// Goes on to the first thing that has to be awaited, asking the connection on the way, if
    /// there is one.
    pub fn proceed(self) -> (step: Step<'pool, Conn, SIZE>)
        ensures
            self is Create ==> step.phase() == self.phase(),
            self matches Start::Vet(vetting) ==> exists|asked: &mut Conn, due: bool|
                {
                    &&& *asked == vetting@
                    &&& call_ensures(
                        Conn::needs_health_check,
                        (asked, &self.ctx()),
                        due,
                    )
                    &&& step.phase() == vetted::<Conn, Conn::Error>(*final(asked), due)
                },
            step.home() == self.home(),
            step.uses(self.ctx()),
        opens_invariants none
    {
        match self {
            Start::Vet(vetting) => {
                proof {
                    use_type_invariant(&vetting);
                }
                let ctx = vetting.ctx;
                let (guard, due) = vetting.guard.asked(ctx);
                Vetting { guard, ctx }.vetted(due)
            },
            Start::Create(creating) => Step::Create(creating),
        }
    }
}

} // verus!
