//! How a connection is found for a request that is content with one outside the pool.
//!
//! Such a request takes a slot if one is free, and the checkout of that slot goes its usual way
//! but for its end: a connection that is created because the one in the slot failed its health
//! check is not put in its place. It is handed out as one outside the pool, and the slot is
//! released empty. A connection that is created for an empty slot is put there, as always.
use vstd::prelude::*;

use crate::checkout::{checked, run, Checking, Creating, Event, Phase, Refused, Step};
use crate::connection::Connection;
use crate::live::{FreshOrPooled, LiveConn};
use crate::lock::{Guard, Slots};

verus! {

/// How a request that is content with a connection outside the pool is answered.
pub enum Answer<C, E> {
    /// With this connection, which is in the slot.
    Pooled(C),
    /// With this connection, which is not. The slot is released with what is left in it.
    Fresh { conn: C, left: Option<C> },
    /// With this error. The slot is released with what it held before.
    Refused { held: Option<C>, error: E },
}

/// The answer after the attempt to create a connection, for a slot that holds `held`.
pub open spec fn settled<C, E>(held: Option<C>, outcome: Result<C, E>) -> Answer<C, E> {
    match outcome {
        Ok(conn) => match held {
            None => Answer::Pooled(conn),
            Some(_) => Answer::Fresh { conn, left: None },
        },
        Err(error) => Answer::Refused { held, error },
    }
}

/// The answer of a checkout that is over after `events`, of a slot that held `held`: that of the
/// attempt to create a connection, if it came to that, and the connection in the slot if not.
pub open spec fn answered<C, E>(held: Option<C>, events: Seq<Event<C, E>>) -> Answer<C, E> {
    match (run(held, events.drop_last()), events.last(), run(held, events)) {
        (Phase::Create(left), Event::Created(outcome), _) => settled(left, outcome),
        (_, _, Phase::Done(conn)) => Answer::Pooled(conn),
        (_, _, Phase::Refused { held: left, error }) => Answer::Refused { held: left, error },
        _ => vstd::pervasive::arbitrary(),
    }
}

/// A checkout whose connection is to undergo a health check.
#[verifier::reject_recursive_types(Conn)]
pub struct EitherChecking<'pool, Conn: Connection, const SIZE: usize> {
    checking: Checking<'pool, Conn, SIZE>,
}

/// A checkout for which a connection is to be created.
#[verifier::reject_recursive_types(Conn)]
pub struct EitherCreating<'pool, Conn: Connection, const SIZE: usize> {
    creating: Creating<'pool, Conn, SIZE>,
}

/// What the checkout needs next.
#[verifier::reject_recursive_types(Conn)]
pub enum EitherStep<'pool, Conn: Connection, const SIZE: usize> {
    /// [`Connection::health_check`] is to be awaited.
    HealthCheck(EitherChecking<'pool, Conn, SIZE>),
    /// [`Connection::create`] is to be awaited.
    Create(EitherCreating<'pool, Conn, SIZE>),
    /// Nothing: here is the connection, which is one of the pool. [`FreshOrPooled::pooled`] is
    /// the answer.
    Done(LiveConn<'pool, Conn, SIZE>),
}

/// How the attempt to create a connection leaves the request and the slot.
#[verifier::reject_recursive_types(Conn)]
pub enum Settled<'pool, Conn: Connection, const SIZE: usize> {
    /// The connection was put in the slot.
    Pooled(LiveConn<'pool, Conn, SIZE>),
    /// The connection is not in the slot, which is released with `guard`.
    Fresh { conn: Conn, guard: Guard<'pool, Conn, SIZE> },
    /// There is no connection.
    Refused(Refused<'pool, Conn, SIZE>),
}

impl<'pool, Conn: Connection, const SIZE: usize> EitherStep<'pool, Conn, SIZE> {
    /// The step as one of a checkout that is not content with a connection outside the pool.
    pub open spec fn step(&self) -> Step<'pool, Conn, SIZE> {
        match self {
            EitherStep::HealthCheck(checking) => Step::HealthCheck(checking@),
            EitherStep::Create(creating) => Step::Create(creating@),
            EitherStep::Done(live) => Step::Done(*live),
        }
    }

    /// The phase of the checkout.
    pub open spec fn phase(&self) -> Phase<Conn, Conn::Error> {
        self.step().phase()
    }

    /// The slots that the checkout took its slot from.
    pub open spec fn home(&self) -> Slots<Conn, SIZE> {
        self.step().home()
    }

    /// Whether what is to be awaited next, if anything, is to be given the context `ctx`.
    pub open spec fn uses(&self, ctx: Conn::Context) -> bool {
        self.step().uses(ctx)
    }

    /// Goes on from `step`, content with a connection outside the pool.
    pub(crate) fn new(step: Step<'pool, Conn, SIZE>) -> (either: Self)
        ensures
            either.step() == step,
        opens_invariants none
    {
        match step {
            Step::HealthCheck(checking) => EitherStep::HealthCheck(EitherChecking { checking }),
            Step::Create(creating) => EitherStep::Create(EitherCreating { creating }),
            Step::Done(live) => EitherStep::Done(live),
        }
    }
}

impl<'pool, Conn: Connection, const SIZE: usize> View for EitherChecking<'pool, Conn, SIZE> {
    type V = Checking<'pool, Conn, SIZE>;

    closed spec fn view(&self) -> Checking<'pool, Conn, SIZE> {
        self.checking
    }
}

impl<'pool, Conn: Connection, const SIZE: usize> EitherChecking<'pool, Conn, SIZE> {
    /// Starts the health check: the future of [`Connection::health_check`], called on the
    /// connection in the slot with the context of the pool.
    pub fn health_check<'a>(&'a mut self) -> (future: Conn::HealthCheck<'a>)
        ensures
            exists|subject: &mut Conn|
                {
                    &&& *subject == old(self)@@
                    &&& *final(subject) == final(self)@@
                    &&& call_ensures(
                        Conn::health_check,
                        (subject, &old(self)@.ctx()),
                        future,
                    )
                },
            final(self)@.home() == old(self)@.home(),
            final(self)@.ctx() == old(self)@.ctx(),
    {
        self.checking.health_check()
    }

    /// Goes on, given how the health check went.
    pub fn checked(self, outcome: Result<(), Conn::Error>) -> (step: EitherStep<'pool, Conn, SIZE>)
        ensures
            step.phase() == checked::<Conn, Conn::Error>(self@@, outcome),
            step.home() == self@.home(),
            step.uses(self@.ctx()),
        opens_invariants none
    {
        EitherStep::new(self.checking.checked(outcome))
    }
}

impl<'pool, Conn: Connection, const SIZE: usize> View for EitherCreating<'pool, Conn, SIZE> {
    type V = Creating<'pool, Conn, SIZE>;

    closed spec fn view(&self) -> Creating<'pool, Conn, SIZE> {
        self.creating
    }
}

impl<'pool, Conn: Connection, const SIZE: usize> EitherCreating<'pool, Conn, SIZE> {
    /// Starts the creation: the future of [`Connection::create`], called with the context of the
    /// pool.
    pub fn create(&self) -> (future: Conn::Create<'pool>)
        ensures
            call_ensures(Conn::create, (&self@.ctx(),), future),
    {
        self.creating.create()
    }

    /// Ends the checkout, given the connection that was created or why there is none. A connection
    /// created for an empty slot is put there. One created because the connection in the slot
    /// failed its health check is not, and the slot is emptied.
    pub fn created(self, outcome: Result<Conn, Conn::Error>) -> (end: Settled<'pool, Conn, SIZE>)
        ensures
            end.answer() == settled(self@@, outcome),
            self@@ is Some ==> (outcome matches Ok(conn) ==> end.reply() == Ok::<
                FreshOrPooled<'pool, Conn, SIZE>,
                Conn::Error,
            >(FreshOrPooled::Fresh(conn))),
            end.home() == self@.home(),
    {
        match outcome {
            Ok(conn) if self.creating.replaces() => {
                let mut guard = self.creating.into_guard();
                guard.expire();
                Settled::Fresh { conn, guard }
            },
            outcome => match self.creating.created(outcome) {
                Ok(live) => Settled::Pooled(live),
                Err(refused) => Settled::Refused(refused),
            },
        }
    }
}

impl<'pool, Conn: Connection, const SIZE: usize> Settled<'pool, Conn, SIZE> {
    /// How the request is answered, and what its slot holds.
    pub open spec fn answer(&self) -> Answer<Conn, Conn::Error> {
        match self {
            Settled::Pooled(live) => Answer::Pooled(live@),
            Settled::Fresh { conn, guard } => Answer::Fresh { conn: *conn, left: guard@ },
            Settled::Refused(refused) => Answer::Refused {
                held: refused@,
                error: refused.error(),
            },
        }
    }

    /// The slots that the checkout took its slot from.
    pub open spec fn home(&self) -> Slots<Conn, SIZE> {
        match self {
            Settled::Pooled(live) => live.home(),
            Settled::Fresh { guard, .. } => guard.home(),
            Settled::Refused(refused) => refused.home(),
        }
    }

    /// What the one who made the request gets.
    pub open spec fn reply(&self) -> Result<FreshOrPooled<'pool, Conn, SIZE>, Conn::Error> {
        match self {
            Settled::Pooled(live) => Ok(FreshOrPooled::Pooled(*live)),
            Settled::Fresh { conn, .. } => Ok(FreshOrPooled::Fresh(*conn)),
            Settled::Refused(refused) => Err(refused.error()),
        }
    }

    /// Answers the request. A slot whose connection is not handed out is released.
    pub fn into_reply(self) -> (reply: Result<FreshOrPooled<'pool, Conn, SIZE>, Conn::Error>)
        ensures
            reply == self.reply(),
    {
        match self {
            Settled::Pooled(live) => Ok(FreshOrPooled::pooled(live)),
            Settled::Fresh { conn, .. } => Ok(FreshOrPooled::Fresh(conn)),
            Settled::Refused(refused) => Err(refused.into_error()),
        }
    }
}

} // verus!
