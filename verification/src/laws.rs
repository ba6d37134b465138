//! What holds of the pool as a whole.
use vstd::prelude::*;

use crate::checkout::{awaits, begun, created, fits, over, run, Event, Phase};
use crate::connection::Connection;
use crate::eager::{made_of, EagerStep};
use crate::either::{answered, settled, Answer};
use crate::live::FreshOrPooled;

verus! {

/// A checkout takes at most three events, and after the third it is over.
pub proof fn law_checkout_ends<C, E>(held: Option<C>, events: Seq<Event<C, E>>)
    requires
        fits(held, events),
    ensures
        events.len() <= 3,
        events.len() == 3 ==> over(run(held, events)),
    decreases events.len(),
{
    reveal_with_fuel(run, 4);
    reveal_with_fuel(fits, 4);
    if events.len() > 0 {
        law_checkout_ends(held, events.drop_last());
    }
}

/// A checkout that is not over waits for something, and one that is over waits for nothing.
pub proof fn law_checkout_goes_on<C, E>(phase: Phase<C, E>)
    ensures
        over(phase) <==> forall|event: Event<C, E>| !awaits(phase, event),
{
    match phase {
        Phase::Vet(conn) => {
            assert(awaits(phase, Event::Vetted(conn, true)));
        },
        Phase::HealthCheck(conn) => {
            assert(awaits(phase, Event::Checked(conn, Ok(()))));
        },
        Phase::Create(_) => {
            let conn: C = vstd::pervasive::arbitrary();
            assert(awaits(phase, Event::Created(Ok(conn))));
        },
        Phase::Done(_) => {},
        Phase::Refused { .. } => {},
    }
}

/// A checkout comes to one of these ends, and no other. For an empty slot a connection is
/// created. A connection that needs no health check is handed out. One that passes its health
/// check is handed out. For one that does not, another is created.
pub proof fn law_checkout_outcomes<C, E>(held: Option<C>, events: Seq<Event<C, E>>)
    requires
        fits(held, events),
        over(run(held, events)),
    ensures
        match held {
            None => {
                &&& events.len() == 1
                &&& events[0] matches Event::Created(outcome)
                &&& run(held, events) == created(None, outcome)
            },
            Some(_) => events[0] matches Event::Vetted(conn, due) && if due {
                events[1] matches Event::Checked(conn, health) && match health {
                    Ok(_) => events.len() == 2 && run(held, events) == Phase::<C, E>::Done(conn),
                    Err(_) => {
                        &&& events.len() == 3
                        &&& events[2] matches Event::Created(outcome)
                        &&& run(held, events) == created(Some(conn), outcome)
                    },
                }
            } else {
                events.len() == 1 && run(held, events) == Phase::<C, E>::Done(conn)
            },
        },
{
    law_checkout_ends(held, events);
    reveal_with_fuel(run, 4);
    reveal_with_fuel(fits, 4);
    if events.len() == 2 {
        assert(events.drop_last()[0] == events[0]);
    } else if events.len() == 3 {
        assert(events.drop_last()[1] == events[1]);
        assert(events.drop_last().drop_last()[0] == events[0]);
    }
}

/// A connection is created only for a slot that is empty, or whose connection has just failed
/// its health check.
pub proof fn law_create_only_if_needed<C, E>(held: Option<C>, events: Seq<Event<C, E>>)
    requires
        fits(held, events),
        run(held, events) is Create,
    ensures
        match run(held, events)->Create_0 {
            None => held is None && events.len() == 0,
            Some(conn) => {
                &&& held is Some
                &&& events.len() == 2
                &&& events.last() matches Event::Checked(failed, health)
                &&& failed == conn
                &&& health is Err
            },
        },
{
    law_checkout_ends(held, events);
    reveal_with_fuel(run, 4);
    reveal_with_fuel(fits, 4);
}

/// A refused checkout passes on the error of the creation, and of nothing else, and releases its
/// slot as it was when that creation was asked for.
pub proof fn law_refusal<C, E>(held: Option<C>, events: Seq<Event<C, E>>)
    requires
        fits(held, events),
    ensures
        run(held, events) matches Phase::Refused { held: left, error } ==> {
            &&& events.len() > 0
            &&& events.last() == Event::<C, E>::Created(Err(error))
            &&& run(held, events.drop_last()) == Phase::<C, E>::Create(left)
            &&& left is Some == held is Some
        },
{
    law_checkout_ends(held, events);
    reveal_with_fuel(run, 4);
    reveal_with_fuel(fits, 4);
}

/// A refused checkout leaves its slot such that the next one begins the same way: with a
/// creation if the slot was empty, and with its connection, which did not pass its health check,
/// if it was not.
pub proof fn law_refusal_is_repeatable<C, E>(held: Option<C>, events: Seq<Event<C, E>>)
    requires
        fits(held, events),
    ensures
        run(held, events) matches Phase::Refused { held: left, .. } ==> {
            &&& begun::<C, E>(left) is Create == begun::<C, E>(held) is Create
            &&& begun::<C, E>(left) is Vet ==> {
                &&& events[1] matches Event::Checked(conn, health)
                &&& health is Err
                &&& begun::<C, E>(left) == Phase::<C, E>::Vet(conn)
            }
        },
{
    if run(held, events) is Refused {
        law_checkout_outcomes(held, events);
    }
}

/// The connection that is handed out is the one that the last event was about: the one in the
/// slot, as it was left by what it was asked and checked, or the one that was created.
pub proof fn law_done<C, E>(held: Option<C>, events: Seq<Event<C, E>>)
    requires
        fits(held, events),
    ensures
        run(held, events) matches Phase::Done(conn) ==> events.len() > 0 && {
            ||| held is Some && events.last() == Event::<C, E>::Vetted(conn, false)
            ||| held is Some && (events.last() matches Event::Checked(fit, Ok(_)) && fit == conn)
            ||| events.last() == Event::<C, E>::Created(Ok(conn))
        },
{
    law_checkout_ends(held, events);
    reveal_with_fuel(run, 4);
    reveal_with_fuel(fits, 4);
}

/// The error of a health check has no bearing on the checkout: two that differ only in such
/// errors come to the same.
pub proof fn law_health_error_is_dropped<C, E>(
    held: Option<C>,
    events: Seq<Event<C, E>>,
    others: Seq<Event<C, E>>,
)
    requires
        events.len() == others.len(),
        forall|i: int|
            0 <= i < events.len() ==> {
                ||| #[trigger] events[i] == #[trigger] others[i]
                ||| {
                    &&& events[i] matches Event::Checked(conn, Err(_))
                    &&& others[i] matches Event::Checked(other, Err(_))
                    &&& conn == other
                }
            },
    ensures
        run(held, events) == run(held, others),
        fits(held, events) == fits(held, others),
    decreases events.len(),
{
    if events.len() > 0 {
        assert(events.last() == events[events.len() - 1]);
        assert(others.last() == others[others.len() - 1]);
        law_health_error_is_dropped(held, events.drop_last(), others.drop_last());
    }
}

/// A request that is content with a connection outside the pool, and for which a connection was
/// created, is answered with one outside the pool if, and only if, the connection in its slot had
/// just failed its health check; its slot is then left empty. Otherwise it is answered as any
/// request is.
pub proof fn law_fresh_for_unhealthy<C, E>(
    held: Option<C>,
    events: Seq<Event<C, E>>,
    outcome: Result<C, E>,
)
    requires
        fits(held, events),
        run(held, events) is Create,
    ensures
        match settled(run(held, events)->Create_0, outcome) {
            Answer::Fresh { conn, left } => {
                &&& held is Some
                &&& events.last() matches Event::Checked(_, Err(_))
                &&& outcome == Ok::<C, E>(conn)
                &&& left is None
            },
            Answer::Pooled(conn) => {
                &&& held is None
                &&& run(held, events.push(Event::Created(outcome))) == Phase::<C, E>::Done(conn)
            },
            Answer::Refused { held: left, error } => run(
                held,
                events.push(Event::Created(outcome)),
            ) == Phase::<C, E>::Refused { held: left, error },
        },
{
    law_create_only_if_needed(held, events);
    assert(events.push(Event::Created(outcome)).drop_last() =~= events);
}

/// A request that is content with a connection outside the pool, and that got a slot, is answered
/// with a connection of the pool if the one in the slot needs no health check, or passes it, or if
/// the slot was empty and a connection was created for it. In each case it is that connection.
/// The request is answered with another connection only if one was created after a failed health
/// check, and with an error only if none could be created.
pub proof fn law_get_or_create_outcomes<C, E>(held: Option<C>, events: Seq<Event<C, E>>)
    requires
        fits(held, events),
        over(run(held, events)),
    ensures
        match held {
            None => events[0] matches Event::Created(outcome) && match outcome {
                Ok(conn) => answered(held, events) == Answer::<C, E>::Pooled(conn),
                Err(error) => answered(held, events) == Answer::<C, E>::Refused {
                    held: None,
                    error,
                },
            },
            Some(_) => events[0] matches Event::Vetted(conn, due) && if due {
                events[1] matches Event::Checked(conn, health) && match health {
                    Ok(_) => answered(held, events) == Answer::<C, E>::Pooled(conn),
                    Err(_) => events[2] matches Event::Created(outcome) && match outcome {
                        Ok(other) => answered(held, events) == Answer::<C, E>::Fresh {
                            conn: other,
                            left: None,
                        },
                        Err(error) => answered(held, events) == Answer::<C, E>::Refused {
                            held: Some(conn),
                            error,
                        },
                    },
                }
            } else {
                answered(held, events) == Answer::<C, E>::Pooled(conn)
            },
        },
{
    law_checkout_outcomes(held, events);
    reveal_with_fuel(run, 4);
    reveal_with_fuel(fits, 4);
}

/// A connection is pooled or fresh, and not both; and it goes back to a pool if and only if it is
/// pooled.
pub proof fn law_fresh_or_pooled<'pool, Conn, const SIZE: usize>(
    conn: FreshOrPooled<'pool, Conn, SIZE>,
)
    ensures
        conn is Pooled <==> !(conn is Fresh),
        conn is Pooled <==> conn.home() is Some,
{
}

/// The connections for an eager pool are made one after the other: the next one is for the slot
/// whose index is the number of those made, which are the outcomes of the attempts so far.
pub proof fn law_eager_in_order<C, E>(outcomes: Seq<Result<C, E>>)
    ensures
        made_of(outcomes) matches Ok(made) ==> {
            &&& made.len() == outcomes.len()
            &&& forall|i: int|
                0 <= i < outcomes.len() ==> #[trigger] outcomes[i] == Ok::<C, E>(made[i])
        },
    decreases outcomes.len(),
{
    if outcomes.len() > 0 {
        law_eager_in_order(outcomes.drop_last());
        if made_of(outcomes) is Ok {
            let made = made_of(outcomes)->Ok_0;
            assert forall|i: int| 0 <= i < outcomes.len() implies #[trigger] outcomes[i] == Ok::<
                C,
                E,
            >(made[i]) by {
                if i < outcomes.len() - 1 {
                    assert(outcomes.drop_last()[i] == outcomes[i]);
                }
            }
        }
    }
}

/// If every attempt succeeds, the connections are kept.
pub proof fn law_eager_success<C, E>(outcomes: Seq<Result<C, E>>)
    requires
        forall|i: int| 0 <= i < outcomes.len() ==> #[trigger] outcomes[i] is Ok,
    ensures
        made_of(outcomes) == Ok::<Seq<C>, E>(outcomes.map_values(|o: Result<C, E>| o->Ok_0)),
    decreases outcomes.len(),
{
    if outcomes.len() > 0 {
        let before = outcomes.drop_last();
        assert forall|i: int| 0 <= i < before.len() implies #[trigger] before[i] is Ok by {
            assert(before[i] == outcomes[i]);
        }
        law_eager_success(before);
        assert(outcomes.last() is Ok);
        assert(outcomes.map_values(|o: Result<C, E>| o->Ok_0) =~= before.map_values(
            |o: Result<C, E>| o->Ok_0,
        ).push(outcomes.last()->Ok_0));
    } else {
        assert(outcomes.map_values(|o: Result<C, E>| o->Ok_0) =~= Seq::empty());
    }
}

/// The first attempt that fails ends the filling of an eager pool, with its error.
pub proof fn law_eager_failure<C, E>(outcomes: Seq<Result<C, E>>, first: int)
    requires
        0 <= first < outcomes.len(),
        outcomes[first] is Err,
        forall|i: int| 0 <= i < first ==> #[trigger] outcomes[i] is Ok,
    ensures
        made_of(outcomes) == Err::<Seq<C>, E>(outcomes[first]->Err_0),
    decreases outcomes.len(),
{
    let before = outcomes.drop_last();
    if first < before.len() {
        assert(before[first] == outcomes[first]);
        assert forall|i: int| 0 <= i < first implies #[trigger] before[i] is Ok by {
            assert(before[i] == outcomes[i]);
        }
        law_eager_failure(before, first);
    } else {
        assert forall|i: int| 0 <= i < before.len() implies #[trigger] before[i] is Ok by {
            assert(before[i] == outcomes[i]);
        }
        law_eager_success(before);
    }
}

/// The filling of a pool is done as soon as there is a connection for each slot, and not before.
/// The i-th slot then starts with the connection that was made i-th.
pub proof fn law_eager_pool_is_full<Conn: Connection, F, E, const SIZE: usize>(
    outcomes: Seq<Result<Conn, E>>,
    step: EagerStep<Conn, F, SIZE>,
    ctx: Conn::Context,
    f: F,
)
    requires
        made_of(outcomes) is Ok,
        step.follows(made_of(outcomes)->Ok_0, ctx, f),
    ensures
        step is Done <==> outcomes.len() == SIZE,
        step matches EagerStep::Done(pool) ==> {
            &&& pool.initial().len() == SIZE
            &&& forall|i: int|
                0 <= i < SIZE ==> {
                    &&& (#[trigger] pool.initial()[i]) is Some
                    &&& outcomes[i] == Ok::<Conn, E>(pool.initial()[i]->0)
                }
        },
{
    law_eager_in_order(outcomes);
    if let EagerStep::Done(pool) = step {
        let made = made_of(outcomes)->Ok_0;
        assert forall|i: int| 0 <= i < SIZE implies {
            &&& (#[trigger] pool.initial()[i]) is Some
            &&& outcomes[i] == Ok::<Conn, E>(pool.initial()[i]->0)
        } by {
            assert(outcomes[i] == Ok::<Conn, E>(made[i]));
        }
    }
}

} // verus!
