use core::future::{ready, Ready};
use core::sync::atomic::{AtomicBool, AtomicU32, Ordering};
use futures::executor::block_on;
use std::sync::Mutex;
use swimming::{
    Connection, EagerStep, EitherStep, FreshOrPooled, LazyConn, LiveConn, Pool, Refused, Request,
    Settled, Source, Step,
};

/// How the far end behaves, and what it was asked.
#[derive(Default)]
struct Far {
    created: AtomicU32,
    checks: AtomicU32,
    down: AtomicBool,
    sick: AtomicBool,
}

struct Line {
    id: u32,
    due: bool,
    asked: u32,
}

impl Connection for Line {
    type Context = Far;
    type Error = &'static str;
    type Create<'a> = Ready<Result<Self, &'static str>>;
    type HealthCheck<'a> = Ready<Result<(), &'static str>>;

    fn create<'a>(far: &'a Far) -> Self::Create<'a> {
        ready(if far.down.load(Ordering::SeqCst) {
            Err("down")
        } else {
            Ok(Line { id: far.created.fetch_add(1, Ordering::SeqCst), due: false, asked: 0 })
        })
    }

    fn needs_health_check(&mut self, _far: &Far) -> bool {
        self.asked += 1;
        self.due
    }

    fn health_check<'a>(&'a mut self, far: &'a Far) -> Self::HealthCheck<'a> {
        far.checks.fetch_add(1, Ordering::SeqCst);
        ready(if far.sick.load(Ordering::SeqCst) { Err("sick") } else { Ok(()) })
    }
}

fn far() -> &'static Far {
    Box::leak(Box::new(Far::default()))
}

/// A line to a far end that the test can reach too.
struct Remote(Line);

impl Connection for Remote {
    type Context = &'static Far;
    type Error = &'static str;
    type Create<'a> = Ready<Result<Self, &'static str>>;
    type HealthCheck<'a> = Ready<Result<(), &'static str>>;

    fn create<'a>(far: &'a &'static Far) -> Self::Create<'a> {
        ready(Line::create(far).into_inner().map(Remote))
    }

    fn needs_health_check(&mut self, far: &&'static Far) -> bool {
        self.0.needs_health_check(far)
    }

    fn health_check<'a>(&'a mut self, far: &'a &'static Far) -> Self::HealthCheck<'a> {
        self.0.health_check(far)
    }
}

fn finish<C: Connection, const SIZE: usize>(
    step: Step<'_, C, SIZE>,
) -> Result<LiveConn<'_, C, SIZE>, C::Error> {
    match step {
        Step::HealthCheck(mut checking) => {
            let outcome = block_on(checking.health_check());
            finish(checking.checked(outcome))
        }
        Step::Create(creating) => {
            let outcome = block_on(creating.create());
            creating.created(outcome).map_err(Refused::into_error)
        }
        Step::Done(live) => Ok(live),
    }
}

fn finish_either<C: Connection, const SIZE: usize>(
    step: EitherStep<'_, C, SIZE>,
) -> Result<FreshOrPooled<'_, C, SIZE>, C::Error> {
    match step {
        EitherStep::HealthCheck(mut checking) => {
            let outcome = block_on(checking.health_check());
            finish_either(checking.checked(outcome))
        }
        EitherStep::Create(creating) => {
            let outcome = block_on(creating.create());
            creating.created(outcome).into_reply()
        }
        EitherStep::Done(live) => Ok(FreshOrPooled::pooled(live)),
    }
}

fn get_or_create_from<C: Connection, const SIZE: usize>(
    pool: &Pool<C, SIZE>,
) -> Result<FreshOrPooled<'_, C, SIZE>, C::Error> {
    match pool.get_or_create() {
        Source::Pooled(step) => finish_either(step),
        Source::Fresh(creation) => FreshOrPooled::fresh(block_on(creation.create())),
    }
}

fn try_get<C: Connection, const SIZE: usize>(
    pool: &Pool<C, SIZE>,
) -> Option<Result<LiveConn<'_, C, SIZE>, C::Error>> {
    pool.try_get().map(finish)
}

#[test]
fn a_lazy_pool_creates_once_and_reuses() {
    let pool: Pool<Line, 2> = Pool::new(Far::default());

    assert!(matches!(pool.try_get(), Some(Step::Create(_))));
    let live = try_get(&pool).unwrap().unwrap();
    assert_eq!(live.id, 0);
    assert_eq!(live.asked, 0);
    drop(live);

    assert!(matches!(pool.try_get(), Some(Step::Done(_))));
    let live = try_get(&pool).unwrap().unwrap();
    assert_eq!(live.id, 0);
    assert_eq!(live.asked, 2);
}

#[test]
fn a_pool_has_as_many_slots_as_its_size() {
    let pool: Pool<Line, 2> = Pool::default();

    let first = try_get(&pool).unwrap().unwrap();
    let second = try_get(&pool).unwrap().unwrap();
    assert_eq!((first.id, second.id), (0, 1));
    assert!(try_get(&pool).is_none());

    drop(second);
    let again = try_get(&pool).unwrap().unwrap();
    assert_eq!(again.id, 1);
    assert!(try_get(&pool).is_none());
    drop(first);
    assert_eq!(try_get(&pool).unwrap().unwrap().id, 0);
}

#[test]
fn a_pool_of_no_slots_has_no_connection() {
    let pool: Pool<Line, 0> = Pool::new(Far::default());
    assert!(pool.try_get().is_none());
    assert!(matches!(pool.get(), Request::Wait(_)));
    assert!(matches!(pool.get_or_create(), Source::Fresh(_)));
}

#[test]
fn a_request_waits_for_a_slot() {
    let pool: Pool<Line, 1> = Pool::new(Far::default());

    let Request::Ready(step) = pool.get() else { panic!("the slot is free") };
    let mut live = finish(step).ok().unwrap();
    live.id = 40;
    let Request::Wait(waiting) = pool.get() else { panic!("the slot is taken") };
    drop(live);
    let lock = block_on(waiting.into_future());
    let live = finish(pool.acquired(lock)).ok().unwrap();
    assert_eq!(live.id, 40);
    assert!(pool.try_get().is_none());
}

#[test]
fn a_request_that_waited_for_an_empty_slot_creates() {
    let far = far();
    let pool: Pool<Remote, 1> = Pool::new(far);

    let Some(step) = pool.try_get() else { panic!("the slot is free") };
    let Request::Wait(waiting) = pool.get() else { panic!("the slot is taken") };
    drop(step);
    let step = pool.acquired(block_on(waiting.into_future()));
    assert!(matches!(step, Step::Create(_)));
    assert_eq!(finish(step).ok().unwrap().0.id, 0);
}

#[test]
fn no_check_is_made_unless_it_is_due() {
    let far = far();
    far.sick.store(true, Ordering::SeqCst);
    let pool: Pool<Remote, 1> = Pool::new(far);

    drop(try_get(&pool).unwrap());
    assert_eq!(try_get(&pool).unwrap().ok().unwrap().0.id, 0);
    assert_eq!(far.checks.load(Ordering::SeqCst), 0);
    assert_eq!(far.created.load(Ordering::SeqCst), 1);
}

#[test]
fn a_healthy_connection_is_kept() {
    let far = far();
    let pool: Pool<Remote, 1> = Pool::new(far);

    try_get(&pool).unwrap().ok().unwrap().0.due = true;
    assert!(matches!(pool.try_get(), Some(Step::HealthCheck(_))));
    assert_eq!(far.checks.load(Ordering::SeqCst), 0);
    assert_eq!(try_get(&pool).unwrap().ok().unwrap().0.id, 0);
    assert_eq!(far.checks.load(Ordering::SeqCst), 1);
    assert_eq!(far.created.load(Ordering::SeqCst), 1);
}

#[test]
fn an_unhealthy_connection_is_replaced() {
    let far = far();
    let pool: Pool<Remote, 1> = Pool::new(far);

    try_get(&pool).unwrap().ok().unwrap().0.due = true;
    far.sick.store(true, Ordering::SeqCst);

    let Some(Step::HealthCheck(mut checking)) = pool.try_get() else { panic!("a check is due") };
    let outcome = block_on(checking.health_check());
    assert_eq!(outcome, Err("sick"));
    let Step::Create(creating) = checking.checked(outcome) else { panic!("it is sick") };
    let outcome = block_on(creating.create());
    let live = creating.created(outcome).ok().unwrap();
    assert_eq!(live.0.id, 1);
    drop(live);

    assert_eq!(try_get(&pool).unwrap().ok().unwrap().0.id, 1);
}

#[test]
fn a_refused_creation_leaves_the_slot_empty() {
    let far = far();
    let pool: Pool<Remote, 1> = Pool::new(far);

    far.down.store(true, Ordering::SeqCst);
    assert_eq!(try_get(&pool).unwrap().err(), Some("down"));
    assert!(matches!(pool.try_get(), Some(Step::Create(_))));

    far.down.store(false, Ordering::SeqCst);
    assert_eq!(try_get(&pool).unwrap().ok().unwrap().0.id, 0);
}

#[test]
fn a_refused_replacement_leaves_the_connection() {
    let far = far();
    let pool: Pool<Remote, 1> = Pool::new(far);

    try_get(&pool).unwrap().ok().unwrap().0.due = true;
    far.sick.store(true, Ordering::SeqCst);
    far.down.store(true, Ordering::SeqCst);
    assert_eq!(try_get(&pool).unwrap().err(), Some("down"));
    assert!(matches!(pool.try_get(), Some(Step::HealthCheck(_))));

    far.sick.store(false, Ordering::SeqCst);
    assert_eq!(try_get(&pool).unwrap().ok().unwrap().0.id, 0);
}

#[test]
fn a_fresh_connection_stays_outside_the_pool() {
    let far = far();
    let pool: Pool<Remote, 1> = Pool::new(far);

    let Source::Pooled(step) = pool.get_or_create() else { panic!("the slot is free") };
    let pooled = finish_either(step).ok().unwrap();
    assert!(pooled.is_pooled() && !pooled.is_fresh());
    assert_eq!(pooled.0.id, 0);

    let Source::Fresh(creation) = pool.get_or_create() else { panic!("the slot is taken") };
    let outcome = block_on(creation.create());
    let mut fresh: FreshOrPooled<'_, Remote, 1> = FreshOrPooled::fresh(outcome).ok().unwrap();
    assert!(fresh.is_fresh() && !fresh.is_pooled());
    assert_eq!(fresh.0.id, 1);
    fresh.0.id = 9;
    assert_eq!(fresh.0.id, 9);

    drop(fresh);
    drop(pooled);
    assert_eq!(try_get(&pool).unwrap().ok().unwrap().0.id, 0);
}

#[test]
fn both_sources_pass_on_the_error_of_the_creation() {
    let far = far();
    far.down.store(true, Ordering::SeqCst);
    let pool: Pool<Remote, 1> = Pool::new(far);

    let Source::Pooled(step) = pool.get_or_create() else { panic!("the slot is free") };
    let Source::Fresh(creation) = pool.get_or_create() else { panic!("the slot is taken") };
    let fresh: Result<FreshOrPooled<'_, Remote, 1>, _> =
        FreshOrPooled::fresh(block_on(creation.create()));
    assert_eq!(fresh.err(), Some("down"));
    assert_eq!(finish_either(step).err(), Some("down"));
}

#[test]
fn changes_to_a_connection_stay_with_it() {
    let pool: Pool<Line, 1> = Pool::new(Far::default());

    let mut live = try_get(&pool).unwrap().unwrap();
    live.id = 10;
    assert_eq!(live.as_ref().id, 10);
    live.as_mut().id += 1;
    drop(live);
    let mut pooled = get_or_create_from(&pool).ok().unwrap();
    assert_eq!(pooled.id, 11);
    pooled.id += 1;
    drop(pooled);
    assert_eq!(try_get(&pool).unwrap().unwrap().id, 12);
}

#[test]
fn an_eager_pool_is_filled_in_order() {
    let asked = Mutex::new(Vec::new());
    let f = |index: usize| {
        asked.lock().unwrap().push(index);
        ready(Ok::<_, ()>(Line { id: 100 + index as u32, due: false, asked: 0 }))
    };

    let EagerStep::Next(eager) = Pool::<Line, 2>::new_eager(Far::default(), f) else {
        panic!("no slot is filled")
    };
    assert_eq!(eager.index(), 0);
    let outcome = block_on(eager.make());
    let Ok(EagerStep::Next(eager)) = eager.supplied(outcome) else {
        panic!("one slot is filled")
    };
    assert_eq!(eager.index(), 1);
    let outcome = block_on(eager.make());
    let Ok(EagerStep::Done(pool)) = eager.supplied(outcome) else {
        panic!("both slots are filled")
    };
    assert_eq!(*asked.lock().unwrap(), vec![0, 1]);

    let first = try_get(&pool).unwrap().unwrap();
    let second = try_get(&pool).unwrap().unwrap();
    assert_eq!((first.id, second.id), (100, 101));
    assert_eq!((first.asked, second.asked), (1, 1));
    assert!(pool.try_get().is_none());
}

#[test]
fn an_eager_pool_of_no_slots_is_done_at_once() {
    let f = |_index: usize| ready(Err::<Line, &str>("down"));
    let EagerStep::Done(pool) = Pool::<Line, 0>::new_eager(Far::default(), f) else {
        panic!("there is no slot to fill")
    };
    assert!(pool.try_get().is_none());
}

static DROPPED: AtomicU32 = AtomicU32::new(0);

struct Counted;

impl Drop for Counted {
    fn drop(&mut self) {
        DROPPED.fetch_add(1, Ordering::SeqCst);
    }
}

impl Connection for Counted {
    type Context = ();
    type Error = ();
    type Create<'a> = Ready<Result<Self, ()>>;
    type HealthCheck<'a> = Ready<Result<(), ()>>;

    fn create<'a>(_ctx: &'a ()) -> Self::Create<'a> {
        ready(Ok(Counted))
    }

    fn needs_health_check(&mut self, _ctx: &()) -> bool {
        false
    }

    fn health_check<'a>(&'a mut self, _ctx: &'a ()) -> Self::HealthCheck<'a> {
        ready(Ok(()))
    }
}

#[test]
fn the_first_failure_ends_the_filling_and_drops_what_was_made() {
    let f = |index: usize| ready(if index < 3 { Ok(Counted) } else { Err(index) });
    let mut step = Pool::<Counted, 5>::new_eager((), f);
    let mut made = 0;
    let error = loop {
        let EagerStep::Next(eager) = step else { panic!("it cannot be filled") };
        assert_eq!(eager.index(), made);
        let outcome = block_on(eager.make());
        assert_eq!(DROPPED.load(Ordering::SeqCst), 0);
        match eager.supplied(outcome) {
            Ok(next) => step = next,
            Err(error) => break error,
        }
        made += 1;
    };
    assert_eq!(error, 3);
    assert_eq!(made, 3);
    assert_eq!(DROPPED.load(Ordering::SeqCst), 3);
}

#[test]
fn lazy_connections_can_be_changed_in_place() {
    let mut lazy = LazyConn::<u8>::new();
    assert!(lazy.get_mut().is_none());

    let mut lazy = LazyConn::init(4u8);
    *lazy.get_mut().unwrap() += 1;
    assert_eq!(lazy.get(), Some(&5));
    lazy.expire();
    assert_eq!(lazy.get_mut(), None);
}

fn shared<T: Send + Sync>(_value: &T) {}

#[test]
fn pools_and_their_connections_can_be_shared() {
    let pool: Pool<Line, 1> = Pool::new(Far::default());
    shared(&pool);
    shared(&LazyConn::init(1u8));
    let live = try_get(&pool).unwrap().unwrap();
    shared(&live);
    shared(&FreshOrPooled::pooled(live));
}

#[test]
fn an_unhealthy_connection_makes_way_for_a_fresh_one() {
    let far = far();
    let pool: Pool<Remote, 1> = Pool::new(far);

    let first = get_or_create_from(&pool).ok().unwrap();
    assert!(first.is_pooled());
    assert_eq!(first.0.id, 0);
    drop(first);
    try_get(&pool).unwrap().ok().unwrap().0.due = true;
    far.sick.store(true, Ordering::SeqCst);

    let second = get_or_create_from(&pool).ok().unwrap();
    assert!(second.is_fresh());
    assert_eq!(second.0.id, 1);

    assert!(matches!(pool.try_get(), Some(Step::Create(_))));
    let third = get_or_create_from(&pool).ok().unwrap();
    assert!(third.is_pooled());
    assert_eq!(third.0.id, 2);
}

#[test]
fn a_connection_that_passes_its_check_is_pooled() {
    let far = far();
    let pool: Pool<Remote, 1> = Pool::new(far);

    try_get(&pool).unwrap().ok().unwrap().0.due = true;
    let conn = get_or_create_from(&pool).ok().unwrap();
    assert!(conn.is_pooled());
    assert_eq!(conn.0.id, 0);
    assert_eq!(far.checks.load(Ordering::SeqCst), 1);
}

#[test]
fn a_refused_fresh_connection_leaves_the_unhealthy_one() {
    let far = far();
    let pool: Pool<Remote, 1> = Pool::new(far);

    try_get(&pool).unwrap().ok().unwrap().0.due = true;
    far.sick.store(true, Ordering::SeqCst);
    far.down.store(true, Ordering::SeqCst);
    let Source::Pooled(EitherStep::HealthCheck(mut checking)) = pool.get_or_create() else {
        panic!("a check is due")
    };
    let outcome = block_on(checking.health_check());
    let EitherStep::Create(creating) = checking.checked(outcome) else { panic!("it is sick") };
    let outcome = block_on(creating.create());
    let end = creating.created(outcome);
    assert!(matches!(end, Settled::Refused(_)));
    assert_eq!(end.into_reply().err(), Some("down"));

    far.sick.store(false, Ordering::SeqCst);
    assert_eq!(try_get(&pool).unwrap().ok().unwrap().0.id, 0);
}

#[test]
fn a_request_after_a_refused_one_does_not_wait() {
    let far = far();
    let pool: Pool<Remote, 1> = Pool::new(far);

    far.down.store(true, Ordering::SeqCst);
    let Request::Ready(step) = pool.get() else { panic!("the slot is free") };
    assert_eq!(finish(step).err(), Some("down"));
    let Request::Ready(step) = pool.get() else { panic!("the slot was released") };
    assert!(matches!(step, Step::Create(_)));
    drop(step);

    far.down.store(false, Ordering::SeqCst);
    try_get(&pool).unwrap().ok().unwrap().0.due = true;
    far.down.store(true, Ordering::SeqCst);
    far.sick.store(true, Ordering::SeqCst);
    let Request::Ready(step) = pool.get() else { panic!("the slot is free") };
    assert_eq!(finish(step).err(), Some("down"));
    let Request::Ready(step) = pool.get() else { panic!("the slot was released") };
    assert!(matches!(step, Step::HealthCheck(_)));
}
