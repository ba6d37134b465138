use core::future::{ready, Future, Ready};
use futures::executor::block_on;
use swimming::{
    Connection, EagerStep, EitherStep, FreshOrPooled, LazyConn, LiveConn, Pool, Refused, Request,
    Source, Step,
};

trait Inner: Send + Sync {
    fn new() -> Self;
}

struct Conn<T: Inner> {
    inner: T,
    needs_health_check: bool,
    is_healthy: bool,
}

impl<T: Inner> Conn<T> {
    fn new() -> Self {
        Self { inner: T::new(), needs_health_check: true, is_healthy: true }
    }
}

impl<T: Inner> Connection for Conn<T> {
    type Context = ();
    type Error = ();
    type Create<'a> = Ready<Result<Self, ()>>;
    type HealthCheck<'a> = Ready<Result<(), ()>> where Self: 'a;

    fn create<'a>(_ctx: &'a ()) -> Self::Create<'a> {
        ready(Ok(Self::new()))
    }

    fn needs_health_check(&mut self, _ctx: &()) -> bool {
        self.needs_health_check
    }

    fn health_check<'a>(&'a mut self, _ctx: &'a ()) -> Self::HealthCheck<'a> {
        ready(if self.is_healthy { Ok(()) } else { Err(()) })
    }
}

impl Inner for String {
    fn new() -> Self {
        String::from("Hello World")
    }
}

impl Inner for usize {
    fn new() -> Self {
        7
    }
}

fn finish<C: Connection, const SIZE: usize>(
    step: Step<'_, C, SIZE>,
) -> Result<LiveConn<'_, C, SIZE>, C::Error> {
    let mut step = step;
    loop {
        step = match step {
            Step::HealthCheck(mut checking) => {
                let outcome = block_on(checking.health_check());
                checking.checked(outcome)
            }
            Step::Create(creating) => {
                let outcome = block_on(creating.create());
                return creating.created(outcome).map_err(Refused::into_error);
            }
            Step::Done(live) => return Ok(live),
        };
    }
}

fn finish_either<C: Connection, const SIZE: usize>(
    step: EitherStep<'_, C, SIZE>,
) -> Result<FreshOrPooled<'_, C, SIZE>, C::Error> {
    match step {
        EitherStep::HealthCheck(mut checking) => {
            let outcome = block_on(checking.health_check());
            finish_either(checking.checked(outcome))
        }
        EitherStep::Create(creating) => {
            let outcome = block_on(creating.create());
            creating.created(outcome).into_reply()
        }
        EitherStep::Done(live) => Ok(FreshOrPooled::pooled(live)),
    }
}

fn get<C: Connection, const SIZE: usize>(
    pool: &Pool<C, SIZE>,
) -> Result<LiveConn<'_, C, SIZE>, C::Error> {
    match pool.get() {
        Request::Ready(step) => finish(step),
        Request::Wait(waiting) => finish(pool.acquired(block_on(waiting.into_future()))),
    }
}

fn try_get<C: Connection, const SIZE: usize>(
    pool: &Pool<C, SIZE>,
) -> Option<Result<LiveConn<'_, C, SIZE>, C::Error>> {
    pool.try_get().map(finish)
}

fn get_or_create_from<C: Connection, const SIZE: usize>(
    pool: &Pool<C, SIZE>,
) -> Result<FreshOrPooled<'_, C, SIZE>, C::Error> {
    match pool.get_or_create() {
        Source::Pooled(step) => finish_either(step),
        Source::Fresh(creation) => FreshOrPooled::fresh(block_on(creation.create())),
    }
}

fn new_eager<C, Fut, F, E, const SIZE: usize>(ctx: C::Context, f: F) -> Result<Pool<C, SIZE>, E>
where
    C: Connection,
    Fut: Future<Output = Result<C, E>> + Send + Sync,
    F: Fn(usize) -> Fut + Send + Sync,
    E: Send + Sync,
{
    let mut step = Pool::new_eager(ctx, f);
    loop {
        step = match step {
            EagerStep::Next(eager) => {
                let outcome = block_on(eager.make());
                eager.supplied(outcome)?
            }
            EagerStep::Done(pool) => return Ok(pool),
        };
    }
}

fn create_conn<T: Inner>(_idx: usize) -> Ready<Result<Conn<T>, ()>> {
    Conn::<T>::create(&())
}

fn create_conn_fail<T: Inner>(idx: usize) -> Ready<Result<Conn<T>, ()>> {
    if idx == 3 {
        ready(Err(()))
    } else {
        Conn::<T>::create(&())
    }
}

#[test]
fn new_eager_success_alloc() {
    let pool: Pool<Conn<String>, 5> = new_eager((), create_conn).unwrap();

    let c0 = get(&pool).unwrap();
    assert_eq!(c0.inner, String::from("Hello World"));
    let c1 = get(&pool).unwrap();
    assert_eq!(c1.inner, String::from("Hello World"));
    let c2 = get(&pool).unwrap();
    assert_eq!(c2.inner, String::from("Hello World"));
    let c3 = get(&pool).unwrap();
    assert_eq!(c3.inner, String::from("Hello World"));
    let c4 = get(&pool).unwrap();
    assert_eq!(c4.inner, String::from("Hello World"));
}

#[test]
fn new_eager_failure_alloc() {
    let pool: Result<Pool<Conn<String>, 5>, ()> = new_eager((), create_conn_fail);
    assert!(pool.is_err());
}

#[test]
fn new_eager_success() {
    let pool: Pool<Conn<usize>, 5> = new_eager((), create_conn).unwrap();

    let c0 = get(&pool).unwrap();
    assert_eq!(c0.inner, 7);
    let c1 = get(&pool).unwrap();
    assert_eq!(c1.inner, 7);
    let c2 = get(&pool).unwrap();
    assert_eq!(c2.inner, 7);
    let c3 = get(&pool).unwrap();
    assert_eq!(c3.inner, 7);
    let c4 = get(&pool).unwrap();
    assert_eq!(c4.inner, 7);
}

#[test]
fn new_eager_failure() {
    let pool: Result<Pool<Conn<usize>, 5>, ()> = new_eager((), create_conn_fail);
    assert!(pool.is_err());
}

#[test]
fn get_health_check() {
    let pool: Pool<Conn<usize>, 5> = new_eager((), create_conn).unwrap();

    let mut g0 = get(&pool).unwrap();
    g0.needs_health_check = true;
    drop(g0);

    let mut g0 = get(&pool).unwrap();
    g0.is_healthy = false;
    drop(g0);

    let g0 = get(&pool).unwrap();
    assert!(g0.is_healthy);
    drop(g0);
}

#[test]
fn try_get_health_check() {
    let pool: Pool<Conn<usize>, 5> = new_eager((), create_conn).unwrap();

    let mut g0 = try_get(&pool).unwrap().unwrap();
    g0.needs_health_check = true;
    drop(g0);

    let mut g0 = try_get(&pool).unwrap().unwrap();
    g0.is_healthy = false;
    drop(g0);

    let g0 = try_get(&pool).unwrap().unwrap();
    assert!(g0.is_healthy);
    drop(g0);
}

#[test]
fn get_uninitialized() {
    let pool: Pool<Conn<usize>, 5> = Pool::new(());

    let c0 = get(&pool).unwrap();
    assert_eq!(c0.inner, 7);
    let c1 = get(&pool).unwrap();
    assert_eq!(c1.inner, 7);
    let c2 = get(&pool).unwrap();
    assert_eq!(c2.inner, 7);
    let c3 = get(&pool).unwrap();
    assert_eq!(c3.inner, 7);
    let c4 = get(&pool).unwrap();
    assert_eq!(c4.inner, 7);
}

#[test]
fn try_get_uninitialized() {
    let pool: Pool<Conn<usize>, 5> = Pool::new(());

    let c0 = try_get(&pool).unwrap().unwrap();
    assert_eq!(c0.inner, 7);
    let c1 = try_get(&pool).unwrap().unwrap();
    assert_eq!(c1.inner, 7);
    let c2 = try_get(&pool).unwrap().unwrap();
    assert_eq!(c2.inner, 7);
    let c3 = try_get(&pool).unwrap().unwrap();
    assert_eq!(c3.inner, 7);
    let c4 = try_get(&pool).unwrap().unwrap();
    assert_eq!(c4.inner, 7);
}

#[test]
fn get_or_create() {
    let pool: Pool<Conn<usize>, 1> = Pool::default();

    let pooled = get_or_create_from(&pool).unwrap();
    assert_eq!(pooled.inner, 7);
    assert!(pooled.is_pooled());

    let fresh = get_or_create_from(&pool).unwrap();
    assert_eq!(pooled.inner, 7);
    assert!(fresh.is_fresh());

    drop(pooled);

    let pooled = get_or_create_from(&pool).unwrap();
    assert_eq!(pooled.inner, 7);
    assert!(pooled.is_pooled());

    drop(fresh);

    let fresh = get_or_create_from(&pool).unwrap();
    assert_eq!(fresh.inner, 7);
    assert!(fresh.is_fresh());
}

#[test]
fn lazy_conn_basic_utils() {
    let conn = LazyConn::<Conn<usize>>::default();
    assert!(conn.get().is_none());

    let mut conn = LazyConn::init(Conn::<usize>::new());
    assert!(conn.get().is_some());
    conn.expire();
    assert!(conn.get().is_none());
}
