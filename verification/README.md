# swimming

An asynchronous connection pool of a fixed size, with its decisions verified in Verus.

A pool has `SIZE` slots, each of which holds a connection or nothing yet. The slots live in a
`lock_pool::LockPool`, which hands them out one holder at a time. In which order those who wait
are served is a matter of its queue.

- `src/connection.rs`: the trait `Connection`, what a type must offer to be pooled.
- `src/lazy.rs`: `LazyConn`, what a slot holds.
- `src/lock.rs`: the slots and their guards, and all that is trusted of `lock_pool`.
- `src/live.rs`: `LiveConn` and `FreshOrPooled`, connections as they are handed out.
- `src/checkout.rs`: how the content of a slot becomes a connection that is fit for use.
- `src/either.rs`: the same, for a request that is content with a connection outside the pool.
- `src/eager.rs`: how a pool is filled before it is used.
- `src/pool.rs`: `Pool`.
- `src/laws.rs`: what holds of whole checkouts and fillings, whatever happens in them.
- `app/lib.rs`: `AsyncPool`, which awaits what the pool asks for.

The library never polls a future. `Pool::get`, `Pool::try_get`, `Pool::get_or_create` and
`Pool::new_eager` say what is to be awaited first; the outcome is handed back, and the next step
follows from it. Each of these steps has a contract, and `src/laws.rs` states what they amount to.
In the checkout of a slot, a connection is created only if the slot is empty or its connection
failed its health check; the request fails only with the error of that creation, and the slot is
then left as it was. `Pool::get_or_create` also has a connection created if no slot is free. Such a
connection stays outside the pool, and so does one that it gets instead of a connection that failed
its health check.
