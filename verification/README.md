# async-sleep

Sleeps, timeouts and periodic timers for asynchronous Rust, over the timers
of async-io, async-timer and tokio.

- `src/` is the library, verified with Verus: the model of time
  (`time`), the rule that decides each poll of a read or write with a
  timeout (`rw`), what a future raced against its timer yields (`timeout`),
  how long a sleep until a deadline lasts and how spans become tokio sleeps
  and periods (`sleep`, `interval`).
- `app/` holds the asynchronous side: the `Sleepble` and `Intervalable`
  traits and their impls for the three runtimes, the `sleep`, `sleep_until`,
  `timeout` and `timeout_at` futures, and the read and write futures. It
  polls and builds the timers and asks the library what to do.
- `tests/` runs the library on concrete values.
